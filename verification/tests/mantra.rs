use droneplay::mantra::{mantra_action, mantra_dir, mantra_target, MantraAction, MantraCmd};

fn assign(username: &str, mantra: &str, path: &str) -> MantraCmd {
    MantraCmd::Assign {
        username: username.to_string(),
        mantra: mantra.to_string(),
        path: path.to_string(),
    }
}

#[test]
fn mantra_dir_joins_with_exactly_one_slash() {
    assert_eq!(mantra_dir("/tmp/m", "bob"), "/tmp/m/bob");
    assert_eq!(mantra_dir("/var/lib/droneplay-mantra/", "bob"), "/var/lib/droneplay-mantra/bob");
    assert_eq!(mantra_dir("", "bob"), "bob");
}

#[test]
fn assign_creates_the_missing_directory_for_its_user() {
    // mantra assign bob "be kind" --path /tmp/m, with /tmp/m/bob absent
    match mantra_action(assign("bob", "be kind", "/tmp/m"), false) {
        MantraAction::CreateOwnedDir { dir, owner, message } => {
            assert_eq!(dir, "/tmp/m/bob");
            assert_eq!(owner, "bob");
            assert_eq!(message, "mantra assign: be kind");
            assert!(message.contains("be kind"));
        }
        MantraAction::Report { .. } => panic!("assign must create the missing directory"),
    }
}

#[test]
fn assign_leaves_an_existing_directory_alone() {
    // second run of: mantra assign bob "be kind" --path /tmp/m
    match mantra_action(assign("bob", "be kind", "/tmp/m"), true) {
        MantraAction::Report { message } => {
            assert_eq!(message, "mantra assign: be kind");
        }
        MantraAction::CreateOwnedDir { .. } => {
            panic!("assign must not re-create or re-own an existing directory")
        }
    }
}

#[test]
fn recite_without_a_directory_tells_bob_to_wait() {
    // mantra recite --path /tmp/m, run as bob, with /tmp/m/bob absent
    let cmd = MantraCmd::Recite { path: "/tmp/m".to_string() };
    assert_eq!(mantra_target(&cmd, "bob"), Some("/tmp/m/bob".to_string()));
    match mantra_action(cmd, false) {
        MantraAction::Report { message } => {
            assert_eq!(message, "wait for your programmer to set up your mantra directory");
        }
        MantraAction::CreateOwnedDir { .. } => panic!("recite must create nothing"),
    }
}

#[test]
fn recite_with_a_directory_recites() {
    match mantra_action(MantraCmd::Recite { path: "/tmp/m".to_string() }, true) {
        MantraAction::Report { message } => assert_eq!(message, "mantra recite"),
        MantraAction::CreateOwnedDir { .. } => panic!("recite must create nothing"),
    }
}

#[test]
fn show_reports_presence_of_the_named_users_directory() {
    let cmd = MantraCmd::Show { username: "alice".to_string(), path: "/tmp/m".to_string() };
    assert_eq!(mantra_target(&cmd, "bob"), Some("/tmp/m/alice".to_string()));
    match mantra_action(cmd, true) {
        MantraAction::Report { message } => assert_eq!(message, "mantra show"),
        MantraAction::CreateOwnedDir { .. } => panic!("show must create nothing"),
    }
    let cmd = MantraCmd::Show { username: "alice".to_string(), path: "/tmp/m".to_string() };
    match mantra_action(cmd, false) {
        MantraAction::Report { message } => {
            assert_eq!(message, "mantra directory does not exist")
        }
        MantraAction::CreateOwnedDir { .. } => panic!("show must create nothing"),
    }
}

#[test]
fn mantra_safeword_echoes_its_path_and_checks_nothing() {
    let cmd = MantraCmd::Safeword { path: "/tmp/m".to_string() };
    assert_eq!(mantra_target(&cmd, "bob"), None);
    match mantra_action(cmd, false) {
        MantraAction::Report { message } => assert_eq!(message, "safeword /tmp/m"),
        MantraAction::CreateOwnedDir { .. } => panic!("mantra safeword must create nothing"),
    }
}

#[test]
fn assign_target_is_the_named_users_directory() {
    let cmd = assign("bob", "be kind", "/tmp/m");
    assert_eq!(mantra_target(&cmd, "someone-else"), Some("/tmp/m/bob".to_string()));
}

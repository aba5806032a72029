//! The mantra directory manager: names the per-user directory under a
//! configurable root, decides when it is created and for which owner, and
//! reports its presence.

use vstd::prelude::*;

verus! {

/// A `mantra` subcommand: give a user their directory and echo their mantra,
/// report on the invoking user's directory, report on a named user's
/// directory, or echo a path back.
pub enum MantraCmd {
    Assign { username: String, mantra: String, path: String },
    Recite { path: String },
    Show { username: String, path: String },
    Safeword { path: String },
}

/// What a `mantra` subcommand asks the front end to do: create one directory
/// and hand it to its owner, then report — or only report.
pub enum MantraAction {
    CreateOwnedDir { dir: String, owner: String, message: String },
    Report { message: String },
}

/// The path of `name`'s subdirectory under `root`: exactly one `/` stands
/// between them, and an empty root leaves `name` alone.
pub open spec fn joined(root: Seq<char>, name: Seq<char>) -> Seq<char> {
    if root.len() == 0 {
        name
    } else if root.last() == '/' {
        root + name
    } else {
        root + "/"@ + name
    }
}

/// One assignment, in a model of the mantra root as a map from each existing
/// per-user directory to the owner it was created with: a missing directory
/// is created for `username`, a present one is left exactly as it is.
pub open spec fn assign_effect(
    owners: Map<Seq<char>, Seq<char>>,
    root: Seq<char>,
    username: Seq<char>,
) -> Map<Seq<char>, Seq<char>> {
    if owners.dom().contains(joined(root, username)) {
        owners
    } else {
        owners.insert(joined(root, username), username)
    }
}

/// The directories after the front end carries out a `MantraAction`.
pub open spec fn apply_mantra(
    owners: Map<Seq<char>, Seq<char>>,
    action: MantraAction,
) -> Map<Seq<char>, Seq<char>> {
    match action {
        MantraAction::CreateOwnedDir { dir, owner, .. } => owners.insert(dir@, owner@),
        MantraAction::Report { .. } => owners,
    }
}

/// Build the path of `name`'s subdirectory under `root`.
pub fn mantra_dir(root: &str, name: &str) -> (r: String)
    ensures
        r@ == joined(root@, name@),
{
    let n = root.unicode_len();
    if n == 0 {
        String::from_str(name)
    } else if root.get_char(n - 1) == '/' {
        let mut r = String::from_str(root);
        r.append(name);
        r
    } else {
        let mut r = String::from_str(root);
        r.append("/");
        r.append(name);
        r
    }
}

/// The directory whose presence the subcommand turns on, if any: the named
/// user's directory for `Assign` and `Show`, the invoking user's for
/// `Recite`, none for `Safeword`.
pub fn mantra_target(cmd: &MantraCmd, current_user: &str) -> (r: Option<String>)
    ensures
        *cmd matches MantraCmd::Assign { username, path, .. } ==> (
            r matches Option::Some(t) && t@ == joined(path@, username@)
        ),
        *cmd matches MantraCmd::Recite { path } ==> (
            r matches Option::Some(t) && t@ == joined(path@, current_user@)
        ),
        *cmd matches MantraCmd::Show { username, path } ==> (
            r matches Option::Some(t) && t@ == joined(path@, username@)
        ),
        *cmd matches MantraCmd::Safeword { .. } ==> r is None,
{
    match cmd {
        MantraCmd::Assign { username, path, .. } => {
            Option::Some(mantra_dir(path.as_str(), username.as_str()))
        },
        MantraCmd::Recite { path } => Option::Some(mantra_dir(path.as_str(), current_user)),
        MantraCmd::Show { username, path } => {
            Option::Some(mantra_dir(path.as_str(), username.as_str()))
        },
        MantraCmd::Safeword { .. } => Option::None,
    }
}

/// Decide what one `mantra` subcommand does, given whether the directory
/// named by [`mantra_target`] exists at call time. Only `Assign` on a missing
/// directory changes anything; `Recite` and `Show` report existence exactly,
/// and `Safeword` echoes its path.
pub fn mantra_action(cmd: MantraCmd, target_exists: bool) -> (r: MantraAction)
    ensures
        cmd matches MantraCmd::Assign { username, mantra, path } ==> (
            if target_exists {
                r matches MantraAction::Report { message }
                && message@ == "mantra assign: "@ + mantra@
            } else {
                r matches MantraAction::CreateOwnedDir { dir, owner, message }
                && dir@ == joined(path@, username@)
                && owner@ == username@
                && message@ == "mantra assign: "@ + mantra@
            }
        ),
        cmd matches MantraCmd::Recite { .. } && target_exists ==> (
            r matches MantraAction::Report { message }
            && message@ == "mantra recite"@
        ),
        cmd matches MantraCmd::Recite { .. } && !target_exists ==> (
            r matches MantraAction::Report { message }
            && message@ == "wait for your programmer to set up your mantra directory"@
            && message@ != "mantra recite"@
        ),
        cmd matches MantraCmd::Show { .. } && target_exists ==> (
            r matches MantraAction::Report { message }
            && message@ == "mantra show"@
        ),
        cmd matches MantraCmd::Show { .. } && !target_exists ==> (
            r matches MantraAction::Report { message }
            && message@ == "mantra directory does not exist"@
            && message@ != "mantra show"@
        ),
        cmd matches MantraCmd::Safeword { path } ==> (
            r matches MantraAction::Report { message }
            && message@ == "safeword "@ + path@
        ),
        cmd matches MantraCmd::Assign { username, path, .. } ==> (
            forall|owners: Map<Seq<char>, Seq<char>>|
                owners.dom().contains(joined(path@, username@)) == target_exists
                    ==> #[trigger] apply_mantra(owners, r) == assign_effect(owners, path@, username@)
        ),
        !(cmd is Assign) ==> (
            forall|owners: Map<Seq<char>, Seq<char>>| #[trigger] apply_mantra(owners, r) == owners
        ),
{
    proof {
        reveal_strlit("mantra recite");
        reveal_strlit("wait for your programmer to set up your mantra directory");
        reveal_strlit("mantra show");
        reveal_strlit("mantra directory does not exist");
        assert("mantra recite"@.len()
            != "wait for your programmer to set up your mantra directory"@.len());
        assert("mantra show"@.len() != "mantra directory does not exist"@.len());
    }
    match cmd {
        MantraCmd::Assign { username, mantra, path } => {
            let mut message = String::from_str("mantra assign: ");
            message.append(mantra.as_str());
            if target_exists {
                MantraAction::Report { message }
            } else {
                let dir = mantra_dir(path.as_str(), username.as_str());
                MantraAction::CreateOwnedDir { dir, owner: username, message }
            }
        },
        MantraCmd::Recite { .. } => {
            if target_exists {
                MantraAction::Report { message: String::from_str("mantra recite") }
            } else {
                MantraAction::Report {
                    message: String::from_str(
                        "wait for your programmer to set up your mantra directory",
                    ),
                }
            }
        },
        MantraCmd::Show { .. } => {
            if target_exists {
                MantraAction::Report { message: String::from_str("mantra show") }
            } else {
                MantraAction::Report { message: String::from_str("mantra directory does not exist") }
            }
        },
        MantraCmd::Safeword { path } => {
            let mut message = String::from_str("safeword ");
            message.append(path.as_str());
            MantraAction::Report { message }
        },
    }
}

/// Assigning is idempotent: the first call leaves the directory present and
/// owned by `username` (when it was absent) or leaves everything untouched
/// (when it was present), and a second call finds it present and changes
/// nothing — in particular the owner recorded by the first call stays.
pub proof fn lemma_assign_idempotent(
    owners: Map<Seq<char>, Seq<char>>,
    root: Seq<char>,
    username: Seq<char>,
)
    ensures
        assign_effect(assign_effect(owners, root, username), root, username)
            == assign_effect(owners, root, username),
        assign_effect(owners, root, username).dom().contains(joined(root, username)),
        !owners.dom().contains(joined(root, username))
            ==> assign_effect(owners, root, username)[joined(root, username)] == username,
        owners.dom().contains(joined(root, username))
            ==> assign_effect(owners, root, username) == owners,
{
}

} // verus!

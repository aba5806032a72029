//! The access controller: builds the per-user privilege-policy lines and
//! decides, for each `cage` subcommand, which policy file is overwritten with
//! which contents, or that nothing is written at all.

use vstd::prelude::*;

verus! {

/// A `cage` subcommand: restrict a user to one executable, restore a user's
/// unrestricted access, or let the invoking user release themselves.
pub enum CageCmd {
    Lock { username: String, path: String },
    Unlock { username: String },
    Safeword,
}

/// What a `cage` subcommand asks the front end to do: overwrite one policy
/// file and confirm, or print a warning and touch nothing.
pub enum CageAction {
    WritePolicy { file: String, contents: String, message: String },
    Warn { message: String },
}

/// The policy line that restricts `username` to running `path`, with the
/// trailing marker naming the self-release subcommand.
pub open spec fn lock_line(username: Seq<char>, path: Seq<char>) -> Seq<char> {
    username + " ALL=(ALL:ALL) "@ + path + " cage safeword\n"@
}

/// The policy line that grants `username` unrestricted access.
pub open spec fn unlock_line(username: Seq<char>) -> Seq<char> {
    username + " ALL=(ALL:ALL) ALL\n"@
}

/// The path of `username`'s policy file.
pub open spec fn policy_path(username: Seq<char>) -> Seq<char> {
    "/etc/sudoers.d/"@ + username
}

/// Overwrite `username`'s policy file with `contents`, in a model of the
/// filesystem as a map from path to file contents. The write truncates:
/// whatever the file held before is gone.
pub open spec fn policy_write(
    files: Map<Seq<char>, Seq<char>>,
    username: Seq<char>,
    contents: Seq<char>,
) -> Map<Seq<char>, Seq<char>> {
    files.insert(policy_path(username), contents)
}

/// The filesystem after `Lock(username, path)`.
pub open spec fn lock_effect(
    files: Map<Seq<char>, Seq<char>>,
    username: Seq<char>,
    path: Seq<char>,
) -> Map<Seq<char>, Seq<char>> {
    policy_write(files, username, lock_line(username, path))
}

/// The filesystem after `Unlock(username)`.
pub open spec fn unlock_effect(
    files: Map<Seq<char>, Seq<char>>,
    username: Seq<char>,
) -> Map<Seq<char>, Seq<char>> {
    policy_write(files, username, unlock_line(username))
}

/// The filesystem after `Safeword`, given the delegator identity the
/// elevation mechanism recorded (if any): an unlock of that identity, or no
/// change at all when none was recorded.
pub open spec fn safeword_effect(
    files: Map<Seq<char>, Seq<char>>,
    delegator: Option<Seq<char>>,
) -> Map<Seq<char>, Seq<char>> {
    match delegator {
        Option::Some(username) => unlock_effect(files, username),
        Option::None => files,
    }
}

/// The delegator identity as a sequence of characters.
pub open spec fn delegator_view(delegator: Option<String>) -> Option<Seq<char>> {
    match delegator {
        Option::Some(username) => Option::Some(username@),
        Option::None => Option::None,
    }
}

/// The filesystem after one `cage` subcommand.
pub open spec fn cage_effect(
    files: Map<Seq<char>, Seq<char>>,
    cmd: CageCmd,
    delegator: Option<Seq<char>>,
) -> Map<Seq<char>, Seq<char>> {
    match cmd {
        CageCmd::Lock { username, path } => lock_effect(files, username@, path@),
        CageCmd::Unlock { username } => unlock_effect(files, username@),
        CageCmd::Safeword => safeword_effect(files, delegator),
    }
}

/// The filesystem after the front end carries out a `CageAction`.
pub open spec fn apply_cage(
    files: Map<Seq<char>, Seq<char>>,
    action: CageAction,
) -> Map<Seq<char>, Seq<char>> {
    match action {
        CageAction::WritePolicy { file, contents, .. } => files.insert(file@, contents@),
        CageAction::Warn { .. } => files,
    }
}

/// Build the restricting policy line for `username` and `path`.
pub fn lock_entry(username: &str, path: &str) -> (r: String)
    ensures
        r@ == lock_line(username@, path@),
{
    let mut r = String::from_str(username);
    r.append(" ALL=(ALL:ALL) ");
    r.append(path);
    r.append(" cage safeword\n");
    r
}

/// Build the unrestricted policy line for `username`.
pub fn unlock_entry(username: &str) -> (r: String)
    ensures
        r@ == unlock_line(username@),
{
    let mut r = String::from_str(username);
    r.append(" ALL=(ALL:ALL) ALL\n");
    r
}

/// Build the path of `username`'s policy file.
pub fn policy_file(username: &str) -> (r: String)
    ensures
        r@ == policy_path(username@),
{
    let mut r = String::from_str("/etc/sudoers.d/");
    r.append(username);
    r
}

/// Decide what one `cage` subcommand does. `delegator` is the identity the
/// elevation mechanism recorded for the invoking user, read only by
/// `Safeword`: without it, `Safeword` is a usage mistake and only warns.
pub fn cage_action(cmd: CageCmd, delegator: Option<String>) -> (r: CageAction)
    ensures
        cmd matches CageCmd::Lock { username, path } ==> (
            r matches CageAction::WritePolicy { file, contents, message }
            && file@ == policy_path(username@)
            && contents@ == lock_line(username@, path@)
            && message@ == username@ + " has been caged"@
        ),
        cmd matches CageCmd::Unlock { username } ==> (
            r matches CageAction::WritePolicy { file, contents, message }
            && file@ == policy_path(username@)
            && contents@ == unlock_line(username@)
            && message@ == username@ + " has been released"@
        ),
        cmd is Safeword ==> (match delegator {
            Option::Some(username) => (
                r matches CageAction::WritePolicy { file, contents, message }
                && file@ == policy_path(username@)
                && contents@ == unlock_line(username@)
                && message@ == username@ + " has used their safeword"@
            ),
            Option::None => (
                r matches CageAction::Warn { message }
                && message@ == "Safeword needs to be run with sudo"@
            ),
        }),
        forall|files: Map<Seq<char>, Seq<char>>|
            #[trigger] apply_cage(files, r) == cage_effect(files, cmd, delegator_view(delegator)),
{
    match cmd {
        CageCmd::Lock { username, path } => {
            let file = policy_file(username.as_str());
            let contents = lock_entry(username.as_str(), path.as_str());
            let mut message = String::from_str(username.as_str());
            message.append(" has been caged");
            CageAction::WritePolicy { file, contents, message }
        },
        CageCmd::Unlock { username } => {
            let file = policy_file(username.as_str());
            let contents = unlock_entry(username.as_str());
            let mut message = String::from_str(username.as_str());
            message.append(" has been released");
            CageAction::WritePolicy { file, contents, message }
        },
        CageCmd::Safeword => {
            match delegator {
                Option::Some(username) => {
                    let file = policy_file(username.as_str());
                    let contents = unlock_entry(username.as_str());
                    let mut message = String::from_str(username.as_str());
                    message.append(" has used their safeword");
                    CageAction::WritePolicy { file, contents, message }
                },
                Option::None => {
                    CageAction::Warn { message: String::from_str("Safeword needs to be run with sudo") }
                },
            }
        },
    }
}

/// Reading `username`'s policy file right after a lock yields exactly the
/// restricting line, whatever the file held before.
pub proof fn lemma_lock_then_read(
    files: Map<Seq<char>, Seq<char>>,
    username: Seq<char>,
    path: Seq<char>,
)
    ensures
        lock_effect(files, username, path).dom().contains(policy_path(username)),
        lock_effect(files, username, path)[policy_path(username)] == lock_line(username, path),
{
}

/// Reading `username`'s policy file right after an unlock yields exactly the
/// unrestricted line, whatever the file held before.
pub proof fn lemma_unlock_then_read(files: Map<Seq<char>, Seq<char>>, username: Seq<char>)
    ensures
        unlock_effect(files, username).dom().contains(policy_path(username)),
        unlock_effect(files, username)[policy_path(username)] == unlock_line(username),
{
}

/// Locking twice leaves exactly the files that locking once leaves.
pub proof fn lemma_lock_idempotent(
    files: Map<Seq<char>, Seq<char>>,
    username: Seq<char>,
    path: Seq<char>,
)
    ensures
        lock_effect(lock_effect(files, username, path), username, path)
            == lock_effect(files, username, path),
{
    assert(lock_effect(lock_effect(files, username, path), username, path)
        =~= lock_effect(files, username, path));
}

/// Unlocking twice leaves exactly the files that unlocking once leaves.
pub proof fn lemma_unlock_idempotent(files: Map<Seq<char>, Seq<char>>, username: Seq<char>)
    ensures
        unlock_effect(unlock_effect(files, username), username) == unlock_effect(files, username),
{
    assert(unlock_effect(unlock_effect(files, username), username)
        =~= unlock_effect(files, username));
}

/// Without a recorded delegator identity, `Safeword` creates and modifies no
/// file.
pub proof fn lemma_safeword_without_delegator(files: Map<Seq<char>, Seq<char>>)
    ensures
        safeword_effect(files, Option::None) == files,
{
}

/// With a recorded delegator identity, `Safeword` is exactly an unlock of
/// that identity.
pub proof fn lemma_safeword_is_unlock(files: Map<Seq<char>, Seq<char>>, username: Seq<char>)
    ensures
        safeword_effect(files, Option::Some(username)) == unlock_effect(files, username),
{
}

} // verus!

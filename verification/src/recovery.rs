//! Detecting a recording that never finished: a lock file is written when
//! a recording starts and removed when it finalizes cleanly.

use vstd::prelude::*;

verus! {

/// A path separator.
pub open spec fn is_separator(c: char) -> bool {
    c == '/' || c == '\\'
}

/// A plain file name: non-empty, with no separator and no drive colon.
pub open spec fn is_plain_file_name(name: Seq<char>) -> bool {
    &&& name.len() > 0
    &&& forall|i: int| 0 <= i < name.len() ==> !is_separator(#[trigger] name[i]) && name[i] != ':'
}

/// A directory starting like a Windows verbatim path (`\\?\`), which
/// `Path::join` rebuilds from its components rather than appending to.
pub open spec fn has_verbatim_prefix(dir: Seq<char>) -> bool {
    &&& dir.len() >= 3
    &&& is_separator(dir[0])
    &&& is_separator(dir[1])
    &&& dir[2] == '?'
}

/// `p` is `name` joined onto `dir`: appended as it is, or after one
/// separator; never after a separator when `dir` is empty or already ends
/// in `/`.
pub open spec fn joined_path(dir: Seq<char>, name: Seq<char>, p: Seq<char>) -> bool {
    &&& (p == dir + name || exists|sep: char| is_separator(sep) && p == dir + seq![sep] + name)
    &&& (dir.len() == 0 || dir.last() == '/') ==> p == dir + name
}

/// `std::path::Path::join` of a directory and a plain file name, as text.
/// For a relative name `PathBuf::push` appends it, first adding the
/// platform's separator unless the directory is empty, already ends in a
/// separator, or is a bare drive such as `C:`. Of a directory with a
/// verbatim prefix nothing is claimed: there `push` normalizes the path.
/// The text comes from a `&str`, so `to_string_lossy` loses nothing.
#[verifier::external_body]
pub(crate) fn join_file_name(dir: &str, name: &str) -> (p: String)
    requires
        is_plain_file_name(name@),
    ensures
        !has_verbatim_prefix(dir@) ==> joined_path(dir@, name@, p@),
{
    std::path::Path::new(dir).join(name).to_string_lossy().into_owned()
}

/// Where the recording lock lives inside a configuration directory.
pub struct RecoveryManager {
    lock_path: String,
}

impl RecoveryManager {
    /// The lock file's path.
    pub closed spec fn lock_path_view(&self) -> Seq<char> {
        self.lock_path@
    }

    /// The manager for a configuration directory: `recording.lock` inside it.
    pub fn new(config_dir: &str) -> (m: Self)
        ensures
            !has_verbatim_prefix(config_dir@) ==> joined_path(config_dir@, "recording.lock"@, m.lock_path_view()),
    {
        let name = "recording.lock";
        proof {
            reveal_strlit("recording.lock");
        }
        RecoveryManager { lock_path: join_file_name(config_dir, name) }
    }

    pub fn lock_path(&self) -> (p: &str)
        ensures
            p@ == self.lock_path_view(),
    {
        self.lock_path.as_str()
    }
}

/// What to do about a lock found at startup.
#[derive(Debug, Clone, Copy, PartialEq, Eq, Structural)]
pub enum RecoveryOutcome {
    /// No readable lock: the last session ended cleanly.
    NothingToRecover,
    /// The lock names a file that still exists: offer to recover it.
    Recover,
    /// The lock names a file that is gone: clear the stale lock.
    ClearStaleLock,
}

/// The decision at startup, from whether a lock could be read and whether
/// the recording it names still exists.
pub fn recovery_outcome(lock_readable: bool, recording_exists: bool) -> (o: RecoveryOutcome)
    ensures
        o == (if !lock_readable {
            RecoveryOutcome::NothingToRecover
        } else if recording_exists {
            RecoveryOutcome::Recover
        } else {
            RecoveryOutcome::ClearStaleLock
        }),
{
    if !lock_readable {
        RecoveryOutcome::NothingToRecover
    } else if recording_exists {
        RecoveryOutcome::Recover
    } else {
        RecoveryOutcome::ClearStaleLock
    }
}

} // verus!

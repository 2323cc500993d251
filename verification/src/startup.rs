//! Start-up decisions: command-line switches and the single-instance rule.

use vstd::prelude::*;

verus! {

/// Class name of the main window (used to find a running instance).
pub const MAIN_WINDOW_CLASS: &'static str = "MemCleanerMainWindow";
/// Name of the mutex that marks a running instance.
pub const INSTANCE_MUTEX_NAME: &'static str = "Local\\MemCleanerMainInstance";
/// The system error "the object already exists".
pub const ERROR_ALREADY_EXISTS: u32 = 183;
/// The system error "access denied".
pub const ERROR_ACCESS_DENIED: u32 = 5;

/// Whether some argument is exactly `name`.
pub open spec fn has_arg(args: Seq<String>, name: Seq<char>) -> bool {
    exists|i: int| 0 <= i < args.len() && (#[trigger] args[i])@ == name
}

fn contains_arg(args: &Vec<String>, name: &str) -> (b: bool)
    ensures
        b == has_arg(args@, name@),
{
    let wanted = String::from_str(name);
    let mut i: usize = 0;
    while i < args.len()
        invariant
            i <= args.len(),
            wanted@ == name@,
            forall|j: int| 0 <= j < i ==> (#[trigger] args@[j])@ != name@,
        decreases args.len() - i,
    {
        if args[i] == wanted {
            assert(args@[i as int]@ == name@);
            return true;
        }
        i += 1;
    }
    false
}

/// Started again after a change of privileges: the single-instance check is
/// skipped (`--restart` among the arguments).
pub fn is_restart(args: &Vec<String>) -> (b: bool)
    ensures
        b == has_arg(args@, "--restart"@),
{
    contains_arg(args, "--restart")
}

/// Started with the session: the window stays hidden (`silent`, or the
/// misspelling `slient` that older registrations carry).
pub fn is_silent_start(args: &Vec<String>) -> (b: bool)
    ensures
        b == (has_arg(args@, "silent"@) || has_arg(args@, "slient"@)),
{
    contains_arg(args, "silent") || contains_arg(args, "slient")
}

/// Whether creating the instance mutex failed because another instance
/// holds it (it exists, or belongs to an elevated instance).
pub fn other_instance_running(last_error: u32) -> (b: bool)
    ensures
        b == (last_error == ERROR_ALREADY_EXISTS || last_error == ERROR_ACCESS_DENIED),
{
    last_error == ERROR_ALREADY_EXISTS || last_error == ERROR_ACCESS_DENIED
}

} // verus!

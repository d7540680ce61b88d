//! Launch at login through the per-user `Run` registry key (no
//! administrator rights needed).

use vstd::prelude::*;
use vstd::string::StringExecFns;

verus! {

/// The per-user key whose values are run at sign-in.
pub const RUN_KEY: &'static str = "Software\\Microsoft\\Windows\\CurrentVersion\\Run";
/// The value name under which the application registers itself.
pub const VALUE: &'static str = "Hlas";

/// The command registered to run at sign-in: the executable's path in double
/// quotes, so that a path with spaces stays one argument.
pub fn run_command(exe_path: &str) -> (c: String)
    ensures
        c@ == seq!['"'] + exe_path@ + seq!['"'],
{
    let mut c = String::new();
    c.append("\"");
    c.append(exe_path);
    c.append("\"");
    proof {
        reveal_strlit("\"");
        assert("\""@ =~= seq!['"']);
    }
    c
}

} // verus!

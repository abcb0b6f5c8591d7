use vstd::prelude::*;
use vstd::string::StringExecFns;

verus! {

/// The launch argument that asks for a start hidden in the tray.
pub open spec fn minimized_flag() -> Seq<char> {
    "--minimized"@
}

/// Whether one of the launch arguments is the minimized flag.
pub open spec fn asks_minimized(args: Seq<String>) -> bool {
    exists|i: int| 0 <= i < args.len() && #[trigger] args[i]@ == minimized_flag()
}

/// Decides from the process arguments whether the main window starts hidden.
pub fn start_minimized(args: &Vec<String>) -> (r: bool)
    ensures
        r == asks_minimized(args@),
{
    let flag = String::from_str("--minimized");
    let mut i: usize = 0;
    while i < args.len()
        invariant
            i <= args.len(),
            flag@ == minimized_flag(),
            forall|j: int| 0 <= j < i ==> #[trigger] args@[j]@ != minimized_flag(),
        decreases args.len() - i,
    {
        if args[i] == flag {
            return true;
        }
        i = i + 1;
    }
    false
}

/// The arguments the system's autostart mechanism launches the program with.
pub fn autostart_args() -> (r: Vec<String>)
    ensures
        r@.len() == 1,
        r@[0]@ == minimized_flag(),
        asks_minimized(r@),
{
    let mut args: Vec<String> = Vec::new();
    args.push(String::from_str("--minimized"));
    args
}

} // verus!

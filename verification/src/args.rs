//! Parsing of the command line handed over by the launcher: the editor
//! accepts exactly one positional argument, the path of the file to open.

use vstd::prelude::*;

verus! {

/// The parsed command line.
#[derive(Debug)]
pub struct Args {
    /// The one positional argument: the file to open.
    pub filepath: Option<String>,
    /// Reserved for a help switch; never set by parsing.
    pub help: Option<bool>,
}

/// Parse an argument list whose first entry is the program's own name.
/// Exactly one further argument (the file path) parses; any other
/// argument count is a usage error.
pub fn args_parse(args: &Vec<String>) -> (parsed: Result<Args, ()>)
    requires
        args@.len() >= 1,
    ensures
        args@.len() == 2 ==> (parsed matches Ok(a) && a.filepath matches Some(p) && p@ == args@[1]@
            && a.help is None),
        args@.len() != 2 ==> parsed is Err,
{
    if args.len() == 2 {
        Ok(Args { filepath: Some(args[1].clone()), help: None })
    } else {
        Err(())
    }
}

} // verus!

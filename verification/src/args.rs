//! Decisions behind the command-line surface.  Reading the arguments and
//! printing the answers is the surrounding program's business; the mapping
//! from the first argument to the action it asks for is decided here.

use vstd::prelude::*;

verus! {

use crate::utils::str_eq;

/// What the command line asks the program to do.
#[derive(PartialEq, Eq, Debug)]
pub enum ArgCommand {
    /// No arguments were given: start the REPL normally.
    NoArgs,
    /// Print the help message and exit.
    Help,
    /// Print the version and exit.
    Version,
    /// Reset the configuration to its defaults, then start.
    ResetConfig,
    /// An argument nobody understands; carried for the error message.
    Unknown(String),
}

/// Map the argument list (program name already skipped) to the action it
/// asks for.  Only the first argument decides.
pub fn parse_args(args: &Vec<String>) -> (r: ArgCommand)
    ensures
        args@.len() == 0 ==> r is NoArgs,
        args@.len() > 0 ==> {
            let a = args@[0]@;
            if a == "-h"@ || a == "--help"@ {
                r is Help
            } else if a == "-v"@ || a == "--version"@ {
                r is Version
            } else if a == "--reset-config"@ {
                r is ResetConfig
            } else {
                r matches ArgCommand::Unknown(u) && u@ == a
            }
        },
{
    if args.len() == 0 {
        return ArgCommand::NoArgs;
    }
    let a = &args[0];
    if str_eq(a.as_str(), "-h") || str_eq(a.as_str(), "--help") {
        ArgCommand::Help
    } else if str_eq(a.as_str(), "-v") || str_eq(a.as_str(), "--version") {
        ArgCommand::Version
    } else if str_eq(a.as_str(), "--reset-config") {
        ArgCommand::ResetConfig
    } else {
        ArgCommand::Unknown(a.clone())
    }
}

} // verus!

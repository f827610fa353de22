//! Command-line configuration: which command was run and which setting
//! file to read. Opening and reading the file itself is I/O and stays
//! with the caller; only the argument handling is here.

use vstd::prelude::*;
use vstd::slice::slice_index_get;

verus! {

/// The validated command-line configuration: the invoked command name
/// followed by the setting-file name.
#[derive(Debug)]
pub struct Config {
    pub build_command: String,
    pub file_name: String,
}

impl Config {
    /// Builds a configuration from the argument list. The first argument
    /// is the command name, the second the setting-file name; fewer than
    /// two arguments are rejected.
    pub fn new(args: &[String]) -> (r: Result<Config, &'static str>)
        ensures
            r is Ok <==> args@.len() >= 2,
            r matches Ok(c) ==> c.build_command == args@[0] && c.file_name == args@[1],
            r matches Err(m) ==> m@ == "Not enough arguments"@,
    {
        if args.len() < 2 {
            return Err("Not enough arguments");
        }

        let build_command = slice_index_get(args, 0).clone();
        let file_name = slice_index_get(args, 1).clone();

        Ok(Config {
            build_command,
            file_name,
        })
    }
}

} // verus!

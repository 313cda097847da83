//! The configuration of a search: what to look for, and in which file.
use vstd::prelude::*;

verus! {

/// A search for `query` in the file named `filename`.
pub struct Config {
    pub query: String,
    pub filename: String,
}

impl Config {
    /// The configuration from command-line arguments: the program name, the
    /// query, then the file name. Fewer than three arguments are refused.
    pub fn new(args: &[String]) -> (r: Result<Config, &'static str>)
        ensures
            args@.len() < 3 <==> r is Err,
            r matches Err(e) ==> e@ == "command line args length should be larger than 2"@,
            r matches Ok(c) ==> c.query@ == args@[1]@ && c.filename@ == args@[2]@,
    {
        if args.len() < 3 {
            return Err("command line args length should be larger than 2");
        }
        let config = Config { query: args[1].clone(), filename: args[2].clone() };
        Ok(config)
    }
}

} // verus!

//! The command line of a search tool: what to look for, and in which file.
use vstd::prelude::*;

verus! {

pub struct Config {
    pub query: String,
    pub filename: String,
}

impl Config {
    /// Reads the query and the file name from the arguments that follow the
    /// program's name; fails when there are fewer than two of them.
    pub fn new(args: &[String]) -> (r: Result<Config, &'static str>)
        ensures
            args@.len() < 3 <==> r is Err,
            r matches Err(e) ==> e@ == "not enough arguments"@,
            r matches Ok(c) ==> c.query@ == args@[1]@ && c.filename@ == args@[2]@,
    {
        if args.len() < 3 {
            return Err("not enough arguments");
        }
        let query = args[1].clone();
        let filename = args[2].clone();
        Ok(Config { query, filename })
    }
}

} // verus!

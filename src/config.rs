use vstd::prelude::*;

use crate::text::chars_of;

verus! {

/// What one run of the search tool is asked to do.
pub struct Config {
    pub query: String,
    pub file_path: String,
    pub use_regex: bool,
}

/// The flag that selects pattern mode.
pub open spec fn regex_flag() -> Seq<char> {
    seq!['-', 'r']
}

/// Whether `s` is exactly the pattern-mode flag.
fn is_regex_flag(s: &String) -> (r: bool)
    ensures
        r == (s@ == regex_flag()),
{
    let c = chars_of(s.as_str());
    if c.len() != 2 {
        return false;
    }
    let r = c[0] == '-' && c[1] == 'r';
    assert(r ==> c@ =~= regex_flag());
    r
}

impl Config {
    /// Builds a configuration from the command line `args`, whose first entry
    /// is the program name: then the query, the file path, and an optional
    /// `-r` that selects pattern mode. Fails when the query or the path is
    /// missing.
    pub fn build(args: &[String]) -> (r: Result<Config, &'static str>)
        ensures
            r is Err <==> args@.len() < 3,
            r matches Err(e) ==> e@ == "Not enough arguments"@,
            r matches Ok(c) ==> {
                &&& c.query@ == args@[1]@
                &&& c.file_path@ == args@[2]@
                &&& c.use_regex == (args@.len() > 3 && args@[3]@ == regex_flag())
            },
    {
        if args.len() < 3 {
            return Err("Not enough arguments");
        }
        let mut use_regex = false;
        let query = args[1].clone();
        let file_path = args[2].clone();
        if args.len() > 3 {
            use_regex = is_regex_flag(&args[3]);
        }
        Ok(Config { query, file_path, use_regex })
    }
}

} // verus!

//! Command-line parsing: one positional argument, the PR/MR URL.

use vstd::prelude::*;

use crate::pr_url::{parse_spec, PrUrl};

verus! {

/// Reads the PR/MR URL from the arguments (`args[0]` is the program) and
/// parses it; `None` when it is missing or not recognised.
pub fn parse_pr_url_from_args(args: &[String]) -> (r: Option<PrUrl>)
    ensures
        args@.len() < 2 ==> r is None,
        args@.len() >= 2 ==> match r {
            Some(p) => parse_spec(args@[1]@) == Some(p@),
            None => parse_spec(args@[1]@) is None,
        },
{
    if args.len() < 2 {
        return None;
    }
    PrUrl::parse(args[1].as_str())
}

} // verus!

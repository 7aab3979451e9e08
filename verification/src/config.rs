//! Command-line arguments.
use vstd::prelude::*;

use crate::number::{parse_u16, parsed_u16};
use crate::text::{chars_of, push_str, same_chars};

verus! {

/// The flag that names the argument `name`: `--name`.
pub open spec fn flag_of(name: Seq<char>) -> Seq<char> {
    "--"@ + name
}

/// The value that follows the first `--name` flag of `args`; `None` where there is
/// no such flag, nothing follows it, or the value is empty.
pub open spec fn named_argument(args: Seq<Seq<char>>, name: Seq<char>) -> Option<Seq<char>>
    decreases args.len(),
{
    if args.len() == 0 {
        None
    } else if args[0] == flag_of(name) {
        if args.len() < 2 || args[1].len() == 0 {
            None
        } else {
            Some(args[1])
        }
    } else {
        named_argument(args.skip(1), name)
    }
}

/// The port the server listens on, from the `--port` argument where it is given
/// (`None` where that is not a port number), else 8080.
pub fn port_from(argument: &Option<String>) -> (r: Option<u16>)
    ensures
        r == (match argument {
            Some(a) => parsed_u16(a@),
            None => Some(8080u16),
        }),
{
    match argument {
        Some(a) => parse_u16(a.as_str()),
        None => Some(8080),
    }
}

/// The value given to the argument `name` (as in `--name value`).
pub fn get_named_argument(args: &Vec<String>, name: &str) -> (r: Option<String>)
    ensures
        r.deep_view() == named_argument(args.deep_view(), name@),
{
    let ghost av = args.deep_view();
    let mut flag: Vec<char> = Vec::new();
    push_str(&mut flag, "--");
    push_str(&mut flag, name);
    let mut i: usize = 0;
    assert(av.skip(0) == av);
    while i < args.len()
        invariant
            i <= args.len(),
            av == args.deep_view(),
            flag@ == flag_of(name@),
            named_argument(av, name@) == named_argument(av.skip(i as int), name@),
        decreases args.len() - i,
    {
        let ghost rest = av.skip(i as int);
        assert(rest[0] == args@[i as int]@);
        assert(rest.skip(1) == av.skip(i + 1));
        let v = chars_of(args[i].as_str());
        if same_chars(&v, &flag) {
            if i + 1 >= args.len() {
                return None;
            }
            assert(rest[1] == args@[i + 1]@);
            let val = &args[i + 1];
            if val.as_str().is_empty() {
                return None;
            }
            return Some(val.clone());
        }
        i += 1;
    }
    None
}

} // verus!

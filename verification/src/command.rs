//! The argument rules of the two host commands. The surrounding host
//! hands each command its positional argument vector (command name
//! included); these functions enforce the commands' arities and split the
//! vector, before any file is read or any module is touched.

use vstd::prelude::*;
use crate::errors::ArityError;

verus! {

/// Splits a LOAD command's arguments into namespace and module path: the
/// command takes exactly two positional arguments beyond its name, and
/// fewer or more is an arity error.
pub fn parse_load_args(args: &Vec<String>) -> (r: Result<(String, String), ArityError>)
    ensures
        r is Ok <==> args@.len() == 3,
        r matches Ok(p) ==> p.0 == args@[1] && p.1 == args@[2],
        r matches Err(e) ==> e.required == 3 && e.supplied == args@.len(),
{
    if args.len() != 3 {
        return Err(ArityError { required: 3, supplied: args.len() });
    }
    Ok((args[1].clone(), args[2].clone()))
}

/// Splits a CALL command's arguments into namespace, function name and the
/// function's own arguments: the command takes at least two positional
/// arguments beyond its name, and fewer is an arity error.
pub fn parse_call_args(args: &Vec<String>) -> (r: Result<(String, String, Vec<String>), ArityError>)
    ensures
        r is Ok <==> args@.len() >= 3,
        r matches Ok(t) ==> t.0 == args@[1] && t.1 == args@[2] && t.2@ == args@.skip(3),
        r matches Err(e) ==> e.required == 3 && e.supplied == args@.len(),
{
    if args.len() < 3 {
        return Err(ArityError { required: 3, supplied: args.len() });
    }
    let mut rest: Vec<String> = Vec::new();
    let mut i: usize = 3;
    while i < args.len()
        invariant
            3 <= i <= args@.len(),
            rest@ == args@.subrange(3, i as int),
        decreases args@.len() - i,
    {
        rest.push(args[i].clone());
        i = i + 1;
        proof {
            assert(rest@ =~= args@.subrange(3, i as int));
        }
    }
    proof {
        assert(args@.subrange(3, args@.len() as int) =~= args@.skip(3));
    }
    Ok((args[1].clone(), args[2].clone(), rest))
}

} // verus!

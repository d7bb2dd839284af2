//! Calling Windows APIs that hand back an interface through an
//! optional out-parameter.

use vstd::prelude::*;

verus! {

/// Runs `f` with an empty out-parameter and returns what it left there: the
/// value `f` wrote when it succeeded, or its error when it failed. `f` must
/// fill the out-parameter whenever it succeeds.
pub fn try_out_ptr<T, F, E, O>(f: F) -> (r: Result<T, E>)
    where
        F: FnOnce(&mut Option<T>) -> Result<O, E>,
    requires
        forall|x: &mut Option<T>| *x is None ==> f.requires((x,)),
        forall|x: &mut Option<T>, out: Result<O, E>|
            call_ensures(f, (x,), out) && out is Ok ==> (*final(x)) is Some,
    ensures
        exists|x: &mut Option<T>, out: Result<O, E>|
            {
                &&& *x is None
                &&& call_ensures(f, (x,), out)
                &&& match out {
                    Ok(_) => r == Ok::<T, E>((*final(x))->0),
                    Err(e) => r == Err::<T, E>(e),
                }
            },
{
    let mut t: Option<T> = None;
    match f(&mut t) {
        Ok(_) => match t {
            Some(v) => Ok(v),
            None => vstd::pervasive::unreached(),
        },
        Err(e) => Err(e),
    }
}

} // verus!

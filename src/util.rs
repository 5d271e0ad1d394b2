use vstd::prelude::*;

verus! {

/// Pairs `k` with the success value of `v`, or passes its error on.
pub fn rewrap<T, U, V>(k: T, v: Result<U, V>) -> (r: Result<(T, U), V>)
    ensures
        match v {
            Ok(u) => r == Ok::<(T, U), V>((k, u)),
            Err(e) => r == Err::<(T, U), V>(e),
        },
{
    match v {
        Ok(u) => Ok((k, u)),
        Err(e) => Err(e),
    }
}

} // verus!

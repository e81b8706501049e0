use vstd::prelude::*;
use vstd::std_specs::convert::FromSpec;

verus! {

/// Chains a fallible step after a result whose error type the step's error
/// converts into: an error stays, a value goes through `op`, and an error of
/// `op` is converted with `From`.
pub fn and_then2<T, E, U, E2, F: FnOnce(T) -> Result<U, E2>>(r: Result<T, E>, op: F) -> (res: Result<U, E>)
    where
        E: From<E2>,
    requires
        r matches Ok(t) ==> call_requires(op, (t,)),
    ensures
        match r {
            Err(e) => res == Err::<U, E>(e),
            Ok(t) => exists|o: Result<U, E2>| #[trigger]
                call_ensures(op, (t,), o) && match o {
                    Ok(u) => res == Ok::<U, E>(u),
                    Err(e2) => res is Err && (<E as FromSpec<E2>>::obeys_from_spec()
                        ==> res == Err::<U, E>(<E as FromSpec<E2>>::from_spec(e2))),
                },
        },
{
    match r {
        Ok(t) => match op(t) {
            Ok(u) => Ok(u),
            Err(e2) => Err(E::from(e2)),
        },
        Err(e) => Err(e),
    }
}

} // verus!

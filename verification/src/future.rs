//! Operations that have been asked for and have not run yet.

use core::future::Future;
use futures::task::FutureObj;
use vstd::future::FutureAdditionalSpecFns;
use vstd::prelude::*;

verus! {

/// `futures::task::FutureObj`: a suspended operation of any kind that
/// completes with a `T` and can be sent to another thread. What it completes
/// with is its view, once it has been resumed to its end.
#[verifier::external_type_specification]
#[verifier::external_body]
#[verifier::reject_recursive_types(T)]
pub struct ExFutureObj<'a, T>(FutureObj<'a, T>);

/// Suspends the call of `call` on `target` and `argument` with
/// `futures::future::lazy`: nothing runs until the operation is resumed, and
/// it then completes with what the call returns. Of an operation that is
/// never resumed to its end nothing is claimed.
#[verifier::external_body]
pub(crate) fn later<'a, R: Send + 'a, A: Send + 'a, T, F: FnOnce(R, A) -> T + Send + 'a>(
    target: R,
    argument: A,
    call: F,
) -> (operation: FutureObj<'a, T>)
    requires
        call.requires((target, argument)),
    ensures
        operation.awaited() ==> call.ensures((target, argument), operation@),
{
    FutureObj::new(Box::new(futures::future::lazy(move |_| call(target, argument))))
}

/// Chains the call of `map` behind a suspended operation with
/// `futures::FutureExt::map`: the new operation completes with what `map`
/// returns for `argument` and what the first one completed with, and it
/// completes only after the first one.
#[verifier::external_body]
pub(crate) fn mapped<
    'a,
    T,
    A: Send + 'a,
    U,
    O: Future<Output = T> + Send + 'a,
    F: FnOnce(T, A) -> U + Send + 'a,
>(operation: O, argument: A, map: F) -> (chained: FutureObj<'a, U>)
    requires
        forall|output: T| map.requires((output, argument)),
    ensures
        chained.awaited() ==> operation.awaited() && map.ensures(
            (operation@, argument),
            chained@,
        ),
{
    FutureObj::new(Box::new(futures::FutureExt::map(operation, move |output| map(output, argument))))
}

} // verus!

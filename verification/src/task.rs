//! Futures and polling: the values of `std::task` and `futures` that the
//! endpoint layer hands around, and the operations it performs on futures.
//!
//! Everything in this module is trusted: the declarations state what the
//! types of `std::task` and `futures` are, the contracts what `futures`
//! does, and none of it is proved. What a future resolves to is written
//! `fut@`, as vstd has it.
use vstd::prelude::*;
use vstd::future::FutureAdditionalSpecFns;
use std::future::Future;
use std::task::{Context, Poll};
use futures::future::{FutureExt, LocalFutureObj, Ready};

verus! {

/// `std::task::Poll<T>` with its two variants, `Ready` and `Pending`.
#[verifier::external_type_specification]
#[verifier::reject_recursive_types(T)]
pub struct ExPoll<T>(Poll<T>);

/// `std::task::Context`, opaque to the verifier.
#[verifier::external_type_specification]
#[verifier::external_body]
pub struct ExContext<'a>(Context<'a>);

/// `futures::future::Ready<T>`, opaque to the verifier.
#[verifier::external_type_specification]
#[verifier::external_body]
#[verifier::reject_recursive_types(T)]
pub struct ExReady<T>(Ready<T>);

/// `futures::future::LocalFutureObj`, an owned future of unknown type behind
/// one heap indirection; opaque to the verifier.
#[verifier::external_type_specification]
#[verifier::external_body]
#[verifier::reject_recursive_types(T)]
pub struct ExLocalFutureObj<'a, T>(LocalFutureObj<'a, T>);

/// Trusted: `futures::future::ready` gives a future that resolves to the
/// value it was made from.
pub assume_specification<T>[ futures::future::ready::<T> ](t: T) -> (fut: Ready<T>)
    ensures
        fut@ == t,
;

/// Trusted: `LocalFutureObj::new` on a boxed future gives a future that
/// resolves to what the boxed future resolves to.
#[verifier::external_body]
pub(crate) fn box_future<Fut>(fut: Fut) -> (out: LocalFutureObj<'static, Fut::Output>)
    where Fut: Future + 'static
    ensures
        out@ == fut@,
{
    LocalFutureObj::new(Box::new(fut))
}

/// Trusted: `FutureExt::map` gives a future that, once the mapped future has
/// resolved, applies the function to its value and resolves to the result;
/// the function is called on that value only. The result is boxed with
/// `LocalFutureObj::new`, which does not change what it resolves to.
#[verifier::external_body]
pub(crate) fn map_future<Fut, G, B>(fut: Fut, g: G) -> (out: LocalFutureObj<'static, B>)
    where Fut: Future + 'static, G: FnOnce(Fut::Output) -> B + 'static
    requires
        call_requires(g, (fut@,)),
    ensures
        call_ensures(g, (fut@,), out@),
{
    LocalFutureObj::new(Box::new(fut.map(g)))
}

} // verus!

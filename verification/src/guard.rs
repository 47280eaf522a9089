//! The three guards, and the values in which they say where control goes.

use crate::normalize::TryAsOption;
use vstd::prelude::*;

verus! {

/// The name of a loop.
#[derive(Clone, Copy, Debug, PartialEq, Eq, Structural)]
pub struct Label(pub u32);

/// The loop that a jump is aimed at.
#[derive(Clone, Copy, Debug, PartialEq, Eq, Structural)]
pub enum Target {
    /// The innermost loop around the guard.
    Innermost,
    /// The nearest loop around the guard that carries this label.
    Labeled(Label),
}

/// A way out of the evaluation at hand.
#[derive(Debug, PartialEq, Eq)]
pub enum Diversion<R> {
    /// The enclosing function ends, with this result.
    Return(R),
    /// The targeted loop goes on with its next iteration.
    Continue(Target),
    /// The targeted loop ends.
    Break(Target),
}

/// What a guard decided.
#[derive(Debug, PartialEq, Eq)]
pub enum Flow<T, R> {
    /// The value was present: evaluation goes on where the guard stands, with the
    /// payload.
    Proceed(T),
    /// The value was absent: nothing that follows the guard is evaluated, and control
    /// leaves by the diversion.
    Divert(Diversion<R>),
}

/// The decision of a guard that was given `diversion` as its way out, on a value whose
/// canonical form is `canonical`.
pub open spec fn divert_if_absent<T, R>(
    canonical: Option<T>,
    diversion: Diversion<R>,
) -> Flow<T, R> {
    match canonical {
        Some(payload) => Flow::Proceed(payload),
        None => Flow::Divert(diversion),
    }
}

/// Guards `value` with an arbitrary way out.
pub fn try_or<S: TryAsOption, R>(value: S, diversion: Diversion<R>) -> (flow: Flow<S::Output, R>)
    ensures
        flow == divert_if_absent(value.as_option(), diversion),
{
    match value.try_as_option() {
        Some(payload) => Flow::Proceed(payload),
        None => Flow::Divert(diversion),
    }
}

/// Hands out the payload of `value`, or else has the enclosing function return
/// `fallback`.
pub fn try_return<S: TryAsOption, R>(value: S, fallback: R) -> (flow: Flow<S::Output, R>)
    ensures
        flow == divert_if_absent(value.as_option(), Diversion::Return(fallback)),
{
    try_or(value, Diversion::Return(fallback))
}

/// Hands out the payload of `value`, or else has the enclosing function, which
/// returns nothing, return.
pub fn try_return_unit<S: TryAsOption>(value: S) -> (flow: Flow<S::Output, ()>)
    ensures
        flow == divert_if_absent(value.as_option(), Diversion::Return(())),
{
    try_or(value, Diversion::Return(()))
}

/// Hands out the payload of `value`, or else has the enclosing function return what
/// `fallback` computes. The fallback is computed only where the value is absent, so it
/// need not be callable where the value is present.
pub fn try_return_with<S: TryAsOption, R, F: FnOnce() -> R>(
    value: S,
    fallback: F,
) -> (flow: Flow<S::Output, R>)
    requires
        value.as_option() is None ==> call_requires(fallback, ()),
    ensures
        match value.as_option() {
            Some(payload) => flow == Flow::<S::Output, R>::Proceed(payload),
            None => {
                &&& flow matches Flow::Divert(Diversion::Return(result))
                &&& call_ensures(fallback, (), result)
            },
        },
{
    match value.try_as_option() {
        Some(payload) => Flow::Proceed(payload),
        None => Flow::Divert(Diversion::Return(fallback())),
    }
}

/// Hands out the payload of `value`, or else has the innermost enclosing loop go on
/// with its next iteration.
pub fn try_continue<S: TryAsOption, R>(value: S) -> (flow: Flow<S::Output, R>)
    ensures
        flow == divert_if_absent(value.as_option(), Diversion::<R>::Continue(Target::Innermost)),
{
    try_or(value, Diversion::Continue(Target::Innermost))
}

/// Hands out the payload of `value`, or else has the enclosing loop labeled `label` go
/// on with its next iteration.
pub fn try_continue_to<S: TryAsOption, R>(value: S, label: Label) -> (flow: Flow<S::Output, R>)
    ensures
        flow == divert_if_absent(
            value.as_option(),
            Diversion::<R>::Continue(Target::Labeled(label)),
        ),
{
    try_or(value, Diversion::Continue(Target::Labeled(label)))
}

/// Hands out the payload of `value`, or else ends the innermost enclosing loop.
pub fn try_break<S: TryAsOption, R>(value: S) -> (flow: Flow<S::Output, R>)
    ensures
        flow == divert_if_absent(value.as_option(), Diversion::<R>::Break(Target::Innermost)),
{
    try_or(value, Diversion::Break(Target::Innermost))
}

/// Hands out the payload of `value`, or else ends the enclosing loop labeled `label`.
pub fn try_break_to<S: TryAsOption, R>(value: S, label: Label) -> (flow: Flow<S::Output, R>)
    ensures
        flow == divert_if_absent(value.as_option(), Diversion::<R>::Break(Target::Labeled(label))),
{
    try_or(value, Diversion::Break(Target::Labeled(label)))
}

/// A present value passes every guard. Whatever way out the guard was given, the
/// decision is to proceed, with exactly the payload.
pub proof fn present_value_proceeds<S: TryAsOption, R>(
    value: S,
    payload: S::Output,
    diversion: Diversion<R>,
)
    requires
        value.as_option() == Some(payload),
    ensures
        divert_if_absent(value.as_option(), diversion) == Flow::<S::Output, R>::Proceed(payload),
{
}

/// An absent value passes no guard. The decision is the way out that the guard was
/// given, and nothing else of the value goes into it.
pub proof fn absent_value_diverts<S: TryAsOption, R>(value: S, diversion: Diversion<R>)
    requires
        value.as_option() is None,
    ensures
        divert_if_absent(value.as_option(), diversion) == Flow::<S::Output, R>::Divert(diversion),
{
}

/// A `Result` is guarded as the `Option` with the same payload is: `Ok` as `Some`, and
/// `Err` as `None`, whatever the detail of the failure.
pub proof fn result_guards_as_option<T, E, R>(payload: T, detail: E, diversion: Diversion<R>)
    ensures
        divert_if_absent(Ok::<T, E>(payload).as_option(), diversion) == divert_if_absent(
            Some(payload).as_option(),
            diversion,
        ),
        divert_if_absent(Err::<T, E>(detail).as_option(), diversion) == divert_if_absent(
            None::<T>.as_option(),
            diversion,
        ),
{
}

} // verus!

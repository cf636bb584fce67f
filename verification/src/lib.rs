//! A minimal abstraction layer for push-style data flow: a producer delivers a
//! value to a receiver and synchronously obtains a per-delivery result.
//!
//! The crate root holds the contracts themselves: the [`Sink`] push interface,
//! its pull dual [`Source`], the fire-and-forget [`Dispatcher`] view, and the
//! default-then-override construction pattern [`Initializable`]. Two concrete
//! adapters illustrate their use: [`statefulsink::StatefulSink`], which drives
//! a handler function over an owned state value, and [`vecsink::VecSink`],
//! which accumulates inputs into an ordered log.

use vstd::prelude::*;

pub mod statefulsink;
pub mod vecsink;

verus! {

/// A push receiver: accepts one input per call and synchronously returns one
/// result per call. Input and result types are fixed by the implementing type,
/// not per call; the result may be a plain value, a success/failure union, or
/// a handle meant for later inspection.
pub trait Sink: Sized {
    type TInput;

    type TResult;

    /// Well-formedness that a sink keeps across deliveries; `send` may assume
    /// it of the sink before the call and must leave it standing afterwards.
    spec fn wf(self) -> bool;

    /// The transition relation of one delivery: how the sink after the call
    /// and the returned result relate to the sink before the call and the
    /// input it received.
    spec fn sent(pre: Self, input: Self::TInput, post: Self, r: Self::TResult) -> bool;

    /// `send` accepts an item, returning one result to the sender before it
    /// returns. Each implementation pins the effect of a delivery down in its
    /// own `sent` relation.
    fn send(&mut self, input: Self::TInput) -> (r: Self::TResult)
        requires
            old(self).wf(),
        ensures
            final(self).wf(),
            Self::sent(*old(self), input, *final(self), r),
    ;
}

/// A restricted, fire-and-forget view of a [`Sink`] for callers that only
/// care about delivery, not outcome. It is deliberately available only where
/// the result type carries no information: a sink returning a success/failure
/// outcome must not silently gain it, so that no error can be dropped unseen.
pub trait Dispatcher<TInput>: Sink<TInput = TInput, TResult = ()> {
    /// Delivers `input` with exactly the effect of `send`, discarding the
    /// (unit) result.
    fn dispatch(&mut self, input: TInput)
        requires
            old(self).wf(),
        ensures
            final(self).wf(),
            Self::sent(*old(self), input, *final(self), ()),
    ;
}

impl<TInput, TSink> Dispatcher<TInput> for TSink where TSink: Sink<TInput = TInput, TResult = ()> {
    fn dispatch(&mut self, input: TInput) {
        self.send(input)
    }
}

/// A pull producer, the dual of [`Sink`]: one output per call, no input.
pub trait Source {
    type TOutput;

    /// Which outputs a call of `next` may produce.
    spec fn produces(self, output: Self::TOutput) -> bool;

    fn next(&self) -> (r: Self::TOutput)
        ensures
            self.produces(r),
    ;
}

/// A [`Source`] that always produces the unit value; it exists purely to
/// exercise the contract in composition scenarios.
pub struct UnitSource {}

impl UnitSource {
    pub fn new() -> (r: Self)
        ensures
            r == (UnitSource {  }),
    {
        UnitSource {  }
    }
}

impl Source for UnitSource {
    type TOutput = ();

    open spec fn produces(self, output: ()) -> bool {
        output == ()
    }

    fn next(&self) -> (r: ()) {
        ()
    }
}

/// Enables a type with a natural default to be built by taking that default
/// and applying an explicit state object on top: layered configuration where
/// a caller supplies only the overrides it cares about.
///
/// Applying a state fully determines every field it touches and never depends
/// on an earlier application having occurred; implementors state what one
/// application leaves behind in `applied` and prove the override law
/// `applied_overrides` for it.
pub trait Initializable: Sized + Default {
    type TState;

    /// The value that `Default::default` returns for this type.
    spec fn default_spec() -> Self;

    /// The value an instance `pre` becomes when `state` is applied to it.
    spec fn applied(pre: Self, state: Self::TState) -> Self;

    /// Returns the type's default value; the implementor ties its
    /// `Default::default` to `default_spec` here.
    fn default_value() -> (r: Self)
        ensures
            r == Self::default_spec(),
    ;

    /// Law: a later application fully overrides an earlier one; applying
    /// `s2` after `s1` leaves exactly what applying `s2` alone leaves.
    proof fn applied_overrides(pre: Self, s1: Self::TState, s2: Self::TState)
        ensures
            Self::applied(Self::applied(pre, s1), s2) == Self::applied(pre, s2),
    ;

    /// Produces a new instance: the default, with `state` applied on top.
    fn init(state: Self::TState) -> (r: Self)
        ensures
            r == Self::applied(Self::default_spec(), state),
    {
        let mut base = Self::default_value();
        base.apply_state(state);
        base
    }

    /// Mutates an existing instance in place, overriding the fields that
    /// `state` determines.
    fn apply_state(&mut self, state: Self::TState)
        ensures
            *final(self) == Self::applied(*old(self), state),
    ;
}

/// Law: initializing from the default and applying two state objects in turn
/// leaves the instance reflecting the second application alone, with every
/// field it does not touch still at its default.
pub proof fn lemma_apply_state_last_wins<T: Initializable>(s1: T::TState, s2: T::TState)
    ensures
        T::applied(T::applied(T::default_spec(), s1), s2) == T::applied(T::default_spec(), s2),
{
    T::applied_overrides(T::default_spec(), s1, s2);
}

/// A defaultable counter value; the smallest carrier of the [`Initializable`]
/// pattern, and a convenient state for a stateful sink.
pub struct Counter {
    pub value: u64,
}

impl Default for Counter {
    fn default() -> (r: Self)
        ensures
            r == (Counter { value: 0 }),
    {
        Counter { value: 0 }
    }
}

impl Initializable for Counter {
    type TState = u64;

    open spec fn default_spec() -> Self {
        Counter { value: 0 }
    }

    open spec fn applied(pre: Self, state: u64) -> Self {
        Counter { value: state }
    }

    fn default_value() -> (r: Self) {
        Counter::default()
    }

    proof fn applied_overrides(pre: Self, s1: u64, s2: u64) {
    }

    fn apply_state(&mut self, state: u64) {
        self.value = state;
    }
}

} // verus!

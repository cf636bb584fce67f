//! A [`Sink`] built from an owned state value and a handler function: each
//! delivery hands the handler the current state and the input, stores the
//! successor state the handler returns, and passes its result to the sender.

use vstd::prelude::*;
use core::marker::PhantomData;
use crate::Sink;

verus! {

/// Sink implementation which owns an internal state that is made available
/// to the provided handler when values are sent to it.
///
/// The handler is fixed for the sink's lifetime; all mutation visible across
/// deliveries lives in the successor states the handler returns. The sink
/// adds no transformation, buffering or error wrapping of its own. The
/// handler must be a stable, repeatedly invocable function value:
/// construction demands that it accept every state and every input.
///
/// Beside the handler the sink carries `model`, a ghost relation that holds
/// of everything the handler's own contract allows; the sink's contracts are
/// stated over it, and construction pins it to the handler's contract.
#[verifier::reject_recursive_types(TState)]
#[verifier::reject_recursive_types(TInput)]
#[verifier::reject_recursive_types(TResult)]
pub struct StatefulSink<FHandler, TState, TInput, TResult> where
    FHandler: Fn(&TState, TInput) -> (TState, TResult),
 {
    /// The current state; deliveries are its only writers.
    pub state: TState,
    /// The handler every delivery is forwarded to.
    pub handler: FHandler,
    /// What one handler call may do: relates the state handed in and the
    /// input to the successor state and the result.
    pub model: Ghost<spec_fn(TState, TInput, TState, TResult) -> bool>,
    /// Marks the input type as part of the sink's identity.
    pub _input: PhantomData<TInput>,
}

impl<FHandler, TState, TInput, TResult> StatefulSink<FHandler, TState, TInput, TResult> where
    FHandler: Fn(&TState, TInput) -> (TState, TResult),
 {
    /// Builds a StatefulSink using the default for TState.
    pub fn new(handler: FHandler) -> (r: Self) where TState: Default
        requires
            forall|s: TState, i: TInput| #[trigger] call_requires(handler, (&s, i)),
        ensures
            call_ensures(TState::default, (), r.state),
            r.handler == handler,
            r.model@ == (|s: TState, i: TInput, s2: TState, o: TResult|
                call_ensures(handler, (&s, i), (s2, o))),
    {
        let state = TState::default();
        StatefulSink::with_state(state, handler)
    }

    /// Builds a StatefulSink using the TState provided.
    pub fn with_state(state: TState, handler: FHandler) -> (r: Self)
        requires
            forall|s: TState, i: TInput| #[trigger] call_requires(handler, (&s, i)),
        ensures
            r.state == state,
            r.handler == handler,
            r.model@ == (|s: TState, i: TInput, s2: TState, o: TResult|
                call_ensures(handler, (&s, i), (s2, o))),
    {
        StatefulSink {
            state,
            handler,
            model: Ghost(
                |s: TState, i: TInput, s2: TState, o: TResult|
                    call_ensures(handler, (&s, i), (s2, o)),
            ),
            _input: PhantomData,
        }
    }

    /// One delivery, under the handler's historical name: one handler call.
    /// The successor state and the result are an answer of the handler to
    /// the state before the call and the input; `Sink::send` forwards here.
    pub fn handle(&mut self, input: TInput) -> (r: TResult)
        requires
            forall|s: TState, i: TInput| #[trigger] call_requires(old(self).handler, (&s, i)),
            forall|s: TState, i: TInput, o: (TState, TResult)|
                #[trigger] call_ensures(old(self).handler, (&s, i), o) ==> (old(self).model@)(
                    s,
                    i,
                    o.0,
                    o.1,
                ),
        ensures
            final(self).handler == old(self).handler,
            final(self).model == old(self).model,
            (old(self).model@)(old(self).state, input, final(self).state, r),
    {
        let (state, r) = (self.handler)(&self.state, input);
        self.state = state;
        r
    }
}

impl<FHandler, TState, TInput, TResult> Sink for StatefulSink<
    FHandler,
    TState,
    TInput,
    TResult,
> where FHandler: Fn(&TState, TInput) -> (TState, TResult) {
    type TInput = TInput;

    type TResult = TResult;

    /// The handler is repeatedly invocable — it accepts every state and
    /// input — and everything it can answer lies in the model relation.
    open spec fn wf(self) -> bool {
        &&& forall|s: TState, i: TInput| #[trigger] call_requires(self.handler, (&s, i))
        &&& forall|s: TState, i: TInput, o: (TState, TResult)|
            #[trigger] call_ensures(self.handler, (&s, i), o) ==> (self.model@)(s, i, o.0, o.1)
    }

    /// One delivery is one handler call: the state after the call and the
    /// result returned are an answer of the handler to the state before the
    /// call and the input; the model — the handler — never changes.
    open spec fn sent(pre: Self, input: TInput, post: Self, r: TResult) -> bool {
        &&& post.handler == pre.handler
        &&& post.model == pre.model
        &&& (pre.model@)(pre.state, input, post.state, r)
    }

    fn send(&mut self, input: TInput) -> (r: TResult)
        ensures
            final(self).handler == old(self).handler,
            final(self).model == old(self).model,
            (old(self).model@)(old(self).state, input, final(self).state, r),
    {
        self.handle(input)
    }
}

/// An ergonomic conversion: any cloneable value can be turned into a
/// [`StatefulSink`] around itself as the initial state, plus a handler. A
/// naming convenience over [`StatefulSink::with_state`]; it introduces no
/// behaviour of its own.
pub trait IntoStatefulSink where Self: Sized {
    fn into_sink<TInput, TResult, FHandler: Fn(&Self, TInput) -> (Self, TResult)>(
        self,
        handler: FHandler,
    ) -> (r: StatefulSink<FHandler, Self, TInput, TResult>)
        requires
            forall|s: Self, i: TInput| #[trigger] call_requires(handler, (&s, i)),
        ensures
            r.state == self,
            r.handler == handler,
            r.model@ == (|s: Self, i: TInput, s2: Self, o: TResult|
                call_ensures(handler, (&s, i), (s2, o))),
    {
        StatefulSink::with_state(self, handler)
    }
}

impl<T> IntoStatefulSink for T where T: Clone {

}

/// The way into the [`Sink`] contract: a handler that accepts every state
/// and input, with a model that covers everything it can answer, makes the
/// sink well-formed. Constructed sinks satisfy both hypotheses by their
/// constructor's contract.
pub proof fn lemma_stateful_sink_wf<FHandler, TState, TInput, TResult>(
    sink: StatefulSink<FHandler, TState, TInput, TResult>,
) where FHandler: Fn(&TState, TInput) -> (TState, TResult)
    requires
        forall|s: TState, i: TInput| #[trigger] call_requires(sink.handler, (&s, i)),
        forall|s: TState, i: TInput, o: (TState, TResult)|
            #[trigger] call_ensures(sink.handler, (&s, i), o) ==> (sink.model@)(s, i, o.0, o.1),
    ensures
        <StatefulSink<FHandler, TState, TInput, TResult> as Sink>::wf(sink),
{
}

/// The way out of the [`Sink`] contract: what one delivery through it means,
/// spelled out over the sink's fields.
pub proof fn lemma_stateful_sink_sent<FHandler, TState, TInput, TResult>(
    pre: StatefulSink<FHandler, TState, TInput, TResult>,
    input: TInput,
    post: StatefulSink<FHandler, TState, TInput, TResult>,
    r: TResult,
) where FHandler: Fn(&TState, TInput) -> (TState, TResult)
    requires
        <StatefulSink<FHandler, TState, TInput, TResult> as Sink>::sent(pre, input, post, r),
    ensures
        post.handler == pre.handler,
        post.model == pre.model,
        (pre.model@)(pre.state, input, post.state, r),
{
}

/// Law: a pure handler — one whose relation keeps the state it was given and
/// computes its result as a function of state and input alone — makes
/// repeated deliveries of the same input return the same result every time.
pub proof fn lemma_pure_handler_repeatable<FHandler, TState, TInput, TResult>(
    pre: StatefulSink<FHandler, TState, TInput, TResult>,
    input: TInput,
    mid: StatefulSink<FHandler, TState, TInput, TResult>,
    r1: TResult,
    post: StatefulSink<FHandler, TState, TInput, TResult>,
    r2: TResult,
    h: spec_fn(TState, TInput) -> TResult,
) where FHandler: Fn(&TState, TInput) -> (TState, TResult)
    requires
        forall|s: TState, i: TInput, s2: TState, o: TResult|
            #[trigger] (pre.model@)(s, i, s2, o) ==> s2 == s && o == h(s, i),
        <StatefulSink<FHandler, TState, TInput, TResult> as Sink>::sent(pre, input, mid, r1),
        <StatefulSink<FHandler, TState, TInput, TResult> as Sink>::sent(mid, input, post, r2),
    ensures
        mid.state == pre.state,
        post.state == pre.state,
        r1 == r2,
{
}

/// Law: with a handler that adds each input to a numeric state and returns
/// the running total, two sequential deliveries see their effects in call
/// order: each returns the sum of all prior inputs plus the current one.
pub proof fn lemma_additive_handler_accumulates<FHandler>(
    pre: StatefulSink<FHandler, u64, u64, u64>,
    a: u64,
    mid: StatefulSink<FHandler, u64, u64, u64>,
    r1: u64,
    b: u64,
    post: StatefulSink<FHandler, u64, u64, u64>,
    r2: u64,
) where FHandler: Fn(&u64, u64) -> (u64, u64)
    requires
        forall|s: u64, i: u64, s2: u64, o: u64|
            #[trigger] (pre.model@)(s, i, s2, o) ==> s2 == s + i && o == s + i,
        <StatefulSink<FHandler, u64, u64, u64> as Sink>::sent(pre, a, mid, r1),
        <StatefulSink<FHandler, u64, u64, u64> as Sink>::sent(mid, b, post, r2),
    ensures
        r1 == pre.state + a,
        r2 == pre.state + a + b,
        post.state == pre.state + a + b,
{
}

} // verus!

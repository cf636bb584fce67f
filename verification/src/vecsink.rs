//! A concrete [`Sink`] that accumulates inputs into an ordered, append-only
//! log and answers each delivery with the insertion index.

use vstd::prelude::*;
use vstd::pervasive::cloned;
use crate::Sink;

verus! {

/// Failure of an accumulating sink: its index space is exhausted.
///
/// The variant is declared as part of the result type's shape, but the
/// append path always reports success and never raises it: an append that
/// cannot be served fails in the allocator, before any index is produced.
#[derive(Debug)]
pub enum Error {
    Overflow,
}

/// A sink that captures every value sent to it in an ordered, append-only
/// log. Indices are stable and strictly increasing across its lifetime: the
/// index a delivery returns names its value forever.
#[derive(Clone)]
pub struct VecSink<TInput> where TInput: Clone {
    data: Vec<TInput>,
}

impl<TInput: Clone> View for VecSink<TInput> {
    type V = Seq<TInput>;

    closed spec fn view(&self) -> Seq<TInput> {
        self.data@
    }
}

/// Relates a log to a snapshot of it: the same length, and each element a
/// clone of the element at the same position.
pub open spec fn snapshot_of<TInput: Clone>(log: Seq<TInput>, snap: Seq<TInput>) -> bool {
    &&& snap.len() == log.len()
    &&& forall|i: int| 0 <= i < log.len() ==> cloned::<TInput>(log[i], #[trigger] snap[i])
}

impl<TInput: Clone> VecSink<TInput> {
    /// Starts with an empty log.
    pub fn new() -> (r: Self)
        ensures
            r@ == Seq::<TInput>::empty(),
    {
        VecSink { data: Vec::new() }
    }

    /// Returns a full duplicate snapshot of the log: all appends up to the
    /// call, in insertion order.
    pub fn data(&self) -> (r: Vec<TInput>)
        ensures
            snapshot_of(self@, r@),
    {
        self.data.clone()
    }

    fn push(&mut self, input: TInput) -> (r: Result<usize, Error>)
        ensures
            final(self)@ == old(self)@.push(input),
            r == Ok::<usize, Error>(old(self)@.len() as usize),
    {
        self.data.push(input);
        Ok(self.data.len() - 1)
    }
}

impl<TInput: Clone> Sink for VecSink<TInput> {
    type TInput = TInput;

    type TResult = Result<usize, Error>;

    open spec fn wf(self) -> bool {
        true
    }

    /// One delivery appends the input and returns the index at which it now
    /// stands: the length of the log before the call.
    open spec fn sent(pre: Self, input: TInput, post: Self, r: Result<usize, Error>) -> bool {
        &&& post@ == pre@.push(input)
        &&& r == Ok::<usize, Error>(pre@.len() as usize)
    }

    fn send(&mut self, input: TInput) -> (r: Result<usize, Error>) {
        self.push(input)
    }
}

/// Law: starting from a fresh sink, any sequence of deliveries leaves exactly
/// the sent values in the log, in send order, and the k-th delivery (0-based)
/// returns the index k.
///
/// `sinks` is the chain of sink values a caller observes: `sinks[k]` before
/// the k-th delivery, `sinks[k + 1]` after it, each step related by `sent` as
/// `send`'s contract ensures.
pub proof fn lemma_fresh_sink_logs_sends<TInput: Clone>(
    sinks: Seq<VecSink<TInput>>,
    inputs: Seq<TInput>,
    results: Seq<Result<usize, Error>>,
)
    requires
        sinks.len() == inputs.len() + 1,
        results.len() == inputs.len(),
        sinks[0]@ == Seq::<TInput>::empty(),
        forall|k: int|
            0 <= k < inputs.len() ==> #[trigger] <VecSink<TInput> as Sink>::sent(
                sinks[k],
                inputs[k],
                sinks[k + 1],
                results[k],
            ),
    ensures
        sinks[inputs.len() as int]@ == inputs,
        forall|k: int| 0 <= k < inputs.len() ==> results[k] == Ok::<usize, Error>(k as usize),
    decreases inputs.len(),
{
    if inputs.len() == 0 {
        assert(sinks[0]@ =~= inputs);
    } else {
        let n = inputs.len() as int;
        let psinks = sinks.take(n);
        let pinputs = inputs.take(n - 1);
        let presults = results.take(n - 1);
        assert forall|k: int|
            0 <= k < pinputs.len() implies #[trigger] <VecSink<TInput> as Sink>::sent(
            psinks[k],
            pinputs[k],
            psinks[k + 1],
            presults[k],
        ) by {
            assert(<VecSink<TInput> as Sink>::sent(sinks[k], inputs[k], sinks[k + 1], results[k]));
        }
        lemma_fresh_sink_logs_sends(psinks, pinputs, presults);
        assert(sinks[n - 1]@ == pinputs);
        assert(<VecSink<TInput> as Sink>::sent(sinks[n - 1], inputs[n - 1], sinks[n], results[n - 1]));
        assert(sinks[n]@ =~= inputs);
        assert(sinks[n - 1]@.len() == n - 1);
        assert forall|k: int| 0 <= k < n implies results[k] == Ok::<usize, Error>(k as usize) by {
            if k < n - 1 {
                assert(presults[k] == Ok::<usize, Error>(k as usize));
            }
        }
    }
}

/// Law: snapshotting is idempotent — two snapshots of one log, with no
/// delivery in between, are equal sequences, as long as cloning an element
/// returns the element itself.
pub proof fn lemma_snapshot_idempotent<TInput: Clone>(
    log: Seq<TInput>,
    first: Seq<TInput>,
    second: Seq<TInput>,
)
    requires
        forall|a: TInput, b: TInput| #[trigger] cloned::<TInput>(a, b) ==> b == a,
        snapshot_of(log, first),
        snapshot_of(log, second),
    ensures
        first == second,
{
    assert(first =~= second);
}

} // verus!

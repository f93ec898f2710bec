//! Adaptation middleware for an RPC server: wraps an operation-shaped unit of
//! work (typed input and context in, typed output or typed business error out)
//! so that it speaks a wire transport instead.
//!
//! The factory [`UpgradeLayer`] wraps a unit of work into the transport-facing
//! adapter [`Upgrade`]; each call the adapter begins produces an [`Execution`]
//! state machine. The execution is a passive machine: an outside driver
//! performs the asynchronous work (decoding the request, awaiting the wrapped
//! unit of work) and hands each observation in as an event; the machine
//! decides, and its contracts pin down, what happens next — when the call
//! suspends, when the unit of work is handed the decoded pair, and which
//! value the terminal response encodes. Decode failures, business failures
//! and success values are funnelled into exactly one transport response;
//! readiness failures travel on a separate channel, surfaced only by the
//! pre-invocation readiness check.

pub mod error;
pub mod protocol;
pub mod text;
pub mod trace;

use vstd::prelude::*;

use crate::error::OperationError;
use crate::protocol::Protocol;
use crate::trace::{decode_transition, invoke_transition, wf_state, ExecutionState};

verus! {

use core::marker::PhantomData;

/// The adaptation factory: produces an [`Upgrade`] adapter from a unit of
/// work. Stateless; the protocol type parameter carries compile-time
/// information only.
pub struct UpgradeLayer<P> {
    /// Type-level marker only; a factory carries no runtime payload.
    pub _protocol: PhantomData<P>,
}

impl<P> Default for UpgradeLayer<P> {
    /// Factories carry no state: construction is total, has no failure mode,
    /// and always yields the same factory.
    fn default() -> (factory: Self)
        ensures
            factory == (UpgradeLayer::<P> { _protocol: PhantomData }),
    {
        UpgradeLayer { _protocol: PhantomData }
    }
}

impl<P> UpgradeLayer<P> {
    /// Creates a new factory. Every factory of a given type is the same
    /// value, so repeated construction behaves identically.
    pub fn new() -> (factory: Self)
        ensures
            factory == (UpgradeLayer::<P> { _protocol: PhantomData }),
    {
        Self::default()
    }

    /// Wraps a unit of work, producing the transport-facing adapter.
    pub fn layer<S>(&self, inner: S) -> (upgrade: Upgrade<P, S>)
        ensures
            upgrade.inner == inner,
    {
        Upgrade { _protocol: PhantomData, inner }
    }
}

/// The transport-facing adapter: wraps an operation-shaped unit of work and,
/// per call, produces the [`Execution`] state machine that funnels every
/// outcome of the call into exactly one transport response.
pub struct Upgrade<P, S> {
    /// Type-level marker only; the protocol carries no runtime payload.
    pub _protocol: PhantomData<P>,
    /// The wrapped unit of work.
    pub inner: S,
}

impl<P, S: Clone> Clone for Upgrade<P, S> {
    /// An independent adapter whose `inner` is a clone of the same wrapped
    /// unit of work; concurrent calls on clones do not interfere.
    fn clone(&self) -> (twin: Self)
        ensures
            cloned::<S>(self.inner, twin.inner),
    {
        Upgrade { _protocol: PhantomData, inner: self.inner.clone() }
    }
}

/// What the wrapped unit of work's readiness check reported, as observed by
/// the driver.
pub enum ReadyEvent<E, PE> {
    /// The unit of work can accept a call.
    Ready,
    /// Not ready yet; ask again later.
    Pending,
    /// The readiness check failed.
    Failed(OperationError<E, PE>),
}

/// The adapter's own readiness verdict.
pub enum ReadyOutcome<PE> {
    /// A call may begin.
    Ready,
    /// Not ready yet; ask again later.
    Pending,
    /// An infrastructure-level readiness failure, unwrapped.
    Fail(PE),
}

impl<P: Protocol, S> Upgrade<P, S> {
    /// Maps the wrapped unit of work's readiness report onto the adapter's
    /// own error channel.
    ///
    /// Readiness is the only channel on which infrastructure failures
    /// surface: the `PollReady` variant is unwrapped and passed on, nothing
    /// else is translated. A `Model` failure from a readiness check is a
    /// contract violation of the wrapped unit of work, not a runtime
    /// condition; it is excluded here, and a driver that observes one must
    /// fail fatally rather than continue.
    pub fn check_ready<E, PE>(&self, ev: ReadyEvent<E, PE>) -> (outcome: ReadyOutcome<PE>)
        requires
            !(ev matches ReadyEvent::Failed(OperationError::Model(_))),
        ensures
            ev is Ready ==> outcome is Ready,
            ev is Pending ==> outcome is Pending,
            (ev matches ReadyEvent::Failed(OperationError::PollReady(pe)) ==> outcome
                == ReadyOutcome::Fail(pe)),
            (outcome matches ReadyOutcome::Fail(pe) ==> ev == ReadyEvent::<E, PE>::Failed(
                OperationError::PollReady(pe),
            )),
    {
        match ev {
            ReadyEvent::Ready => ReadyOutcome::Ready,
            ReadyEvent::Pending => ReadyOutcome::Pending,
            ReadyEvent::Failed(err) => match err {
                OperationError::PollReady(pe) => ReadyOutcome::Fail(pe),
                OperationError::Model(_) => unreached(),
            },
        }
    }
}

impl<P: Protocol, S: Clone> Upgrade<P, S> {
    /// Begins one call: produces a fresh execution over a clone of the
    /// wrapped unit of work, in the decode phase, with nothing yet observed.
    /// The decode computation itself is owned and driven by the caller's
    /// scheduler; its progress reaches the execution as [`DecodeEvent`]s.
    pub fn invoke(&self) -> (execution: Execution<P, S>)
        ensures
            cloned::<S>(self.inner, execution.service),
            execution.phase is Decoding,
            execution.decoded@ is None,
            execution.settled@ is None,
            execution.response@ is None,
            execution.wf(),
    {
        Execution {
            service: self.inner.clone(),
            phase: Phase::Decoding,
            decoded: Ghost(None),
            settled: Ghost(None),
            response: Ghost(None),
        }
    }
}

/// The phase of an execution. An execution starts in `Decoding`, may reach
/// `Invoking` only through a successful decode, and ends in `Done` once it
/// has produced its single response; a finished execution accepts no further
/// events.
#[derive(Clone, Copy, Debug, PartialEq, Eq)]
pub enum Phase {
    /// Awaiting the decoded input and context.
    Decoding,
    /// Awaiting the wrapped unit of work's result.
    Invoking,
    /// The call has produced its one transport response.
    Done,
}

/// What the driver observed of the decode computation.
pub enum DecodeEvent<I, X, F> {
    /// The decode computation has not finished.
    Pending,
    /// Decoding produced the operation's input and context.
    Decoded(I, X),
    /// Decoding failed; the failure is response-convertible.
    Failed(F),
}

/// What the execution tells the driver to do after a decode event.
pub enum DecodeStep<I, X, R> {
    /// Suspend; deliver another decode event when there is progress.
    Suspend,
    /// Hand exactly this pair to the wrapped unit of work, then start
    /// delivering invoke events. This is a same-turn continuation: the driver
    /// proceeds at once, without yielding to its scheduler.
    Invoke(I, X),
    /// The call is over; yield this response as a successful outcome.
    Respond(R),
}

/// What the driver observed of the invocation computation.
pub enum InvokeEvent<O, E, PE> {
    /// The invocation has not finished.
    Pending,
    /// The unit of work returned a success value.
    Output(O),
    /// The unit of work failed.
    Failed(OperationError<E, PE>),
}

/// What the execution tells the driver to do after an invoke event.
pub enum InvokeStep<R> {
    /// Suspend; deliver another invoke event when there is progress.
    Suspend,
    /// The call is over; yield this response as a successful outcome.
    Respond(R),
}

/// The per-call execution state machine.
///
/// It owns a clone of the wrapped unit of work and drives exactly two
/// sequential phases, decode then invoke, collapsing all terminal outcomes
/// into a single transport response. The ghost fields record how each phase
/// ended; [`Execution::wf`] ties every reachable state to that history.
pub struct Execution<P: Protocol, S> {
    /// This execution's own clone of the wrapped unit of work. The driver
    /// calls it exactly when told to by [`DecodeStep::Invoke`].
    pub service: S,
    /// The current phase.
    pub phase: Phase,
    /// How the decode phase ended, if it has: the decoded pair, or the
    /// decode failure.
    pub decoded: Ghost<Option<Result<(P::Input, P::Context), P::DecodeFailure>>>,
    /// How the invocation ended, if one ran: the output, or the business
    /// failure. A readiness failure cannot be recorded here at all.
    pub settled: Ghost<Option<Result<P::Output, P::Error>>>,
    /// The terminal response, once the call is over.
    pub response: Ghost<Option<P::Response>>,
}

impl<P: Protocol, S> Execution<P, S> {
    /// The abstract state of this execution: its phase and ghost history.
    pub open spec fn abs(self) -> ExecutionState<P> {
        ExecutionState {
            phase: self.phase,
            decoded: self.decoded@,
            settled: self.settled@,
            response: self.response@,
        }
    }

    /// Every reachable execution state satisfies this invariant: the phase
    /// matches the recorded history, the invoke phase is reachable only
    /// through a successful decode, and a finished call's response is exactly
    /// the protocol's encoding of the value that ended it.
    pub open spec fn wf(self) -> bool {
        wf_state(self.abs())
    }

    /// Advances the decode phase with one observation of the decode
    /// computation.
    ///
    /// While decoding is pending the execution suspends unchanged. A decoded
    /// pair is handed on to the wrapped unit of work — this is the only place
    /// an invocation is ever demanded, and it carries exactly the decoded
    /// pair. A decode failure ends the call at once, without the unit of
    /// work, and its response is the protocol's encoding of the failure.
    pub fn advance_decoding(&mut self, ev: DecodeEvent<P::Input, P::Context, P::DecodeFailure>)
        -> (step: DecodeStep<P::Input, P::Context, P::Response>)
        requires
            old(self).wf(),
            old(self).phase is Decoding,
        ensures
            final(self).wf(),
            final(self).service == old(self).service,
            decode_transition(old(self).abs(), ev) == (final(self).abs(), step),
            ev is Pending ==> *final(self) == *old(self) && step is Suspend,
            (ev matches DecodeEvent::Decoded(i, x) ==> {
                &&& step == DecodeStep::<P::Input, P::Context, P::Response>::Invoke(i, x)
                &&& final(self).phase is Invoking
                &&& final(self).decoded@ == Some(
                    Ok::<(P::Input, P::Context), P::DecodeFailure>((i, x)),
                )
                &&& final(self).settled@ is None
                &&& final(self).response@ is None
            }),
            (ev matches DecodeEvent::Failed(f) ==> {
                &&& step == DecodeStep::<P::Input, P::Context, P::Response>::Respond(
                    P::encode_decode_failure_spec(f),
                )
                &&& final(self).phase is Done
                &&& final(self).decoded@ == Some(
                    Err::<(P::Input, P::Context), P::DecodeFailure>(f),
                )
                &&& final(self).settled@ is None
                &&& final(self).response@ == Some(P::encode_decode_failure_spec(f))
            }),
    {
        match ev {
            DecodeEvent::Pending => DecodeStep::Suspend,
            DecodeEvent::Decoded(i, x) => {
                self.decoded = Ghost(Some(Ok((i, x))));
                self.phase = Phase::Invoking;
                DecodeStep::Invoke(i, x)
            },
            DecodeEvent::Failed(f) => {
                self.decoded = Ghost(Some(Err(f)));
                self.phase = Phase::Done;
                let r = P::encode_decode_failure(f);
                self.response = Ghost(Some(r));
                DecodeStep::Respond(r)
            },
        }
    }

    /// Advances the invoke phase with one observation of the invocation
    /// computation.
    ///
    /// While the invocation is pending the execution suspends unchanged. A
    /// success value or a business failure ends the call, and the response is
    /// the protocol's encoding of that very value. A readiness failure inside
    /// an active call is a contract violation of the wrapped unit of work —
    /// readiness was checked before the call began — so it is excluded here,
    /// and a driver that observes one must fail fatally rather than continue.
    pub fn advance_invoking<PE>(&mut self, ev: InvokeEvent<P::Output, P::Error, PE>)
        -> (step: InvokeStep<P::Response>)
        requires
            old(self).wf(),
            old(self).phase is Invoking,
            !(ev matches InvokeEvent::Failed(OperationError::PollReady(_))),
        ensures
            final(self).wf(),
            final(self).service == old(self).service,
            final(self).decoded@ == old(self).decoded@,
            invoke_transition(old(self).abs(), ev) == (final(self).abs(), step),
            ev is Pending ==> *final(self) == *old(self) && step is Suspend,
            (ev matches InvokeEvent::Output(o) ==> {
                &&& step == InvokeStep::<P::Response>::Respond(P::encode_output_spec(o))
                &&& final(self).phase is Done
                &&& final(self).settled@ == Some(Ok::<P::Output, P::Error>(o))
                &&& final(self).response@ == Some(P::encode_output_spec(o))
            }),
            (ev matches InvokeEvent::Failed(OperationError::Model(e)) ==> {
                &&& step == InvokeStep::<P::Response>::Respond(P::encode_error_spec(e))
                &&& final(self).phase is Done
                &&& final(self).settled@ == Some(Err::<P::Output, P::Error>(e))
                &&& final(self).response@ == Some(P::encode_error_spec(e))
            }),
    {
        match ev {
            InvokeEvent::Pending => InvokeStep::Suspend,
            InvokeEvent::Output(o) => {
                self.settled = Ghost(Some(Ok(o)));
                self.phase = Phase::Done;
                let r = P::encode_output(o);
                self.response = Ghost(Some(r));
                InvokeStep::Respond(r)
            },
            InvokeEvent::Failed(err) => match err {
                OperationError::Model(e) => {
                    self.settled = Ghost(Some(Err(e)));
                    self.phase = Phase::Done;
                    let r = P::encode_error(e);
                    self.response = Ghost(Some(r));
                    InvokeStep::Respond(r)
                },
                OperationError::PollReady(_) => unreached(),
            },
        }
    }
}

/// Law: a decode failure settles the call without the wrapped unit of work.
/// In every well-formed execution whose decode phase ended in failure `f`,
/// the call is over, no invocation result exists — the unit of work was never
/// handed the call — and the response is exactly the protocol's encoding of
/// `f`.
pub proof fn lemma_decode_failure_skips_invocation<P: Protocol, S>(
    execution: Execution<P, S>,
    f: P::DecodeFailure,
)
    requires
        execution.wf(),
        execution.decoded@ == Some(Err::<(P::Input, P::Context), P::DecodeFailure>(f)),
    ensures
        execution.phase is Done,
        execution.settled@ is None,
        execution.response@ == Some(P::encode_decode_failure_spec(f)),
{
}

/// Law: the wrapped unit of work runs only after a successful decode. In
/// every well-formed execution that is invoking, or that holds an invocation
/// result, the decode phase ended with a decoded pair.
pub proof fn lemma_invocation_requires_decode<P: Protocol, S>(execution: Execution<P, S>)
    requires
        execution.wf(),
        execution.phase is Invoking || execution.settled@ is Some,
    ensures
        execution.decoded@ matches Some(Ok(_)),
{
}

/// Law: at most one invocation per execution. An invocation is demanded only
/// by [`Execution::advance_decoding`], which requires the decode phase; in
/// any well-formed execution still in the decode phase nothing has been
/// decoded, so no invocation has been recorded either — and every step out
/// of the decode phase leaves it for good.
pub proof fn lemma_invocation_at_most_once<P: Protocol, S>(execution: Execution<P, S>)
    requires
        execution.wf(),
        execution.phase is Decoding,
    ensures
        execution.decoded@ is None,
        execution.settled@ is None,
{
}

/// Law: every terminal response encodes one of the three business outcomes —
/// a decode failure, a success value, or a business failure. A readiness
/// failure is never among them: it has no representation in an execution's
/// history, so no response can derive from one.
pub proof fn lemma_response_provenance<P: Protocol, S>(execution: Execution<P, S>)
    requires
        execution.wf(),
        execution.phase is Done,
    ensures
        execution.response@ is Some,
        ({
            ||| exists|f: P::DecodeFailure|
                execution.decoded@ == Some(Err::<(P::Input, P::Context), P::DecodeFailure>(f))
                    && execution.response@ == Some(P::encode_decode_failure_spec(f))
            ||| exists|o: P::Output|
                execution.settled@ == Some(Ok::<P::Output, P::Error>(o))
                    && execution.response@ == Some(P::encode_output_spec(o))
            ||| exists|e: P::Error|
                execution.settled@ == Some(Err::<P::Output, P::Error>(e))
                    && execution.response@ == Some(P::encode_error_spec(e))
        }),
{
    match execution.decoded@ {
        None => {
            assert(false);
        },
        Some(Err(f)) => {
            assert(execution.decoded@ == Some(
                Err::<(P::Input, P::Context), P::DecodeFailure>(f),
            ) && execution.response@ == Some(P::encode_decode_failure_spec(f)));
        },
        Some(Ok(_)) => {
            match execution.settled@ {
                None => {
                    assert(false);
                },
                Some(Ok(o)) => {
                    assert(execution.settled@ == Some(Ok::<P::Output, P::Error>(o))
                        && execution.response@ == Some(P::encode_output_spec(o)));
                },
                Some(Err(e)) => {
                    assert(execution.settled@ == Some(Err::<P::Output, P::Error>(e))
                        && execution.response@ == Some(P::encode_error_spec(e)));
                },
            }
        },
    }
}

} // verus!

//! A specification-level model of whole calls.
//!
//! The execution state machine advances one event at a time; its contracts
//! say what each single step does. This module gives the step a purely
//! mathematical form — an abstract state, a transition function, and the
//! replay of a whole event sequence — and proves the properties that span
//! many steps: well-formedness along every run, and that the wrapped unit of
//! work is demanded at most once per call, exactly when decoding succeeds.
//! The machine's own contracts tie each advance to these transitions, so
//! what is proved here holds of every driven execution.

use vstd::prelude::*;

use crate::error::OperationError;
use crate::protocol::Protocol;
use crate::{DecodeEvent, DecodeStep, InvokeEvent, InvokeStep, Phase};

verus! {

/// The abstract state of an execution: its phase together with the history
/// of how each phase ended.
pub struct ExecutionState<P: Protocol> {
    /// The current phase.
    pub phase: Phase,
    /// How the decode phase ended, if it has.
    pub decoded: Option<Result<(P::Input, P::Context), P::DecodeFailure>>,
    /// How the invocation ended, if one ran.
    pub settled: Option<Result<P::Output, P::Error>>,
    /// The terminal response, once the call is over.
    pub response: Option<P::Response>,
}

/// The invariant of reachable execution states: the phase matches the
/// recorded history, the invoke phase is reachable only through a successful
/// decode, and a finished call's response is exactly the protocol's encoding
/// of the value that ended it.
pub open spec fn wf_state<P: Protocol>(s: ExecutionState<P>) -> bool {
    match s.phase {
        Phase::Decoding => {
            &&& s.decoded is None
            &&& s.settled is None
            &&& s.response is None
        },
        Phase::Invoking => {
            &&& s.decoded matches Some(Ok(_))
            &&& s.settled is None
            &&& s.response is None
        },
        Phase::Done => match s.decoded {
            None => false,
            Some(Err(f)) => {
                &&& s.settled is None
                &&& s.response == Some(P::encode_decode_failure_spec(f))
            },
            Some(Ok(_)) => match s.settled {
                None => false,
                Some(Ok(o)) => s.response == Some(P::encode_output_spec(o)),
                Some(Err(e)) => s.response == Some(P::encode_error_spec(e)),
            },
        },
    }
}

/// What one decode event does to the state, and the step demanded of the
/// driver.
pub open spec fn decode_transition<P: Protocol>(
    s: ExecutionState<P>,
    ev: DecodeEvent<P::Input, P::Context, P::DecodeFailure>,
) -> (ExecutionState<P>, DecodeStep<P::Input, P::Context, P::Response>) {
    match ev {
        DecodeEvent::Pending => (s, DecodeStep::Suspend),
        DecodeEvent::Decoded(i, x) => (
            ExecutionState { phase: Phase::Invoking, decoded: Some(Ok((i, x))), ..s },
            DecodeStep::Invoke(i, x),
        ),
        DecodeEvent::Failed(f) => (
            ExecutionState {
                phase: Phase::Done,
                decoded: Some(Err(f)),
                response: Some(P::encode_decode_failure_spec(f)),
                ..s
            },
            DecodeStep::Respond(P::encode_decode_failure_spec(f)),
        ),
    }
}

/// What one invoke event does to the state, and the step demanded of the
/// driver.
pub open spec fn invoke_transition<P: Protocol, PE>(
    s: ExecutionState<P>,
    ev: InvokeEvent<P::Output, P::Error, PE>,
) -> (ExecutionState<P>, InvokeStep<P::Response>) {
    match ev {
        InvokeEvent::Pending => (s, InvokeStep::Suspend),
        InvokeEvent::Output(o) => (
            ExecutionState {
                phase: Phase::Done,
                settled: Some(Ok(o)),
                response: Some(P::encode_output_spec(o)),
                ..s
            },
            InvokeStep::Respond(P::encode_output_spec(o)),
        ),
        InvokeEvent::Failed(err) => match err {
            OperationError::Model(e) => (
                ExecutionState {
                    phase: Phase::Done,
                    settled: Some(Err(e)),
                    response: Some(P::encode_error_spec(e)),
                    ..s
                },
                InvokeStep::Respond(P::encode_error_spec(e)),
            ),
            // Excluded by acceptance; the transition is vacuous.
            OperationError::PollReady(_) => (s, InvokeStep::Suspend),
        },
    }
}

/// One observation a driver may deliver to an execution.
pub enum Event<P: Protocol, PE> {
    /// An observation of the decode computation.
    Decode(DecodeEvent<P::Input, P::Context, P::DecodeFailure>),
    /// An observation of the invocation computation.
    Invoke(InvokeEvent<P::Output, P::Error, PE>),
}

/// Whether the machine accepts the event in state `s`: the preconditions of
/// the advance methods. Decode events belong to the decode phase, invoke
/// events to the invoke phase, and a readiness failure is never accepted
/// inside an active call.
pub open spec fn accepts<P: Protocol, PE>(s: ExecutionState<P>, ev: Event<P, PE>) -> bool {
    match ev {
        Event::Decode(_) => s.phase is Decoding,
        Event::Invoke(iev) => {
            &&& s.phase is Invoking
            &&& !(iev matches InvokeEvent::Failed(OperationError::PollReady(_)))
        },
    }
}

/// The state after one event.
pub open spec fn step_state<P: Protocol, PE>(s: ExecutionState<P>, ev: Event<P, PE>)
    -> ExecutionState<P> {
    match ev {
        Event::Decode(dev) => decode_transition(s, dev).0,
        Event::Invoke(iev) => invoke_transition(s, iev).0,
    }
}

/// The invocation demand, if any, that one event provokes: the decoded pair
/// handed to the wrapped unit of work.
pub open spec fn demanded_pair<P: Protocol, PE>(s: ExecutionState<P>, ev: Event<P, PE>)
    -> Option<(P::Input, P::Context)> {
    if s.phase is Decoding {
        match ev {
            Event::Decode(DecodeEvent::Decoded(i, x)) => Some((i, x)),
            _ => None,
        }
    } else {
        None
    }
}

/// Whether every event of the run is accepted in the state it meets.
pub open spec fn accepted_run<P: Protocol, PE>(s: ExecutionState<P>, evs: Seq<Event<P, PE>>)
    -> bool
    decreases evs.len(),
{
    evs.len() == 0 || {
        &&& accepts(s, evs[0])
        &&& accepted_run(step_state(s, evs[0]), evs.subrange(1, evs.len() as int))
    }
}

/// The state after replaying a whole run.
pub open spec fn run<P: Protocol, PE>(s: ExecutionState<P>, evs: Seq<Event<P, PE>>)
    -> ExecutionState<P>
    decreases evs.len(),
{
    if evs.len() == 0 {
        s
    } else {
        run(step_state(s, evs[0]), evs.subrange(1, evs.len() as int))
    }
}

/// How many invocation demands the run provokes.
pub open spec fn demand_count<P: Protocol, PE>(s: ExecutionState<P>, evs: Seq<Event<P, PE>>)
    -> nat
    decreases evs.len(),
{
    if evs.len() == 0 {
        0
    } else {
        (if demanded_pair(s, evs[0]) is Some {
            1nat
        } else {
            0nat
        }) + demand_count(step_state(s, evs[0]), evs.subrange(1, evs.len() as int))
    }
}

/// Law: along any accepted run from a well-formed state, well-formedness is
/// kept, the wrapped unit of work is demanded at most once, never once the
/// decode phase is over, and — from the decode phase — exactly once precisely
/// when the run decodes successfully.
pub proof fn lemma_run_invokes_at_most_once<P: Protocol, PE>(
    s: ExecutionState<P>,
    evs: Seq<Event<P, PE>>,
)
    requires
        wf_state(s),
        accepted_run(s, evs),
    ensures
        wf_state(run(s, evs)),
        demand_count(s, evs) <= 1,
        !(s.phase is Decoding) ==> demand_count(s, evs) == 0 && run(s, evs).decoded == s.decoded
            && !(run(s, evs).phase is Decoding),
        s.phase is Decoding ==> (demand_count(s, evs) == 1 <==> (run(s, evs).decoded matches Some(
            Ok(_),
        ))),
    decreases evs.len(),
{
    if evs.len() > 0 {
        let s2 = step_state(s, evs[0]);
        let rest = evs.subrange(1, evs.len() as int);
        assert(wf_state(s2));
        lemma_run_invokes_at_most_once(s2, rest);
    }
}

} // verus!

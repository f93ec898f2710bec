//! End-to-end exercises of the adaptation middleware over the plain-text
//! protocol: each test plays the driver, delivering events to an execution
//! and checking the demanded steps and the terminal response.

use upgrade::error::OperationError;
use upgrade::protocol::Protocol;
use upgrade::text::{TextProtocol, TextResponse, STATUS_BAD_REQUEST, STATUS_FAULT, STATUS_OK};
use upgrade::{
    DecodeEvent, DecodeStep, InvokeEvent, InvokeStep, Phase, ReadyEvent, ReadyOutcome,
    UpgradeLayer,
};

type Ev = InvokeEvent<String, String, String>;

#[test]
fn unparseable_body_yields_client_error_without_invocation() {
    let layer = UpgradeLayer::<TextProtocol>::new();
    let adapter = layer.layer(0u8);
    let mut execution = adapter.invoke();
    assert!(matches!(execution.phase, Phase::Decoding));

    let step = execution.advance_decoding(DecodeEvent::Failed("unparseable body".to_string()));
    match step {
        DecodeStep::Respond(r) => {
            assert_eq!(r.status, STATUS_BAD_REQUEST);
            assert_eq!(r.body, "unparseable body");
        }
        _ => panic!("a decode failure must end the call with a response"),
    }
    assert!(matches!(execution.phase, Phase::Done));
}

#[test]
fn success_value_is_encoded_as_the_response() {
    let layer = UpgradeLayer::<TextProtocol>::new();
    let adapter = layer.layer(0u8);
    let mut execution = adapter.invoke();

    let step = execution.advance_decoding(DecodeEvent::Decoded(7, "caller".to_string()));
    match step {
        DecodeStep::Invoke(i, x) => {
            assert_eq!(i, 7);
            assert_eq!(x, "caller");
        }
        _ => panic!("a decoded pair must be handed to the unit of work"),
    }
    assert!(matches!(execution.phase, Phase::Invoking));

    let ev: Ev = InvokeEvent::Output("value seven".to_string());
    let step = execution.advance_invoking(ev);
    match step {
        InvokeStep::Respond(r) => {
            assert_eq!(r.status, STATUS_OK);
            assert_eq!(r.body, "value seven");
        }
        InvokeStep::Suspend => panic!("a finished invocation must end the call"),
    }
    assert!(matches!(execution.phase, Phase::Done));
}

#[test]
fn model_failure_is_encoded_as_the_response() {
    let layer = UpgradeLayer::<TextProtocol>::new();
    let adapter = layer.layer(0u8);
    let mut execution = adapter.invoke();

    execution.advance_decoding(DecodeEvent::Decoded(1, "caller".to_string()));
    let ev: Ev = InvokeEvent::Failed(OperationError::Model("out of stock".to_string()));
    let step = execution.advance_invoking(ev);
    match step {
        InvokeStep::Respond(r) => {
            assert_eq!(r.status, STATUS_FAULT);
            assert_eq!(r.body, "out of stock");
        }
        InvokeStep::Suspend => panic!("a business failure must end the call"),
    }
    assert!(matches!(execution.phase, Phase::Done));
}

#[test]
fn pending_decode_suspends_and_resumes() {
    let layer = UpgradeLayer::<TextProtocol>::new();
    let adapter = layer.layer(0u8);
    let mut execution = adapter.invoke();

    for _ in 0..2 {
        let step = execution.advance_decoding(DecodeEvent::Pending);
        assert!(matches!(step, DecodeStep::Suspend));
        assert!(matches!(execution.phase, Phase::Decoding));
    }

    let step = execution.advance_decoding(DecodeEvent::Decoded(3, "ctx".to_string()));
    assert!(matches!(step, DecodeStep::Invoke(3, x) if x == "ctx"));
}

#[test]
fn pending_invocation_suspends_and_resumes() {
    let layer = UpgradeLayer::<TextProtocol>::new();
    let adapter = layer.layer(0u8);
    let mut execution = adapter.invoke();
    execution.advance_decoding(DecodeEvent::Decoded(3, "ctx".to_string()));

    for _ in 0..2 {
        let ev: Ev = InvokeEvent::Pending;
        let step = execution.advance_invoking(ev);
        assert!(matches!(step, InvokeStep::Suspend));
        assert!(matches!(execution.phase, Phase::Invoking));
    }

    let ev: Ev = InvokeEvent::Output("three".to_string());
    let step = execution.advance_invoking(ev);
    assert!(matches!(step, InvokeStep::Respond(r) if r.status == STATUS_OK && r.body == "three"));
}

#[test]
fn readiness_pending_then_ready_gates_invocation() {
    let layer = UpgradeLayer::<TextProtocol>::new();
    let adapter = layer.layer(0u8);

    let pending: ReadyEvent<String, String> = ReadyEvent::Pending;
    assert!(matches!(adapter.check_ready(pending), ReadyOutcome::Pending));

    let ready: ReadyEvent<String, String> = ReadyEvent::Ready;
    assert!(matches!(adapter.check_ready(ready), ReadyOutcome::Ready));

    // Only now, with readiness observed, does the server loop begin the call.
    let execution = adapter.invoke();
    assert!(matches!(execution.phase, Phase::Decoding));
}

#[test]
fn readiness_failure_is_unwrapped_on_the_error_channel() {
    let layer = UpgradeLayer::<TextProtocol>::new();
    let adapter = layer.layer(0u8);

    let ev: ReadyEvent<String, String> =
        ReadyEvent::Failed(OperationError::PollReady("overloaded".to_string()));
    let outcome = adapter.check_ready(ev);
    assert!(matches!(outcome, ReadyOutcome::Fail(pe) if pe == "overloaded"));
}

#[test]
fn dropping_mid_decode_is_quiet() {
    let layer = UpgradeLayer::<TextProtocol>::new();
    let adapter = layer.layer(0u8);
    let mut execution = adapter.invoke();
    let step = execution.advance_decoding(DecodeEvent::Pending);
    assert!(matches!(step, DecodeStep::Suspend));
    drop(execution);
}

#[test]
fn dropping_mid_invocation_is_quiet() {
    let layer = UpgradeLayer::<TextProtocol>::new();
    let adapter = layer.layer(0u8);
    let mut execution = adapter.invoke();
    execution.advance_decoding(DecodeEvent::Decoded(9, "ctx".to_string()));
    let ev: Ev = InvokeEvent::Pending;
    let step = execution.advance_invoking(ev);
    assert!(matches!(step, InvokeStep::Suspend));
    drop(execution);
}

#[test]
fn cloned_adapters_drive_independent_executions() {
    let layer = UpgradeLayer::<TextProtocol>::new();
    let adapter = layer.layer(5u8);
    let twin = adapter.clone();
    assert_eq!(twin.inner, 5u8);

    let mut first = adapter.invoke();
    let mut second = twin.invoke();

    // Interleave the two calls; neither disturbs the other.
    first.advance_decoding(DecodeEvent::Decoded(1, "a".to_string()));
    let step = second.advance_decoding(DecodeEvent::Failed("bad".to_string()));
    assert!(matches!(step, DecodeStep::Respond(r) if r.status == STATUS_BAD_REQUEST));

    let ev: Ev = InvokeEvent::Output("one".to_string());
    let step = first.advance_invoking(ev);
    assert!(matches!(step, InvokeStep::Respond(r) if r.status == STATUS_OK && r.body == "one"));
}

#[test]
fn factory_is_constructible_by_default_and_by_new() {
    let by_default = UpgradeLayer::<TextProtocol>::default();
    let by_new = UpgradeLayer::<TextProtocol>::new();
    let first = by_default.layer(1u8).invoke();
    let second = by_new.layer(1u8).invoke();
    assert!(matches!(first.phase, Phase::Decoding));
    assert!(matches!(second.phase, Phase::Decoding));
}

#[test]
fn text_encoders_produce_exact_responses() {
    assert_eq!(
        <TextProtocol as Protocol>::encode_output("ok".to_string()),
        TextResponse { status: STATUS_OK, body: "ok".to_string() }
    );
    assert_eq!(
        <TextProtocol as Protocol>::encode_error("broken".to_string()),
        TextResponse { status: STATUS_FAULT, body: "broken".to_string() }
    );
    assert_eq!(
        <TextProtocol as Protocol>::encode_decode_failure("garbled".to_string()),
        TextResponse { status: STATUS_BAD_REQUEST, body: "garbled".to_string() }
    );
}

use rs_queue_processor::endpoint::{local_endpoint, SQS_LOCAL_REGION};
use rs_queue_processor::dispatch::{plan_ack, plan_dispatch, TransportCall};
use rs_queue_processor::errors::{ProcessorError, WorkError};
use rs_queue_processor::lifecycle::{Consumer, ConsumerState, TickAction};
use rs_queue_processor::model::{Message, QueueMessage, WorkLoad};
use rs_queue_processor::policy::{decide, outcome, AckAction, Handled, DEFAULT_REQUEUE_DELAY};

fn message(handle: Option<&str>, body: Option<&str>) -> QueueMessage {
    QueueMessage::new(
        Some("id-1".to_owned()),
        handle.map(|h| h.to_owned()),
        body.map(|b| b.to_owned()),
    )
}

#[test]
fn policy_deletes_success_and_permanent_failures() {
    assert_eq!(AckAction::Delete, decide(&Ok(())));
    assert_eq!(
        AckAction::Delete,
        decide(&Err(WorkError::UnRecoverableError("bad".to_owned())))
    );
    assert_eq!(
        AckAction::Requeue(10),
        decide(&Err(WorkError::RecoverableError("busy".to_owned())))
    );
    assert_eq!(10, DEFAULT_REQUEUE_DELAY);
}

#[test]
fn success_deletes_by_handle() {
    let m = message(Some("h-1"), Some(r#"{"msg":"ok"}"#));
    let plan = plan_dispatch(&m, Handled::Returned(Ok(())));
    assert_eq!(Ok(()), plan.outcome);
    assert_eq!(Some(TransportCall::Delete("h-1".to_owned())), plan.call);
}

#[test]
fn recoverable_resends_original_body() {
    let m = message(Some("h-2"), Some(r#"{"msg":"retry"}"#));
    let failure = Err(WorkError::RecoverableError("busy".to_owned()));
    let plan = plan_dispatch(&m, Handled::Returned(failure.clone()));
    assert_eq!(failure, plan.outcome);
    assert_eq!(
        Some(TransportCall::Resend(r#"{"msg":"retry"}"#.to_owned(), 10)),
        plan.call
    );
}

#[test]
fn fault_counts_as_permanent_failure() {
    let m = message(Some("h-3"), Some(r#"{"msg":"boom"}"#));
    let plan = plan_dispatch(&m, Handled::Faulted("boom".to_owned()));
    assert_eq!(
        Err(WorkError::UnRecoverableError(
            "The worker failed unexpectedly: boom".to_owned()
        )),
        plan.outcome
    );
    assert_eq!(Some(TransportCall::Delete("h-3".to_owned())), plan.call);

    let mut consumer = Consumer::new();
    consumer.start();
    assert_eq!(1, consumer.on_batch(1));
    consumer.on_dispatch_end();
    assert_eq!(TickAction::Fetch, consumer.on_tick());
}

#[test]
fn unrecoverable_deletes_and_sends_nothing() {
    let m = message(Some("h-4"), Some("x"));
    let call = plan_ack(&m, &Err(WorkError::UnRecoverableError("bad".to_owned())));
    assert_eq!(Some(TransportCall::Delete("h-4".to_owned())), call);
}

#[test]
fn no_handle_no_call_whatever_the_outcome() {
    let m = message(None, Some("x"));
    assert_eq!(None, plan_ack(&m, &Ok(())));
    assert_eq!(
        None,
        plan_ack(&m, &Err(WorkError::RecoverableError("r".to_owned())))
    );
    assert_eq!(
        None,
        plan_ack(&m, &Err(WorkError::UnRecoverableError("u".to_owned())))
    );
    assert_eq!(None, plan_dispatch(&m, Handled::Faulted("f".to_owned())).call);
}

#[test]
fn requeue_without_body_sends_empty_text() {
    let m = message(Some("h-5"), None);
    let call = plan_ack(&m, &Err(WorkError::RecoverableError("r".to_owned())));
    assert_eq!(Some(TransportCall::Resend(String::new(), 10)), call);
}

#[test]
fn returned_outcome_is_kept() {
    let failure = Err(WorkError::UnRecoverableError("kept".to_owned()));
    assert_eq!(failure.clone(), outcome(Handled::Returned(failure)));
}

#[test]
fn lifecycle_start_stop_drain() {
    let mut c = Consumer::new();
    assert_eq!(ConsumerState::Created, c.state());
    assert_eq!(TickAction::Idle, c.on_tick());
    assert!(!c.stop());
    assert!(c.start());
    assert!(!c.start());
    assert_eq!(TickAction::Fetch, c.on_tick());
    assert_eq!(3, c.on_batch(3));
    assert_eq!(3, c.in_flight());
    assert!(c.stop());
    assert_eq!(ConsumerState::Stopping, c.state());
    assert!(!c.stop());
    assert_eq!(TickAction::Idle, c.on_tick());
    assert_eq!(0, c.on_batch(4));
    c.on_dispatch_end();
    c.on_dispatch_end();
    assert_eq!(ConsumerState::Stopping, c.state());
    c.on_dispatch_end();
    assert_eq!(ConsumerState::Stopped, c.state());
    assert!(c.start());
    assert_eq!(ConsumerState::Running, c.state());
}

#[test]
fn stop_with_nothing_in_flight_stops_at_once() {
    let mut c = Consumer::new();
    c.start();
    assert!(c.stop());
    assert_eq!(ConsumerState::Stopped, c.state());
}

#[test]
fn drain_timeout_reports_outstanding_dispatches() {
    let mut c = Consumer::new();
    c.start();
    c.on_batch(5);
    c.on_dispatch_end();
    c.stop();
    assert_eq!(4, c.on_drain_timeout());
    assert_eq!(ConsumerState::Stopped, c.state());
    assert_eq!(0, c.in_flight());
    assert_eq!(0, c.on_drain_timeout());
}

#[test]
fn empty_batches_twice_change_nothing() {
    let mut c = Consumer::new();
    c.start();
    assert_eq!(0, c.on_batch(0));
    assert_eq!(0, c.on_batch(0));
    assert_eq!(0, c.in_flight());
    assert_eq!(ConsumerState::Running, c.state());
    assert_eq!(TickAction::Fetch, c.on_tick());
}

#[test]
fn whole_batch_dispatched_and_ticks_go_on() {
    let mut c = Consumer::new();
    c.start();
    assert_eq!(10, c.on_batch(10));
    assert_eq!(TickAction::Fetch, c.on_tick());
    assert_eq!(10, c.on_batch(10));
    assert_eq!(20, c.in_flight());
}

#[test]
fn error_descriptions() {
    assert_eq!(
        "A recoverable error occurred: busy",
        WorkError::RecoverableError("busy".to_owned()).describe()
    );
    assert_eq!(
        "A unrecoverable error occurred: bad",
        WorkError::UnRecoverableError("bad".to_owned()).describe()
    );
    assert_eq!(
        "A command line error occurred: Invalid Port",
        ProcessorError::CommandLineError("Invalid Port").describe()
    );
    let wrapped = ProcessorError::from(WorkError::RecoverableError("busy".to_owned()));
    assert_eq!(
        "A work error occurred: A recoverable error occurred: busy",
        wrapped.describe()
    );
    assert_eq!(
        Some(&WorkError::RecoverableError("busy".to_owned())),
        wrapped.work_error()
    );
    assert_eq!("An unknown error occurred", ProcessorError::Unknown.describe());
    assert_eq!(
        "Error Sending message timeout",
        ProcessorError::SqsSendMessageError("timeout".to_owned()).describe()
    );
}

#[test]
fn message_new_keeps_fields() {
    let w = WorkLoad {
        text: "hello".to_owned(),
    };
    let m = Message::new(Some("h".to_owned()), None, Some(w.clone()));
    assert_eq!(Some("h".to_owned()), m.receipt_handle);
    assert_eq!(None, m.message_id);
    assert_eq!(Some(w), m.work_load);
}

#[test]
fn local_endpoint_names_the_port() {
    assert_eq!("http://localhost:9324", local_endpoint(9324));
    assert_eq!("http://localhost:0", local_endpoint(0));
    assert_eq!("http://localhost:4294967295", local_endpoint(u32::MAX));
    assert_eq!("sqs-local", SQS_LOCAL_REGION);
}

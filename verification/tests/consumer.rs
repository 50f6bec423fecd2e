use relay::consumer::{LoopAction, LoopEvent, LoopState, QueueConsumer};
use relay::sink::SinkResponse;
use relay::supervisor::{finished_line, group_done};

fn deliver(text: &str) -> LoopEvent {
    LoopEvent::Delivered { payload: text.as_bytes().to_vec() }
}

fn reached(status: u16, body: &str) -> LoopEvent {
    LoopEvent::SinkReplied {
        response: SinkResponse::Reached { status, body: body.to_string() },
    }
}

fn transport_failed(detail: &str) -> LoopEvent {
    LoopEvent::SinkReplied {
        response: SinkResponse::TransportError { detail: detail.to_string() },
    }
}

fn expect_call_sink(action: LoopAction) -> (String, String) {
    match action {
        LoopAction::CallSink { collection, record } => (collection, record),
        _ => panic!("expected a sink call"),
    }
}

#[test]
fn production_success_roundtrip() {
    let mut consumer = QueueConsumer::new("production".to_string());
    assert!(matches!(consumer.state, LoopState::Waiting));

    let event = deliver("42.0");
    assert!(consumer.accepts(&event));
    let (collection, record) = expect_call_sink(consumer.step(event));
    assert_eq!(collection, "production");
    assert_eq!(record, "42.0");

    let reply = reached(201, "");
    assert!(consumer.accepts(&reply));
    assert!(matches!(consumer.step(reply), LoopAction::Acknowledge));

    assert!(matches!(consumer.state, LoopState::Waiting));
    assert!(consumer.accepts(&deliver("next")));
}

#[test]
fn application_error_still_acked() {
    let mut consumer = QueueConsumer::new("production".to_string());
    let (_, record) = expect_call_sink(consumer.step(deliver("43.0")));
    assert_eq!(record, "43.0");

    assert!(matches!(consumer.step(reached(500, "db error")), LoopAction::Acknowledge));
    assert!(matches!(consumer.state, LoopState::Waiting));
}

#[test]
fn transport_error_not_acked() {
    let mut consumer = QueueConsumer::new("production".to_string());
    expect_call_sink(consumer.step(deliver("44.0")));

    let reply = transport_failed("connection refused");
    assert!(matches!(consumer.step(reply), LoopAction::AwaitNext));

    assert!(matches!(consumer.state, LoopState::Waiting));
    assert!(consumer.accepts(&deliver("45.0")));
}

#[test]
fn invalid_utf8_terminates_loop() {
    let mut consumer = QueueConsumer::new("storage".to_string());
    let event = LoopEvent::Delivered { payload: vec![0xff, 0xfe, 0x80] };
    assert!(consumer.accepts(&event));
    assert!(matches!(consumer.step(event), LoopAction::Stop));

    assert!(matches!(consumer.state, LoopState::Terminated));
    assert!(!consumer.accepts(&deliver("later")));
    assert!(!consumer.accepts(&LoopEvent::StreamEnded));
    assert!(!consumer.accepts(&reached(200, "")));
}

#[test]
fn stream_end_terminates_loop() {
    let mut consumer = QueueConsumer::new("consumption".to_string());
    assert!(matches!(consumer.step(LoopEvent::StreamEnded), LoopAction::Stop));
    assert!(matches!(consumer.state, LoopState::Terminated));
}

#[test]
fn forwards_in_delivery_order() {
    let mut consumer = QueueConsumer::new("production".to_string());
    let mut records = Vec::new();
    for text in ["1.0", "2.0", "3.0"] {
        let (collection, record) = expect_call_sink(consumer.step(deliver(text)));
        assert_eq!(collection, "production");
        records.push(record);
        assert!(matches!(consumer.step(reached(201, "")), LoopAction::Acknowledge));
    }
    assert_eq!(records, vec!["1.0", "2.0", "3.0"]);
}

#[test]
fn sink_reply_not_accepted_while_waiting() {
    let consumer = QueueConsumer::new("production".to_string());
    assert!(!consumer.accepts(&reached(200, "")));
}

#[test]
fn group_ends_when_second_loop_ends() {
    let states = vec![LoopState::Waiting, LoopState::Terminated, LoopState::Waiting];
    assert_eq!(group_done(&states), Some(1));
}

#[test]
fn group_runs_while_no_loop_ended() {
    let states = vec![
        LoopState::Waiting,
        LoopState::Forwarding { record: "42.0".to_string() },
        LoopState::Waiting,
    ];
    assert_eq!(group_done(&states), None);
}

#[test]
fn received_line_carries_the_record() {
    assert_eq!(relay::consumer::received_line("42.0"), "Received message: 42.0");
}

#[test]
fn finished_line_names_the_consumer() {
    assert_eq!(finished_line("production_consumer"), "production_consumer finished");
}

use jetstream_oxide::error::JetstreamEventError;
use jetstream_oxide::task::{step, TaskAction, TaskEvent, WebSocketMessage};

const EVENT: &str = r#"{"did":"did:plc:rfov6bpyztcnedeyyzgfq42k","time_us":1725516666833633,"kind":"commit"}"#;

#[test]
fn text_is_parsed_unchanged() {
    let action = step(TaskEvent::Received(WebSocketMessage::Text(EVENT.to_string())),
        &[],
    );
    match action {
        TaskAction::ParseJson(json) => assert_eq!(json, EVENT),
        other => panic!("unexpected action: {:?}", other),
    }
}

#[test]
fn binary_is_decompressed() {
    let frame = zstd::stream::encode_all(EVENT.as_bytes(), 3).unwrap();
    let action = step(TaskEvent::Received(WebSocketMessage::Binary(frame)), &[]);
    match action {
        TaskAction::ParseJson(json) => assert_eq!(json, EVENT),
        other => panic!("unexpected action: {:?}", other),
    }
}

#[test]
fn binary_with_dictionary_is_decompressed() {
    let dictionary: Vec<u8> = EVENT.repeat(4).into_bytes();
    let frame = zstd::bulk::Compressor::with_dictionary(3, &dictionary)
        .unwrap()
        .compress(EVENT.as_bytes())
        .unwrap();
    let action = step(TaskEvent::Received(WebSocketMessage::Binary(frame)), &dictionary);
    match action {
        TaskAction::ParseJson(json) => assert_eq!(json, EVENT),
        other => panic!("unexpected action: {:?}", other),
    }
}

#[test]
fn corrupt_binary_stops_with_decoder_error() {
    let action = step(TaskEvent::Received(WebSocketMessage::Binary(vec![1, 2, 3, 4, 5, 6, 7, 8])),
        &[],
    );
    assert!(matches!(
        action,
        TaskAction::Stop(Err(JetstreamEventError::CompressionDecoderError(_)))
    ));
}

#[test]
fn other_messages_are_skipped() {
    let action = step(TaskEvent::Received(WebSocketMessage::Other), &[]);
    assert!(matches!(action, TaskAction::ReadNext));
}

#[test]
fn read_failure_and_end_stop_cleanly() {
    let action = step(TaskEvent::ReadFailed, &[]);
    assert!(matches!(action, TaskAction::Stop(Ok(()))));
    let action = step(TaskEvent::StreamEnded, &[]);
    assert!(matches!(action, TaskAction::Stop(Ok(()))));
}

#[test]
fn parsed_event_is_delivered() {
    let action = step(TaskEvent::Parsed(Ok(())), &[]);
    assert!(matches!(action, TaskAction::Deliver));
}

#[test]
fn malformed_json_stops_with_error() {
    let error = serde_json::from_str::<serde_json::Value>("{\"kind\":").unwrap_err();
    let action = step(TaskEvent::Parsed(Err(error)), &[]);
    assert!(matches!(
        action,
        TaskAction::Stop(Err(JetstreamEventError::ReceivedMalformedJSON(_)))
    ));
}

#[test]
fn delivery_outcomes() {
    let action = step(TaskEvent::Delivered(true), &[]);
    assert!(matches!(action, TaskAction::ReadNext));
    let action = step(TaskEvent::Delivered(false), &[]);
    assert!(matches!(action, TaskAction::Stop(Ok(()))));
}

use wasm_mt_hotswap_example::message::{
    callback_message, done_message, reclaim_action, work_message, FieldName, FieldValue, JsPayload,
    MessageType, PointerField, ReceivedMessage, ReclaimAction, WorkerEvent,
};
use wasm_mt_hotswap_example::text::decimal_text;
use wasm_mt_hotswap_example::work::{child_entry_point, run_work, worker_send_callback, Work};

/// Reads a message the way an `onmessage` handler does.
fn receive(fields: Vec<(FieldName, FieldValue<i32>)>) -> ReceivedMessage<i32> {
    let mut message = ReceivedMessage {
        msg_type: None,
        ptr: PointerField::NotANumber,
        js_payload: Some(JsPayload::Undefined),
    };
    for (name, value) in fields {
        match (name, value) {
            (FieldName::Type, FieldValue::Type(kind)) => {
                message.msg_type = Some(kind.as_str().to_string())
            }
            (FieldName::Ptr, FieldValue::Pointer(ptr)) => message.ptr = PointerField::Number(ptr),
            (FieldName::JsPayload, FieldValue::Payload(payload)) => {
                message.js_payload = Some(payload)
            }
            _ => panic!("a field holds a value of another kind"),
        }
    }
    message
}

#[test]
fn decimal_notation() {
    assert_eq!(decimal_text(0), "0");
    assert_eq!(decimal_text(7), "7");
    assert_eq!(decimal_text(10), "10");
    assert_eq!(decimal_text(9876543210), "9876543210");
    assert_eq!(decimal_text(u64::MAX), "18446744073709551615");
}

#[test]
fn decimal_notation_reads_back() {
    for n in [0u64, 9, 10, 99, 100, 12345, 4294967296] {
        assert_eq!(decimal_text(n).parse::<u64>(), Ok(n));
    }
}

#[test]
fn field_keys() {
    assert_eq!(FieldName::Type.as_str(), "type");
    assert_eq!(FieldName::Ptr.as_str(), "ptr");
    assert_eq!(FieldName::JsPayload.as_str(), "jsPayload");
}

#[test]
fn message_types_read_back() {
    assert_eq!(MessageType::Done.as_str(), "done");
    assert_eq!(MessageType::Callback.as_str(), "callback");
    for kind in [MessageType::Done, MessageType::Callback] {
        assert_eq!(MessageType::parse(&kind.as_str().to_string()), Some(kind));
    }
    assert_eq!(MessageType::parse(&"Done".to_string()), None);
    assert_eq!(MessageType::parse(&"".to_string()), None);
}

#[test]
fn work_message_arrives() {
    let fields = work_message(64, JsPayload::Value(5));
    assert_eq!(fields[0], (FieldName::Ptr, FieldValue::Pointer(64)));
    assert_eq!(
        fields[1],
        (FieldName::JsPayload, FieldValue::Payload(JsPayload::Value(5)))
    );
    assert_eq!(fields.len(), 2);
    let message = receive(fields);
    assert_eq!(message.ptr, PointerField::Number(64));
    assert_eq!(message.js_payload, Some(JsPayload::Value(5)));
}

#[test]
fn done_message_reclaims() {
    let fields = done_message::<i32>();
    assert_eq!(fields, vec![(FieldName::Type, FieldValue::Type(MessageType::Done))]);
    let event = WorkerEvent::Message(receive(fields));
    assert!(!event.is_malformed());
    assert!(matches!(reclaim_action(event), ReclaimAction::Reclaim));
}

#[test]
fn callback_message_runs() {
    let fields = callback_message(128, JsPayload::Value(-3));
    assert_eq!(fields[0].0, FieldName::Type);
    assert_eq!(fields[1].0, FieldName::Ptr);
    assert_eq!(fields[2].0, FieldName::JsPayload);
    match reclaim_action(WorkerEvent::Message(receive(fields))) {
        ReclaimAction::RunCallback { ptr, js_payload } => {
            assert_eq!(ptr, 128);
            assert_eq!(js_payload, JsPayload::Value(-3));
        }
        other => panic!("{:?}", other),
    }
}

#[test]
fn callback_without_readable_payload_gets_undefined() {
    let event: WorkerEvent<i32> = WorkerEvent::Message(ReceivedMessage {
        msg_type: Some("callback".to_string()),
        ptr: PointerField::Number(8),
        js_payload: None,
    });
    match reclaim_action(event) {
        ReclaimAction::RunCallback { ptr, js_payload } => {
            assert_eq!(ptr, 8);
            assert_eq!(js_payload, JsPayload::Undefined);
        }
        other => panic!("{:?}", other),
    }
}

#[test]
fn callback_with_unreadable_pointer_is_ignored() {
    let event: WorkerEvent<i32> = WorkerEvent::Message(ReceivedMessage {
        msg_type: Some("callback".to_string()),
        ptr: PointerField::Unreadable,
        js_payload: Some(JsPayload::Value(1)),
    });
    assert!(!event.is_malformed());
    assert!(matches!(reclaim_action(event), ReclaimAction::Ignore));
}

#[test]
fn callback_with_pointer_of_another_type_is_malformed() {
    let event: WorkerEvent<i32> = WorkerEvent::Message(ReceivedMessage {
        msg_type: Some("callback".to_string()),
        ptr: PointerField::NotANumber,
        js_payload: None,
    });
    assert!(event.is_malformed());
    let done: WorkerEvent<i32> = WorkerEvent::Message(ReceivedMessage {
        msg_type: Some("done".to_string()),
        ptr: PointerField::NotANumber,
        js_payload: None,
    });
    assert!(!done.is_malformed());
}

#[test]
fn unknown_messages_are_ignored() {
    for msg_type in [None, Some("started".to_string())] {
        let event: WorkerEvent<i32> = WorkerEvent::Message(ReceivedMessage {
            msg_type,
            ptr: PointerField::Number(4),
            js_payload: None,
        });
        assert!(matches!(reclaim_action(event), ReclaimAction::Ignore));
    }
    assert!(matches!(
        reclaim_action(WorkerEvent::<i32>::Other),
        ReclaimAction::Ignore
    ));
}

#[test]
fn worker_errors_are_logged() {
    match reclaim_action(WorkerEvent::<i32>::Error("out of memory".to_string())) {
        ReclaimAction::LogError(line) => assert_eq!(line, "error in worker: out of memory"),
        other => panic!("{:?}", other),
    }
}

#[test]
fn payloads_are_cloned() {
    assert_eq!(JsPayload::Value(4).clone(), JsPayload::Value(4));
    assert_eq!(JsPayload::<i32>::Undefined.clone(), JsPayload::Undefined);
}

#[test]
fn worker_runs_its_work_and_reports() {
    let mut seen = Vec::new();
    let reply = child_entry_point(Work { func: |p: i32| seen.push(p) }, 11);
    assert_eq!(reply, vec![(FieldName::Type, FieldValue::Type(MessageType::Done))]);
    assert_eq!(seen, vec![11]);
}

#[test]
fn callback_from_a_worker() {
    let mut seen = 0;
    match worker_send_callback(true, |p: i32| seen = p, JsPayload::Value(21)) {
        Ok(request) => {
            assert_eq!(request.js_payload, JsPayload::Value(21));
            run_work(request.work, 21);
        }
        Err(text) => panic!("{}", text),
    }
    assert_eq!(seen, 21);
}

#[test]
fn callback_from_elsewhere_is_an_error() {
    let res = worker_send_callback(false, |_p: i32| (), JsPayload::Value(0));
    assert_eq!(
        res.err(),
        Some("worker_send_callback can only be called from a web worker".to_string())
    );
}

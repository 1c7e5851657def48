//! The messages that travel between the main thread and its workers.
//!
//! A message is a JavaScript object. Three kinds are in use: the work that the
//! main thread hands to a worker, the notice of a worker that its work is done,
//! and a callback that a worker wants to have run on the main thread.

use vstd::prelude::*;

verus! {

/// A JavaScript value that accompanies a piece of work: `undefined`, or a value
/// that is only carried along.
#[derive(Debug, PartialEq, Eq)]
pub enum JsPayload<P> {
    Undefined,
    Value(P),
}

/// `copy` is what cloning `payload` may give.
pub open spec fn payload_cloned<P: Clone>(payload: JsPayload<P>, copy: JsPayload<P>) -> bool {
    match (payload, copy) {
        (JsPayload::Undefined, JsPayload::Undefined) => true,
        (JsPayload::Value(a), JsPayload::Value(b)) => cloned(a, b),
        _ => false,
    }
}

impl<P: Clone> Clone for JsPayload<P> {
    fn clone(&self) -> (copy: Self)
        ensures
            payload_cloned(*self, copy),
    {
        match self {
            JsPayload::Undefined => JsPayload::Undefined,
            JsPayload::Value(value) => JsPayload::Value(value.clone()),
        }
    }
}

/// The name of a field of a message.
#[derive(Debug, Clone, Copy, PartialEq, Eq, Structural)]
pub enum FieldName {
    Type,
    Ptr,
    JsPayload,
}

impl FieldName {
    /// The key under which the field stands in the JavaScript object.
    pub open spec fn text(self) -> Seq<char> {
        match self {
            FieldName::Type => "type"@,
            FieldName::Ptr => "ptr"@,
            FieldName::JsPayload => "jsPayload"@,
        }
    }

    /// Gives the key of the field.
    pub fn as_str(self) -> (key: &'static str)
        ensures
            key@ == self.text(),
    {
        match self {
            FieldName::Type => "type",
            FieldName::Ptr => "ptr",
            FieldName::JsPayload => "jsPayload",
        }
    }
}

/// What a worker tells the main thread.
#[derive(Debug, Clone, Copy, PartialEq, Eq, Structural)]
pub enum MessageType {
    /// The work is finished and the worker is free again.
    Done,
    /// A piece of work is to be run on the main thread.
    Callback,
}

impl MessageType {
    /// The value of the `type` field.
    pub open spec fn text(self) -> Seq<char> {
        match self {
            MessageType::Done => "done"@,
            MessageType::Callback => "callback"@,
        }
    }

    /// Gives the value of the `type` field.
    pub fn as_str(self) -> (text: &'static str)
        ensures
            text@ == self.text(),
    {
        match self {
            MessageType::Done => "done",
            MessageType::Callback => "callback",
        }
    }

    /// The message type that a `type` field asks for, if it names one.
    pub open spec fn named(text: Seq<char>) -> Option<MessageType> {
        if text == "done"@ {
            Some(MessageType::Done)
        } else if text == "callback"@ {
            Some(MessageType::Callback)
        } else {
            None
        }
    }

    /// Recognises the value of a `type` field.
    pub fn parse(text: &String) -> (res: Option<MessageType>)
        ensures
            res == MessageType::named(text@),
    {
        if *text == "done".to_owned() {
            Some(MessageType::Done)
        } else if *text == "callback".to_owned() {
            Some(MessageType::Callback)
        } else {
            None
        }
    }
}

/// The value of a field of a message.
#[derive(Debug, PartialEq, Eq)]
pub enum FieldValue<P> {
    Type(MessageType),
    Pointer(u32),
    Payload(JsPayload<P>),
}

/// The fields of the message that hands work to a worker: where the work lies
/// and what it is called with.
pub open spec fn work_fields<P>(ptr: u32, js_payload: JsPayload<P>) -> Seq<
    (FieldName, FieldValue<P>),
> {
    seq![
        (FieldName::Ptr, FieldValue::Pointer(ptr)),
        (FieldName::JsPayload, FieldValue::Payload(js_payload)),
    ]
}

/// The fields of the message of a worker that has finished.
pub open spec fn done_fields<P>() -> Seq<(FieldName, FieldValue<P>)> {
    seq![(FieldName::Type, FieldValue::Type(MessageType::Done))]
}

/// The fields of the message of a worker that wants a callback run.
pub open spec fn callback_fields<P>(ptr: u32, js_payload: JsPayload<P>) -> Seq<
    (FieldName, FieldValue<P>),
> {
    seq![
        (FieldName::Type, FieldValue::Type(MessageType::Callback)),
        (FieldName::Ptr, FieldValue::Pointer(ptr)),
        (FieldName::JsPayload, FieldValue::Payload(js_payload)),
    ]
}

/// Builds the message that hands work to a worker. The fields are to be set in
/// this order.
pub fn work_message<P>(ptr: u32, js_payload: JsPayload<P>) -> (fields: Vec<
    (FieldName, FieldValue<P>),
>)
    ensures
        fields@ == work_fields(ptr, js_payload),
{
    let mut fields = Vec::new();
    fields.push((FieldName::Ptr, FieldValue::Pointer(ptr)));
    fields.push((FieldName::JsPayload, FieldValue::Payload(js_payload)));
    fields
}

/// Builds the message of a worker that has finished.
pub fn done_message<P>() -> (fields: Vec<(FieldName, FieldValue<P>)>)
    ensures
        fields@ == done_fields::<P>(),
{
    let mut fields = Vec::new();
    fields.push((FieldName::Type, FieldValue::Type(MessageType::Done)));
    fields
}

/// Builds the message of a worker that wants a callback run. The fields are to
/// be set in this order.
pub fn callback_message<P>(ptr: u32, js_payload: JsPayload<P>) -> (fields: Vec<
    (FieldName, FieldValue<P>),
>)
    ensures
        fields@ == callback_fields(ptr, js_payload),
{
    let mut fields = Vec::new();
    fields.push((FieldName::Type, FieldValue::Type(MessageType::Callback)));
    fields.push((FieldName::Ptr, FieldValue::Pointer(ptr)));
    fields.push((FieldName::JsPayload, FieldValue::Payload(js_payload)));
    fields
}

/// What reading the `ptr` field of a received message gave.
#[derive(Debug, Clone, Copy, PartialEq, Eq, Structural)]
pub enum PointerField {
    /// The message is no object, so it has no fields at all.
    Unreadable,
    /// The field is missing or holds something other than a number.
    NotANumber,
    Number(u32),
}

/// The fields of a received message, as far as they could be read.
#[derive(Debug)]
pub struct ReceivedMessage<P> {
    /// The `type` field, where it is a string.
    pub msg_type: Option<String>,
    /// The `ptr` field.
    pub ptr: PointerField,
    /// The `jsPayload` field, where the message has fields.
    pub js_payload: Option<JsPayload<P>>,
}

/// What a worker's `onmessage` handler is called with.
#[derive(Debug)]
pub enum WorkerEvent<P> {
    /// An error event, with its message.
    Error(String),
    Message(ReceivedMessage<P>),
    Other,
}

impl<P> WorkerEvent<P> {
    /// The message type that the event carries, if it carries one.
    pub open spec fn message_type(self) -> Option<MessageType> {
        match self {
            WorkerEvent::Message(ReceivedMessage { msg_type: Some(text), .. }) => {
                MessageType::named(text@)
            },
            _ => None,
        }
    }

    /// A callback whose pointer is no number: there is no work to run.
    pub open spec fn malformed(self) -> bool {
        &&& self.message_type() == Some(MessageType::Callback)
        &&& self matches WorkerEvent::Message(message)
        &&& message.ptr == PointerField::NotANumber
    }

    /// Gives the message type that the event carries.
    pub fn kind(&self) -> (res: Option<MessageType>)
        ensures
            res == self.message_type(),
    {
        match self {
            WorkerEvent::Message(message) => match &message.msg_type {
                Some(text) => MessageType::parse(text),
                None => None,
            },
            _ => None,
        }
    }

    /// Tells whether the event is a callback whose pointer is no number.
    pub fn is_malformed(&self) -> (res: bool)
        ensures
            res == self.malformed(),
    {
        match (self.kind(), self) {
            (Some(MessageType::Callback), WorkerEvent::Message(message)) => match message.ptr {
                PointerField::NotANumber => true,
                _ => false,
            },
            _ => false,
        }
    }
}

/// What the main thread does about an event of a worker.
#[derive(Debug)]
pub enum ReclaimAction<P> {
    /// Write this line to the console.
    LogError(String),
    /// Put the worker back into the pool.
    Reclaim,
    /// Run the work that lies at `ptr`.
    RunCallback { ptr: u32, js_payload: JsPayload<P> },
    Ignore,
}

/// `action` is what an event of a worker asks for.
///
/// An error is logged. A `done` message gives the worker back. A `callback`
/// message has its work run, with `undefined` where no payload could be read,
/// unless its pointer could not be read. Everything else is passed over.
pub open spec fn asks_for<P>(event: WorkerEvent<P>, action: ReclaimAction<P>) -> bool {
    match event {
        WorkerEvent::Error(message) => {
            &&& action matches ReclaimAction::LogError(line)
            &&& line@ == "error in worker: "@ + message@
        },
        WorkerEvent::Message(message) => match event.message_type() {
            Some(MessageType::Done) => action == ReclaimAction::<P>::Reclaim,
            Some(MessageType::Callback) => match message.ptr {
                PointerField::Number(ptr) => action == (ReclaimAction::RunCallback {
                    ptr,
                    js_payload: match message.js_payload {
                        Some(js_payload) => js_payload,
                        None => JsPayload::Undefined,
                    },
                }),
                _ => action == ReclaimAction::<P>::Ignore,
            },
            None => action == ReclaimAction::<P>::Ignore,
        },
        WorkerEvent::Other => action == ReclaimAction::<P>::Ignore,
    }
}

/// Decides what to do about an event of a worker.
pub fn reclaim_action<P>(event: WorkerEvent<P>) -> (action: ReclaimAction<P>)
    requires
        !event.malformed(),
    ensures
        asks_for(event, action),
{
    let kind = event.kind();
    match event {
        WorkerEvent::Error(message) => ReclaimAction::LogError(
            "error in worker: ".to_owned().concat(message.as_str()),
        ),
        WorkerEvent::Message(message) => match kind {
            Some(MessageType::Done) => ReclaimAction::Reclaim,
            Some(MessageType::Callback) => match message.ptr {
                PointerField::Number(ptr) => ReclaimAction::RunCallback {
                    ptr,
                    js_payload: message.js_payload.unwrap_or(JsPayload::Undefined),
                },
                _ => ReclaimAction::Ignore,
            },
            None => ReclaimAction::Ignore,
        },
        WorkerEvent::Other => ReclaimAction::Ignore,
    }
}

/// The value of the field `name` in an object on which `fields` were set one
/// after the other.
pub open spec fn field_of<P>(fields: Seq<(FieldName, FieldValue<P>)>, name: FieldName) -> Option<
    FieldValue<P>,
>
    decreases fields.len(),
{
    if fields.len() == 0 {
        None
    } else if fields.last().0 == name {
        Some(fields.last().1)
    } else {
        field_of(fields.drop_last(), name)
    }
}

/// `message` is what is read from an object with these fields.
pub open spec fn read_from<P>(
    fields: Seq<(FieldName, FieldValue<P>)>,
    message: ReceivedMessage<P>,
) -> bool {
    &&& match field_of(fields, FieldName::Type) {
        Some(FieldValue::Type(kind)) => {
            &&& message.msg_type matches Some(text)
            &&& text@ == kind.text()
        },
        _ => message.msg_type is None,
    }
    &&& match field_of(fields, FieldName::Ptr) {
        Some(FieldValue::Pointer(ptr)) => message.ptr == PointerField::Number(ptr),
        _ => message.ptr == PointerField::NotANumber,
    }
    &&& match field_of(fields, FieldName::JsPayload) {
        Some(FieldValue::Payload(js_payload)) => message.js_payload == Some(js_payload),
        _ => message.js_payload == Some(JsPayload::<P>::Undefined),
    }
}

/// The keys of different fields differ, so that no field overwrites another.
pub proof fn law_field_keys_differ(a: FieldName, b: FieldName)
    ensures
        a.text() == b.text() ==> a == b,
{
    reveal_strlit("type");
    reveal_strlit("ptr");
    reveal_strlit("jsPayload");
    assert(a.text().len() == b.text().len() ==> a == b);
}

/// A message type is recognised by the text that it is written with, and by no
/// other text.
pub proof fn law_message_type_reads_back(kind: MessageType, text: Seq<char>)
    ensures
        MessageType::named(kind.text()) == Some(kind),
        MessageType::named(text) == Some(kind) ==> text == kind.text(),
{
    reveal_strlit("done");
    reveal_strlit("callback");
    assert("done"@.len() != "callback"@.len());
}

/// A worker reads from a work message the pointer and the payload that were put
/// into it.
pub proof fn law_work_message_arrives<P>(
    ptr: u32,
    js_payload: JsPayload<P>,
    message: ReceivedMessage<P>,
)
    requires
        read_from(work_fields(ptr, js_payload), message),
    ensures
        message.ptr == PointerField::Number(ptr),
        message.js_payload == Some(js_payload),
{
    let fields = work_fields(ptr, js_payload);
    reveal_with_fuel(field_of, 3);
    assert(fields.drop_last() =~= seq![fields[0]]);
}

/// The message of a worker that has finished has the worker put back into the
/// pool, and has nothing else done.
pub proof fn law_done_message_reclaims<P>(message: ReceivedMessage<P>, action: ReclaimAction<P>)
    requires
        read_from(done_fields(), message),
        asks_for(WorkerEvent::Message(message), action),
    ensures
        !WorkerEvent::Message(message).malformed(),
        action == ReclaimAction::<P>::Reclaim,
{
    reveal_with_fuel(field_of, 2);
    law_message_type_reads_back(MessageType::Done, message.msg_type->0@);
}

/// A worker is put back into the pool exactly if it says that it is done.
pub proof fn law_only_done_reclaims<P>(event: WorkerEvent<P>, action: ReclaimAction<P>)
    requires
        asks_for(event, action),
    ensures
        action == ReclaimAction::<P>::Reclaim <==> event.message_type() == Some(MessageType::Done),
{
}

/// The message of a worker that wants a callback run has exactly that work run
/// with exactly that payload.
pub proof fn law_callback_message_runs<P>(
    ptr: u32,
    js_payload: JsPayload<P>,
    message: ReceivedMessage<P>,
    action: ReclaimAction<P>,
)
    requires
        read_from(callback_fields(ptr, js_payload), message),
        asks_for(WorkerEvent::Message(message), action),
    ensures
        !WorkerEvent::Message(message).malformed(),
        action == (ReclaimAction::RunCallback { ptr, js_payload }),
{
    let fields = callback_fields(ptr, js_payload);
    reveal_with_fuel(field_of, 4);
    assert(fields.drop_last() =~= seq![fields[0], fields[1]]);
    assert(fields.drop_last().drop_last() =~= seq![fields[0]]);
    law_message_type_reads_back(MessageType::Callback, message.msg_type->0@);
}

/// The texts that go over the wire.
pub proof fn law_texts_on_the_wire()
    ensures
        FieldName::Type.text() == "type"@,
        FieldName::Ptr.text() == "ptr"@,
        FieldName::JsPayload.text() == "jsPayload"@,
        MessageType::Done.text() == "done"@,
        MessageType::Callback.text() == "callback"@,
{
}

/// Exactly two texts name a message type.
pub proof fn law_named_message_types(text: Seq<char>)
    ensures
        MessageType::named(text) == Some(MessageType::Done) <==> text == "done"@,
        MessageType::named(text) == Some(MessageType::Callback) <==> text == "callback"@,
        MessageType::named(text) is None <==> text != "done"@ && text != "callback"@,
{
    reveal_strlit("done");
    reveal_strlit("callback");
    assert("done"@.len() != "callback"@.len());
}

/// A work message has the fields `ptr` and `jsPayload` and no others, and they
/// hold the very pointer and payload.
pub proof fn law_work_message_fields<P>(ptr: u32, js_payload: JsPayload<P>)
    ensures
        work_fields(ptr, js_payload).len() == 2,
        work_fields(ptr, js_payload)[0].0 == FieldName::Ptr,
        work_fields(ptr, js_payload)[0].1 == FieldValue::<P>::Pointer(ptr),
        work_fields(ptr, js_payload)[1].0 == FieldName::JsPayload,
        work_fields(ptr, js_payload)[1].1 == FieldValue::Payload(js_payload),
{
}

/// The message of a worker that has finished says just that.
pub proof fn law_done_message_fields<P>()
    ensures
        done_fields::<P>().len() == 1,
        done_fields::<P>()[0].0 == FieldName::Type,
        done_fields::<P>()[0].1 == FieldValue::<P>::Type(MessageType::Done),
{
}

/// A callback message is a work message with its type in front.
pub proof fn law_callback_message_fields<P>(ptr: u32, js_payload: JsPayload<P>)
    ensures
        callback_fields(ptr, js_payload).len() == 3,
        callback_fields(ptr, js_payload)[0].0 == FieldName::Type,
        callback_fields(ptr, js_payload)[0].1 == FieldValue::<P>::Type(MessageType::Callback),
        callback_fields(ptr, js_payload)[1].0 == FieldName::Ptr,
        callback_fields(ptr, js_payload)[1].1 == FieldValue::<P>::Pointer(ptr),
        callback_fields(ptr, js_payload)[2].0 == FieldName::JsPayload,
        callback_fields(ptr, js_payload)[2].1 == FieldValue::Payload(js_payload),
        callback_fields(ptr, js_payload).drop_first() == work_fields(ptr, js_payload),
{
    assert(callback_fields(ptr, js_payload).drop_first() =~= work_fields(ptr, js_payload));
}

/// Work messages with different pointers or payloads differ, and so do callback
/// messages.
pub proof fn law_messages_are_one_to_one<P>(
    p: u32,
    a: JsPayload<P>,
    q: u32,
    b: JsPayload<P>,
)
    ensures
        work_fields(p, a) == work_fields(q, b) ==> p == q && a == b,
        callback_fields(p, a) == callback_fields(q, b) ==> p == q && a == b,
{
    law_work_message_fields(p, a);
    law_work_message_fields(q, b);
    law_callback_message_fields(p, a);
    law_callback_message_fields(q, b);
}

/// An event carries a message type exactly if it is a message whose `type` field
/// is one of the two texts.
pub proof fn law_event_types<P>(event: WorkerEvent<P>)
    ensures
        event.message_type() == Some(MessageType::Done) <==> (event is Message
            && event->Message_0.msg_type is Some && event->Message_0.msg_type->0@ == "done"@),
        event.message_type() == Some(MessageType::Callback) <==> (event is Message
            && event->Message_0.msg_type is Some && event->Message_0.msg_type->0@ == "callback"@),
{
    reveal_strlit("done");
    reveal_strlit("callback");
    assert("done"@.len() != "callback"@.len());
}

/// An event is malformed exactly if it is a callback whose pointer is no number.
pub proof fn law_malformed_events<P>(event: WorkerEvent<P>)
    ensures
        event.malformed() <==> (event is Message && event->Message_0.msg_type is Some
            && event->Message_0.msg_type->0@ == "callback"@ && event->Message_0.ptr
            == PointerField::NotANumber),
{
    law_event_types(event);
}

/// The line that is logged for an error is a fixed text and then the message of
/// the error, all of it.
pub proof fn law_errors_are_logged_whole<P>(message: String, action: ReclaimAction<P>)
    requires
        asks_for(WorkerEvent::Error(message), action),
    ensures
        action matches ReclaimAction::LogError(line) && line@.len() == 17 + message@.len()
            && line@.take(17) == "error in worker: "@ && line@.skip(17) == message@,
{
    reveal_strlit("error in worker: ");
    let line = action->LogError_0;
    assert(line@.take(17) =~= "error in worker: "@);
    assert(line@.skip(17) =~= message@);
}

/// What a message of a worker leads to, by what its fields hold.
pub proof fn law_messages_are_answered<P>(
    message: ReceivedMessage<P>,
    text: Seq<char>,
    action: ReclaimAction<P>,
)
    requires
        asks_for(WorkerEvent::Message(message), action),
        message.msg_type is Some ==> message.msg_type->0@ == text,
    ensures
        message.msg_type is None ==> action == ReclaimAction::<P>::Ignore,
        message.msg_type is Some && text == "done"@ ==> action == ReclaimAction::<P>::Reclaim,
        message.msg_type is Some && text == "callback"@ && message.ptr is Number
            && message.js_payload is Some ==> action == (ReclaimAction::RunCallback {
            ptr: message.ptr->Number_0,
            js_payload: message.js_payload->0,
        }),
        message.msg_type is Some && text == "callback"@ && message.ptr is Number
            && message.js_payload is None ==> action == (ReclaimAction::RunCallback {
            ptr: message.ptr->Number_0,
            js_payload: JsPayload::<P>::Undefined,
        }),
        message.msg_type is Some && text == "callback"@ && message.ptr == PointerField::Unreadable
            ==> action == ReclaimAction::<P>::Ignore,
        message.msg_type is Some && text != "done"@ && text != "callback"@ ==> action
            == ReclaimAction::<P>::Ignore,
{
    law_event_types(WorkerEvent::Message(message));
}

/// An event that is neither an error nor a message is passed over.
pub proof fn law_other_events_are_ignored<P>(action: ReclaimAction<P>)
    requires
        asks_for(WorkerEvent::Other, action),
    ensures
        action == ReclaimAction::<P>::Ignore,
{
}

/// What an event asks for is one thing only, up to the identity of a logged line.
pub proof fn law_one_answer_for_an_event<P>(
    event: WorkerEvent<P>,
    a: ReclaimAction<P>,
    b: ReclaimAction<P>,
)
    requires
        asks_for(event, a),
        asks_for(event, b),
    ensures
        a == b || (a is LogError && b is LogError && a->LogError_0@ == b->LogError_0@),
{
}

/// A clone of a payload is `undefined` exactly if the payload is, and otherwise
/// holds a clone of its value.
pub proof fn law_payload_clones<P: Clone>(payload: JsPayload<P>, copy: JsPayload<P>)
    requires
        payload_cloned(payload, copy),
    ensures
        payload == JsPayload::<P>::Undefined <==> copy == JsPayload::<P>::Undefined,
        payload is Value ==> copy is Value && cloned(payload->Value_0, copy->Value_0),
{
}

} // verus!

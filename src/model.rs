use vstd::prelude::*;

verus! {

/// The payload the bundled worker expects in a message body.
#[derive(Debug, Clone, Default, PartialEq, Eq)]
pub struct WorkLoad {
    pub text: String,
}

/// A decoded unit of work together with its queue identifiers.
#[derive(Debug, Clone)]
pub struct Message {
    pub receipt_handle: Option<String>,
    pub message_id: Option<String>,
    pub work_load: Option<WorkLoad>,
}

impl Message {
    pub fn new(
        receipt_handle: Option<String>,
        message_id: Option<String>,
        work_load: Option<WorkLoad>,
    ) -> (r: Self)
        ensures
            r.receipt_handle == receipt_handle,
            r.message_id == message_id,
            r.work_load == work_load,
    {
        Message { receipt_handle, message_id, work_load }
    }
}

/// One message as the queue service hands it out: an optional identifier,
/// an optional acknowledgment handle (present while the message is in
/// flight) and an optional opaque body.
#[derive(Debug, Clone, PartialEq, Eq)]
pub struct QueueMessage {
    pub message_id: Option<String>,
    pub receipt_handle: Option<String>,
    pub body: Option<String>,
}

/// The body of a message, the empty text where it has none.
pub open spec fn body_text(m: QueueMessage) -> Seq<char> {
    match m.body {
        Some(b) => b@,
        None => Seq::empty(),
    }
}

impl QueueMessage {
    pub fn new(
        message_id: Option<String>,
        receipt_handle: Option<String>,
        body: Option<String>,
    ) -> (r: Self)
        ensures
            r.message_id == message_id,
            r.receipt_handle == receipt_handle,
            r.body == body,
    {
        QueueMessage { message_id, receipt_handle, body }
    }

    /// The body to send again when the message is requeued.
    pub fn body_or_empty(&self) -> (r: String)
        ensures
            r@ == body_text(*self),
    {
        match &self.body {
            Some(b) => b.clone(),
            None => String::new(),
        }
    }
}

} // verus!

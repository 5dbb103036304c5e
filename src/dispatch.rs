use vstd::prelude::*;
use crate::errors::WorkError;
use crate::model::{body_text, QueueMessage};
use crate::policy::{
    ack_for, decide, handled_ack, outcome, AckAction, Handled, Outcome, DEFAULT_REQUEUE_DELAY,
};

verus! {

/// A unit of work, implemented by users of the consumer. It may be called
/// from several dispatches at once.
pub trait Worker {
    /// Processes one message. A `RecoverableError` asks for the message to
    /// be tried again later, an `UnRecoverableError` for it to be dropped.
    fn process(&self, message: QueueMessage) -> Result<(), WorkError>;
}

/// The one call into the queue service that acknowledges a message.
#[derive(Debug, Clone, PartialEq, Eq)]
pub enum TransportCall {
    /// Delete the delivery that holds this handle.
    Delete(String),
    /// Send this body as a new message, visible after this many seconds.
    Resend(String, i64),
}

/// A transport call with its texts seen as character sequences.
pub enum CallView {
    Delete(Seq<char>),
    Resend(Seq<char>, i64),
}

impl View for TransportCall {
    type V = CallView;

    open spec fn view(&self) -> CallView {
        match self {
            TransportCall::Delete(h) => CallView::Delete(h@),
            TransportCall::Resend(b, d) => CallView::Resend(b@, *d),
        }
    }
}

pub open spec fn call_view(c: Option<TransportCall>) -> Option<CallView> {
    match c {
        Some(t) => Some(t@),
        None => None,
    }
}

/// The call that carries out an acknowledgment. A message without a
/// handle cannot be acknowledged: it gets no call, whatever the action.
pub open spec fn ack_call(m: QueueMessage, a: AckAction) -> Option<CallView> {
    match m.receipt_handle {
        None => None,
        Some(h) => match a {
            AckAction::Delete => Some(CallView::Delete(h@)),
            AckAction::Requeue(d) => Some(CallView::Resend(body_text(m), d)),
        },
    }
}

/// The call, if any, that acknowledges `message` after `outcome`.
///
/// A requeue sends the body as a new message and leaves the original
/// delivery alone: once the queue's visibility timeout lapses the original
/// is delivered again too. Deleting it first would open a gap in which a
/// failed resend loses the message; the duplicate is the lesser risk.
pub fn plan_ack(message: &QueueMessage, outcome: &Outcome) -> (r: Option<TransportCall>)
    ensures
        call_view(r) == ack_call(*message, ack_for(*outcome)),
{
    match &message.receipt_handle {
        None => None,
        Some(h) => match decide(outcome) {
            AckAction::Delete => Some(TransportCall::Delete(h.clone())),
            AckAction::Requeue(d) => Some(TransportCall::Resend(message.body_or_empty(), d)),
        },
    }
}

/// What a dispatch does with one message once its worker call has ended:
/// the outcome it records (a fault becomes a permanent failure) and the
/// acknowledgment call to make.
pub struct DispatchPlan {
    pub outcome: Outcome,
    pub call: Option<TransportCall>,
}

pub fn plan_dispatch(message: &QueueMessage, handled: Handled) -> (r: DispatchPlan)
    ensures
        ack_for(r.outcome) == handled_ack(handled),
        handled matches Handled::Returned(o) ==> r.outcome == o,
        call_view(r.call) == ack_call(*message, handled_ack(handled)),
{
    let o = outcome(handled);
    let call = plan_ack(message, &o);
    DispatchPlan { outcome: o, call }
}

/// A successful message with a handle is deleted, by exactly that handle.
pub proof fn success_deletes_by_handle(m: QueueMessage)
    requires
        m.receipt_handle is Some,
    ensures
        ack_for(Ok(())) == AckAction::Delete,
        ack_call(m, ack_for(Ok(()))) == Some(CallView::Delete(m.receipt_handle->0@)),
{
}

/// A permanent failure deletes the message by its handle and sends nothing
/// again.
pub proof fn unrecoverable_deletes_by_handle(m: QueueMessage, reason: String)
    requires
        m.receipt_handle is Some,
    ensures
        ack_for(Err(WorkError::UnRecoverableError(reason))) == AckAction::Delete,
        ack_call(m, ack_for(Err(WorkError::UnRecoverableError(reason)))) == Some(
            CallView::Delete(m.receipt_handle->0@),
        ),
{
}

/// A transient failure sends the original body again with the default
/// delay, and deletes nothing.
pub proof fn recoverable_resends_body(m: QueueMessage, reason: String)
    requires
        m.receipt_handle is Some,
    ensures
        ack_for(Err(WorkError::RecoverableError(reason))) == AckAction::Requeue(
            DEFAULT_REQUEUE_DELAY,
        ),
        ack_call(m, ack_for(Err(WorkError::RecoverableError(reason)))) == Some(
            CallView::Resend(body_text(m), DEFAULT_REQUEUE_DELAY),
        ),
{
}

/// A message without a handle gets no acknowledgment call, whatever the
/// worker did, faults included.
pub proof fn no_handle_no_call(m: QueueMessage, h: Handled)
    requires
        m.receipt_handle is None,
    ensures
        ack_call(m, handled_ack(h)) == None::<CallView>,
        forall|o: Outcome| ack_call(m, #[trigger] ack_for(o)) == None::<CallView>,
{
}

/// A worker that faults has its message deleted by its handle, as for a
/// permanent failure.
pub proof fn fault_deletes_by_handle(m: QueueMessage, detail: String)
    requires
        m.receipt_handle is Some,
    ensures
        handled_ack(Handled::Faulted(detail)) == AckAction::Delete,
        ack_call(m, handled_ack(Handled::Faulted(detail))) == Some(
            CallView::Delete(m.receipt_handle->0@),
        ),
{
}

} // verus!

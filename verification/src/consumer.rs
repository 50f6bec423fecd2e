//! The per-queue consumer protocol: one message at a time, each taken
//! through decode, forward and an ack decision, with decode failure and
//! stream end terminating the loop.
//!
//! The protocol is a state machine. The binary performs the waiting, the
//! sink call and the acknowledgement; [`QueueConsumer::step`] makes every
//! decision and says, through [`step_model`], exactly which action each
//! event leads to.

use vstd::prelude::*;
use vstd::string::*;
use vstd::utf8::{decode_utf8, valid_utf8};
use crate::sink::{ResponseModel, SinkResponse};

verus! {

/// What the consumer loop can observe: a delivery with its raw payload, the
/// end of the delivery stream, or the sink's reply to the forward call in
/// flight.
pub enum LoopEvent {
    Delivered { payload: Vec<u8> },
    StreamEnded,
    SinkReplied { response: SinkResponse },
}

/// Mathematical model of a [`LoopEvent`].
pub enum EventModel {
    Delivered { payload: Seq<u8> },
    StreamEnded,
    SinkReplied { response: ResponseModel },
}

impl View for LoopEvent {
    type V = EventModel;

    open spec fn view(&self) -> EventModel {
        match self {
            LoopEvent::Delivered { payload } => EventModel::Delivered { payload: payload@ },
            LoopEvent::StreamEnded => EventModel::StreamEnded,
            LoopEvent::SinkReplied { response } => EventModel::SinkReplied {
                response: response@,
            },
        }
    }
}

/// What the loop asks of its surroundings next: wait for the next delivery
/// without acknowledging, forward a record to the sink, acknowledge the
/// current message and then wait, or stop for good.
pub enum LoopAction {
    AwaitNext,
    CallSink { collection: String, record: String },
    Acknowledge,
    Stop,
}

/// Mathematical model of a [`LoopAction`].
pub enum ActionModel {
    AwaitNext,
    CallSink { collection: Seq<char>, record: Seq<char> },
    Acknowledge,
    Stop,
}

impl View for LoopAction {
    type V = ActionModel;

    open spec fn view(&self) -> ActionModel {
        match self {
            LoopAction::AwaitNext => ActionModel::AwaitNext,
            LoopAction::CallSink { collection, record } => ActionModel::CallSink {
                collection: collection@,
                record: record@,
            },
            LoopAction::Acknowledge => ActionModel::Acknowledge,
            LoopAction::Stop => ActionModel::Stop,
        }
    }
}

/// Where the loop stands: waiting for a delivery, holding a decoded record
/// whose forward call is in flight, or terminated.
pub enum LoopState {
    Waiting,
    Forwarding { record: String },
    Terminated,
}

/// Mathematical model of a [`LoopState`].
pub enum StateModel {
    Waiting,
    Forwarding { record: Seq<char> },
    Terminated,
}

impl View for LoopState {
    type V = StateModel;

    open spec fn view(&self) -> StateModel {
        match self {
            LoopState::Waiting => StateModel::Waiting,
            LoopState::Forwarding { record } => StateModel::Forwarding { record: record@ },
            LoopState::Terminated => StateModel::Terminated,
        }
    }
}

/// Which events the protocol admits in which states: deliveries and stream
/// end only while waiting, a sink reply only while a forward is in flight,
/// and nothing once the loop has terminated.
pub open spec fn event_fits(s: StateModel, e: EventModel) -> bool {
    match e {
        EventModel::Delivered { .. } => s is Waiting,
        EventModel::StreamEnded => s is Waiting,
        EventModel::SinkReplied { .. } => s is Forwarding,
    }
}

/// One transition of the consumer protocol: the next state and the action
/// owed for the event.
///
/// The ack policy lives here: a reply that reached the sink leads to an
/// acknowledgement whatever its status, a transport failure leaves the
/// message pending, and a payload that is not valid UTF-8 terminates the
/// loop without forwarding or acknowledging anything.
pub open spec fn step_model(name: Seq<char>, s: StateModel, e: EventModel) -> (StateModel,
    ActionModel) {
    match e {
        EventModel::Delivered { payload } => {
            if valid_utf8(payload) {
                (
                    StateModel::Forwarding { record: decode_utf8(payload) },
                    ActionModel::CallSink { collection: name, record: decode_utf8(payload) },
                )
            } else {
                (StateModel::Terminated, ActionModel::Stop)
            }
        },
        EventModel::StreamEnded => (StateModel::Terminated, ActionModel::Stop),
        EventModel::SinkReplied { response } => (
            StateModel::Waiting,
            if response is TransportError {
                ActionModel::AwaitNext
            } else {
                ActionModel::Acknowledge
            },
        ),
    }
}

/// Relies on `String::from_utf8`: returns the string whose characters are
/// the UTF-8 decoding of the bytes exactly when the bytes are valid UTF-8,
/// and nothing otherwise.
#[verifier::external_body]
fn decode_payload(payload: Vec<u8>) -> (r: Option<String>)
    ensures
        r is Some <==> valid_utf8(payload@),
        r matches Some(record) ==> record@ == decode_utf8(payload@),
{
    String::from_utf8(payload).ok()
}

/// One queue's consumer: the queue's name, which doubles as the sink
/// collection every record is forwarded to, and where the loop stands.
pub struct QueueConsumer {
    pub queue_name: String,
    pub state: LoopState,
}

impl QueueConsumer {
    /// A fresh consumer for the named queue, waiting for its first delivery.
    pub fn new(queue_name: String) -> (c: QueueConsumer)
        ensures
            c.queue_name@ == queue_name@,
            c.state@ == StateModel::Waiting,
    {
        QueueConsumer { queue_name, state: LoopState::Waiting }
    }

    /// Whether the protocol admits `event` in the current state; the caller
    /// checks this before [`Self::step`].
    pub fn accepts(&self, event: &LoopEvent) -> (r: bool)
        ensures
            r == event_fits(self.state@, event@),
    {
        match (&self.state, event) {
            (LoopState::Waiting, LoopEvent::Delivered { .. }) => true,
            (LoopState::Waiting, LoopEvent::StreamEnded) => true,
            (LoopState::Forwarding { .. }, LoopEvent::SinkReplied { .. }) => true,
            _ => false,
        }
    }

    /// Processes one event, moving to the state and returning the action
    /// that [`step_model`] prescribes. The queue's name never changes.
    pub fn step(&mut self, event: LoopEvent) -> (action: LoopAction)
        requires
            event_fits(old(self).state@, event@),
        ensures
            final(self).queue_name@ == old(self).queue_name@,
            final(self).state@ == step_model(old(self).queue_name@, old(self).state@, event@).0,
            action@ == step_model(old(self).queue_name@, old(self).state@, event@).1,
    {
        match event {
            LoopEvent::Delivered { payload } => {
                match decode_payload(payload) {
                    Some(record) => {
                        let collection = self.queue_name.clone();
                        self.state = LoopState::Forwarding { record: record.clone() };
                        LoopAction::CallSink { collection, record }
                    },
                    None => {
                        self.state = LoopState::Terminated;
                        LoopAction::Stop
                    },
                }
            },
            LoopEvent::StreamEnded => {
                self.state = LoopState::Terminated;
                LoopAction::Stop
            },
            LoopEvent::SinkReplied { response } => {
                self.state = LoopState::Waiting;
                match response {
                    SinkResponse::TransportError { .. } => LoopAction::AwaitNext,
                    SinkResponse::Reached { .. } => LoopAction::Acknowledge,
                }
            },
        }
    }
}

/// The line logged when a delivery's payload has been decoded.
pub fn received_line(record: &str) -> (r: String)
    ensures
        r@ == "Received message: "@ + record@,
{
    let mut r = String::from_str("Received message: ");
    r.append(record);
    r
}

} // verus!

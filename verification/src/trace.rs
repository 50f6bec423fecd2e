//! Laws of the consumer protocol over whole event sequences: the ack
//! policy, the forwarding order, and the fatality of a decode failure.
//!
//! [`run`] folds [`step_model`] over an event sequence; [`valid_trace`]
//! says the sequence respects the protocol (each event admissible in the
//! state it meets — in particular, every message's ack decision is resolved
//! before the next delivery is taken). The proof functions below state what
//! every such run does.

use vstd::prelude::*;
use vstd::utf8::{decode_utf8, valid_utf8};
use crate::consumer::{event_fits, step_model, ActionModel, EventModel, StateModel};
use crate::sink::ResponseModel;

verus! {

/// The event sequence respects the protocol from state `s`: each event is
/// admissible in the state it meets.
pub open spec fn valid_trace(name: Seq<char>, s: StateModel, events: Seq<EventModel>) -> bool
    decreases events.len(),
{
    events.len() > 0 ==> {
        &&& event_fits(s, events[0])
        &&& valid_trace(name, step_model(name, s, events[0]).0, events.skip(1))
    }
}

/// The state reached after processing `events` from `s`, with the actions
/// issued along the way, in order.
pub open spec fn run(name: Seq<char>, s: StateModel, events: Seq<EventModel>) -> (StateModel,
    Seq<ActionModel>)
    decreases events.len(),
{
    if events.len() == 0 {
        (s, Seq::<ActionModel>::empty())
    } else {
        let first = step_model(name, s, events[0]);
        let rest = run(name, first.0, events.skip(1));
        (rest.0, seq![first.1] + rest.1)
    }
}

/// The records of the sink calls among `actions`, in order.
pub open spec fn sink_calls(actions: Seq<ActionModel>) -> Seq<Seq<char>>
    decreases actions.len(),
{
    if actions.len() == 0 {
        Seq::<Seq<char>>::empty()
    } else {
        match actions[0] {
            ActionModel::CallSink { record, .. } => seq![record] + sink_calls(actions.skip(1)),
            _ => sink_calls(actions.skip(1)),
        }
    }
}

/// The ack decisions among `actions`, in order: `true` where a message is
/// acknowledged, `false` where it is left pending.
pub open spec fn resolutions(actions: Seq<ActionModel>) -> Seq<bool>
    decreases actions.len(),
{
    if actions.len() == 0 {
        Seq::<bool>::empty()
    } else {
        match actions[0] {
            ActionModel::Acknowledge => seq![true] + resolutions(actions.skip(1)),
            ActionModel::AwaitNext => seq![false] + resolutions(actions.skip(1)),
            _ => resolutions(actions.skip(1)),
        }
    }
}

/// The sink responses among `events`, in order.
pub open spec fn responses(events: Seq<EventModel>) -> Seq<ResponseModel>
    decreases events.len(),
{
    if events.len() == 0 {
        Seq::<ResponseModel>::empty()
    } else {
        match events[0] {
            EventModel::SinkReplied { response } => seq![response] + responses(events.skip(1)),
            _ => responses(events.skip(1)),
        }
    }
}

/// The ack decision the policy owes each sink response, in order:
/// acknowledge exactly when the call reached the sink, whatever the status.
pub open spec fn expected_resolutions(events: Seq<EventModel>) -> Seq<bool>
    decreases events.len(),
{
    if events.len() == 0 {
        Seq::<bool>::empty()
    } else {
        match events[0] {
            EventModel::SinkReplied { response } => seq![!(response is TransportError)]
                + expected_resolutions(events.skip(1)),
            _ => expected_resolutions(events.skip(1)),
        }
    }
}

/// The records the protocol owes the sink for `events`: the UTF-8
/// decodings of the delivered payloads, in delivery order, cut short at the
/// first payload that does not decode.
pub open spec fn expected_records(events: Seq<EventModel>) -> Seq<Seq<char>>
    decreases events.len(),
{
    if events.len() == 0 {
        Seq::<Seq<char>>::empty()
    } else {
        match events[0] {
            EventModel::Delivered { payload } => {
                if valid_utf8(payload) {
                    seq![decode_utf8(payload)] + expected_records(events.skip(1))
                } else {
                    Seq::<Seq<char>>::empty()
                }
            },
            _ => expected_records(events.skip(1)),
        }
    }
}

/// Ack policy law: in every run of the protocol, the loop resolves exactly
/// one ack decision per sink response, in order, and acknowledges exactly
/// the messages whose forward call reached the sink. In particular a
/// successful write and a non-success status are each acknowledged exactly
/// once, and a transport failure is never acknowledged.
pub proof fn lemma_ack_policy(name: Seq<char>, s: StateModel, events: Seq<EventModel>)
    ensures
        resolutions(run(name, s, events).1) == expected_resolutions(events),
    decreases events.len(),
{
    if events.len() > 0 {
        let first = step_model(name, s, events[0]);
        let rest = run(name, first.0, events.skip(1));
        lemma_ack_policy(name, first.0, events.skip(1));
        assert((seq![first.1] + rest.1).skip(1) =~= rest.1);
        assert(resolutions(run(name, s, events).1) =~= expected_resolutions(events));
    }
}

/// Ordering law: in every protocol-respecting run, the sink receives one
/// forward call per decodable delivered payload, carrying its decoding, in
/// delivery order, and every forward call names the loop's own queue as its
/// collection.
pub proof fn lemma_forward_order(name: Seq<char>, s: StateModel, events: Seq<EventModel>)
    requires
        valid_trace(name, s, events),
    ensures
        sink_calls(run(name, s, events).1) == expected_records(events),
        forall|i: int|
            0 <= i < run(name, s, events).1.len() ==> ((#[trigger] run(name, s, events).1[i])
                matches ActionModel::CallSink { collection, .. } ==> collection == name),
    decreases events.len(),
{
    if events.len() > 0 {
        let first = step_model(name, s, events[0]);
        let rest = run(name, first.0, events.skip(1));
        lemma_forward_order(name, first.0, events.skip(1));
        assert((seq![first.1] + rest.1).skip(1) =~= rest.1);
        if events[0] matches EventModel::Delivered { payload } && !valid_utf8(payload) {
            lemma_terminated_ends_trace(name, events.skip(1));
        }
        assert(sink_calls(run(name, s, events).1) =~= expected_records(events));
        assert forall|i: int| 0 <= i < run(name, s, events).1.len() implies ((
        #[trigger] run(name, s, events).1[i]) matches ActionModel::CallSink {
            collection,
            ..
        } ==> collection == name) by {
            if i > 0 {
                assert(run(name, s, events).1[i] == rest.1[i - 1]);
            }
        }
    }
}

/// One message in flight at a time: whatever follows a delivery is the
/// sink's reply to that very message — its ack decision is resolved before
/// the loop observes anything else, in particular before the next delivery.
pub proof fn lemma_resolution_before_next_receive(
    name: Seq<char>,
    s: StateModel,
    events: Seq<EventModel>,
    i: int,
)
    requires
        valid_trace(name, s, events),
        0 <= i,
        i + 1 < events.len(),
        events[i] matches EventModel::Delivered { .. },
    ensures
        events[i + 1] matches EventModel::SinkReplied { .. },
    decreases events.len(),
{
    let first = step_model(name, s, events[0]);
    if i == 0 {
        if events[0] matches EventModel::Delivered { payload } && !valid_utf8(payload) {
            lemma_terminated_ends_trace(name, events.skip(1));
        } else {
            assert(events.skip(1).len() > 0);
            assert(valid_trace(name, first.0, events.skip(1)));
            assert(event_fits(first.0, events.skip(1)[0]));
            assert(events.skip(1)[0] == events[1]);
        }
    } else {
        assert(events.skip(1)[i - 1] == events[i]);
        lemma_resolution_before_next_receive(name, first.0, events.skip(1), i - 1);
        assert(events.skip(1)[i] == events[i + 1]);
    }
}

/// Once the loop has terminated it admits no further event: a trace from
/// the terminated state is empty.
pub proof fn lemma_terminated_ends_trace(name: Seq<char>, events: Seq<EventModel>)
    requires
        valid_trace(name, StateModel::Terminated, events),
    ensures
        events.len() == 0,
{
    if events.len() > 0 {
        assert(!event_fits(StateModel::Terminated, events[0]));
    }
}

/// Fatal-decode law: a delivered payload that is not valid UTF-8 is the
/// last event its loop processes, and the loop ends terminated — nothing is
/// forwarded or acknowledged for that message and no further message is
/// taken from that queue. (With [`lemma_ack_policy`], every
/// acknowledgement answers a sink response, and the failing message never
/// reaches the sink, so it is never acknowledged.)
pub proof fn lemma_fatal_decode(name: Seq<char>, s: StateModel, events: Seq<EventModel>, j: int)
    requires
        valid_trace(name, s, events),
        0 <= j < events.len(),
        events[j] matches EventModel::Delivered { payload } && !valid_utf8(payload),
    ensures
        j == events.len() - 1,
        run(name, s, events).0 is Terminated,
    decreases events.len(),
{
    let first = step_model(name, s, events[0]);
    if j == 0 {
        lemma_terminated_ends_trace(name, events.skip(1));
        assert(first.0 == StateModel::Terminated);
        assert(run(name, first.0, events.skip(1)).0 == StateModel::Terminated);
        assert(run(name, s, events).0 == run(name, first.0, events.skip(1)).0);
    } else {
        assert(events.skip(1)[j - 1] == events[j]);
        lemma_fatal_decode(name, first.0, events.skip(1), j - 1);
    }
}

} // verus!

//! The protocol's guarantees, stated once over the models and proved from
//! the contracts of the codec, the dispatch table and the server core.
use crate::dispatch::MethodDescriptorModel;
use crate::dispatch::table_has_call;
use crate::envelope::CallEnvelopeModel;
use crate::envelope::spec_broadcast_frames;
use crate::envelope::spec_parse_call;
use crate::server::MessageActionModel;
use crate::server::not_found_marker;
use crate::server::spec_complete_call;
use crate::server::spec_handle_message;
use vstd::prelude::*;
use vstd::string::StringSliceAdditionalSpecFns;

verus! {

/// A valid call envelope whose method name is registered is handed to its
/// handler, and whatever the handler's outcome, exactly one reply is owed
/// for it: three frames that echo the caller's identity and correlation
/// token verbatim.
pub proof fn lemma_registered_call_one_reply(
    table: Seq<MethodDescriptorModel>,
    frames: Seq<Seq<u8>>,
    outcome: Result<Seq<u8>, Seq<u8>>,
)
    requires
        spec_parse_call(frames) is Some,
        table_has_call(table, spec_parse_call(frames)->Some_0.method_name),
    ensures
        spec_handle_message(table, frames) == MessageActionModel::AwaitHandler(
            spec_parse_call(frames)->Some_0,
        ),
        spec_complete_call(spec_parse_call(frames)->Some_0, outcome).len() == 3,
        spec_complete_call(spec_parse_call(frames)->Some_0, outcome)[0] == frames[0],
        spec_complete_call(spec_parse_call(frames)->Some_0, outcome)[1] == frames[2],
{
}

/// A valid call envelope whose method name is not registered is answered at
/// once: three frames that echo the caller's tokens, the third being the
/// fixed not-found marker.
pub proof fn lemma_unknown_method_reply(table: Seq<MethodDescriptorModel>, frames: Seq<Seq<u8>>)
    requires
        spec_parse_call(frames) is Some,
        !table_has_call(table, spec_parse_call(frames)->Some_0.method_name),
    ensures
        spec_handle_message(table, frames) == MessageActionModel::Reply(
            seq![frames[0], frames[2], not_found_marker()],
        ),
{
    let owed = spec_handle_message(table, frames);
    assert(owed is Reply);
    assert(owed->Reply_0 =~~= seq![frames[0], frames[2], not_found_marker()]);
}

/// An inbound message with fewer than five frames is dropped in silence: no
/// reply is ever owed for it. Handling is a pure function of the table and
/// the frames, so a dropped message leaves the handling of every later
/// message unchanged.
pub proof fn lemma_malformed_message_silent(table: Seq<MethodDescriptorModel>, frames: Seq<Seq<u8>>)
    requires
        frames.len() < 5,
    ensures
        spec_handle_message(table, frames) == MessageActionModel::NoReply,
{
}

/// Each published broadcast is exactly one two-part frame, the topic bytes
/// then the payload bytes.
pub proof fn lemma_broadcast_frames_exact(topic: Seq<u8>, payload: Seq<u8>)
    ensures
        spec_broadcast_frames(topic, payload).len() == 2,
        spec_broadcast_frames(topic, payload)[0] == topic,
        spec_broadcast_frames(topic, payload)[1] == payload,
{
}

/// Broadcasts to distinct topics never contaminate one another: for two
/// ASCII topic names that differ, the framed topic parts differ, so a
/// subscriber filtering on one topic never receives the other's payload.
pub proof fn lemma_distinct_topics_isolated(t1: &str, t2: &str, p1: Seq<u8>, p2: Seq<u8>)
    requires
        t1.is_ascii(),
        t2.is_ascii(),
        t1@ != t2@,
    ensures
        spec_broadcast_frames(t1.spec_bytes(), p1)[0] != spec_broadcast_frames(
            t2.spec_bytes(),
            p2,
        )[0],
{
    broadcast use vstd::string::is_ascii_spec_bytes;

    let b1 = t1.spec_bytes();
    let b2 = t2.spec_bytes();
    if t1@.len() != t2@.len() {
        assert(b1.len() != b2.len());
    } else {
        assert(!(t1@ =~= t2@));
        let i = choose|i: int| 0 <= i < t1@.len() && t1@[i] != t2@[i];
        assert(t1@[i] <= '\u{7f}' && t2@[i] <= '\u{7f}');
        assert(b1[i] == t1@[i] as u8 && b2[i] == t2@[i] as u8);
        assert(b1[i] != b2[i]);
    }
}

/// Concurrent in-flight calls are isolated: each pending call's reply is a
/// function of that call's envelope and handler outcome alone, so however
/// the in-flight calls are ordered when they complete, every one of them
/// yields its reply, carrying its own caller's identity and correlation
/// token.
pub proof fn lemma_completion_order_independent(
    pending: Seq<(CallEnvelopeModel, Result<Seq<u8>, Seq<u8>>)>,
    order: Seq<int>,
)
    requires
        order.len() == pending.len(),
        forall|k: int| 0 <= k < order.len() ==> 0 <= #[trigger] order[k] < pending.len(),
    ensures
        forall|k: int|
            0 <= k < order.len() ==> {
                let reply = spec_complete_call(
                    pending[order[k]].0,
                    #[trigger] pending[order[k]].1,
                );
                &&& reply.len() == 3
                &&& reply[0] == pending[order[k]].0.client_identity
                &&& reply[1] == pending[order[k]].0.correlation_id
            },
{
}

} // verus!

//! Wire framing for the call channel and the broadcast channel.
//!
//! Inbound call messages carry exactly five frames:
//! `[client_identity, empty_delimiter, correlation_id, method_name, payload]`.
//! The delimiter frame carries no information and is discarded on parse; the
//! transport layer re-adds it on send. Replies carry three frames:
//! `[client_identity, correlation_id, result_bytes]`, where the success /
//! failure discriminant of the handler result is erased into a single byte
//! sequence (a known limitation of the wire format, kept for compatibility).
//! Broadcast frames carry two parts: `[topic_bytes, payload_bytes]`.
use vstd::prelude::*;
use vstd::string::StrSliceExecFns;
use vstd::string::StringSliceAdditionalSpecFns;

verus! {

/// A name for the character sequence that lossy UTF-8 decoding assigns to a
/// byte sequence; the decoding depends on the bytes alone.
pub uninterp spec fn lossy_utf8(bytes: Seq<u8>) -> Seq<char>;

/// Relies on `String::from_utf8_lossy`: the result is a function of the input
/// bytes alone (invalid sequences are replaced by a fixed replacement
/// character), and empty input yields an empty string.
#[verifier::external_body]
fn decode_method_name(bytes: &Vec<u8>) -> (r: String)
    ensures
        r@ == lossy_utf8(bytes@),
        bytes@.len() == 0 ==> r@.len() == 0,
{
    String::from_utf8_lossy(bytes.as_slice()).into_owned()
}

/// An inbound request, parsed from the call socket. `client_identity` and
/// `correlation_id` are opaque caller-assigned tokens; the server only ever
/// echoes them back.
pub struct CallEnvelope {
    pub client_identity: Vec<u8>,
    pub correlation_id: Vec<u8>,
    pub method_name: String,
    pub payload: Vec<u8>,
}

/// The mathematical model of a `CallEnvelope`.
pub struct CallEnvelopeModel {
    pub client_identity: Seq<u8>,
    pub correlation_id: Seq<u8>,
    pub method_name: Seq<char>,
    pub payload: Seq<u8>,
}

impl View for CallEnvelope {
    type V = CallEnvelopeModel;

    open spec fn view(&self) -> CallEnvelopeModel {
        CallEnvelopeModel {
            client_identity: self.client_identity@,
            correlation_id: self.correlation_id@,
            method_name: self.method_name@,
            payload: self.payload@,
        }
    }
}

/// An outbound reply, about to be framed for the call socket. The result
/// distinguishes handler success from handler failure; the distinction is
/// erased when the reply is framed.
pub struct ReplyEnvelope {
    pub client_identity: Vec<u8>,
    pub correlation_id: Vec<u8>,
    pub result: Result<Vec<u8>, Vec<u8>>,
}

/// The mathematical model of a `ReplyEnvelope`.
pub struct ReplyEnvelopeModel {
    pub client_identity: Seq<u8>,
    pub correlation_id: Seq<u8>,
    pub result: Result<Seq<u8>, Seq<u8>>,
}

impl View for ReplyEnvelope {
    type V = ReplyEnvelopeModel;

    open spec fn view(&self) -> ReplyEnvelopeModel {
        ReplyEnvelopeModel {
            client_identity: self.client_identity@,
            correlation_id: self.correlation_id@,
            result: match self.result {
                Ok(ref b) => Ok(b@),
                Err(ref b) => Err(b@),
            },
        }
    }
}

/// What `parse_call_envelope` yields on a given inbound message: `None` for a
/// message with fewer than five frames, otherwise the envelope read from
/// frames 0, 2, 3 and 4 (frame 1 is the discarded delimiter).
pub open spec fn spec_parse_call(frames: Seq<Seq<u8>>) -> Option<CallEnvelopeModel> {
    if frames.len() >= 5 {
        Some(
            CallEnvelopeModel {
                client_identity: frames[0],
                correlation_id: frames[2],
                method_name: lossy_utf8(frames[3]),
                payload: frames[4],
            },
        )
    } else {
        None
    }
}

/// The byte sequence a reply result is erased into: the success payload and
/// the encoded error payload are indistinguishable on the wire.
pub open spec fn spec_erased(result: Result<Seq<u8>, Seq<u8>>) -> Seq<u8> {
    match result {
        Ok(b) => b,
        Err(b) => b,
    }
}

/// The three wire frames of a reply.
pub open spec fn spec_reply_frames(reply: ReplyEnvelopeModel) -> Seq<Seq<u8>> {
    seq![reply.client_identity, reply.correlation_id, spec_erased(reply.result)]
}

/// The two wire frames of a broadcast.
pub open spec fn spec_broadcast_frames(topic: Seq<u8>, payload: Seq<u8>) -> Seq<Seq<u8>> {
    seq![topic, payload]
}

/// Parses one multi-part inbound message. A message with fewer than five
/// frames is a protocol violation and yields `None`; the caller drops it
/// silently (no reply is owed for malformed input).
pub fn parse_call_envelope(frames: &Vec<Vec<u8>>) -> (r: Option<CallEnvelope>)
    ensures
        r is Some <==> frames@.len() >= 5,
        r is Some ==> Some(r->Some_0@) == spec_parse_call(frames.deep_view()),
{
    if frames.len() < 5 {
        return None;
    }
    let client_identity = frames[0].clone();
    let correlation_id = frames[2].clone();
    let method_name = decode_method_name(&frames[3]);
    let payload = frames[4].clone();
    let env = CallEnvelope { client_identity, correlation_id, method_name, payload };
    proof {
        assert(env.client_identity@ =~= frames.deep_view()[0]);
        assert(env.correlation_id@ =~= frames.deep_view()[2]);
        assert(frames[3]@ =~= frames.deep_view()[3]);
        assert(env.payload@ =~= frames.deep_view()[4]);
    }
    Some(env)
}

/// Frames a reply for the call socket: three parts, the caller's identity and
/// correlation token echoed verbatim, then the erased result bytes.
pub fn frame_reply(reply: ReplyEnvelope) -> (frames: Vec<Vec<u8>>)
    ensures
        frames.deep_view() == spec_reply_frames(reply@),
{
    let ReplyEnvelope { client_identity, correlation_id, result } = reply;
    let ghost model = ReplyEnvelopeModel {
        client_identity: client_identity@,
        correlation_id: correlation_id@,
        result: match result {
            Ok(ref b) => Ok(b@),
            Err(ref b) => Err(b@),
        },
    };
    let result_bytes = match result {
        Ok(b) => b,
        Err(b) => b,
    };
    let mut frames: Vec<Vec<u8>> = Vec::new();
    frames.push(client_identity);
    frames.push(correlation_id);
    frames.push(result_bytes);
    proof {
        assert(frames.deep_view() =~~= spec_reply_frames(model));
    }
    frames
}

/// Frames a broadcast for the broadcast socket: exactly two parts, the topic
/// name's bytes then the payload, with no delimiter and no correlation token.
pub fn frame_broadcast(topic: &str, payload: Vec<u8>) -> (frames: Vec<Vec<u8>>)
    ensures
        frames.deep_view() == spec_broadcast_frames(topic.spec_bytes(), payload@),
{
    let topic_bytes = topic.as_bytes_vec();
    let mut frames: Vec<Vec<u8>> = Vec::new();
    frames.push(topic_bytes);
    frames.push(payload);
    proof {
        assert(frames.deep_view() =~~= spec_broadcast_frames(topic.spec_bytes(), frames[1]@));
    }
    frames
}

} // verus!

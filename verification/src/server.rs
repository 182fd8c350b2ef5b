//! The request-loop state machine and the per-request dispatch unit.
//!
//! One loop thread polls the call socket; every decision the loop takes is a
//! pure function here, so the surrounding runtime only performs the socket
//! work the decision names. A failed poll or receive is retried, an empty
//! poll sleeps briefly first, and a ready poll receives exactly one
//! multi-part message. A message with fewer than five frames is dropped
//! silently. A parsed envelope whose method has no handler is answered at
//! once with the fixed not-found payload; a registered method is handed to
//! its handler as an independent unit of work, and whichever way and in
//! whatever order the handlers finish, each completion is framed with its
//! own caller's identity and correlation token. There is no bound on the
//! number of in-flight requests and no backpressure: admission control is a
//! deliberate non-feature of this layer, and callers must bring their own
//! timeouts.
use crate::dispatch::DispatchTable;
use crate::dispatch::MethodDescriptorModel;
use crate::dispatch::table_has_call;
use crate::envelope::CallEnvelope;
use crate::envelope::CallEnvelopeModel;
use crate::envelope::ReplyEnvelope;
use crate::envelope::ReplyEnvelopeModel;
use crate::envelope::frame_reply;
use crate::envelope::parse_call_envelope;
use crate::envelope::spec_parse_call;
use crate::envelope::spec_reply_frames;
use vstd::prelude::*;
use vstd::string::StrSliceExecFns;
use vstd::string::StringSliceAdditionalSpecFns;

verus! {

/// How long the loop sleeps after an empty poll before polling again: long
/// enough not to busy-spin, short enough to bound the latency idling adds.
pub const IDLE_POLL_SLEEP_MILLIS: u64 = 50;

/// What one non-blocking readiness poll of the call socket reported.
pub enum PollOutcome {
    /// The poll itself failed (a transient socket error).
    Failed,
    /// No message is waiting.
    Empty,
    /// At least one message is waiting.
    Ready,
}

/// What the loop does next after a poll.
#[derive(Clone, Copy, Debug, PartialEq, Eq, Structural)]
pub enum LoopStep {
    /// Poll again at once; a transient error is never fatal.
    Retry,
    /// Sleep a fixed short interval, then poll again, so an idle server
    /// neither busy-spins nor adds unbounded latency.
    SleepRetry,
    /// Receive exactly one multi-part message.
    Receive,
}

/// The loop's reaction to each poll outcome.
pub open spec fn spec_poll_step(outcome: PollOutcome) -> LoopStep {
    match outcome {
        PollOutcome::Failed => LoopStep::Retry,
        PollOutcome::Empty => LoopStep::SleepRetry,
        PollOutcome::Ready => LoopStep::Receive,
    }
}

/// Decides the loop's next step from a poll outcome.
pub fn poll_step(outcome: &PollOutcome) -> (s: LoopStep)
    ensures
        s == spec_poll_step(*outcome),
{
    match outcome {
        PollOutcome::Failed => LoopStep::Retry,
        PollOutcome::Empty => LoopStep::SleepRetry,
        PollOutcome::Ready => LoopStep::Receive,
    }
}

/// What one receive on the call socket produced.
pub enum RecvOutcome {
    /// The receive failed (a spurious wake or a transient error); the loop
    /// just continues.
    Failed,
    /// One multi-part message arrived.
    Message(Vec<Vec<u8>>),
}

/// What the server owes for one inbound message.
pub enum MessageAction {
    /// Nothing: the message was malformed (or the receive failed) and is
    /// dropped silently; the caller must rely on its own timeout.
    NoReply,
    /// Send these frames back at once: the method name has no handler.
    Reply(Vec<Vec<u8>>),
    /// Hand this envelope to its handler as an independent unit of work;
    /// the reply is framed later by `complete_call`.
    AwaitHandler(CallEnvelope),
}

/// The mathematical model of a `MessageAction`.
pub enum MessageActionModel {
    NoReply,
    Reply(Seq<Seq<u8>>),
    AwaitHandler(CallEnvelopeModel),
}

impl View for MessageAction {
    type V = MessageActionModel;

    open spec fn view(&self) -> MessageActionModel {
        match self {
            MessageAction::NoReply => MessageActionModel::NoReply,
            MessageAction::Reply(frames) => MessageActionModel::Reply(frames.deep_view()),
            MessageAction::AwaitHandler(env) => MessageActionModel::AwaitHandler(env@),
        }
    }
}

/// The fixed error payload a caller receives for an unknown method name.
pub open spec fn not_found_marker() -> Seq<u8> {
    "Method not found".spec_bytes()
}

/// The bytes of the not-found payload.
pub fn not_found_payload() -> (v: Vec<u8>)
    ensures
        v@ == not_found_marker(),
{
    "Method not found".as_bytes_vec()
}

/// The reply owed for an envelope whose method name has no handler.
pub open spec fn spec_not_found_reply(env: CallEnvelopeModel) -> ReplyEnvelopeModel {
    ReplyEnvelopeModel {
        client_identity: env.client_identity,
        correlation_id: env.correlation_id,
        result: Err(not_found_marker()),
    }
}

/// The reply frames owed once a handler for this envelope has finished with
/// this outcome: the caller's tokens echoed verbatim, then the erased result.
pub open spec fn spec_complete_call(
    env: CallEnvelopeModel,
    outcome: Result<Seq<u8>, Seq<u8>>,
) -> Seq<Seq<u8>> {
    spec_reply_frames(
        ReplyEnvelopeModel {
            client_identity: env.client_identity,
            correlation_id: env.correlation_id,
            result: outcome,
        },
    )
}

/// What the server owes for one inbound message, as a function of the
/// dispatch table and the raw frames alone: silence for fewer than five
/// frames, an immediate not-found reply for an unknown method, and a
/// pending handler invocation for a registered one.
pub open spec fn spec_handle_message(
    table: Seq<MethodDescriptorModel>,
    frames: Seq<Seq<u8>>,
) -> MessageActionModel {
    match spec_parse_call(frames) {
        None => MessageActionModel::NoReply,
        Some(env) => if table_has_call(table, env.method_name) {
            MessageActionModel::AwaitHandler(env)
        } else {
            MessageActionModel::Reply(spec_reply_frames(spec_not_found_reply(env)))
        },
    }
}

/// The server runtime's decision core: the dispatch table behind the
/// request loop. The sockets, the sleep and the concurrent scheduling live
/// outside; every choice they act on is taken here.
pub struct ServerCore {
    table: DispatchTable,
}

impl View for ServerCore {
    type V = Seq<MethodDescriptorModel>;

    closed spec fn view(&self) -> Seq<MethodDescriptorModel> {
        self.table@
    }
}

impl ServerCore {
    /// A server core over a dispatch table built from the schema.
    pub fn new(table: DispatchTable) -> (s: Self)
        ensures
            s@ == table@,
    {
        ServerCore { table }
    }

    /// Decides what one inbound message is owed. Malformed messages (fewer
    /// than five frames) get nothing; unknown methods get the fixed
    /// not-found reply; registered methods get an independent handler
    /// invocation.
    pub fn handle_message(&self, frames: &Vec<Vec<u8>>) -> (a: MessageAction)
        ensures
            a@ == spec_handle_message(self@, frames.deep_view()),
    {
        match parse_call_envelope(frames) {
            None => MessageAction::NoReply,
            Some(env) => {
                if self.table.has_handler(&env.method_name) {
                    MessageAction::AwaitHandler(env)
                } else {
                    let CallEnvelope { client_identity, correlation_id, method_name: _, payload: _ } =
                        env;
                    let reply = ReplyEnvelope {
                        client_identity,
                        correlation_id,
                        result: Err(not_found_payload()),
                    };
                    MessageAction::Reply(frame_reply(reply))
                }
            },
        }
    }

    /// Decides what one receive outcome is owed: a failed receive is
    /// retried silently, a message is handled.
    pub fn receive_step(&self, outcome: RecvOutcome) -> (a: MessageAction)
        ensures
            match outcome {
                RecvOutcome::Failed => a@ == MessageActionModel::NoReply,
                RecvOutcome::Message(frames) => a@ == spec_handle_message(
                    self@,
                    frames.deep_view(),
                ),
            },
    {
        match outcome {
            RecvOutcome::Failed => MessageAction::NoReply,
            RecvOutcome::Message(frames) => self.handle_message(&frames),
        }
    }
}

/// Frames the reply for a finished handler invocation. The frames depend on
/// this envelope and outcome alone, so concurrent in-flight calls may finish
/// in any order without affecting each other's replies.
pub fn complete_call(env: &CallEnvelope, outcome: Result<Vec<u8>, Vec<u8>>) -> (frames: Vec<
    Vec<u8>,
>)
    ensures
        frames.deep_view() == spec_complete_call(
            env@,
            match outcome {
                Ok(b) => Ok(b@),
                Err(b) => Err(b@),
            },
        ),
{
    let ghost outcome_model: Result<Seq<u8>, Seq<u8>> = match outcome {
        Ok(ref b) => Ok(b@),
        Err(ref b) => Err(b@),
    };
    let reply = ReplyEnvelope {
        client_identity: env.client_identity.clone(),
        correlation_id: env.correlation_id.clone(),
        result: outcome,
    };
    proof {
        assert(reply@ =~~= ReplyEnvelopeModel {
            client_identity: env@.client_identity,
            correlation_id: env@.correlation_id,
            result: outcome_model,
        });
    }
    frame_reply(reply)
}

} // verus!

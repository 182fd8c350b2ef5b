//! Server runtime core for a protobuf-over-ZeroMQ service layer.
//!
//! The library holds the verified heart of the pattern: the wire envelope
//! codec for call requests, replies and broadcast frames, the dispatch
//! table that maps method names to handlers, the request-loop state
//! machine, and the schema-side method classification that decides which
//! methods are broadcasts and which are calls.
mod dispatch;
mod envelope;
mod generator;
mod laws;
mod server;

pub use laws::lemma_registered_call_one_reply;
pub use laws::lemma_unknown_method_reply;
pub use laws::lemma_malformed_message_silent;
pub use laws::lemma_broadcast_frames_exact;
pub use laws::lemma_distinct_topics_isolated;
pub use laws::lemma_completion_order_independent;

pub use server::IDLE_POLL_SLEEP_MILLIS;
pub use server::LoopStep;
pub use server::MessageAction;
pub use server::MessageActionModel;
pub use server::PollOutcome;
pub use server::RecvOutcome;
pub use server::ServerCore;
pub use server::complete_call;
pub use server::not_found_marker;
pub use server::not_found_payload;
pub use server::poll_step;
pub use server::spec_complete_call;
pub use server::spec_handle_message;
pub use server::spec_not_found_reply;
pub use server::spec_poll_step;

pub use generator::ZmqServerGenerator;
pub use generator::is_subscribe_name;
pub use dispatch::DispatchTable;
pub use dispatch::MethodDescriptor;
pub use dispatch::MethodDescriptorModel;
pub use dispatch::MethodKind;
pub use dispatch::descriptor_models;
pub use dispatch::table_has_call;
pub use dispatch::table_has_name;
pub use envelope::CallEnvelope;
pub use envelope::CallEnvelopeModel;
pub use envelope::ReplyEnvelope;
pub use envelope::ReplyEnvelopeModel;
pub use envelope::parse_call_envelope;
pub use envelope::frame_reply;
pub use envelope::frame_broadcast;
pub use envelope::spec_parse_call;
pub use envelope::spec_reply_frames;
pub use envelope::spec_broadcast_frames;
pub use envelope::spec_erased;
pub use envelope::lossy_utf8;

use prost::Message;
use protobuf_zmq_rust_generator::MessageAction;
use protobuf_zmq_rust_generator::ServerCore;
use protobuf_zmq_rust_generator::ZmqServerGenerator;
use protobuf_zmq_rust_generator::complete_call;
use protobuf_zmq_rust_generator::frame_broadcast;

// The payload codec is the schema layer's delegated collaborator; the server
// carries its bytes opaquely. These tests push real encoded payloads through
// the call path and the broadcast path and decode what comes out the other
// end: the round trip must return the original payload unchanged.

fn timestamp(seconds: i64, nanos: i32) -> prost_types::Timestamp {
    let mut t = prost_types::Timestamp::default();
    t.seconds = seconds;
    t.nanos = nanos;
    t
}

#[test]
fn call_path_round_trips_the_payload() {
    let generator = ZmqServerGenerator {};
    let descriptors = vec![generator.describe_method("echo", "echo")];
    let core = ServerCore::new(generator.dispatch_table(descriptors));

    let payload = timestamp(1700000000, 42);
    let encoded = payload.encode_to_vec();
    let frames = vec![
        b"id-1".to_vec(),
        b"".to_vec(),
        b"corr-42".to_vec(),
        b"echo".to_vec(),
        encoded.clone(),
    ];
    let env = match core.handle_message(&frames) {
        MessageAction::AwaitHandler(env) => env,
        _ => panic!("a registered method must be handed to its handler"),
    };
    assert_eq!(env.payload, encoded);

    // An echoing handler returns the bytes it was handed.
    let reply = complete_call(&env, Ok(env.payload.clone()));
    let decoded = prost_types::Timestamp::decode(reply[2].as_slice()).expect("decodes");
    assert_eq!(decoded, payload);
}

#[test]
fn broadcast_path_round_trips_the_payload() {
    let payload = timestamp(-62135596800, 0);
    let frames = frame_broadcast("Items", payload.encode_to_vec());
    assert_eq!(frames[0], b"Items".to_vec());
    let decoded = prost_types::Timestamp::decode(frames[1].as_slice()).expect("decodes");
    assert_eq!(decoded, payload);
}

#[test]
fn duration_payload_round_trips() {
    let mut payload = prost_types::Duration::default();
    payload.seconds = 3;
    payload.nanos = 500_000_000;
    let frames = frame_broadcast("Delays", payload.encode_to_vec());
    let decoded = prost_types::Duration::decode(frames[1].as_slice()).expect("decodes");
    assert_eq!(decoded, payload);
}

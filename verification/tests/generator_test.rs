use protobuf_zmq_rust_generator::MethodDescriptor;
use protobuf_zmq_rust_generator::MethodKind;
use protobuf_zmq_rust_generator::ZmqServerGenerator;
use protobuf_zmq_rust_generator::frame_broadcast;

#[test]
fn subscribe_prefix_marks_broadcasts() {
    let generator = ZmqServerGenerator {};
    assert_eq!(
        generator.method_kind("subscribeItems"),
        MethodKind::Broadcast
    );
    assert_eq!(generator.method_kind("subscribe"), MethodKind::Broadcast);
    assert_eq!(generator.method_kind("myRequestMethod"), MethodKind::Call);
    assert_eq!(generator.method_kind("subscrib"), MethodKind::Call);
    assert_eq!(generator.method_kind(""), MethodKind::Call);
    assert_eq!(generator.method_kind("Subscribe"), MethodKind::Call);
}

#[test]
fn publish_name_swaps_the_prefix() {
    let generator = ZmqServerGenerator {};
    assert_eq!(
        generator.publish_method_name("subscribeItems"),
        "publishItems".to_string()
    );
    assert_eq!(
        generator.publish_method_name("subscribe"),
        "publish".to_string()
    );
}

#[test]
fn describe_method_keeps_the_wire_name() {
    let generator = ZmqServerGenerator {};
    let d = generator.describe_method("subscribeItems", "Items");
    assert_eq!(d.name, "Items".to_string());
    assert_eq!(d.kind, MethodKind::Broadcast);
    let d = generator.describe_method("myRequestMethod", "MyRequestMethod");
    assert_eq!(d.name, "MyRequestMethod".to_string());
    assert_eq!(d.kind, MethodKind::Call);
}

#[test]
fn filter_keeps_order_within_a_kind() {
    let generator = ZmqServerGenerator {};
    let methods = vec![
        MethodDescriptor {
            name: "a".to_string(),
            kind: MethodKind::Call,
        },
        MethodDescriptor {
            name: "b".to_string(),
            kind: MethodKind::Broadcast,
        },
        MethodDescriptor {
            name: "c".to_string(),
            kind: MethodKind::Call,
        },
    ];
    let calls = generator.filter_methods_by_kind(&methods, MethodKind::Call);
    let names: Vec<String> = calls.iter().map(|m| m.name.clone()).collect();
    assert_eq!(names, vec!["a".to_string(), "c".to_string()]);
    let broadcasts = generator.filter_methods_by_kind(&methods, MethodKind::Broadcast);
    let names: Vec<String> = broadcasts.iter().map(|m| m.name.clone()).collect();
    assert_eq!(names, vec!["b".to_string()]);
}

#[test]
fn broadcasts_with_distinct_topics_stay_apart() {
    let topics = ["Items", "Orders", "Prices"];
    let mut frames: Vec<Vec<Vec<u8>>> = Vec::new();
    for topic in topics {
        frames.push(frame_broadcast(topic, b"payload".to_vec()));
    }
    assert_eq!(frames.len(), topics.len());
    for (f, topic) in frames.iter().zip(topics) {
        assert_eq!(f.len(), 2);
        assert_eq!(f[0], topic.as_bytes().to_vec());
        assert_eq!(f[1], b"payload".to_vec());
    }
    for i in 0..frames.len() {
        for j in 0..frames.len() {
            if i != j {
                assert_ne!(frames[i][0], frames[j][0]);
            }
        }
    }
}

#[test]
fn broadcast_frame_is_topic_then_payload() {
    let frames = frame_broadcast("Items", b"data".to_vec());
    assert_eq!(frames, vec![b"Items".to_vec(), b"data".to_vec()]);
}

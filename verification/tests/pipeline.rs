use motion_capture_client::error::CodecError;
use motion_capture_client::common::JsonData;
use motion_capture_client::pipeline::{
    next_publication, publication, receive, topic, HandoffQueue, Reception,
};

fn datagram(text: &str) -> Vec<u8> {
    let mut buffer = text.as_bytes().to_vec();
    buffer.resize(512, 0);
    buffer
}

#[test]
fn inertial_readings_go_to_the_mpu6050_topic() {
    let reading = JsonData::MPU6050Data {
        source: "imu1".to_string(),
        acc_x: 1,
        acc_y: 2,
        acc_z: 3,
        rot_x: 0,
        rot_y: 0,
        rot_z: 0,
    };
    assert_eq!(topic(&reading), "MOTIONCAPTURE/MPU6050");
}

#[test]
fn range_readings_go_to_the_uwb_topic() {
    let reading = JsonData::UWBData { source: "uwb1".to_string(), range: 4 };
    assert_eq!(topic(&reading), "MOTIONCAPTURE/UWB");
}

#[test]
fn publication_is_fire_and_forget() {
    let message = publication(&JsonData::UWBData { source: "uwb1".to_string(), range: 4 });
    assert_eq!(message.topic, "MOTIONCAPTURE/UWB");
    assert_eq!(message.payload, "{\"source\":\"uwb1\",\"range\":4}");
    assert_eq!(message.qos, 0);
    assert!(!message.retained);
}

#[test]
fn inertial_datagram_is_published_once() {
    let mut queue = HandoffQueue::new();
    let text = "{\"source\":\"imu1\",\"acc_x\":1,\"acc_y\":2,\"acc_z\":3,\"rot_x\":0,\"rot_y\":0,\"rot_z\":0}";
    assert_eq!(receive(&mut queue, &datagram(text)), Reception::Enqueued);
    assert_eq!(queue.len(), 1);
    let message = next_publication(&mut queue).expect("one publication");
    assert_eq!(message.topic, "MOTIONCAPTURE/MPU6050");
    assert_eq!(message.payload, text);
    assert_eq!(message.qos, 0);
    assert!(!message.retained);
    assert!(next_publication(&mut queue).is_none());
}

#[test]
fn range_datagram_is_published_once() {
    let mut queue = HandoffQueue::new();
    assert_eq!(
        receive(&mut queue, &datagram("{\"source\":\"uwb1\",\"range\":4}")),
        Reception::Enqueued
    );
    let message = next_publication(&mut queue).expect("one publication");
    assert_eq!(message.topic, "MOTIONCAPTURE/UWB");
    assert_eq!(message.payload, "{\"source\":\"uwb1\",\"range\":4}");
    assert!(next_publication(&mut queue).is_none());
}

#[test]
fn fractional_range_is_not_a_reading() {
    let mut queue = HandoffQueue::new();
    assert_eq!(
        receive(&mut queue, &datagram("{\"source\":\"uwb1\",\"range\":4.2}")),
        Reception::Rejected(CodecError::DecodeError)
    );
    assert!(next_publication(&mut queue).is_none());
}

#[test]
fn invalid_json_is_dropped_and_reception_goes_on() {
    let mut queue = HandoffQueue::new();
    assert_eq!(
        receive(&mut queue, &datagram("{\"source\":\"uwb1\",\"range\":")),
        Reception::Rejected(CodecError::DecodeError)
    );
    assert_eq!(queue.len(), 0);
    assert!(next_publication(&mut queue).is_none());
    assert_eq!(
        receive(&mut queue, &datagram("{\"source\":\"uwb1\",\"range\":7}")),
        Reception::Enqueued
    );
    let message = next_publication(&mut queue).expect("one publication");
    assert_eq!(message.payload, "{\"source\":\"uwb1\",\"range\":7}");
}

#[test]
fn invalid_utf8_is_dropped_and_reception_goes_on() {
    let mut queue = HandoffQueue::new();
    assert_eq!(
        receive(&mut queue, &[0xff, 0x00, 0x00]),
        Reception::Rejected(CodecError::EncodingError)
    );
    assert_eq!(queue.len(), 0);
    assert_eq!(
        receive(&mut queue, &datagram("{\"source\":\"uwb1\",\"range\":7}")),
        Reception::Enqueued
    );
    assert_eq!(queue.len(), 1);
}

#[test]
fn publications_keep_the_order_of_the_datagrams() {
    let mut queue = HandoffQueue::new();
    let mut sent = Vec::new();
    for i in 0..20i64 {
        let text = if i % 3 == 0 {
            format!(
                "{{\"source\":\"imu{}\",\"acc_x\":{},\"acc_y\":0,\"acc_z\":0,\"rot_x\":0,\"rot_y\":0,\"rot_z\":{}}}",
                i,
                i,
                -i
            )
        } else {
            format!("{{\"source\":\"uwb{}\",\"range\":{}}}", i, i * 10)
        };
        assert_eq!(receive(&mut queue, &datagram(&text)), Reception::Enqueued);
        sent.push((i % 3 == 0, text));
    }
    assert_eq!(queue.len(), 20);
    for (is_inertial, text) in sent {
        let message = next_publication(&mut queue).expect("a publication for each datagram");
        assert_eq!(message.payload, text);
        assert_eq!(
            message.topic,
            if is_inertial { "MOTIONCAPTURE/MPU6050" } else { "MOTIONCAPTURE/UWB" }
        );
    }
    assert!(next_publication(&mut queue).is_none());
}

#[test]
fn order_holds_when_receiving_and_publishing_alternate() {
    let mut queue = HandoffQueue::new();
    receive(&mut queue, &datagram("{\"source\":\"a\",\"range\":1}"));
    receive(&mut queue, &datagram("{\"source\":\"b\",\"range\":2}"));
    assert_eq!(next_publication(&mut queue).unwrap().payload, "{\"source\":\"a\",\"range\":1}");
    receive(&mut queue, &datagram("garbage"));
    receive(&mut queue, &datagram("{\"source\":\"c\",\"range\":3}"));
    assert_eq!(next_publication(&mut queue).unwrap().payload, "{\"source\":\"b\",\"range\":2}");
    assert_eq!(next_publication(&mut queue).unwrap().payload, "{\"source\":\"c\",\"range\":3}");
    assert!(next_publication(&mut queue).is_none());
}

#[test]
fn queue_hands_readings_out_first_in_first_out() {
    let mut queue = HandoffQueue::new();
    assert_eq!(queue.len(), 0);
    assert_eq!(queue.pop(), None);
    for i in 0..5 {
        assert!(queue.push(JsonData::UWBData { source: "q".to_string(), range: i }).is_ok());
    }
    assert_eq!(queue.len(), 5);
    for i in 0..5 {
        assert_eq!(queue.pop(), Some(JsonData::UWBData { source: "q".to_string(), range: i }));
    }
    assert_eq!(queue.pop(), None);
}

#[test]
fn closed_queue_hands_the_reading_back() {
    let mut queue = HandoffQueue::new();
    assert!(queue.push(JsonData::UWBData { source: "q".to_string(), range: 1 }).is_ok());
    queue.close();
    assert_eq!(
        queue.push(JsonData::UWBData { source: "q".to_string(), range: 2 }),
        Err(JsonData::UWBData { source: "q".to_string(), range: 2 })
    );
    assert_eq!(queue.len(), 1);
    assert_eq!(queue.pop(), Some(JsonData::UWBData { source: "q".to_string(), range: 1 }));
}

#[test]
fn receiver_reports_a_closed_queue() {
    let mut queue = HandoffQueue::new();
    queue.close();
    assert_eq!(
        receive(&mut queue, &datagram("{\"source\":\"uwb1\",\"range\":7}")),
        Reception::QueueClosed
    );
    assert_eq!(
        receive(&mut queue, &datagram("nonsense")),
        Reception::Rejected(CodecError::DecodeError)
    );
    assert_eq!(queue.len(), 0);
}

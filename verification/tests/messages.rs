use iggy_core::messages::{
    IggyMessage, IggyMessageHeader, PollingKind, PollingStrategy, PollingTarget, ReceiveMessage,
    SendMessage,
};

fn message() -> IggyMessage {
    IggyMessage {
        header: IggyMessageHeader {
            checksum: 11,
            id: 12,
            offset: 13,
            timestamp: 14,
            origin_timestamp: 15,
            user_headers_length: 0,
            payload_length: 3,
            reserved: 0,
        },
        payload: vec![1, 2, 3],
        user_headers: None,
    }
}

#[test]
fn received_message_getters() {
    let m = ReceiveMessage { inner: message(), partition_id: 4 };
    assert_eq!(m.payload(), vec![1, 2, 3]);
    assert_eq!(
        (m.offset(), m.timestamp(), m.origin_timestamp(), m.id(), m.checksum(), m.length(), m.partition_id()),
        (13, 14, 15, 12, 11, 3, 4)
    );
}

#[test]
fn send_message_clone_is_deep() {
    let m = SendMessage { inner: IggyMessage { user_headers: Some(vec![7]), ..message() } };
    let c = m.clone();
    assert_eq!(c.inner, m.inner);
}

#[test]
fn polling_targets() {
    assert_eq!(
        PollingStrategy::Offset { value: 5 }.to_target(),
        PollingTarget { kind: PollingKind::Offset, value: 5 }
    );
    assert_eq!(
        PollingStrategy::Timestamp { value: 9 }.to_target(),
        PollingTarget { kind: PollingKind::Timestamp, value: 9 }
    );
    assert_eq!(PollingStrategy::Next {}.to_target(), PollingTarget { kind: PollingKind::Next, value: 0 });
    assert_eq!(PollingStrategy::First {}.to_target().kind, PollingKind::First);
    assert_eq!(PollingStrategy::Last {}.to_target().value, 0);
}

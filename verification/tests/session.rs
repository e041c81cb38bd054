use spike_prime::codec::encode_message;
use spike_prime::connection::message::{ResponseStatus, RxMessage, SetHubNameRequest, TxMessage};
use spike_prime::connection::SpikeConnection;
use spike_prime::error::Error;

fn info_payload(product_group_device_type: u16) -> Vec<u8> {
    let mut p = vec![
        0x01, // opcode
        3, 1, 0x39, 0x05, // rpc 3.1 build 1337
        2, 4, 0x10, 0x00, // firmware 2.4 build 16
        0xF4, 0x01, // max packet size 500
        0x00, 0x01, // max message size 256
        0x80, 0x00, // max chunk size 128
    ];
    p.extend_from_slice(&product_group_device_type.to_le_bytes());
    p
}

fn connected() -> SpikeConnection {
    SpikeConnection::new(encode_message(info_payload(0))).unwrap()
}

#[test]
fn handshake_captures_negotiated_limits() {
    let conn = connected();
    assert_eq!(conn.rpc_version(), (3, 1, 1337));
    assert_eq!(conn.firmware_version(), (2, 4, 16));
    assert_eq!(conn.max_packet_size(), 500);
    assert_eq!(conn.max_message_size(), 256);
    assert_eq!(conn.max_chunk_size(), 128);
    assert!(conn.try_device_notification().is_none());
}

#[test]
fn handshake_rejects_other_device_family() {
    // a nonzero product/group/device type is not the expected hub
    let res = SpikeConnection::new(encode_message(info_payload(7)));
    assert!(matches!(res, Err(Error::BadDevice)));
}

#[test]
fn handshake_rejects_wrong_message_kind() {
    let res = SpikeConnection::new(encode_message(vec![0x17, 0x00]));
    assert!(matches!(res, Err(Error::WrongMessage)));
}

#[test]
fn handshake_rejects_corrupt_frame() {
    let res = SpikeConnection::new(vec![0x07, 0x42]);
    assert!(matches!(res, Err(Error::CorruptedFrame)));
}

#[test]
fn handshake_packet_is_encoded_info_request() {
    assert_eq!(SpikeConnection::handshake_packet(), encode_message(vec![0x00]));
}

#[test]
fn prepare_message_rejects_oversized_request() {
    let conn = connected();
    // max message size is 256: a 300-byte tunnel payload serializes larger
    let message = RxMessage::TunnelMessage(spike_prime::connection::message::TunnelMessage {
        payload: vec![0xAA; 300],
    });
    assert!(matches!(conn.prepare_message(message), Err(Error::OversizedMessage)));
}

#[test]
fn prepare_message_splits_to_packet_size() {
    let mut conn = connected();
    conn.max_packet_size = 5;
    let message = RxMessage::SetHubNameRequest(SetHubNameRequest { name: "Rob".to_string() });
    let packets = conn.prepare_message(message).unwrap();
    let whole = encode_message(vec![0x16, b'R', b'o', b'b', 0x00]);
    assert!(!packets.is_empty());
    for p in &packets {
        assert!(p.len() <= 5);
        assert!(!p.is_empty());
    }
    let joined: Vec<u8> = packets.concat();
    assert_eq!(joined, whole);
}

#[test]
fn feed_routes_console_notifications() {
    let mut conn = connected();
    conn.feed_fragment(&encode_message(vec![0x21, b'h', b'i', 0x00]));
    let note = conn.try_console_notification().unwrap();
    assert_eq!(note.console_message, "hi");
    assert!(conn.try_console_notification().is_none());
    assert!(conn.try_receive_message().is_none());
}

#[test]
fn two_console_notifications_keep_arrival_order() {
    let mut conn = connected();
    conn.feed_fragment(&encode_message(vec![0x21, b'o', b'n', b'e', 0x00]));
    conn.feed_fragment(&encode_message(vec![0x21, b't', b'w', b'o', 0x00]));
    assert_eq!(conn.try_console_notification().unwrap().console_message, "one");
    assert_eq!(conn.try_console_notification().unwrap().console_message, "two");
    assert!(conn.try_console_notification().is_none());
}

#[test]
fn feed_routes_telemetry_to_latest_slot() {
    let mut conn = connected();
    conn.feed_fragment(&encode_message(vec![0x3c, 0x02, 0x00, 0x00, 42]));
    let first = conn.try_device_notification().unwrap().clone();
    assert_eq!(first.payload.len(), 1);
    // a newer bundle overwrites the slot
    conn.feed_fragment(&encode_message(vec![0x3c, 0x02, 0x00, 0x00, 43]));
    let second = conn.try_device_notification().unwrap();
    assert_ne!(first, *second);
    // telemetry never reaches the generic queue
    assert!(conn.try_receive_message().is_none());
    let mut conn2 = connected();
    conn2.feed_fragment(&encode_message(vec![0x3c, 0x02, 0x00, 0x00, 42]));
    conn2.clear_device_notification();
    assert!(conn2.try_device_notification().is_none());
}

#[test]
fn feed_routes_program_flow_notifications() {
    let mut conn = connected();
    conn.feed_fragment(&encode_message(vec![0x20, 0x00]));
    let note = conn.try_program_flow_notification().unwrap();
    assert_eq!(
        note.program_action,
        spike_prime::connection::message::ProgramAction::Start
    );
    assert!(conn.try_program_flow_notification().is_none());
}

#[test]
fn feed_routes_responses_to_generic_queue() {
    let mut conn = connected();
    conn.feed_fragment(&encode_message(vec![0x17, 0x00]));
    match conn.try_receive_message().unwrap().unwrap() {
        TxMessage::SetHubNameResponse(r) => {
            assert_eq!(r.response_status, ResponseStatus::Acknowledged)
        }
        other => panic!("wrong kind: {other:?}"),
    }
}

#[test]
fn feed_reassembles_split_fragments() {
    let mut conn = connected();
    let frame = encode_message(vec![0x21, b'o', b'k', 0x00]);
    let (a, b) = frame.split_at(2);
    conn.feed_fragment(a);
    assert!(conn.try_console_notification().is_none());
    conn.feed_fragment(b);
    assert_eq!(conn.try_console_notification().unwrap().console_message, "ok");
}

#[test]
fn feed_delivers_decode_failure_on_generic_queue() {
    let mut conn = connected();
    // a lone delimiter is a complete but corrupt frame
    conn.feed_fragment(&[0x02]);
    assert_eq!(conn.try_receive_message(), Some(Err(Error::CorruptedFrame)));
}

#[test]
fn feed_delivers_unknown_opcode_on_generic_queue() {
    let mut conn = connected();
    conn.feed_fragment(&encode_message(vec![0x99]));
    assert_eq!(conn.try_receive_message(), Some(Err(Error::UnknownMessage)));
}

#[test]
fn set_hub_name_refusal_carries_operation_name() {
    let message = TxMessage::deserialize(vec![0x17, 0x01]).unwrap();
    assert_eq!(
        SpikeConnection::handle_set_hub_name_response(message),
        Err(Error::NotAcknowledged("SetHubNameRequest", None))
    );
}

#[test]
fn set_hub_name_acknowledged_is_success() {
    let message = TxMessage::deserialize(vec![0x17, 0x00]).unwrap();
    assert_eq!(SpikeConnection::handle_set_hub_name_response(message), Ok(()));
}

#[test]
fn set_hub_name_on_other_kind_is_wrong_message() {
    let message = TxMessage::deserialize(vec![0x1f, 0x00]).unwrap();
    assert_eq!(
        SpikeConnection::handle_set_hub_name_response(message),
        Err(Error::WrongMessage)
    );
}

#[test]
fn get_hub_name_returns_the_name() {
    let message = TxMessage::deserialize(vec![0x19, b'R', b'o', b'b', 0x00]).unwrap();
    assert_eq!(
        SpikeConnection::handle_get_hub_name_response(message),
        Ok("Rob".to_string())
    );
}

#[test]
fn get_hub_uuid_returns_the_bytes() {
    let mut data = vec![0x1b];
    data.extend_from_slice(&[0x5A; 16]);
    let message = TxMessage::deserialize(data).unwrap();
    assert_eq!(
        SpikeConnection::handle_get_hub_uuid_response(message),
        Ok(vec![0x5A; 16])
    );
}

#[test]
fn device_notification_refusal_carries_operation_name() {
    let message = TxMessage::deserialize(vec![0x29, 0x01]).unwrap();
    assert_eq!(
        SpikeConnection::handle_device_notification_response(message),
        Err(Error::NotAcknowledged("DeviceNotificationRequest", None))
    );
}

#[test]
fn program_flow_refusal_carries_operation_name() {
    let message = TxMessage::deserialize(vec![0x1f, 0x01]).unwrap();
    assert_eq!(
        SpikeConnection::handle_program_flow_response(message),
        Err(Error::NotAcknowledged("ProgramFlowRequest", None))
    );
}

#[test]
fn clear_slot_discards_one_extra_frame() {
    // the extra frame is discarded whatever it holds; the second frame decides
    let extra = TxMessage::deserialize(vec![0x20, 0x00]).unwrap();
    let real = TxMessage::deserialize(vec![0x47, 0x00]).unwrap();
    assert_eq!(SpikeConnection::handle_clear_slot_response(extra, real), Ok(()));
    let discarded = TxMessage::deserialize(vec![0x19, b'x', 0x00]).unwrap();
    let refused = TxMessage::deserialize(vec![0x47, 0x01]).unwrap();
    assert_eq!(
        SpikeConnection::handle_clear_slot_response(discarded, refused),
        Err(Error::NotAcknowledged("ClearSlotResponse", None))
    );
}

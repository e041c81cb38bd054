use spike_prime::connection::message::{
    BeginFirmwareUpdateRequest, ClearSlotRequest, Color, DeviceMessage,
    DeviceNotificationRequest, HubFace, HubPort, MotorDeviceType, ProgramAction,
    ProgramFlowRequest, Reader, ResponseStatus, RxMessage, SetHubNameRequest,
    StartFileUploadRequest, StartFirmwareUploadRequest, TransferChunkRequest, TunnelMessage,
    TxMessage, read_str,
};
use spike_prime::error::Error;

#[test]
fn serialize_starts_with_opcode() {
    let cases: Vec<(RxMessage, u8)> = vec![
        (RxMessage::InfoRequest, 0x00),
        (
            RxMessage::StartFirmwareUploadRequest(StartFirmwareUploadRequest {
                file_sha: [0; 20],
                crc32: 1,
            }),
            0x0a,
        ),
        (
            RxMessage::StartFileUploadRequest(StartFileUploadRequest {
                file_name: "p".to_string(),
                program_slot: 0,
                crc32: 1,
            }),
            0x0c,
        ),
        (
            RxMessage::TransferChunkRequest(TransferChunkRequest {
                crc32: 1,
                payload: vec![1, 2],
            }),
            0x10,
        ),
        (
            RxMessage::BeginFirmwareUpdateRequest(BeginFirmwareUpdateRequest {
                file_sha: [0; 20],
                crc32: 1,
            }),
            0x14,
        ),
        (
            RxMessage::SetHubNameRequest(SetHubNameRequest { name: "n".to_string() }),
            0x16,
        ),
        (RxMessage::GetHubNameRequest, 0x18),
        (RxMessage::DeviceUuidRequest, 0x1a),
        (
            RxMessage::ProgramFlowRequest(ProgramFlowRequest {
                program_action: ProgramAction::Start,
                program_slot: 0,
            }),
            0x1e,
        ),
        (RxMessage::ClearSlotRequest(ClearSlotRequest { program_slot: 0 }), 0x46),
        (RxMessage::TunnelMessage(TunnelMessage { payload: vec![9] }), 0x32),
        (
            RxMessage::DeviceNotificationRequest(DeviceNotificationRequest { interval: 10 }),
            0x28,
        ),
    ];
    for (message, opcode) in cases {
        let bytes = message.serialize();
        assert!(!bytes.is_empty());
        assert_eq!(bytes[0], opcode);
    }
}

#[test]
fn serialize_start_firmware_upload() {
    let mut sha = [0u8; 20];
    for (i, b) in sha.iter_mut().enumerate() {
        *b = i as u8;
    }
    let bytes = StartFirmwareUploadRequest { file_sha: sha, crc32: 0x01020304 }.serialize();
    let mut expected = vec![0x0a];
    expected.extend_from_slice(&sha);
    expected.extend_from_slice(&[0x04, 0x03, 0x02, 0x01]);
    assert_eq!(bytes, expected);
}

#[test]
fn serialize_start_file_upload() {
    let bytes = StartFileUploadRequest {
        file_name: "program.py".to_string(),
        program_slot: 3,
        crc32: 0xDEADBEEF,
    }
    .serialize();
    let mut expected = vec![0x0c];
    expected.extend_from_slice(b"program.py");
    expected.extend_from_slice(&[0x00, 0x03, 0xEF, 0xBE, 0xAD, 0xDE]);
    assert_eq!(bytes, expected);
}

#[test]
fn serialize_file_name_truncated_to_31_bytes() {
    let long = "a".repeat(40);
    let bytes = StartFileUploadRequest {
        file_name: long,
        program_slot: 0,
        crc32: 0,
    }
    .serialize();
    // opcode + 31 name bytes + null + slot + 4 checksum bytes
    assert_eq!(bytes.len(), 1 + 31 + 1 + 1 + 4);
    assert_eq!(&bytes[1..32], "a".repeat(31).as_bytes());
    assert_eq!(bytes[32], 0x00);
}

#[test]
fn serialize_hub_name_truncated_to_29_bytes() {
    let bytes = SetHubNameRequest { name: "x".repeat(50) }.serialize();
    assert_eq!(bytes.len(), 1 + 29 + 1);
    assert_eq!(bytes[0], 0x16);
    assert_eq!(*bytes.last().unwrap(), 0x00);
}

#[test]
fn serialize_transfer_chunk() {
    let bytes = TransferChunkRequest { crc32: 0x11223344, payload: vec![7, 8, 9] }.serialize();
    assert_eq!(bytes, vec![0x10, 0x44, 0x33, 0x22, 0x11, 0x03, 0x00, 7, 8, 9]);
}

#[test]
fn serialize_program_flow_and_clear_slot() {
    let start = ProgramFlowRequest { program_action: ProgramAction::Start, program_slot: 2 };
    assert_eq!(start.serialize(), vec![0x1e, 0x00, 0x02]);
    let stop = ProgramFlowRequest { program_action: ProgramAction::Stop, program_slot: 2 };
    assert_eq!(stop.serialize(), vec![0x1e, 0x01, 0x02]);
    assert_eq!(ClearSlotRequest { program_slot: 5 }.serialize(), vec![0x46, 0x05]);
}

#[test]
fn serialize_tunnel_message() {
    let bytes = TunnelMessage { payload: vec![0xAA, 0xBB] }.serialize();
    assert_eq!(bytes, vec![0x32, 0x02, 0x00, 0xAA, 0xBB]);
}

#[test]
fn serialize_device_notification_request() {
    let bytes = DeviceNotificationRequest { interval: 10 }.serialize();
    assert_eq!(bytes, vec![0x28, 0x0A, 0x00]);
}

#[test]
fn deserialize_info_response() {
    let data = vec![
        0x01, // opcode
        3, 1, // rpc major, minor
        0x39, 0x05, // rpc build 1337
        2, 4, // firmware major, minor
        0x10, 0x00, // firmware build 16
        0xF4, 0x01, // max packet size 500
        0x00, 0x01, // max message size 256
        0x80, 0x00, // max chunk size 128
        0x00, 0x00, // product group device type 0
    ];
    let msg = TxMessage::deserialize(data).unwrap();
    match msg {
        TxMessage::InfoResponse(r) => {
            assert_eq!(r.rpc_major, 3);
            assert_eq!(r.rpc_minor, 1);
            assert_eq!(r.rpc_build, 1337);
            assert_eq!(r.firmware_major, 2);
            assert_eq!(r.firmware_minor, 4);
            assert_eq!(r.firmware_build, 16);
            assert_eq!(r.max_packet_size, 500);
            assert_eq!(r.max_msg_size, 256);
            assert_eq!(r.max_chunk_size, 128);
            assert_eq!(r.product_group_device_type, 0);
        }
        other => panic!("wrong kind: {other:?}"),
    }
}

#[test]
fn deserialize_status_responses() {
    let msg = TxMessage::deserialize(vec![0x17, 0x00]).unwrap();
    assert_eq!(
        msg,
        TxMessage::SetHubNameResponse(spike_prime::connection::message::SetHubNameResponse {
            response_status: ResponseStatus::Acknowledged,
        })
    );
    let msg = TxMessage::deserialize(vec![0x11, 0x01]).unwrap();
    match msg {
        TxMessage::TransferChunkResponse(r) => {
            assert_eq!(r.response_status, ResponseStatus::NotAcknowledged)
        }
        other => panic!("wrong kind: {other:?}"),
    }
}

#[test]
fn out_of_range_status_byte_fails() {
    for op in [0x0bu8, 0x0d, 0x11, 0x15, 0x17, 0x1f, 0x29, 0x47] {
        assert_eq!(
            TxMessage::deserialize(vec![op, 0x05]),
            Err(Error::InvalidEnumValue { enum_name: "ResponseStatus", value: 5 })
        );
    }
}

#[test]
fn deserialize_start_firmware_upload_response() {
    let msg = TxMessage::deserialize(vec![0x0b, 0x00, 0x10, 0x00, 0x00, 0x00]).unwrap();
    match msg {
        TxMessage::StartFirmwareUploadResponse(r) => {
            assert_eq!(r.response_status, ResponseStatus::Acknowledged);
            assert_eq!(r.already_uploaded, 16);
        }
        other => panic!("wrong kind: {other:?}"),
    }
}

#[test]
fn deserialize_hub_name_response() {
    let msg = TxMessage::deserialize(vec![0x19, b'R', b'o', b'b', 0x00]).unwrap();
    match msg {
        TxMessage::GetHubNameResponse(r) => assert_eq!(r.name, "Rob"),
        other => panic!("wrong kind: {other:?}"),
    }
}

#[test]
fn deserialize_hub_name_invalid_utf8_fails() {
    assert_eq!(
        TxMessage::deserialize(vec![0x19, 0xFF, 0xFE, 0x00]),
        Err(Error::InvalidUtf8)
    );
}

#[test]
fn deserialize_hub_name_without_terminator_fails() {
    assert_eq!(
        TxMessage::deserialize(vec![0x19, b'R', b'o', b'b']),
        Err(Error::UnexpectedEof)
    );
}

#[test]
fn deserialize_console_notification() {
    let msg = TxMessage::deserialize(vec![0x21, b'h', b'i', 0x00]).unwrap();
    match msg {
        TxMessage::ConsoleNotification(r) => assert_eq!(r.console_message, "hi"),
        other => panic!("wrong kind: {other:?}"),
    }
}

#[test]
fn deserialize_device_uuid_response() {
    let mut data = vec![0x1b];
    data.extend_from_slice(&[0xAB; 16]);
    let msg = TxMessage::deserialize(data).unwrap();
    match msg {
        TxMessage::DeviceUuidResponse(r) => assert_eq!(r.uuid, vec![0xAB; 16]),
        other => panic!("wrong kind: {other:?}"),
    }
    assert_eq!(
        TxMessage::deserialize(vec![0x1b, 1, 2, 3]),
        Err(Error::UnexpectedEof)
    );
}

#[test]
fn deserialize_program_flow_notification() {
    let msg = TxMessage::deserialize(vec![0x20, 0x01]).unwrap();
    match msg {
        TxMessage::ProgramFlowNotification(r) => {
            assert_eq!(r.program_action, ProgramAction::Stop)
        }
        other => panic!("wrong kind: {other:?}"),
    }
    assert_eq!(
        TxMessage::deserialize(vec![0x20, 0x09]),
        Err(Error::InvalidEnumValue { enum_name: "ProgramAction", value: 9 })
    );
}

#[test]
fn deserialize_unknown_opcode_fails() {
    assert_eq!(TxMessage::deserialize(vec![0x99]), Err(Error::UnknownMessage));
}

#[test]
fn deserialize_empty_payload_fails() {
    assert_eq!(TxMessage::deserialize(vec![]), Err(Error::UnexpectedEof));
}

#[test]
fn deserialize_telemetry_battery_entry() {
    let msg = TxMessage::deserialize(vec![0x3c, 0x02, 0x00, 0x00, 80]).unwrap();
    match msg {
        TxMessage::DeviceNotification(n) => {
            assert_eq!(n.payload, vec![DeviceMessage::DeviceBattery(80)]);
        }
        other => panic!("wrong kind: {other:?}"),
    }
}

#[test]
fn deserialize_telemetry_several_entries() {
    // battery (2 bytes) then force sensor (4 bytes)
    let msg =
        TxMessage::deserialize(vec![0x3c, 0x06, 0x00, 0x00, 55, 0x0b, 0x02, 0x7F, 0x01]).unwrap();
    match msg {
        TxMessage::DeviceNotification(n) => {
            assert_eq!(
                n.payload,
                vec![
                    DeviceMessage::DeviceBattery(55),
                    DeviceMessage::DeviceForceSensor {
                        port: HubPort::C,
                        value: 0x7F,
                        pressure: true,
                    },
                ]
            );
        }
        other => panic!("wrong kind: {other:?}"),
    }
}

#[test]
fn deserialize_telemetry_motor_entry() {
    let entry = vec![
        0x0a, 0x01, 0x30, // tag, port B, medium motor
        0x10, 0x00, // absolute position 16
        0xFF, 0xFF, // power -1
        0xFB, // speed -5
        0x01, 0x00, 0x00, 0x80, // position: i32 with the sign bit set
    ];
    let mut data = vec![0x3c, entry.len() as u8, 0x00];
    data.extend_from_slice(&entry);
    let msg = TxMessage::deserialize(data).unwrap();
    match msg {
        TxMessage::DeviceNotification(n) => {
            assert_eq!(
                n.payload,
                vec![DeviceMessage::DeviceMotor {
                    port: HubPort::B,
                    motor_device_type: MotorDeviceType::Medium,
                    absolute_position: 16,
                    power: -1,
                    speed: -5,
                    position: -2147483647,
                }]
            );
        }
        other => panic!("wrong kind: {other:?}"),
    }
}

#[test]
fn out_of_range_face_byte_fails() {
    let data = vec![0x3c, 0x02, 0x00, 0x01, 0x09];
    assert_eq!(
        TxMessage::deserialize(data),
        Err(Error::InvalidEnumValue { enum_name: "HubFace", value: 9 })
    );
}

#[test]
fn out_of_range_port_byte_fails() {
    let data = vec![0x3c, 0x03, 0x00, 0x0d, 0x08, 0x00];
    assert_eq!(
        TxMessage::deserialize(data),
        Err(Error::InvalidEnumValue { enum_name: "HubPort", value: 8 })
    );
}

#[test]
fn out_of_range_motor_type_byte_fails() {
    let data = vec![0x3c, 0x0b, 0x00, 0x0a, 0x00, 0x42, 0, 0, 0, 0, 0, 0, 0, 0, 0];
    assert_eq!(
        TxMessage::deserialize(data),
        Err(Error::InvalidEnumValue { enum_name: "MotorDeviceType", value: 0x42 })
    );
}

#[test]
fn out_of_range_color_byte_degrades_to_no_color() {
    let entry = vec![0x0c, 0x00, 0x50, 0x01, 0x00, 0x02, 0x00, 0x03, 0x00];
    let mut data = vec![0x3c, entry.len() as u8, 0x00];
    data.extend_from_slice(&entry);
    let msg = TxMessage::deserialize(data).unwrap();
    match msg {
        TxMessage::DeviceNotification(n) => {
            assert_eq!(
                n.payload,
                vec![DeviceMessage::DeviceColorSensor {
                    port: HubPort::A,
                    color: None,
                    red: 1,
                    green: 2,
                    blue: 3,
                }]
            );
        }
        other => panic!("wrong kind: {other:?}"),
    }
}

#[test]
fn in_range_color_byte_is_kept() {
    let entry = vec![0x0c, 0x00, 0x06, 0x01, 0x00, 0x02, 0x00, 0x03, 0x00];
    let mut data = vec![0x3c, entry.len() as u8, 0x00];
    data.extend_from_slice(&entry);
    let msg = TxMessage::deserialize(data).unwrap();
    match msg {
        TxMessage::DeviceNotification(n) => match &n.payload[0] {
            DeviceMessage::DeviceColorSensor { color, .. } => {
                assert_eq!(*color, Some(Color::Green))
            }
            other => panic!("wrong entry: {other:?}"),
        },
        other => panic!("wrong kind: {other:?}"),
    }
}

#[test]
fn deserialize_telemetry_imu_entry() {
    let entry = vec![
        0x01, 0x00, 0x05, // tag, up face Top, yaw face Left
        0x0A, 0x00, 0xF6, 0xFF, 0x00, 0x00, // yaw 10, pitch -10, roll 0
        0x01, 0x00, 0x02, 0x00, 0x03, 0x00, // accelerometer
        0x04, 0x00, 0x05, 0x00, 0x06, 0x00, // gyroscope
    ];
    let mut data = vec![0x3c, entry.len() as u8, 0x00];
    data.extend_from_slice(&entry);
    let msg = TxMessage::deserialize(data).unwrap();
    match msg {
        TxMessage::DeviceNotification(n) => {
            assert_eq!(
                n.payload,
                vec![DeviceMessage::DeviceImuValues {
                    up_face: HubFace::Top,
                    yaw_face: HubFace::Left,
                    yaw: 10,
                    pitch: -10,
                    roll: 0,
                    accelerometer_x: 1,
                    accelerometer_y: 2,
                    accelerometer_z: 3,
                    gyroscope_x: 4,
                    gyroscope_y: 5,
                    gyroscope_z: 6,
                }]
            );
        }
        other => panic!("wrong kind: {other:?}"),
    }
}

#[test]
fn serialize_begin_firmware_update() {
    let bytes = BeginFirmwareUpdateRequest { file_sha: [0x11; 20], crc32: 0x01020304 }.serialize();
    let mut expected = vec![0x14];
    expected.extend_from_slice(&[0x11; 20]);
    expected.extend_from_slice(&[0x04, 0x03, 0x02, 0x01]);
    assert_eq!(bytes, expected);
}

#[test]
fn serialize_tunnel_payload_capped_at_u16() {
    let bytes = TunnelMessage { payload: vec![0x33; 70000] }.serialize();
    assert_eq!(bytes.len(), 1 + 2 + 65535);
    assert_eq!(&bytes[1..3], &[0xFF, 0xFF]);
}

#[test]
fn deserialize_telemetry_matrix_display_entry() {
    let mut entry = vec![0x02];
    entry.extend_from_slice(&[9; 25]);
    let mut data = vec![0x3c, entry.len() as u8, 0x00];
    data.extend_from_slice(&entry);
    let msg = TxMessage::deserialize(data).unwrap();
    match msg {
        TxMessage::DeviceNotification(n) => {
            assert_eq!(n.payload, vec![DeviceMessage::Device5x5MatrixDisplay(vec![9; 25])]);
        }
        other => panic!("wrong kind: {other:?}"),
    }
}

#[test]
fn deserialize_telemetry_color_matrix_entry() {
    let mut entry = vec![0x0e, 0x03];
    entry.extend_from_slice(&[1, 2, 3, 4, 5, 6, 7, 8, 9]);
    let mut data = vec![0x3c, entry.len() as u8, 0x00];
    data.extend_from_slice(&entry);
    let msg = TxMessage::deserialize(data).unwrap();
    match msg {
        TxMessage::DeviceNotification(n) => {
            assert_eq!(
                n.payload,
                vec![DeviceMessage::Device3x3ColorMatrix {
                    port: HubPort::D,
                    pixels: vec![1, 2, 3, 4, 5, 6, 7, 8, 9],
                }]
            );
        }
        other => panic!("wrong kind: {other:?}"),
    }
}

#[test]
fn deserialize_telemetry_distance_entry() {
    let data = vec![0x3c, 0x04, 0x00, 0x0d, 0x05, 0x9C, 0xFF];
    let msg = TxMessage::deserialize(data).unwrap();
    match msg {
        TxMessage::DeviceNotification(n) => {
            assert_eq!(
                n.payload,
                vec![DeviceMessage::DeviceDistanceSensor { port: HubPort::F, distance: -100 }]
            );
        }
        other => panic!("wrong kind: {other:?}"),
    }
}

#[test]
fn deserialize_telemetry_unknown_entry_tag_fails() {
    assert_eq!(
        TxMessage::deserialize(vec![0x3c, 0x02, 0x00, 0x42, 0x00]),
        Err(Error::UnknownMessage)
    );
}

#[test]
fn deserialize_telemetry_declared_size_past_data_fails() {
    // the size prefix promises more entry bytes than the payload carries
    assert_eq!(
        TxMessage::deserialize(vec![0x3c, 0x08, 0x00, 0x00, 55]),
        Err(Error::UnexpectedEof)
    );
}

#[test]
fn deserialize_empty_telemetry_bundle() {
    let msg = TxMessage::deserialize(vec![0x3c, 0x00, 0x00]).unwrap();
    match msg {
        TxMessage::DeviceNotification(n) => assert!(n.payload.is_empty()),
        other => panic!("wrong kind: {other:?}"),
    }
}

#[test]
fn deserialize_force_sensor_bad_pressure_byte_fails() {
    assert_eq!(
        TxMessage::deserialize(vec![0x3c, 0x04, 0x00, 0x0b, 0x00, 0x10, 0x02]),
        Err(Error::InvalidEnumValue { enum_name: "bool", value: 2 })
    );
}

#[test]
fn deserialize_empty_string_field() {
    let msg = TxMessage::deserialize(vec![0x19, 0x00]).unwrap();
    match msg {
        TxMessage::GetHubNameResponse(r) => assert_eq!(r.name, ""),
        other => panic!("wrong kind: {other:?}"),
    }
}

#[test]
fn read_str_consumes_through_terminator() {
    let mut r = Reader::new(vec![b'a', b'b', 0x00, 0xEE]);
    assert_eq!(read_str(&mut r).unwrap(), "ab");
    assert_eq!(r.pos, 3);
}

#[test]
fn read_str_without_terminator_fails() {
    let mut r = Reader::new(vec![b'a', b'b']);
    assert_eq!(read_str(&mut r), Err(Error::UnexpectedEof));
}

#[test]
fn reader_little_endian_values() {
    let mut r = Reader::new(vec![0x34, 0x12, 0xFE, 0xFF, 0x78, 0x56, 0x34, 0x12, 0xFF]);
    assert_eq!(r.read_u16_le().unwrap(), 0x1234);
    assert_eq!(r.read_i16_le().unwrap(), -2);
    assert_eq!(r.read_u32_le().unwrap(), 0x12345678);
    assert_eq!(r.read_i8().unwrap(), -1);
    assert_eq!(r.read_u8(), Err(Error::UnexpectedEof));
}

#[test]
fn reader_signed_32_bit() {
    let mut r = Reader::new(vec![0xFF, 0xFF, 0xFF, 0xFF]);
    assert_eq!(r.read_i32_le().unwrap(), -1);
}

#[test]
fn enum_conversions() {
    assert_eq!(HubFace::try_from(4), Ok(HubFace::Back));
    assert_eq!(
        HubFace::try_from(6),
        Err(Error::InvalidEnumValue { enum_name: "HubFace", value: 6 })
    );
    assert_eq!(HubPort::try_from(5), Ok(HubPort::F));
    assert_eq!(MotorDeviceType::try_from(0x41), Ok(MotorDeviceType::Small));
    assert_eq!(Color::try_from(0x0a), Ok(Color::White));
    assert_eq!(Color::try_from(0x0b), Err(()));
    assert_eq!(ProgramAction::Start.byte(), 0);
    assert_eq!(ProgramAction::Stop.byte(), 1);
}

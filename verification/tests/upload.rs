use spike_prime::connection::message::{ResponseStatus, TxMessage};
use spike_prime::connection::{ChunkTransfer, SpikeConnection};
use spike_prime::error::Error;

const ISO_HDLC: crc::Crc<u32> = crc::Crc::<u32>::new(&crc::CRC_32_ISO_HDLC);

fn pad4(data: &[u8]) -> Vec<u8> {
    let mut v = data.to_vec();
    while v.len() % 4 != 0 {
        v.push(0);
    }
    v
}

#[test]
fn crc_reference_vector() {
    // the standard CRC-32/ISO-HDLC check value, anchoring the algorithm
    assert_eq!(ISO_HDLC.checksum(b"123456789"), 0xCBF43926);
}

#[test]
fn upload_request_checksums_whole_padded_payload() {
    let code = b"print('hello')\n";
    let req = SpikeConnection::start_file_upload_request("hello.py".to_string(), 2, code);
    assert_eq!(req.file_name, "hello.py");
    assert_eq!(req.program_slot, 2);
    assert_eq!(req.crc32, ISO_HDLC.checksum(&pad4(code)));
}

#[test]
fn three_hundred_bytes_make_three_chunks() {
    // a 300-byte upload at chunk size 128 is exactly three transfers
    let data: Vec<u8> = (0..300u32).map(|i| (i % 256) as u8).collect();
    let mut transfer = ChunkTransfer::new(data.clone(), 128);
    let mut sizes = Vec::new();
    let mut acks = 0;
    while !transfer.finished() {
        let offset = transfer.offset;
        let req = transfer.next_request();
        sizes.push(req.payload.len());
        let response = TxMessage::deserialize(vec![0x11, 0x00]).unwrap();
        ChunkTransfer::acknowledge(response, offset).unwrap();
        acks += 1;
    }
    assert_eq!(sizes, vec![128, 128, 44]);
    assert_eq!(acks, 3);
}

#[test]
fn chunk_payloads_reassemble_the_data() {
    let data: Vec<u8> = (0..300u32).map(|i| (i % 251) as u8).collect();
    let mut transfer = ChunkTransfer::new(data.clone(), 128);
    let mut joined = Vec::new();
    while !transfer.finished() {
        joined.extend_from_slice(&transfer.next_request().payload);
    }
    assert_eq!(joined, data);
}

#[test]
fn first_chunk_checksum_is_the_padded_chunk_checksum() {
    let data: Vec<u8> = (0..200u32).map(|i| (i + 1) as u8).collect();
    let mut transfer = ChunkTransfer::new(data.clone(), 84);
    let req = transfer.next_request();
    assert_eq!(req.payload, data[..84].to_vec());
    assert_eq!(req.crc32, ISO_HDLC.checksum(&pad4(&data[..84])));
}

#[test]
fn chunk_checksums_accumulate_across_chunks() {
    // each chunk's checksum comes from an accumulator seeded with the
    // previous chunk's finalized value, over the zero-padded chunk
    let data: Vec<u8> = (0..300u32).map(|i| (i * 7 % 256) as u8).collect();
    let mut transfer = ChunkTransfer::new(data.clone(), 128);
    let mut expected_seed = None;
    let mut offset = 0;
    while !transfer.finished() {
        let req = transfer.next_request();
        let chunk = pad4(&data[offset..(offset + 128).min(data.len())]);
        let expected = match expected_seed {
            None => ISO_HDLC.checksum(&chunk),
            Some(seed) => {
                let mut digest = ISO_HDLC.digest_with_initial(seed);
                digest.update(&chunk);
                digest.finalize()
            }
        };
        assert_eq!(req.crc32, expected);
        expected_seed = Some(expected);
        offset += 128;
    }
}

#[test]
fn refused_chunk_names_its_offset() {
    let response = TxMessage::deserialize(vec![0x11, 0x01]).unwrap();
    assert_eq!(
        ChunkTransfer::acknowledge(response, 256),
        Err(Error::NotAcknowledged("TransferChunkRequest", Some(256)))
    );
    let wrong = TxMessage::deserialize(vec![0x17, 0x00]).unwrap();
    assert_eq!(ChunkTransfer::acknowledge(wrong, 0), Err(Error::WrongMessage));
}

#[test]
fn acknowledged_chunk_succeeds() {
    let response = TxMessage::deserialize(vec![0x11, 0x00]).unwrap();
    match &response {
        TxMessage::TransferChunkResponse(r) => {
            assert_eq!(r.response_status, ResponseStatus::Acknowledged)
        }
        other => panic!("wrong kind: {other:?}"),
    }
    assert_eq!(ChunkTransfer::acknowledge(response, 0), Ok(()));
}

#[test]
fn single_chunk_upload_uses_one_transfer() {
    let data = vec![1u8, 2, 3];
    let mut transfer = ChunkTransfer::new(data.clone(), 128);
    let req = transfer.next_request();
    assert_eq!(req.payload, data);
    assert!(transfer.finished());
    assert_eq!(req.crc32, ISO_HDLC.checksum(&pad4(&data)));
}

use spike_prime::codec::{decode_message, encode_message, unescape};
use spike_prime::error::Error;

fn roundtrip(payload: Vec<u8>) {
    let frame = encode_message(payload.clone());
    let back = decode_message(frame).expect("a frame the encoder built must decode");
    assert_eq!(back, payload);
}

#[test]
fn encode_example_two_blocks() {
    // The 0x00 closes the first block after one verbatim byte; the 0x42
    // opens a second block that the final back-fill closes.
    let frame = encode_message(vec![0x41, 0x00, 0x42]);
    assert_eq!(frame, vec![0x07, 0x42, 0x07, 0x41, 0x02]);
}

#[test]
fn decode_example_two_blocks() {
    let frame = encode_message(vec![0x41, 0x00, 0x42]);
    assert_eq!(decode_message(frame).unwrap(), vec![0x41, 0x00, 0x42]);
}

#[test]
fn roundtrip_empty_payload() {
    roundtrip(vec![]);
}

#[test]
fn roundtrip_runs_of_reserved_bytes() {
    roundtrip(vec![0x00; 10]);
    roundtrip(vec![0x01; 10]);
    roundtrip(vec![0x02; 10]);
    roundtrip(vec![0x00, 0x01, 0x02, 0x00, 0x01, 0x02]);
}

#[test]
fn roundtrip_lengths_crossing_block_boundary() {
    for len in [82usize, 83, 84, 85, 86, 167, 168, 169, 300] {
        let payload: Vec<u8> = (0..len).map(|i| (i % 251) as u8).collect();
        roundtrip(payload);
        // all-verbatim payloads exercise the pass-through block code
        roundtrip(vec![0x55; len]);
    }
}

#[test]
fn roundtrip_mixed_reserved_and_verbatim() {
    let mut payload = Vec::new();
    for i in 0..200usize {
        payload.push(if i % 7 == 0 { (i % 3) as u8 } else { 0x10 + (i % 100) as u8 });
    }
    roundtrip(payload);
}

#[test]
fn decode_skips_leading_continuation_marker() {
    let frame = encode_message(vec![0x41, 0x42]);
    let mut marked = vec![0x01];
    marked.extend_from_slice(&frame);
    assert_eq!(decode_message(marked).unwrap(), vec![0x41, 0x42]);
}

#[test]
fn decode_missing_terminator_is_corruption() {
    let mut frame = encode_message(vec![0x41, 0x42, 0x43]);
    frame.pop();
    assert_eq!(decode_message(frame), Err(Error::CorruptedFrame));
}

#[test]
fn decode_truncated_block_is_corruption() {
    let frame = encode_message(vec![0x41, 0x42, 0x43, 0x44]);
    // drop a verbatim byte from the middle but keep the terminator
    let mut broken = frame.clone();
    broken.remove(2);
    assert_eq!(decode_message(broken), Err(Error::CorruptedFrame));
}

#[test]
fn decode_empty_input_is_corruption() {
    assert_eq!(decode_message(vec![]), Err(Error::CorruptedFrame));
    assert_eq!(decode_message(vec![0x02]), Err(Error::CorruptedFrame));
}

#[test]
fn unescape_pass_through_code() {
    assert_eq!(unescape(0xff), (None, 85));
}

#[test]
fn unescape_back_filled_codes() {
    // a block of one verbatim byte closed by 0x00: code 0*84 + 1 + 2
    assert_eq!(unescape(3), (Some(0), 1));
    // a block of two closed by 0x01: code 1*84 + 2 + 2
    assert_eq!(unescape(88), (Some(1), 2));
    // a full block closed by 0x00: code 84 + 2, wrapping into block 84
    assert_eq!(unescape(86), (Some(0), 84));
}

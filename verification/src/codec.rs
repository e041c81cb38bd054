//! The self-delimited, escaped byte framing.
//!
//! A frame is built from a payload in three steps: the payload is cut into
//! blocks of at most 84 verbatim bytes, each block preceded by a code byte
//! that records both the block's length and which reserved byte (0x00, 0x01
//! or 0x02) closed it; every byte of that body is then XORed with 0x03 so
//! that no reserved byte reappears; finally the literal delimiter byte 0x02
//! is appended as terminator.

use vstd::prelude::*;

use crate::error::Error;

verus! {

/// The literal frame terminator, the only unescaped occurrence of 0x02.
pub const FRAME_DELIMITER: u8 = 0x02;

/// Code byte of a pass-through block: 84 verbatim bytes, no closing literal.
pub const NO_DELIMITER: u8 = 0xff;

/// Most verbatim bytes a single block can carry.
pub const MAX_BLOCK_SIZE: u8 = 84;

/// Offset added to every back-filled block code.
pub const COBS_CODE_OFFSET: u8 = 0x02;

/// Mask XORed over the frame body so reserved low bytes cannot reappear.
pub const XOR_MASK: u8 = 0x03;

/// The encoder's scan, one payload byte at a time. `blk` holds the verbatim
/// bytes of the block that is currently open (at most 83 of them).
/// The result is the frame body before whitening: each block as its code
/// byte followed by its verbatim bytes.
pub open spec fn spec_encode_blocks(p: Seq<u8>, blk: Seq<u8>) -> Seq<u8>
    decreases p.len(),
{
    if p.len() == 0 {
        seq![(blk.len() + 3) as u8] + blk
    } else {
        let b = p[0];
        if b <= 2 {
            seq![(b * 84 + blk.len() + 3) as u8] + blk + spec_encode_blocks(p.skip(1), seq![])
        } else if blk.len() == 83 {
            seq![NO_DELIMITER] + blk.push(b) + spec_encode_blocks(p.skip(1), seq![])
        } else {
            spec_encode_blocks(p.skip(1), blk.push(b))
        }
    }
}

/// What one code byte means: the literal that closed the block (none for a
/// pass-through code) and the block counter (verbatim byte count plus one).
pub open spec fn spec_unescape(code: u8) -> (Option<u8>, u8) {
    if code == NO_DELIMITER {
        (None::<u8>, 85u8)
    } else {
        let c: u8 = if code >= COBS_CODE_OFFSET {
            (code - COBS_CODE_OFFSET) as u8
        } else {
            (code + 254) as u8
        };
        let value: u8 = c / 84;
        let block: u8 = c % 84;
        if block == 0 {
            (
                Some(if value >= 1 {
                    (value - 1) as u8
                } else {
                    255u8
                }),
                MAX_BLOCK_SIZE,
            )
        } else {
            (Some(value), block)
        }
    }
}

/// Walk the un-whitened frame body code by code. Each code is followed by
/// its verbatim bytes; a completed block contributes those bytes and then
/// the literal the code carries. A block whose bytes run past the end of
/// the body is corruption.
pub open spec fn spec_decode_blocks(s: Seq<u8>) -> Option<Seq<u8>>
    decreases s.len(),
{
    if s.len() == 0 {
        Some(seq![])
    } else {
        let (value, block) = spec_unescape(s[0]);
        let need = (block - 1) as int;
        if s.len() - 1 < need {
            None
        } else {
            match spec_decode_blocks(s.skip(1 + need)) {
                Some(rest) => Some(
                    s.subrange(1, 1 + need) + match value {
                        Some(v) => seq![v],
                        None => seq![],
                    } + rest,
                ),
                None => None,
            }
        }
    }
}

/// The whitening step, applied to the frame body in both directions.
pub open spec fn spec_whiten(s: Seq<u8>) -> Seq<u8> {
    s.map_values(|b: u8| b ^ XOR_MASK)
}

/// The complete frame a payload encodes to.
pub open spec fn spec_encode(p: Seq<u8>) -> Seq<u8> {
    spec_whiten(spec_encode_blocks(p, seq![])) + seq![FRAME_DELIMITER]
}

/// The payload a frame decodes to, or `None` when the frame is corrupt:
/// no terminator, a block running past the end of the body, or a
/// reconstruction that does not end in the explicit zero byte.
pub open spec fn spec_decode(frame: Seq<u8>) -> Option<Seq<u8>> {
    if frame.len() == 0 {
        None
    } else {
        let body0 = if frame[0] == 0x01 {
            frame.skip(1)
        } else {
            frame
        };
        if body0.len() == 0 || body0.last() != FRAME_DELIMITER {
            None
        } else {
            match spec_decode_blocks(spec_whiten(body0.drop_last())) {
                Some(buf) => if buf.len() >= 1 && buf.last() == 0u8 {
                    Some(buf.drop_last())
                } else {
                    None
                },
                None => None,
            }
        }
    }
}

proof fn lemma_encode_blocks_len(p: Seq<u8>, blk: Seq<u8>)
    ensures
        spec_encode_blocks(p, blk).len() >= 1 + blk.len(),
    decreases p.len(),
{
    if p.len() == 0 {
    } else {
        let b = p[0];
        if b <= 2 {
            lemma_encode_blocks_len(p.skip(1), seq![]);
        } else if blk.len() == 83 {
            lemma_encode_blocks_len(p.skip(1), seq![]);
        } else {
            lemma_encode_blocks_len(p.skip(1), blk.push(b));
        }
    }
}

proof fn lemma_encode_blocks_first(p: Seq<u8>, blk: Seq<u8>)
    requires
        blk.len() <= 83,
    ensures
        spec_encode_blocks(p, blk).len() >= 1,
        spec_encode_blocks(p, blk)[0] >= 3,
    decreases p.len(),
{
    lemma_encode_blocks_len(p, blk);
    if p.len() == 0 {
    } else {
        let b = p[0];
        if b <= 2 {
        } else if blk.len() == 83 {
        } else {
            lemma_encode_blocks_first(p.skip(1), blk.push(b));
        }
    }
}

/// What a back-filled block code unpacks to: the closing literal `b` and
/// the block counter `n` that produced the code.
proof fn lemma_unescape_code(b: u8, n: int)
    requires
        b <= 2,
        1 <= n <= 84,
    ensures
        spec_unescape((b * 84 + n + 2) as u8) == (Some(b), n as u8),
{
    let code: u8 = (b * 84 + n + 2) as u8;
    assert(b * 84 + n + 2 <= 254);
    assert(code != NO_DELIMITER);
    assert(code >= 2);
    let c: u8 = (code - 2) as u8;
    assert(c == b * 84 + n);
    if n <= 83 {
        assert(c / 84 == b && c % 84 == n) by (nonlinear_arith)
            requires
                c == b * 84 + n,
                1 <= n <= 83,
                b <= 2,
        ;
    } else {
        assert(c == (b + 1) * 84) by (nonlinear_arith)
            requires
                c == b * 84 + n,
                n == 84,
        ;
        assert(c / 84 == b + 1 && c % 84 == 0) by (nonlinear_arith)
            requires
                c == (b + 1) * 84,
                b <= 2,
        ;
    }
}

/// Decoding undoes the block scan: whatever open block the encoder carries,
/// the decoder reconstructs it, then the rest of the payload, then the
/// explicit zero byte contributed by the final back-filled code.
proof fn lemma_decode_encode_blocks(p: Seq<u8>, blk: Seq<u8>)
    requires
        blk.len() <= 83,
    ensures
        spec_decode_blocks(spec_encode_blocks(p, blk)) == Some(blk + p + seq![0u8]),
    decreases p.len(),
{
    let s = spec_encode_blocks(p, blk);
    if p.len() == 0 {
        let code: u8 = (blk.len() + 3) as u8;
        lemma_unescape_code(0, blk.len() + 1 as int);
        assert(0 * 84 + (blk.len() + 1) + 2 == blk.len() + 3);
        let need = blk.len() as int;
        assert(s.len() - 1 == need);
        assert(s.subrange(1, 1 + need) =~= blk);
        assert(s.skip(1 + need) =~= Seq::<u8>::empty());
        assert(spec_decode_blocks(s.skip(1 + need)) == Some(Seq::<u8>::empty()));
        assert(blk + seq![0u8] + Seq::<u8>::empty() =~= blk + p + seq![0u8]);
    } else {
        let b = p[0];
        if b <= 2 {
            let tail = spec_encode_blocks(p.skip(1), seq![]);
            let code: u8 = (b * 84 + blk.len() + 3) as u8;
            lemma_unescape_code(b, blk.len() + 1 as int);
            assert(b * 84 + (blk.len() + 1) + 2 == b * 84 + blk.len() + 3);
            lemma_encode_blocks_len(p.skip(1), seq![]);
            let need = blk.len() as int;
            assert(s == seq![code] + blk + tail);
            assert(s[0] == code);
            assert(s.len() - 1 >= need);
            assert(s.subrange(1, 1 + need) =~= blk);
            assert(s.skip(1 + need) =~= tail);
            lemma_decode_encode_blocks(p.skip(1), seq![]);
            assert(spec_decode_blocks(tail) == Some(Seq::<u8>::empty() + p.skip(1) + seq![0u8]));
            assert(Seq::<u8>::empty() + p.skip(1) + seq![0u8] =~= p.skip(1) + seq![0u8]);
            assert(blk + seq![b] + (p.skip(1) + seq![0u8]) =~= blk + p + seq![0u8]);
        } else if blk.len() == 83 {
            let tail = spec_encode_blocks(p.skip(1), seq![]);
            let full = blk.push(b);
            assert(s == seq![NO_DELIMITER] + full + tail);
            assert(s[0] == NO_DELIMITER);
            assert(spec_unescape(NO_DELIMITER) == (None::<u8>, 85u8));
            lemma_encode_blocks_len(p.skip(1), seq![]);
            let need = 84int;
            assert(s.len() - 1 >= need);
            assert(s.subrange(1, 1 + need) =~= full);
            assert(s.skip(1 + need) =~= tail);
            lemma_decode_encode_blocks(p.skip(1), seq![]);
            assert(spec_decode_blocks(tail) == Some(Seq::<u8>::empty() + p.skip(1) + seq![0u8]));
            assert(Seq::<u8>::empty() + p.skip(1) + seq![0u8] =~= p.skip(1) + seq![0u8]);
            assert(full + Seq::<u8>::empty() + (p.skip(1) + seq![0u8]) =~= blk + p + seq![0u8]);
        } else {
            lemma_decode_encode_blocks(p.skip(1), blk.push(b));
            assert(blk.push(b) + p.skip(1) + seq![0u8] =~= blk + p + seq![0u8]);
        }
    }
}

proof fn lemma_whiten_involutive(s: Seq<u8>)
    ensures
        spec_whiten(spec_whiten(s)) =~= s,
{
    assert forall|i: int| 0 <= i < s.len() implies spec_whiten(spec_whiten(s))[i] == s[i] by {
        let b = s[i];
        assert((b ^ XOR_MASK) ^ XOR_MASK == b) by (bit_vector);
    }
}

/// The round trip: decoding an encoded frame always reproduces the payload,
/// whatever bytes it holds and wherever its block boundaries fall.
pub proof fn lemma_decode_encode_roundtrip(p: Seq<u8>)
    ensures
        spec_decode(spec_encode(p)) == Some(p),
{
    let body = spec_encode_blocks(p, seq![]);
    let frame = spec_encode(p);
    lemma_encode_blocks_first(p, seq![]);
    assert(frame[0] == body[0] ^ XOR_MASK);
    let b0 = body[0];
    assert(b0 >= 3 ==> b0 ^ XOR_MASK != 1) by (bit_vector);
    assert(frame[0] != 0x01);
    assert(frame.last() == FRAME_DELIMITER);
    assert(frame.drop_last() =~= spec_whiten(body));
    lemma_whiten_involutive(body);
    lemma_decode_encode_blocks(p, seq![]);
    let buf = Seq::<u8>::empty() + p + seq![0u8];
    assert(spec_decode_blocks(body) == Some(buf));
    assert(buf.len() >= 1 && buf.last() == 0u8);
    assert(buf.drop_last() =~= p);
}

/// Escapes `data` into a frame: blocks with back-filled codes, whitening,
/// and the trailing literal delimiter.
pub fn encode_message(data: Vec<u8>) -> (res: Vec<u8>)
    ensures
        res@ == spec_encode(data@),
{
    let mut body: Vec<u8> = Vec::new();
    let mut blk: Vec<u8> = Vec::new();
    let mut i: usize = 0;
    proof {
        assert(data@.skip(0) =~= data@);
        assert(body@ + spec_encode_blocks(data@, blk@) =~= spec_encode_blocks(data@, blk@));
    }
    while i < data.len()
        invariant
            i <= data@.len(),
            blk@.len() <= 83,
            spec_encode_blocks(data@, seq![]) == body@ + spec_encode_blocks(
                data@.skip(i as int),
                blk@,
            ),
        decreases data@.len() - i,
    {
        let ghost prev_body = body@;
        let ghost prev_blk = blk@;
        let ghost rest = data@.skip(i as int);
        let b = data[i];
        proof {
            assert(rest[0] == b);
            assert(rest.skip(1) =~= data@.skip(i as int + 1));
        }
        if b <= 2 {
            let code: u8 = b * 84 + (blk.len() as u8) + 3;
            body.push(code);
            body.append(&mut blk);
            proof {
                let tail = spec_encode_blocks(data@.skip(i as int + 1), seq![]);
                assert(spec_encode_blocks(rest, prev_blk) == seq![code] + prev_blk + tail);
                assert(body@ =~= prev_body + (seq![code] + prev_blk));
                assert(prev_body + (seq![code] + prev_blk + tail) =~= (prev_body + (seq![code]
                    + prev_blk)) + tail);
            }
        } else if blk.len() == 83 {
            blk.push(b);
            body.push(NO_DELIMITER);
            body.append(&mut blk);
            proof {
                let tail = spec_encode_blocks(data@.skip(i as int + 1), seq![]);
                assert(spec_encode_blocks(rest, prev_blk) == seq![NO_DELIMITER] + prev_blk.push(b)
                    + tail);
                assert(body@ =~= prev_body + (seq![NO_DELIMITER] + prev_blk.push(b)));
                assert(prev_body + (seq![NO_DELIMITER] + prev_blk.push(b) + tail) =~= (prev_body + (
                seq![NO_DELIMITER] + prev_blk.push(b))) + tail);
            }
        } else {
            blk.push(b);
            proof {
                assert(spec_encode_blocks(rest, prev_blk) == spec_encode_blocks(
                    data@.skip(i as int + 1),
                    prev_blk.push(b),
                ));
            }
        }
        i = i + 1;
    }
    let ghost prev_body = body@;
    let ghost prev_blk = blk@;
    let code: u8 = (blk.len() as u8) + 3;
    body.push(code);
    body.append(&mut blk);
    proof {
        assert(data@.skip(i as int) =~= Seq::<u8>::empty());
        assert(spec_encode_blocks(data@.skip(i as int), prev_blk) == seq![code] + prev_blk);
        assert(body@ =~= prev_body + (seq![code] + prev_blk));
        assert(body@ =~= spec_encode_blocks(data@, seq![]));
    }
    let mut res: Vec<u8> = Vec::new();
    let mut j: usize = 0;
    while j < body.len()
        invariant
            j <= body@.len(),
            body@ == spec_encode_blocks(data@, seq![]),
            res@ =~= spec_whiten(body@.subrange(0, j as int)),
        decreases body@.len() - j,
    {
        res.push(body[j] ^ XOR_MASK);
        proof {
            assert(body@.subrange(0, j as int + 1) =~= body@.subrange(0, j as int).push(
                body@[j as int],
            ));
            assert(res@ =~= spec_whiten(body@.subrange(0, j as int + 1)));
        }
        j = j + 1;
    }
    proof {
        assert(body@.subrange(0, body@.len() as int) =~= body@);
        assert(res@ =~= spec_whiten(body@));
    }
    res.push(FRAME_DELIMITER);
    proof {
        assert(res@ =~= spec_encode(data@));
    }
    res
}

/// Unpacks one code byte into the literal it carries and its block counter.
pub fn unescape(code: u8) -> (res: (Option<u8>, u8))
    ensures
        res == spec_unescape(code),
        1 <= res.1 <= 85,
{
    if code == NO_DELIMITER {
        (None, 85)
    } else {
        let c: u8 = if code >= COBS_CODE_OFFSET {
            code - COBS_CODE_OFFSET
        } else {
            code + 254
        };
        let value: u8 = c / 84;
        let block: u8 = c % 84;
        if block == 0 {
            (
                Some(
                    if value >= 1 {
                        value - 1
                    } else {
                        255
                    },
                ),
                MAX_BLOCK_SIZE,
            )
        } else {
            (Some(value), block)
        }
    }
}

/// Undoes the framing: strips an optional leading continuation marker and
/// the trailing delimiter, undoes the whitening, and walks the block codes.
/// Corruption — a missing terminator, a block running past the end, or a
/// reconstruction that does not end in the explicit zero byte — is fatal
/// and reported as an error.
#[verifier::loop_isolation(false)]
#[verifier::rlimit(60)]
pub fn decode_message(data: Vec<u8>) -> (res: Result<Vec<u8>, Error>)
    ensures
        match res {
            Ok(v) => spec_decode(data@) == Some(v@),
            Err(e) => spec_decode(data@) is None && e == Error::CorruptedFrame,
        },
{
    if data.len() == 0 {
        return Err(Error::CorruptedFrame);
    }
    let start: usize = if data[0] == 0x01 {
        1
    } else {
        0
    };
    let ghost body0 = if data@[0] == 0x01 {
        data@.skip(1)
    } else {
        data@
    };
    if data.len() - start == 0 {
        proof {
            assert(body0.len() == 0);
        }
        return Err(Error::CorruptedFrame);
    }
    if data[data.len() - 1] != FRAME_DELIMITER {
        proof {
            assert(body0.last() == data@[data@.len() - 1]);
        }
        return Err(Error::CorruptedFrame);
    }
    proof {
        assert(body0.last() == data@[data@.len() - 1]);
        assert(body0.drop_last() =~= data@.subrange(start as int, data@.len() - 1));
    }
    let mut body: Vec<u8> = Vec::new();
    let mut i: usize = start;
    while i < data.len() - 1
        invariant
            start <= i <= data@.len() - 1,
            body@ =~= spec_whiten(data@.subrange(start as int, i as int)),
        decreases data@.len() - i,
    {
        body.push(data[i] ^ XOR_MASK);
        proof {
            assert(data@.subrange(start as int, i as int + 1) =~= data@.subrange(
                start as int,
                i as int,
            ).push(data@[i as int]));
        }
        i = i + 1;
    }
    proof {
        assert(body@ =~= spec_whiten(body0.drop_last()));
    }
    let ghost gbody = body@;
    let mut buf: Vec<u8> = Vec::new();
    let mut pos: usize = 0;
    proof {
        assert(body@.skip(0) =~= body@);
        assert(buf@ + body@ =~= body@);
    }
    while pos < body.len()
        invariant
            pos <= body@.len(),
            body@ == gbody,
            spec_decode_blocks(gbody) == match spec_decode_blocks(gbody.skip(pos as int)) {
                Some(r) => Some(buf@ + r),
                None => None::<Seq<u8>>,
            },
        decreases body@.len() - pos,
    {
        let ghost rest = gbody.skip(pos as int);
        let ghost prev_buf = buf@;
        let code = body[pos];
        let (value, block) = unescape(code);
        let need: usize = (block - 1) as usize;
        proof {
            assert(rest[0] == code);
        }
        if body.len() - (pos + 1) < need {
            proof {
                assert(rest.len() - 1 < need);
                assert(spec_decode_blocks(rest) is None);
            }
            return Err(Error::CorruptedFrame);
        }
        let mut j: usize = 0;
        while j < need
            invariant
                j <= need,
                pos + 1 + need <= gbody.len(),
                body@ == gbody,
                buf@ =~= prev_buf + gbody.subrange(pos as int + 1, pos as int + 1 + j as int),
            decreases need - j,
        {
            buf.push(body[pos + 1 + j]);
            proof {
                assert(gbody.subrange(pos as int + 1, pos as int + 1 + j as int + 1)
                    =~= gbody.subrange(pos as int + 1, pos as int + 1 + j as int).push(
                    gbody[pos as int + 1 + j as int],
                ));
            }
            j = j + 1;
        }
        if let Some(v) = value {
            buf.push(v);
        }
        proof {
            let vs = match spec_unescape(code).0 {
                Some(v) => seq![v],
                None => Seq::<u8>::empty(),
            };
            let sub = rest.subrange(1, 1 + need as int);
            assert(sub =~= gbody.subrange(pos as int + 1, pos as int + 1 + need as int));
            assert(buf@ =~= prev_buf + sub + vs);
            assert(rest.skip(1 + need as int) =~= gbody.skip(pos as int + 1 + need as int));
            match spec_decode_blocks(gbody.skip(pos as int + 1 + need as int)) {
                Some(r) => {
                    assert(spec_decode_blocks(rest) == Some(sub + vs + r));
                    assert(prev_buf + (sub + vs + r) =~= (prev_buf + sub + vs) + r);
                },
                None => {
                    assert(spec_decode_blocks(rest) is None);
                },
            }
        }
        pos = pos + 1 + need;
    }
    proof {
        assert(gbody.skip(pos as int) =~= Seq::<u8>::empty());
        assert(spec_decode_blocks(gbody.skip(pos as int)) == Some(Seq::<u8>::empty()));
        assert(buf@ + Seq::<u8>::empty() =~= buf@);
        assert(spec_decode_blocks(gbody) == Some(buf@));
    }
    if buf.len() == 0 {
        return Err(Error::CorruptedFrame);
    }
    if buf[buf.len() - 1] != 0 {
        return Err(Error::CorruptedFrame);
    }
    let ghost full = buf@;
    buf.pop();
    proof {
        assert(buf@ =~= full.drop_last());
    }
    Ok(buf)
}

} // verus!

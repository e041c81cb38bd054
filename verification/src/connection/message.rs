//! Messages that can be sent to the hub and received from it.
//!
//! Every message has a fixed binary layout: a leading opcode byte, then its
//! fields in order, multi-byte integers little-endian, text null-terminated,
//! raw payloads length-prefixed. Requests serialize; responses and
//! notifications parse from the payload the framing codec produces.

use vstd::prelude::*;
use vstd::utf8::{decode_utf8, encode_utf8, valid_utf8};

use crate::error::Error;

verus! {

/// The little-endian reading of two bytes.
pub open spec fn spec_le16(b0: u8, b1: u8) -> u16 {
    (b0 + b1 * 256) as u16
}

/// The little-endian reading of four bytes.
pub open spec fn spec_le32(b0: u8, b1: u8, b2: u8, b3: u8) -> u32 {
    (b0 + b1 * 256 + b2 * 65536 + b3 * 16777216) as u32
}

/// The two's-complement reading of two little-endian bytes.
pub open spec fn spec_le16_signed(b0: u8, b1: u8) -> i16 {
    spec_le16(b0, b1) as i16
}

/// The two's-complement reading of four little-endian bytes.
pub open spec fn spec_le32_signed(b0: u8, b1: u8, b2: u8, b3: u8) -> i32 {
    spec_le32(b0, b1, b2, b3) as i32
}

/// The two little-endian bytes of a 16-bit integer.
pub open spec fn spec_u16_le_bytes(x: u16) -> Seq<u8> {
    seq![(x % 256) as u8, (x / 256) as u8]
}

/// The four little-endian bytes of a 32-bit integer.
pub open spec fn spec_u32_le_bytes(x: u32) -> Seq<u8> {
    seq![
        (x % 256) as u8,
        ((x / 256) % 256) as u8,
        ((x / 65536) % 256) as u8,
        (x / 16777216) as u8,
    ]
}

/// A received payload together with how far it has been read.
pub struct Reader {
    pub data: Vec<u8>,
    pub pos: usize,
}

impl Reader {
    /// Starts reading `data` from its first byte.
    pub fn new(data: Vec<u8>) -> (r: Reader)
        ensures
            r.data == data,
            r.pos == 0,
    {
        Reader { data, pos: 0 }
    }

    /// Reads one byte, or fails when the payload is exhausted.
    pub fn read_u8(&mut self) -> (res: Result<u8, Error>)
        ensures
            final(self).data == old(self).data,
            match res {
                Ok(b) => old(self).pos < old(self).data@.len() && b == old(self).data@[old(
                    self,
                ).pos as int] && final(self).pos == old(self).pos + 1,
                Err(e) => e == Error::UnexpectedEof && old(self).pos >= old(self).data@.len()
                    && final(self).pos == old(self).pos,
            },
    {
        if self.pos < self.data.len() {
            let b = self.data[self.pos];
            self.pos = self.pos + 1;
            Ok(b)
        } else {
            Err(Error::UnexpectedEof)
        }
    }

    /// Reads one byte as a signed value.
    pub fn read_i8(&mut self) -> (res: Result<i8, Error>)
        ensures
            final(self).data == old(self).data,
            match res {
                Ok(b) => old(self).pos < old(self).data@.len() && b == old(self).data@[old(
                    self,
                ).pos as int] as i8 && final(self).pos == old(self).pos + 1,
                Err(e) => e == Error::UnexpectedEof && old(self).pos >= old(self).data@.len()
                    && final(self).pos == old(self).pos,
            },
    {
        match self.read_u8() {
            Ok(b) => Ok(b as i8),
            Err(e) => Err(e),
        }
    }

    /// Reads a 16-bit little-endian integer.
    pub fn read_u16_le(&mut self) -> (res: Result<u16, Error>)
        ensures
            final(self).data == old(self).data,
            match res {
                Ok(x) => old(self).pos + 2 <= old(self).data@.len() && x == spec_le16(
                    old(self).data@[old(self).pos as int],
                    old(self).data@[old(self).pos + 1],
                ) && final(self).pos == old(self).pos + 2,
                Err(e) => e == Error::UnexpectedEof && old(self).pos + 2 > old(self).data@.len(),
            },
    {
        if self.pos < self.data.len() && self.data.len() - self.pos >= 2 {
            let b0 = self.data[self.pos];
            let b1 = self.data[self.pos + 1];
            self.pos = self.pos + 2;
            Ok((b0 as u16) + (b1 as u16) * 256)
        } else {
            Err(Error::UnexpectedEof)
        }
    }

    /// Reads a 16-bit little-endian integer as a signed value.
    pub fn read_i16_le(&mut self) -> (res: Result<i16, Error>)
        ensures
            final(self).data == old(self).data,
            match res {
                Ok(x) => old(self).pos + 2 <= old(self).data@.len() && x == spec_le16_signed(
                    old(self).data@[old(self).pos as int],
                    old(self).data@[old(self).pos + 1],
                ) && final(self).pos == old(self).pos + 2,
                Err(e) => e == Error::UnexpectedEof && old(self).pos + 2 > old(self).data@.len(),
            },
    {
        match self.read_u16_le() {
            Ok(x) => Ok(x as i16),
            Err(e) => Err(e),
        }
    }

    /// Reads a 32-bit little-endian integer.
    pub fn read_u32_le(&mut self) -> (res: Result<u32, Error>)
        ensures
            final(self).data == old(self).data,
            match res {
                Ok(x) => old(self).pos + 4 <= old(self).data@.len() && x == spec_le32(
                    old(self).data@[old(self).pos as int],
                    old(self).data@[old(self).pos + 1],
                    old(self).data@[old(self).pos + 2],
                    old(self).data@[old(self).pos + 3],
                ) && final(self).pos == old(self).pos + 4,
                Err(e) => e == Error::UnexpectedEof && old(self).pos + 4 > old(self).data@.len(),
            },
    {
        if self.pos < self.data.len() && self.data.len() - self.pos >= 4 {
            let b0 = self.data[self.pos];
            let b1 = self.data[self.pos + 1];
            let b2 = self.data[self.pos + 2];
            let b3 = self.data[self.pos + 3];
            self.pos = self.pos + 4;
            Ok((b0 as u32) + (b1 as u32) * 256 + (b2 as u32) * 65536 + (b3 as u32) * 16777216)
        } else {
            Err(Error::UnexpectedEof)
        }
    }

    /// Reads a 32-bit little-endian integer as a signed value.
    pub fn read_i32_le(&mut self) -> (res: Result<i32, Error>)
        ensures
            final(self).data == old(self).data,
            match res {
                Ok(x) => old(self).pos + 4 <= old(self).data@.len() && x == spec_le32_signed(
                    old(self).data@[old(self).pos as int],
                    old(self).data@[old(self).pos + 1],
                    old(self).data@[old(self).pos + 2],
                    old(self).data@[old(self).pos + 3],
                ) && final(self).pos == old(self).pos + 4,
                Err(e) => e == Error::UnexpectedEof && old(self).pos + 4 > old(self).data@.len(),
            },
    {
        match self.read_u32_le() {
            Ok(x) => Ok(x as i32),
            Err(e) => Err(e),
        }
    }

    /// Reads exactly `n` bytes.
    #[verifier::loop_isolation(false)]
    pub fn read_bytes(&mut self, n: usize) -> (res: Result<Vec<u8>, Error>)
        ensures
            final(self).data == old(self).data,
            match res {
                Ok(v) => old(self).pos + n <= old(self).data@.len() && v@ == old(
                    self,
                ).data@.subrange(old(self).pos as int, old(self).pos + n) && final(self).pos == old(
                    self,
                ).pos + n,
                Err(e) => e == Error::UnexpectedEof && old(self).pos + n > old(self).data@.len(),
            },
    {
        if self.pos <= self.data.len() && self.data.len() - self.pos >= n {
            let mut v: Vec<u8> = Vec::new();
            let mut j: usize = 0;
            while j < n
                invariant
                    j <= n,
                    self.pos + n <= self.data@.len(),
                    self.data == old(self).data,
                    self.pos == old(self).pos,
                    v@ =~= self.data@.subrange(self.pos as int, self.pos + j),
                decreases n - j,
            {
                v.push(self.data[self.pos + j]);
                proof {
                    assert(self.data@.subrange(self.pos as int, self.pos + j + 1)
                        =~= self.data@.subrange(self.pos as int, self.pos + j).push(
                        self.data@[self.pos + j],
                    ));
                }
                j = j + 1;
            }
            self.pos = self.pos + n;
            Ok(v)
        } else {
            Err(Error::UnexpectedEof)
        }
    }
}

/// What a program-flow request asks for, or what a program-flow
/// notification reports.
#[derive(Copy, Clone, Debug, PartialEq, Eq, Hash, Structural)]
pub enum ProgramAction {
    Start,
    Stop,
}

impl ProgramAction {
    /// The wire byte of this action.
    pub open spec fn spec_byte(self) -> u8 {
        match self {
            ProgramAction::Start => 0x00,
            ProgramAction::Stop => 0x01,
        }
    }

    /// Serializes the action as its wire byte.
    pub fn byte(self) -> (b: u8)
        ensures
            b == self.spec_byte(),
    {
        match self {
            ProgramAction::Start => 0x00,
            ProgramAction::Stop => 0x01,
        }
    }

    /// The action a wire byte stands for, if any.
    pub open spec fn spec_try_from(value: u8) -> Result<ProgramAction, Error> {
        if value == 0x00 {
            Ok(ProgramAction::Start)
        } else if value == 0x01 {
            Ok(ProgramAction::Stop)
        } else {
            Err(Error::InvalidEnumValue { enum_name: "ProgramAction", value })
        }
    }

    /// Parses a wire byte into an action.
    pub fn try_from(value: u8) -> (res: Result<ProgramAction, Error>)
        ensures
            res == Self::spec_try_from(value),
    {
        match value {
            0x00 => Ok(ProgramAction::Start),
            0x01 => Ok(ProgramAction::Stop),
            _ => Err(Error::InvalidEnumValue { enum_name: "ProgramAction", value }),
        }
    }
}

/// Whether the hub accepted an operation.
#[derive(Copy, Clone, Debug, PartialEq, Eq, Hash, Structural)]
pub enum ResponseStatus {
    Acknowledged,
    NotAcknowledged,
}

impl ResponseStatus {
    /// The status a wire byte stands for, if any.
    pub open spec fn spec_try_from(value: u8) -> Result<ResponseStatus, Error> {
        if value == 0x00 {
            Ok(ResponseStatus::Acknowledged)
        } else if value == 0x01 {
            Ok(ResponseStatus::NotAcknowledged)
        } else {
            Err(Error::InvalidEnumValue { enum_name: "ResponseStatus", value })
        }
    }

    /// Parses a wire byte into a status.
    pub fn try_from(value: u8) -> (res: Result<ResponseStatus, Error>)
        ensures
            res == Self::spec_try_from(value),
    {
        match value {
            0x00 => Ok(ResponseStatus::Acknowledged),
            0x01 => Ok(ResponseStatus::NotAcknowledged),
            _ => Err(Error::InvalidEnumValue { enum_name: "ResponseStatus", value }),
        }
    }
}

/// A face of the hub's case, as the inertial unit reports orientation.
#[derive(Copy, Clone, Debug, PartialEq, Eq, Hash, Structural)]
pub enum HubFace {
    Top,
    Front,
    Right,
    Bottom,
    Back,
    Left,
}

impl HubFace {
    /// The face a wire byte stands for, if any.
    pub open spec fn spec_try_from(value: u8) -> Result<HubFace, Error> {
        if value == 0x00 {
            Ok(HubFace::Top)
        } else if value == 0x01 {
            Ok(HubFace::Front)
        } else if value == 0x02 {
            Ok(HubFace::Right)
        } else if value == 0x03 {
            Ok(HubFace::Bottom)
        } else if value == 0x04 {
            Ok(HubFace::Back)
        } else if value == 0x05 {
            Ok(HubFace::Left)
        } else {
            Err(Error::InvalidEnumValue { enum_name: "HubFace", value })
        }
    }

    /// Parses a wire byte into a face.
    pub fn try_from(value: u8) -> (res: Result<HubFace, Error>)
        ensures
            res == Self::spec_try_from(value),
    {
        match value {
            0x00 => Ok(HubFace::Top),
            0x01 => Ok(HubFace::Front),
            0x02 => Ok(HubFace::Right),
            0x03 => Ok(HubFace::Bottom),
            0x04 => Ok(HubFace::Back),
            0x05 => Ok(HubFace::Left),
            _ => Err(Error::InvalidEnumValue { enum_name: "HubFace", value }),
        }
    }
}

/// One of the hub's six device ports.
#[derive(Copy, Clone, Debug, PartialEq, Eq, Hash, Structural)]
pub enum HubPort {
    A,
    B,
    C,
    D,
    E,
    F,
}

impl HubPort {
    /// The port a wire byte stands for, if any.
    pub open spec fn spec_try_from(value: u8) -> Result<HubPort, Error> {
        if value == 0x00 {
            Ok(HubPort::A)
        } else if value == 0x01 {
            Ok(HubPort::B)
        } else if value == 0x02 {
            Ok(HubPort::C)
        } else if value == 0x03 {
            Ok(HubPort::D)
        } else if value == 0x04 {
            Ok(HubPort::E)
        } else if value == 0x05 {
            Ok(HubPort::F)
        } else {
            Err(Error::InvalidEnumValue { enum_name: "HubPort", value })
        }
    }

    /// Parses a wire byte into a port.
    pub fn try_from(value: u8) -> (res: Result<HubPort, Error>)
        ensures
            res == Self::spec_try_from(value),
    {
        match value {
            0x00 => Ok(HubPort::A),
            0x01 => Ok(HubPort::B),
            0x02 => Ok(HubPort::C),
            0x03 => Ok(HubPort::D),
            0x04 => Ok(HubPort::E),
            0x05 => Ok(HubPort::F),
            _ => Err(Error::InvalidEnumValue { enum_name: "HubPort", value }),
        }
    }
}

/// A direction a motor can be asked to move in.
#[derive(Copy, Clone, Debug, PartialEq, Eq, Hash, Structural)]
pub enum MotorMoveDirection {
    Clockwise,
    CounterClockwise,
    ShortestPath,
    LongestPath,
}

/// The kind of motor attached to a port.
#[derive(Copy, Clone, Debug, PartialEq, Eq, Hash, Structural)]
pub enum MotorDeviceType {
    Medium,
    Large,
    Small,
}

impl MotorDeviceType {
    /// The motor kind a wire byte stands for, if any.
    pub open spec fn spec_try_from(value: u8) -> Result<MotorDeviceType, Error> {
        if value == 0x30 {
            Ok(MotorDeviceType::Medium)
        } else if value == 0x31 {
            Ok(MotorDeviceType::Large)
        } else if value == 0x41 {
            Ok(MotorDeviceType::Small)
        } else {
            Err(Error::InvalidEnumValue { enum_name: "MotorDeviceType", value })
        }
    }

    /// Parses a wire byte into a motor kind.
    pub fn try_from(value: u8) -> (res: Result<MotorDeviceType, Error>)
        ensures
            res == Self::spec_try_from(value),
    {
        match value {
            0x30 => Ok(MotorDeviceType::Medium),
            0x31 => Ok(MotorDeviceType::Large),
            0x41 => Ok(MotorDeviceType::Small),
            _ => Err(Error::InvalidEnumValue { enum_name: "MotorDeviceType", value }),
        }
    }
}

/// A color the color sensor can report.
#[derive(Copy, Clone, Debug, PartialEq, Eq, Hash, Structural)]
pub enum Color {
    Black,
    Magenta,
    Purple,
    Blue,
    Azure,
    Turquoise,
    Green,
    Yellow,
    Orange,
    Red,
    White,
}

impl Color {
    /// The color a wire byte stands for; an out-of-range byte is no color
    /// rather than an error.
    pub open spec fn spec_try_from(value: u8) -> Result<Color, ()> {
        if value == 0x00 {
            Ok(Color::Black)
        } else if value == 0x01 {
            Ok(Color::Magenta)
        } else if value == 0x02 {
            Ok(Color::Purple)
        } else if value == 0x03 {
            Ok(Color::Blue)
        } else if value == 0x04 {
            Ok(Color::Azure)
        } else if value == 0x05 {
            Ok(Color::Turquoise)
        } else if value == 0x06 {
            Ok(Color::Green)
        } else if value == 0x07 {
            Ok(Color::Yellow)
        } else if value == 0x08 {
            Ok(Color::Orange)
        } else if value == 0x09 {
            Ok(Color::Red)
        } else if value == 0x0a {
            Ok(Color::White)
        } else {
            Err(())
        }
    }

    /// Parses a wire byte into a color.
    pub fn try_from(value: u8) -> (res: Result<Color, ()>)
        ensures
            res == Self::spec_try_from(value),
    {
        match value {
            0x00 => Ok(Color::Black),
            0x01 => Ok(Color::Magenta),
            0x02 => Ok(Color::Purple),
            0x03 => Ok(Color::Blue),
            0x04 => Ok(Color::Azure),
            0x05 => Ok(Color::Turquoise),
            0x06 => Ok(Color::Green),
            0x07 => Ok(Color::Yellow),
            0x08 => Ok(Color::Orange),
            0x09 => Ok(Color::Red),
            0x0a => Ok(Color::White),
            _ => Err(()),
        }
    }
}

/// The raw bytes of a null-terminated text field: everything before the
/// first zero byte, the zero consumed, or exhaustion when no zero comes.
pub open spec fn spec_parse_str_bytes(data: Seq<u8>, pos: int) -> Result<(Seq<u8>, int), Error>
    decreases data.len() - pos,
{
    if pos < 0 || pos >= data.len() {
        Err(Error::UnexpectedEof)
    } else if data[pos] == 0 {
        Ok((seq![], pos + 1))
    } else {
        match spec_parse_str_bytes(data, pos + 1) {
            Ok(p) => Ok((seq![data[pos]] + p.0, p.1)),
            Err(e) => Err(e),
        }
    }
}

/// A null-terminated text field: its bytes decoded as UTF-8, which fails
/// when the bytes are not valid UTF-8.
pub open spec fn spec_parse_str(data: Seq<u8>, pos: int) -> Result<(Seq<char>, int), Error> {
    match spec_parse_str_bytes(data, pos) {
        Ok(p) => if valid_utf8(p.0) {
            Ok((decode_utf8(p.0), p.1))
        } else {
            Err(Error::InvalidUtf8)
        },
        Err(e) => Err(e),
    }
}

/// Relies on `String::from_utf8`: it succeeds exactly on valid UTF-8 input
/// and decodes it; the result depends on the bytes alone.
#[verifier::external_body]
fn string_from_utf8(bytes: Vec<u8>) -> (r: Option<String>)
    ensures
        match r {
            Some(s) => valid_utf8(bytes@) && s@ == decode_utf8(bytes@),
            None => !valid_utf8(bytes@),
        },
{
    String::from_utf8(bytes).ok()
}

/// Reads a null-terminated UTF-8 text field.
pub fn read_str(r: &mut Reader) -> (res: Result<String, Error>)
    ensures
        final(r).data == old(r).data,
        match res {
            Ok(s) => (match spec_parse_str(old(r).data@, old(r).pos as int) {
                Ok(p) => s@ == p.0 && final(r).pos == p.1,
                Err(_) => false,
            }),
            Err(e) => spec_parse_str(old(r).data@, old(r).pos as int) == Err::<
                (Seq<char>, int),
                Error,
            >(e),
        },
{
    let ghost data = r.data@;
    let ghost pos0 = r.pos as int;
    let mut bytes: Vec<u8> = Vec::new();
    proof {
        match spec_parse_str_bytes(data, pos0) {
            Ok(p) => {
                assert(Seq::<u8>::empty() + p.0 =~= p.0);
            },
            Err(_) => {},
        }
    }
    loop
        invariant_except_break
            r.data == old(r).data,
            data == old(r).data@,
            pos0 == old(r).pos as int,
            pos0 <= r.pos as int,
            spec_parse_str_bytes(data, pos0) == (match spec_parse_str_bytes(data, r.pos as int) {
                Ok(p) => Ok::<(Seq<u8>, int), Error>((bytes@ + p.0, p.1)),
                Err(e) => Err::<(Seq<u8>, int), Error>(e),
            }),
        ensures
            r.data == old(r).data,
            spec_parse_str_bytes(data, pos0) == Ok::<(Seq<u8>, int), Error>((
                bytes@,
                r.pos as int,
            )),
        decreases data.len() - r.pos,
    {
        let ghost posb = r.pos as int;
        match r.read_u8() {
            Err(e) => {
                proof {
                    assert(spec_parse_str_bytes(data, posb) == Err::<(Seq<u8>, int), Error>(
                        Error::UnexpectedEof,
                    ));
                }
                return Err(e);
            },
            Ok(b) => {
                if b == 0 {
                    proof {
                        assert(spec_parse_str_bytes(data, posb) == Ok::<(Seq<u8>, int), Error>((
                            Seq::<u8>::empty(),
                            posb + 1,
                        )));
                        assert(bytes@ + Seq::<u8>::empty() =~= bytes@);
                    }
                    break;
                }
                let ghost prev = bytes@;
                bytes.push(b);
                proof {
                    match spec_parse_str_bytes(data, posb + 1) {
                        Ok(p) => {
                            assert(spec_parse_str_bytes(data, posb) == Ok::<
                                (Seq<u8>, int),
                                Error,
                            >((seq![b] + p.0, p.1)));
                            assert(prev + (seq![b] + p.0) =~= bytes@ + p.0);
                        },
                        Err(_) => {},
                    }
                }
            },
        }
    }
    match string_from_utf8(bytes) {
        Some(s) => Ok(s),
        None => Err(Error::InvalidUtf8),
    }
}

/// Appends the two little-endian bytes of `x`.
fn push_u16_le(buf: &mut Vec<u8>, x: u16)
    ensures
        final(buf)@ == old(buf)@ + spec_u16_le_bytes(x),
{
    buf.push((x % 256) as u8);
    buf.push((x / 256) as u8);
    proof {
        assert(buf@ =~= old(buf)@ + spec_u16_le_bytes(x));
    }
}

/// Appends the four little-endian bytes of `x`.
fn push_u32_le(buf: &mut Vec<u8>, x: u32)
    ensures
        final(buf)@ == old(buf)@ + spec_u32_le_bytes(x),
{
    buf.push((x % 256) as u8);
    buf.push(((x / 256) % 256) as u8);
    buf.push(((x / 65536) % 256) as u8);
    buf.push((x / 16777216) as u8);
    proof {
        assert(buf@ =~= old(buf)@ + spec_u32_le_bytes(x));
    }
}

/// Asks the hub to accept a firmware image; carries the image's SHA-1 hash
/// and its zero-padded checksum.
#[derive(Debug, PartialEq, Eq, Hash, Clone)]
pub struct StartFirmwareUploadRequest {
    pub file_sha: [u8; 20],
    pub crc32: u32,
}

impl StartFirmwareUploadRequest {
    /// The request's wire bytes.
    pub open spec fn spec_serialize(self) -> Seq<u8> {
        seq![0x0au8] + self.file_sha@ + spec_u32_le_bytes(self.crc32)
    }

    /// Serializes the request.
    #[verifier::loop_isolation(false)]
    pub fn serialize(self) -> (res: Vec<u8>)
        ensures
            res@ == self.spec_serialize(),
    {
        let mut buf: Vec<u8> = Vec::new();
        buf.push(0x0a);
        let mut i: usize = 0;
        while i < 20
            invariant
                i <= 20,
                buf@ =~= seq![0x0au8] + self.file_sha@.take(i as int),
            decreases 20 - i,
        {
            buf.push(self.file_sha[i]);
            proof {
                assert(self.file_sha@.take(i as int + 1) =~= self.file_sha@.take(i as int).push(
                    self.file_sha@[i as int],
                ));
            }
            i = i + 1;
        }
        proof {
            assert(self.file_sha@.take(20) =~= self.file_sha@);
        }
        push_u32_le(&mut buf, self.crc32);
        buf
    }
}

/// Asks the hub to accept a program file into a slot; carries the file
/// name (truncated to 31 bytes on the wire) and the payload's checksum.
#[derive(Debug, PartialEq, Eq, Hash, Clone)]
pub struct StartFileUploadRequest {
    pub file_name: String,
    pub program_slot: u8,
    pub crc32: u32,
}

impl StartFileUploadRequest {
    /// The request's wire bytes: the name's UTF-8 bytes, at most 31 of
    /// them, null-terminated, then the slot and the checksum.
    pub open spec fn spec_serialize(self) -> Seq<u8> {
        let name_bytes = encode_utf8(self.file_name@);
        let trunc = if name_bytes.len() <= 31 {
            name_bytes
        } else {
            name_bytes.take(31)
        };
        seq![0x0cu8] + trunc + seq![0x00u8, self.program_slot] + spec_u32_le_bytes(self.crc32)
    }

    /// Serializes the request.
    #[verifier::loop_isolation(false)]
    pub fn serialize(self) -> (res: Vec<u8>)
        ensures
            res@ == self.spec_serialize(),
    {
        let mut buf: Vec<u8> = Vec::new();
        buf.push(0x0c);
        let bytes = self.file_name.as_str().as_bytes();
        let n: usize = if bytes.len() < 31 {
            bytes.len()
        } else {
            31
        };
        let mut i: usize = 0;
        while i < n
            invariant
                i <= n,
                buf@ =~= seq![0x0cu8] + bytes@.take(i as int),
            decreases n - i,
        {
            buf.push(bytes[i]);
            proof {
                assert(bytes@.take(i as int + 1) =~= bytes@.take(i as int).push(
                    bytes@[i as int],
                ));
            }
            i = i + 1;
        }
        proof {
            if bytes@.len() <= 31 {
                assert(bytes@.take(n as int) =~= bytes@);
            }
        }
        buf.push(0x00);
        buf.push(self.program_slot);
        push_u32_le(&mut buf, self.crc32);
        proof {
            assert(buf@ =~= self.spec_serialize());
        }
        buf
    }
}

/// Carries one checksummed chunk of an ongoing payload transfer.
#[derive(Debug, PartialEq, Eq, Hash, Clone)]
pub struct TransferChunkRequest {
    pub crc32: u32,
    pub payload: Vec<u8>,
}

impl TransferChunkRequest {
    /// The request's wire bytes: the running checksum, then the chunk,
    /// length-prefixed and capped at 65535 bytes.
    pub open spec fn spec_serialize(self) -> Seq<u8> {
        let cap: int = if self.payload@.len() <= 65535 {
            self.payload@.len() as int
        } else {
            65535
        };
        seq![0x10u8] + spec_u32_le_bytes(self.crc32) + spec_u16_le_bytes(cap as u16)
            + self.payload@.take(cap)
    }

    /// Serializes the request.
    #[verifier::loop_isolation(false)]
    pub fn serialize(self) -> (res: Vec<u8>)
        ensures
            res@ == self.spec_serialize(),
    {
        let mut buf: Vec<u8> = Vec::new();
        buf.push(0x10);
        push_u32_le(&mut buf, self.crc32);
        let n: usize = if self.payload.len() < 65535 {
            self.payload.len()
        } else {
            65535
        };
        push_u16_le(&mut buf, n as u16);
        let ghost mid = buf@;
        let mut i: usize = 0;
        while i < n
            invariant
                i <= n,
                buf@ =~= mid + self.payload@.take(i as int),
            decreases n - i,
        {
            buf.push(self.payload[i]);
            proof {
                assert(self.payload@.take(i as int + 1) =~= self.payload@.take(i as int).push(
                    self.payload@[i as int],
                ));
            }
            i = i + 1;
        }
        proof {
            if self.payload@.len() <= 65535 {
                assert(self.payload@.take(n as int) =~= self.payload@.take(
                    self.payload@.len() as int,
                ));
            }
            assert(buf@ =~= self.spec_serialize());
        }
        buf
    }
}

/// Asks the hub to apply a previously uploaded firmware image.
#[derive(Debug, PartialEq, Eq, Hash, Clone)]
pub struct BeginFirmwareUpdateRequest {
    pub file_sha: [u8; 20],
    pub crc32: u32,
}

impl BeginFirmwareUpdateRequest {
    /// The request's wire bytes.
    pub open spec fn spec_serialize(self) -> Seq<u8> {
        seq![0x14u8] + self.file_sha@ + spec_u32_le_bytes(self.crc32)
    }

    /// Serializes the request.
    #[verifier::loop_isolation(false)]
    pub fn serialize(self) -> (res: Vec<u8>)
        ensures
            res@ == self.spec_serialize(),
    {
        let mut buf: Vec<u8> = Vec::new();
        buf.push(0x14);
        let mut i: usize = 0;
        while i < 20
            invariant
                i <= 20,
                buf@ =~= seq![0x14u8] + self.file_sha@.take(i as int),
            decreases 20 - i,
        {
            buf.push(self.file_sha[i]);
            proof {
                assert(self.file_sha@.take(i as int + 1) =~= self.file_sha@.take(i as int).push(
                    self.file_sha@[i as int],
                ));
            }
            i = i + 1;
        }
        proof {
            assert(self.file_sha@.take(20) =~= self.file_sha@);
        }
        push_u32_le(&mut buf, self.crc32);
        buf
    }
}

/// Renames the hub; the name is truncated to 29 bytes on the wire.
#[derive(Debug, PartialEq, Eq, Hash, Clone)]
pub struct SetHubNameRequest {
    pub name: String,
}

impl SetHubNameRequest {
    /// The request's wire bytes: the name's UTF-8 bytes, at most 29 of
    /// them, null-terminated.
    pub open spec fn spec_serialize(self) -> Seq<u8> {
        let name_bytes = encode_utf8(self.name@);
        let trunc = if name_bytes.len() <= 29 {
            name_bytes
        } else {
            name_bytes.take(29)
        };
        seq![0x16u8] + trunc + seq![0x00u8]
    }

    /// Serializes the request.
    #[verifier::loop_isolation(false)]
    pub fn serialize(self) -> (res: Vec<u8>)
        ensures
            res@ == self.spec_serialize(),
    {
        let mut buf: Vec<u8> = Vec::new();
        buf.push(0x16);
        let bytes = self.name.as_str().as_bytes();
        let n: usize = if bytes.len() < 29 {
            bytes.len()
        } else {
            29
        };
        let mut i: usize = 0;
        while i < n
            invariant
                i <= n,
                buf@ =~= seq![0x16u8] + bytes@.take(i as int),
            decreases n - i,
        {
            buf.push(bytes[i]);
            proof {
                assert(bytes@.take(i as int + 1) =~= bytes@.take(i as int).push(
                    bytes@[i as int],
                ));
            }
            i = i + 1;
        }
        proof {
            if bytes@.len() <= 29 {
                assert(bytes@.take(n as int) =~= bytes@);
            }
        }
        buf.push(0x00);
        proof {
            assert(buf@ =~= self.spec_serialize());
        }
        buf
    }
}

/// Starts or stops the program in a slot.
#[derive(Debug, PartialEq, Eq, Hash, Clone)]
pub struct ProgramFlowRequest {
    pub program_action: ProgramAction,
    pub program_slot: u8,
}

impl ProgramFlowRequest {
    /// The request's wire bytes.
    pub open spec fn spec_serialize(self) -> Seq<u8> {
        seq![0x1eu8, self.program_action.spec_byte(), self.program_slot]
    }

    /// Serializes the request.
    pub fn serialize(self) -> (res: Vec<u8>)
        ensures
            res@ == self.spec_serialize(),
    {
        let mut buf: Vec<u8> = Vec::new();
        buf.push(0x1e);
        buf.push(self.program_action.byte());
        buf.push(self.program_slot);
        proof {
            assert(buf@ =~= self.spec_serialize());
        }
        buf
    }
}

/// Empties a program slot.
#[derive(Debug, PartialEq, Eq, Hash, Clone)]
pub struct ClearSlotRequest {
    pub program_slot: u8,
}

impl ClearSlotRequest {
    /// The request's wire bytes.
    pub open spec fn spec_serialize(self) -> Seq<u8> {
        seq![0x46u8, self.program_slot]
    }

    /// Serializes the request.
    pub fn serialize(self) -> (res: Vec<u8>)
        ensures
            res@ == self.spec_serialize(),
    {
        let mut buf: Vec<u8> = Vec::new();
        buf.push(0x46);
        buf.push(self.program_slot);
        proof {
            assert(buf@ =~= self.spec_serialize());
        }
        buf
    }
}

/// Carries an opaque, fire-and-forget payload to the hub; no response is
/// modeled for it.
#[derive(Debug, PartialEq, Eq, Hash, Clone)]
pub struct TunnelMessage {
    pub payload: Vec<u8>,
}

impl TunnelMessage {
    /// The request's wire bytes: the payload, length-prefixed and capped
    /// at 65535 bytes.
    pub open spec fn spec_serialize(self) -> Seq<u8> {
        let cap: int = if self.payload@.len() <= 65535 {
            self.payload@.len() as int
        } else {
            65535
        };
        seq![0x32u8] + spec_u16_le_bytes(cap as u16) + self.payload@.take(cap)
    }

    /// Serializes the request.
    #[verifier::loop_isolation(false)]
    pub fn serialize(self) -> (res: Vec<u8>)
        ensures
            res@ == self.spec_serialize(),
    {
        let mut buf: Vec<u8> = Vec::new();
        buf.push(0x32);
        let n: usize = if self.payload.len() < 65535 {
            self.payload.len()
        } else {
            65535
        };
        push_u16_le(&mut buf, n as u16);
        let ghost mid = buf@;
        let mut i: usize = 0;
        while i < n
            invariant
                i <= n,
                buf@ =~= mid + self.payload@.take(i as int),
            decreases n - i,
        {
            buf.push(self.payload[i]);
            proof {
                assert(self.payload@.take(i as int + 1) =~= self.payload@.take(i as int).push(
                    self.payload@[i as int],
                ));
            }
            i = i + 1;
        }
        proof {
            if self.payload@.len() <= 65535 {
                assert(self.payload@.take(n as int) =~= self.payload@.take(
                    self.payload@.len() as int,
                ));
            }
            assert(buf@ =~= self.spec_serialize());
        }
        buf
    }
}

/// Configures periodic telemetry: a nonzero interval in milliseconds
/// enables it, zero disables it.
#[derive(Debug, PartialEq, Eq, Hash, Clone)]
pub struct DeviceNotificationRequest {
    pub interval: u16,
}

impl DeviceNotificationRequest {
    /// The request's wire bytes.
    pub open spec fn spec_serialize(self) -> Seq<u8> {
        seq![0x28u8] + spec_u16_le_bytes(self.interval)
    }

    /// Serializes the request.
    pub fn serialize(self) -> (res: Vec<u8>)
        ensures
            res@ == self.spec_serialize(),
    {
        let mut buf: Vec<u8> = Vec::new();
        buf.push(0x28);
        push_u16_le(&mut buf, self.interval);
        buf
    }
}

/// Every request the client can send to the hub.
#[derive(Debug, PartialEq, Eq, Hash, Clone)]
pub enum RxMessage {
    InfoRequest,
    StartFirmwareUploadRequest(StartFirmwareUploadRequest),
    StartFileUploadRequest(StartFileUploadRequest),
    TransferChunkRequest(TransferChunkRequest),
    BeginFirmwareUpdateRequest(BeginFirmwareUpdateRequest),
    SetHubNameRequest(SetHubNameRequest),
    GetHubNameRequest,
    DeviceUuidRequest,
    ProgramFlowRequest(ProgramFlowRequest),
    ClearSlotRequest(ClearSlotRequest),
    TunnelMessage(TunnelMessage),
    DeviceNotificationRequest(DeviceNotificationRequest),
}

impl RxMessage {
    /// The opcode byte that identifies this request on the wire.
    pub open spec fn spec_opcode(self) -> u8 {
        match self {
            RxMessage::InfoRequest => 0x00,
            RxMessage::StartFirmwareUploadRequest(_) => 0x0a,
            RxMessage::StartFileUploadRequest(_) => 0x0c,
            RxMessage::TransferChunkRequest(_) => 0x10,
            RxMessage::BeginFirmwareUpdateRequest(_) => 0x14,
            RxMessage::SetHubNameRequest(_) => 0x16,
            RxMessage::GetHubNameRequest => 0x18,
            RxMessage::DeviceUuidRequest => 0x1a,
            RxMessage::ProgramFlowRequest(_) => 0x1e,
            RxMessage::ClearSlotRequest(_) => 0x46,
            RxMessage::TunnelMessage(_) => 0x32,
            RxMessage::DeviceNotificationRequest(_) => 0x28,
        }
    }

    /// The request's wire bytes.
    pub open spec fn spec_serialize(self) -> Seq<u8> {
        match self {
            RxMessage::InfoRequest => seq![0x00u8],
            RxMessage::StartFirmwareUploadRequest(r) => r.spec_serialize(),
            RxMessage::StartFileUploadRequest(r) => r.spec_serialize(),
            RxMessage::TransferChunkRequest(r) => r.spec_serialize(),
            RxMessage::BeginFirmwareUpdateRequest(r) => r.spec_serialize(),
            RxMessage::SetHubNameRequest(r) => r.spec_serialize(),
            RxMessage::GetHubNameRequest => seq![0x18u8],
            RxMessage::DeviceUuidRequest => seq![0x1au8],
            RxMessage::ProgramFlowRequest(r) => r.spec_serialize(),
            RxMessage::ClearSlotRequest(r) => r.spec_serialize(),
            RxMessage::TunnelMessage(r) => r.spec_serialize(),
            RxMessage::DeviceNotificationRequest(r) => r.spec_serialize(),
        }
    }

    /// Serializes the request.
    pub fn serialize(self) -> (res: Vec<u8>)
        ensures
            res@ == self.spec_serialize(),
    {
        match self {
            RxMessage::InfoRequest => {
                let mut buf: Vec<u8> = Vec::new();
                buf.push(0x00);
                proof {
                    assert(buf@ =~= seq![0x00u8]);
                }
                buf
            },
            RxMessage::StartFirmwareUploadRequest(r) => r.serialize(),
            RxMessage::StartFileUploadRequest(r) => r.serialize(),
            RxMessage::TransferChunkRequest(r) => r.serialize(),
            RxMessage::BeginFirmwareUpdateRequest(r) => r.serialize(),
            RxMessage::SetHubNameRequest(r) => r.serialize(),
            RxMessage::GetHubNameRequest => {
                let mut buf: Vec<u8> = Vec::new();
                buf.push(0x18);
                proof {
                    assert(buf@ =~= seq![0x18u8]);
                }
                buf
            },
            RxMessage::DeviceUuidRequest => {
                let mut buf: Vec<u8> = Vec::new();
                buf.push(0x1a);
                proof {
                    assert(buf@ =~= seq![0x1au8]);
                }
                buf
            },
            RxMessage::ProgramFlowRequest(r) => r.serialize(),
            RxMessage::ClearSlotRequest(r) => r.serialize(),
            RxMessage::TunnelMessage(r) => r.serialize(),
            RxMessage::DeviceNotificationRequest(r) => r.serialize(),
        }
    }
}

/// Every request's wire form opens with that request's own opcode byte,
/// whatever its fields hold.
pub proof fn lemma_serialize_starts_with_opcode(m: RxMessage)
    ensures
        m.spec_serialize().len() >= 1,
        m.spec_serialize()[0] == m.spec_opcode(),
{
}

/// A status byte read from a response: 0x00 acknowledged, 0x01 not.
pub open spec fn spec_parse_status(data: Seq<u8>, pos: int) -> Result<(ResponseStatus, int), Error> {
    if pos < 0 || pos >= data.len() {
        Err(Error::UnexpectedEof)
    } else {
        match ResponseStatus::spec_try_from(data[pos]) {
            Ok(s) => Ok((s, pos + 1)),
            Err(e) => Err(e),
        }
    }
}

/// Reads one acknowledgement status byte.
fn read_status(r: &mut Reader) -> (res: Result<ResponseStatus, Error>)
    ensures
        final(r).data == old(r).data,
        match res {
            Ok(s) => spec_parse_status(old(r).data@, old(r).pos as int) == Ok::<
                (ResponseStatus, int),
                Error,
            >((s, final(r).pos as int)),
            Err(e) => spec_parse_status(old(r).data@, old(r).pos as int) == Err::<
                (ResponseStatus, int),
                Error,
            >(e),
        },
{
    match r.read_u8() {
        Ok(b) => ResponseStatus::try_from(b),
        Err(e) => Err(e),
    }
}

/// The hub's description of itself and of the session's negotiated limits,
/// sent in reply to an information request.
#[derive(Debug, PartialEq, Eq, Hash, Clone, Structural)]
pub struct InfoResponse {
    pub rpc_major: u8,
    pub rpc_minor: u8,
    pub rpc_build: u16,
    pub firmware_major: u8,
    pub firmware_minor: u8,
    pub firmware_build: u16,
    pub max_packet_size: u16,
    pub max_msg_size: u16,
    pub max_chunk_size: u16,
    pub product_group_device_type: u16,
}

impl InfoResponse {
    /// The response parsed from its sixteen fixed bytes.
    pub open spec fn spec_parse(data: Seq<u8>, pos: int) -> Result<(InfoResponse, int), Error> {
        if pos < 0 || pos + 16 > data.len() {
            Err(Error::UnexpectedEof)
        } else {
            Ok(
                (
                    InfoResponse {
                        rpc_major: data[pos],
                        rpc_minor: data[pos + 1],
                        rpc_build: spec_le16(data[pos + 2], data[pos + 3]),
                        firmware_major: data[pos + 4],
                        firmware_minor: data[pos + 5],
                        firmware_build: spec_le16(data[pos + 6], data[pos + 7]),
                        max_packet_size: spec_le16(data[pos + 8], data[pos + 9]),
                        max_msg_size: spec_le16(data[pos + 10], data[pos + 11]),
                        max_chunk_size: spec_le16(data[pos + 12], data[pos + 13]),
                        product_group_device_type: spec_le16(data[pos + 14], data[pos + 15]),
                    },
                    pos + 16,
                ),
            )
        }
    }

    /// Parses the response.
    pub fn deserialize(r: &mut Reader) -> (res: Result<InfoResponse, Error>)
        ensures
            final(r).data == old(r).data,
            match res {
                Ok(m) => Self::spec_parse(old(r).data@, old(r).pos as int) == Ok::<
                    (InfoResponse, int),
                    Error,
                >((m, final(r).pos as int)),
                Err(e) => Self::spec_parse(old(r).data@, old(r).pos as int) == Err::<
                    (InfoResponse, int),
                    Error,
                >(e),
            },
    {
        let rpc_major = match r.read_u8() {
            Ok(x) => x,
            Err(e) => {
                return Err(e);
            },
        };
        let rpc_minor = match r.read_u8() {
            Ok(x) => x,
            Err(e) => {
                return Err(e);
            },
        };
        let rpc_build = match r.read_u16_le() {
            Ok(x) => x,
            Err(e) => {
                return Err(e);
            },
        };
        let firmware_major = match r.read_u8() {
            Ok(x) => x,
            Err(e) => {
                return Err(e);
            },
        };
        let firmware_minor = match r.read_u8() {
            Ok(x) => x,
            Err(e) => {
                return Err(e);
            },
        };
        let firmware_build = match r.read_u16_le() {
            Ok(x) => x,
            Err(e) => {
                return Err(e);
            },
        };
        let max_packet_size = match r.read_u16_le() {
            Ok(x) => x,
            Err(e) => {
                return Err(e);
            },
        };
        let max_msg_size = match r.read_u16_le() {
            Ok(x) => x,
            Err(e) => {
                return Err(e);
            },
        };
        let max_chunk_size = match r.read_u16_le() {
            Ok(x) => x,
            Err(e) => {
                return Err(e);
            },
        };
        let product_group_device_type = match r.read_u16_le() {
            Ok(x) => x,
            Err(e) => {
                return Err(e);
            },
        };
        Ok(
            InfoResponse {
                rpc_major,
                rpc_minor,
                rpc_build,
                firmware_major,
                firmware_minor,
                firmware_build,
                max_packet_size,
                max_msg_size,
                max_chunk_size,
                product_group_device_type,
            },
        )
    }
}

/// Acknowledges a firmware upload request and reports how many bytes the
/// hub already holds.
#[derive(Debug, PartialEq, Eq, Hash, Clone, Structural)]
pub struct StartFirmwareUploadResponse {
    pub response_status: ResponseStatus,
    pub already_uploaded: u32,
}

impl StartFirmwareUploadResponse {
    /// The response parsed from a status byte and a 32-bit count.
    pub open spec fn spec_parse(data: Seq<u8>, pos: int) -> Result<
        (StartFirmwareUploadResponse, int),
        Error,
    > {
        match spec_parse_status(data, pos) {
            Err(e) => Err(e),
            Ok(p) => if p.1 + 4 > data.len() {
                Err(Error::UnexpectedEof)
            } else {
                Ok(
                    (
                        StartFirmwareUploadResponse {
                            response_status: p.0,
                            already_uploaded: spec_le32(
                                data[p.1],
                                data[p.1 + 1],
                                data[p.1 + 2],
                                data[p.1 + 3],
                            ),
                        },
                        p.1 + 4,
                    ),
                )
            },
        }
    }

    /// Parses the response.
    pub fn deserialize(r: &mut Reader) -> (res: Result<StartFirmwareUploadResponse, Error>)
        ensures
            final(r).data == old(r).data,
            match res {
                Ok(m) => Self::spec_parse(old(r).data@, old(r).pos as int) == Ok::<
                    (StartFirmwareUploadResponse, int),
                    Error,
                >((m, final(r).pos as int)),
                Err(e) => Self::spec_parse(old(r).data@, old(r).pos as int) == Err::<
                    (StartFirmwareUploadResponse, int),
                    Error,
                >(e),
            },
    {
        let response_status = match read_status(r) {
            Ok(s) => s,
            Err(e) => {
                return Err(e);
            },
        };
        let already_uploaded = match r.read_u32_le() {
            Ok(x) => x,
            Err(e) => {
                return Err(e);
            },
        };
        Ok(StartFirmwareUploadResponse { response_status, already_uploaded })
    }
}

/// Acknowledges (or rejects) a file upload request.
#[derive(Debug, PartialEq, Eq, Hash, Clone, Structural)]
pub struct StartFileUploadResponse {
    pub response_status: ResponseStatus,
}

impl StartFileUploadResponse {
    /// The response parsed from its status byte.
    pub open spec fn spec_parse(data: Seq<u8>, pos: int) -> Result<
        (StartFileUploadResponse, int),
        Error,
    > {
        match spec_parse_status(data, pos) {
            Ok(p) => Ok((StartFileUploadResponse { response_status: p.0 }, p.1)),
            Err(e) => Err(e),
        }
    }

    /// Parses the response.
    pub fn deserialize(r: &mut Reader) -> (res: Result<StartFileUploadResponse, Error>)
        ensures
            final(r).data == old(r).data,
            match res {
                Ok(m) => Self::spec_parse(old(r).data@, old(r).pos as int) == Ok::<
                    (StartFileUploadResponse, int),
                    Error,
                >((m, final(r).pos as int)),
                Err(e) => Self::spec_parse(old(r).data@, old(r).pos as int) == Err::<
                    (StartFileUploadResponse, int),
                    Error,
                >(e),
            },
    {
        match read_status(r) {
            Ok(s) => Ok(StartFileUploadResponse { response_status: s }),
            Err(e) => Err(e),
        }
    }
}

/// Acknowledges (or rejects) one transferred chunk.
#[derive(Debug, PartialEq, Eq, Hash, Clone, Structural)]
pub struct TransferChunkResponse {
    pub response_status: ResponseStatus,
}

impl TransferChunkResponse {
    /// The response parsed from its status byte.
    pub open spec fn spec_parse(data: Seq<u8>, pos: int) -> Result<
        (TransferChunkResponse, int),
        Error,
    > {
        match spec_parse_status(data, pos) {
            Ok(p) => Ok((TransferChunkResponse { response_status: p.0 }, p.1)),
            Err(e) => Err(e),
        }
    }

    /// Parses the response.
    pub fn deserialize(r: &mut Reader) -> (res: Result<TransferChunkResponse, Error>)
        ensures
            final(r).data == old(r).data,
            match res {
                Ok(m) => Self::spec_parse(old(r).data@, old(r).pos as int) == Ok::<
                    (TransferChunkResponse, int),
                    Error,
                >((m, final(r).pos as int)),
                Err(e) => Self::spec_parse(old(r).data@, old(r).pos as int) == Err::<
                    (TransferChunkResponse, int),
                    Error,
                >(e),
            },
    {
        match read_status(r) {
            Ok(s) => Ok(TransferChunkResponse { response_status: s }),
            Err(e) => Err(e),
        }
    }
}

/// Acknowledges (or rejects) a firmware update request.
#[derive(Debug, PartialEq, Eq, Hash, Clone, Structural)]
pub struct BeginFirmwareUpdateResponse {
    pub response_status: ResponseStatus,
}

impl BeginFirmwareUpdateResponse {
    /// The response parsed from its status byte.
    pub open spec fn spec_parse(data: Seq<u8>, pos: int) -> Result<
        (BeginFirmwareUpdateResponse, int),
        Error,
    > {
        match spec_parse_status(data, pos) {
            Ok(p) => Ok((BeginFirmwareUpdateResponse { response_status: p.0 }, p.1)),
            Err(e) => Err(e),
        }
    }

    /// Parses the response.
    pub fn deserialize(r: &mut Reader) -> (res: Result<BeginFirmwareUpdateResponse, Error>)
        ensures
            final(r).data == old(r).data,
            match res {
                Ok(m) => Self::spec_parse(old(r).data@, old(r).pos as int) == Ok::<
                    (BeginFirmwareUpdateResponse, int),
                    Error,
                >((m, final(r).pos as int)),
                Err(e) => Self::spec_parse(old(r).data@, old(r).pos as int) == Err::<
                    (BeginFirmwareUpdateResponse, int),
                    Error,
                >(e),
            },
    {
        match read_status(r) {
            Ok(s) => Ok(BeginFirmwareUpdateResponse { response_status: s }),
            Err(e) => Err(e),
        }
    }
}

/// Acknowledges (or rejects) a rename.
#[derive(Debug, PartialEq, Eq, Hash, Clone, Structural)]
pub struct SetHubNameResponse {
    pub response_status: ResponseStatus,
}

impl SetHubNameResponse {
    /// The response parsed from its status byte.
    pub open spec fn spec_parse(data: Seq<u8>, pos: int) -> Result<
        (SetHubNameResponse, int),
        Error,
    > {
        match spec_parse_status(data, pos) {
            Ok(p) => Ok((SetHubNameResponse { response_status: p.0 }, p.1)),
            Err(e) => Err(e),
        }
    }

    /// Parses the response.
    pub fn deserialize(r: &mut Reader) -> (res: Result<SetHubNameResponse, Error>)
        ensures
            final(r).data == old(r).data,
            match res {
                Ok(m) => Self::spec_parse(old(r).data@, old(r).pos as int) == Ok::<
                    (SetHubNameResponse, int),
                    Error,
                >((m, final(r).pos as int)),
                Err(e) => Self::spec_parse(old(r).data@, old(r).pos as int) == Err::<
                    (SetHubNameResponse, int),
                    Error,
                >(e),
            },
    {
        match read_status(r) {
            Ok(s) => Ok(SetHubNameResponse { response_status: s }),
            Err(e) => Err(e),
        }
    }
}

/// Carries the hub's current name.
#[derive(Debug, PartialEq, Eq, Hash, Clone)]
pub struct GetHubNameResponse {
    pub name: String,
}

impl GetHubNameResponse {
    /// Parses the response: a null-terminated UTF-8 name.
    pub fn deserialize(r: &mut Reader) -> (res: Result<GetHubNameResponse, Error>)
        ensures
            final(r).data == old(r).data,
            match res {
                Ok(m) => (match spec_parse_str(old(r).data@, old(r).pos as int) {
                    Ok(p) => m.name@ == p.0 && final(r).pos == p.1,
                    Err(_) => false,
                }),
                Err(e) => spec_parse_str(old(r).data@, old(r).pos as int) == Err::<
                    (Seq<char>, int),
                    Error,
                >(e),
            },
    {
        match read_str(r) {
            Ok(name) => Ok(GetHubNameResponse { name }),
            Err(e) => Err(e),
        }
    }
}

/// Carries the hub's unique identifier as its sixteen raw bytes.
#[derive(Debug, PartialEq, Eq, Hash, Clone)]
pub struct DeviceUuidResponse {
    pub uuid: Vec<u8>,
}

impl DeviceUuidResponse {
    /// Parses the response: exactly sixteen identifier bytes.
    pub fn deserialize(r: &mut Reader) -> (res: Result<DeviceUuidResponse, Error>)
        ensures
            final(r).data == old(r).data,
            match res {
                Ok(m) => old(r).pos + 16 <= old(r).data@.len() && m.uuid@ == old(
                    r,
                ).data@.subrange(old(r).pos as int, old(r).pos + 16) && final(r).pos == old(
                    r,
                ).pos + 16,
                Err(e) => e == Error::UnexpectedEof && old(r).pos + 16 > old(r).data@.len(),
            },
    {
        match r.read_bytes(16) {
            Ok(uuid) => Ok(DeviceUuidResponse { uuid }),
            Err(e) => Err(e),
        }
    }
}

/// Acknowledges (or rejects) a program-flow request.
#[derive(Debug, PartialEq, Eq, Hash, Clone, Structural)]
pub struct ProgramFlowResponse {
    pub response_status: ResponseStatus,
}

impl ProgramFlowResponse {
    /// The response parsed from its status byte.
    pub open spec fn spec_parse(data: Seq<u8>, pos: int) -> Result<
        (ProgramFlowResponse, int),
        Error,
    > {
        match spec_parse_status(data, pos) {
            Ok(p) => Ok((ProgramFlowResponse { response_status: p.0 }, p.1)),
            Err(e) => Err(e),
        }
    }

    /// Parses the response.
    pub fn deserialize(r: &mut Reader) -> (res: Result<ProgramFlowResponse, Error>)
        ensures
            final(r).data == old(r).data,
            match res {
                Ok(m) => Self::spec_parse(old(r).data@, old(r).pos as int) == Ok::<
                    (ProgramFlowResponse, int),
                    Error,
                >((m, final(r).pos as int)),
                Err(e) => Self::spec_parse(old(r).data@, old(r).pos as int) == Err::<
                    (ProgramFlowResponse, int),
                    Error,
                >(e),
            },
    {
        match read_status(r) {
            Ok(s) => Ok(ProgramFlowResponse { response_status: s }),
            Err(e) => Err(e),
        }
    }
}

/// Reports, unsolicited, that a program started or stopped.
#[derive(Debug, PartialEq, Eq, Hash, Clone, Structural)]
pub struct ProgramFlowNotification {
    pub program_action: ProgramAction,
}

impl ProgramFlowNotification {
    /// The notification parsed from its action byte.
    pub open spec fn spec_parse(data: Seq<u8>, pos: int) -> Result<
        (ProgramFlowNotification, int),
        Error,
    > {
        if pos < 0 || pos >= data.len() {
            Err(Error::UnexpectedEof)
        } else {
            match ProgramAction::spec_try_from(data[pos]) {
                Ok(a) => Ok((ProgramFlowNotification { program_action: a }, pos + 1)),
                Err(e) => Err(e),
            }
        }
    }

    /// Parses the notification.
    pub fn deserialize(r: &mut Reader) -> (res: Result<ProgramFlowNotification, Error>)
        ensures
            final(r).data == old(r).data,
            match res {
                Ok(m) => Self::spec_parse(old(r).data@, old(r).pos as int) == Ok::<
                    (ProgramFlowNotification, int),
                    Error,
                >((m, final(r).pos as int)),
                Err(e) => Self::spec_parse(old(r).data@, old(r).pos as int) == Err::<
                    (ProgramFlowNotification, int),
                    Error,
                >(e),
            },
    {
        let b = match r.read_u8() {
            Ok(b) => b,
            Err(e) => {
                return Err(e);
            },
        };
        match ProgramAction::try_from(b) {
            Ok(a) => Ok(ProgramFlowNotification { program_action: a }),
            Err(e) => Err(e),
        }
    }
}

/// Acknowledges (or rejects) clearing a program slot.
#[derive(Debug, PartialEq, Eq, Hash, Clone, Structural)]
pub struct ClearSlotResponse {
    pub response_status: ResponseStatus,
}

impl ClearSlotResponse {
    /// The response parsed from its status byte.
    pub open spec fn spec_parse(data: Seq<u8>, pos: int) -> Result<
        (ClearSlotResponse, int),
        Error,
    > {
        match spec_parse_status(data, pos) {
            Ok(p) => Ok((ClearSlotResponse { response_status: p.0 }, p.1)),
            Err(e) => Err(e),
        }
    }

    /// Parses the response.
    pub fn deserialize(r: &mut Reader) -> (res: Result<ClearSlotResponse, Error>)
        ensures
            final(r).data == old(r).data,
            match res {
                Ok(m) => Self::spec_parse(old(r).data@, old(r).pos as int) == Ok::<
                    (ClearSlotResponse, int),
                    Error,
                >((m, final(r).pos as int)),
                Err(e) => Self::spec_parse(old(r).data@, old(r).pos as int) == Err::<
                    (ClearSlotResponse, int),
                    Error,
                >(e),
            },
    {
        match read_status(r) {
            Ok(s) => Ok(ClearSlotResponse { response_status: s }),
            Err(e) => Err(e),
        }
    }
}

/// Carries, unsolicited, one line of console output from a running program.
#[derive(Debug, PartialEq, Eq, Hash, Clone)]
pub struct ConsoleNotification {
    pub console_message: String,
}

impl ConsoleNotification {
    /// Parses the notification: a null-terminated UTF-8 text.
    pub fn deserialize(r: &mut Reader) -> (res: Result<ConsoleNotification, Error>)
        ensures
            final(r).data == old(r).data,
            match res {
                Ok(m) => (match spec_parse_str(old(r).data@, old(r).pos as int) {
                    Ok(p) => m.console_message@ == p.0 && final(r).pos == p.1,
                    Err(_) => false,
                }),
                Err(e) => spec_parse_str(old(r).data@, old(r).pos as int) == Err::<
                    (Seq<char>, int),
                    Error,
                >(e),
            },
    {
        match read_str(r) {
            Ok(console_message) => Ok(ConsoleNotification { console_message }),
            Err(e) => Err(e),
        }
    }
}

/// Acknowledges (or rejects) a telemetry configuration request.
#[derive(Debug, PartialEq, Eq, Hash, Clone, Structural)]
pub struct DeviceNotificationResponse {
    pub response_status: ResponseStatus,
}

impl DeviceNotificationResponse {
    /// The response parsed from its status byte.
    pub open spec fn spec_parse(data: Seq<u8>, pos: int) -> Result<
        (DeviceNotificationResponse, int),
        Error,
    > {
        match spec_parse_status(data, pos) {
            Ok(p) => Ok((DeviceNotificationResponse { response_status: p.0 }, p.1)),
            Err(e) => Err(e),
        }
    }

    /// Parses the response.
    pub fn deserialize(r: &mut Reader) -> (res: Result<DeviceNotificationResponse, Error>)
        ensures
            final(r).data == old(r).data,
            match res {
                Ok(m) => Self::spec_parse(old(r).data@, old(r).pos as int) == Ok::<
                    (DeviceNotificationResponse, int),
                    Error,
                >((m, final(r).pos as int)),
                Err(e) => Self::spec_parse(old(r).data@, old(r).pos as int) == Err::<
                    (DeviceNotificationResponse, int),
                    Error,
                >(e),
            },
    {
        match read_status(r) {
            Ok(s) => Ok(DeviceNotificationResponse { response_status: s }),
            Err(e) => Err(e),
        }
    }
}

/// One self-describing telemetry entry.
#[derive(Clone, Debug, PartialEq, Eq, Hash)]
pub enum DeviceMessage {
    /// The device's battery in percentage.
    DeviceBattery(u8),
    DeviceImuValues {
        up_face: HubFace,
        yaw_face: HubFace,
        yaw: i16,
        pitch: i16,
        roll: i16,
        accelerometer_x: i16,
        accelerometer_y: i16,
        accelerometer_z: i16,
        gyroscope_x: i16,
        gyroscope_y: i16,
        gyroscope_z: i16,
    },
    /// The brightness of the pixels on the device's matrix display,
    /// twenty-five bytes in row order.
    Device5x5MatrixDisplay(Vec<u8>),
    DeviceMotor {
        port: HubPort,
        motor_device_type: MotorDeviceType,
        absolute_position: i16,
        power: i16,
        speed: i8,
        position: i32,
    },
    DeviceForceSensor { port: HubPort, value: u8, pressure: bool },
    DeviceColorSensor { port: HubPort, color: Option<Color>, red: u16, green: u16, blue: u16 },
    DeviceDistanceSensor { port: HubPort, distance: i16 },
    Device3x3ColorMatrix { port: HubPort, pixels: Vec<u8> },
}

/// The mathematical shape of a telemetry entry: the same variants, with
/// byte blobs as sequences.
pub enum DeviceMessageModel {
    DeviceBattery(u8),
    DeviceImuValues {
        up_face: HubFace,
        yaw_face: HubFace,
        yaw: i16,
        pitch: i16,
        roll: i16,
        accelerometer_x: i16,
        accelerometer_y: i16,
        accelerometer_z: i16,
        gyroscope_x: i16,
        gyroscope_y: i16,
        gyroscope_z: i16,
    },
    Device5x5MatrixDisplay(Seq<u8>),
    DeviceMotor {
        port: HubPort,
        motor_device_type: MotorDeviceType,
        absolute_position: i16,
        power: i16,
        speed: i8,
        position: i32,
    },
    DeviceForceSensor { port: HubPort, value: u8, pressure: bool },
    DeviceColorSensor { port: HubPort, color: Option<Color>, red: u16, green: u16, blue: u16 },
    DeviceDistanceSensor { port: HubPort, distance: i16 },
    Device3x3ColorMatrix { port: HubPort, pixels: Seq<u8> },
}

impl View for DeviceMessage {
    type V = DeviceMessageModel;

    open spec fn view(&self) -> DeviceMessageModel {
        match self {
            DeviceMessage::DeviceBattery(v) => DeviceMessageModel::DeviceBattery(*v),
            DeviceMessage::DeviceImuValues {
                up_face,
                yaw_face,
                yaw,
                pitch,
                roll,
                accelerometer_x,
                accelerometer_y,
                accelerometer_z,
                gyroscope_x,
                gyroscope_y,
                gyroscope_z,
            } => DeviceMessageModel::DeviceImuValues {
                up_face: *up_face,
                yaw_face: *yaw_face,
                yaw: *yaw,
                pitch: *pitch,
                roll: *roll,
                accelerometer_x: *accelerometer_x,
                accelerometer_y: *accelerometer_y,
                accelerometer_z: *accelerometer_z,
                gyroscope_x: *gyroscope_x,
                gyroscope_y: *gyroscope_y,
                gyroscope_z: *gyroscope_z,
            },
            DeviceMessage::Device5x5MatrixDisplay(p) => DeviceMessageModel::Device5x5MatrixDisplay(
                p@,
            ),
            DeviceMessage::DeviceMotor {
                port,
                motor_device_type,
                absolute_position,
                power,
                speed,
                position,
            } => DeviceMessageModel::DeviceMotor {
                port: *port,
                motor_device_type: *motor_device_type,
                absolute_position: *absolute_position,
                power: *power,
                speed: *speed,
                position: *position,
            },
            DeviceMessage::DeviceForceSensor { port, value, pressure } => {
                DeviceMessageModel::DeviceForceSensor {
                    port: *port,
                    value: *value,
                    pressure: *pressure,
                }
            },
            DeviceMessage::DeviceColorSensor { port, color, red, green, blue } => {
                DeviceMessageModel::DeviceColorSensor {
                    port: *port,
                    color: *color,
                    red: *red,
                    green: *green,
                    blue: *blue,
                }
            },
            DeviceMessage::DeviceDistanceSensor { port, distance } => {
                DeviceMessageModel::DeviceDistanceSensor { port: *port, distance: *distance }
            },
            DeviceMessage::Device3x3ColorMatrix { port, pixels } => {
                DeviceMessageModel::Device3x3ColorMatrix { port: *port, pixels: pixels@ }
            },
        }
    }
}

/// One telemetry entry parsed at `pos`: its tag byte, then its fields.
/// An unknown tag is an unknown message; an out-of-range face, port or
/// motor-type byte is an invalid enumeration; an out-of-range color byte
/// degrades to no color instead of failing.
#[verifier::opaque]
pub open spec fn spec_parse_device_message(data: Seq<u8>, pos: int) -> Result<
    (DeviceMessageModel, int),
    Error,
> {
    if pos < 0 || pos >= data.len() {
        Err(Error::UnexpectedEof)
    } else {
        let tag = data[pos];
        let p = pos + 1;
        if tag == 0x00 {
            if p >= data.len() {
                Err(Error::UnexpectedEof)
            } else {
                Ok((DeviceMessageModel::DeviceBattery(data[p]), p + 1))
            }
        } else if tag == 0x01 {
            if p >= data.len() {
                Err(Error::UnexpectedEof)
            } else {
                match HubFace::spec_try_from(data[p]) {
                    Err(e) => Err(e),
                    Ok(up_face) => if p + 1 >= data.len() {
                        Err(Error::UnexpectedEof)
                    } else {
                        match HubFace::spec_try_from(data[p + 1]) {
                            Err(e) => Err(e),
                            Ok(yaw_face) => if p + 20 > data.len() {
                                Err(Error::UnexpectedEof)
                            } else {
                                Ok(
                                    (
                                        DeviceMessageModel::DeviceImuValues {
                                            up_face,
                                            yaw_face,
                                            yaw: spec_le16_signed(data[p + 2], data[p + 3]),
                                            pitch: spec_le16_signed(data[p + 4], data[p + 5]),
                                            roll: spec_le16_signed(data[p + 6], data[p + 7]),
                                            accelerometer_x: spec_le16_signed(
                                                data[p + 8],
                                                data[p + 9],
                                            ),
                                            accelerometer_y: spec_le16_signed(
                                                data[p + 10],
                                                data[p + 11],
                                            ),
                                            accelerometer_z: spec_le16_signed(
                                                data[p + 12],
                                                data[p + 13],
                                            ),
                                            gyroscope_x: spec_le16_signed(
                                                data[p + 14],
                                                data[p + 15],
                                            ),
                                            gyroscope_y: spec_le16_signed(
                                                data[p + 16],
                                                data[p + 17],
                                            ),
                                            gyroscope_z: spec_le16_signed(
                                                data[p + 18],
                                                data[p + 19],
                                            ),
                                        },
                                        p + 20,
                                    ),
                                )
                            },
                        }
                    },
                }
            }
        } else if tag == 0x02 {
            if p + 25 > data.len() {
                Err(Error::UnexpectedEof)
            } else {
                Ok((DeviceMessageModel::Device5x5MatrixDisplay(data.subrange(p, p + 25)), p + 25))
            }
        } else if tag == 0x0a {
            if p >= data.len() {
                Err(Error::UnexpectedEof)
            } else {
                match HubPort::spec_try_from(data[p]) {
                    Err(e) => Err(e),
                    Ok(port) => if p + 1 >= data.len() {
                        Err(Error::UnexpectedEof)
                    } else {
                        match MotorDeviceType::spec_try_from(data[p + 1]) {
                            Err(e) => Err(e),
                            Ok(motor_device_type) => if p + 11 > data.len() {
                                Err(Error::UnexpectedEof)
                            } else {
                                Ok(
                                    (
                                        DeviceMessageModel::DeviceMotor {
                                            port,
                                            motor_device_type,
                                            absolute_position: spec_le16_signed(
                                                data[p + 2],
                                                data[p + 3],
                                            ),
                                            power: spec_le16_signed(data[p + 4], data[p + 5]),
                                            speed: data[p + 6] as i8,
                                            position: spec_le32_signed(
                                                data[p + 7],
                                                data[p + 8],
                                                data[p + 9],
                                                data[p + 10],
                                            ),
                                        },
                                        p + 11,
                                    ),
                                )
                            },
                        }
                    },
                }
            }
        } else if tag == 0x0b {
            if p >= data.len() {
                Err(Error::UnexpectedEof)
            } else {
                match HubPort::spec_try_from(data[p]) {
                    Err(e) => Err(e),
                    Ok(port) => if p + 3 > data.len() {
                        Err(Error::UnexpectedEof)
                    } else {
                        if data[p + 2] == 0x01 {
                            Ok(
                                (
                                    DeviceMessageModel::DeviceForceSensor {
                                        port,
                                        value: data[p + 1],
                                        pressure: true,
                                    },
                                    p + 3,
                                ),
                            )
                        } else if data[p + 2] == 0x00 {
                            Ok(
                                (
                                    DeviceMessageModel::DeviceForceSensor {
                                        port,
                                        value: data[p + 1],
                                        pressure: false,
                                    },
                                    p + 3,
                                ),
                            )
                        } else {
                            Err(
                                Error::InvalidEnumValue {
                                    enum_name: "bool",
                                    value: data[p + 2],
                                },
                            )
                        }
                    },
                }
            }
        } else if tag == 0x0c {
            if p >= data.len() {
                Err(Error::UnexpectedEof)
            } else {
                match HubPort::spec_try_from(data[p]) {
                    Err(e) => Err(e),
                    Ok(port) => if p + 8 > data.len() {
                        Err(Error::UnexpectedEof)
                    } else {
                        Ok(
                            (
                                DeviceMessageModel::DeviceColorSensor {
                                    port,
                                    color: (match Color::spec_try_from(data[p + 1]) {
                                        Ok(c) => Some(c),
                                        Err(_) => None,
                                    }),
                                    red: spec_le16(data[p + 2], data[p + 3]),
                                    green: spec_le16(data[p + 4], data[p + 5]),
                                    blue: spec_le16(data[p + 6], data[p + 7]),
                                },
                                p + 8,
                            ),
                        )
                    },
                }
            }
        } else if tag == 0x0d {
            if p >= data.len() {
                Err(Error::UnexpectedEof)
            } else {
                match HubPort::spec_try_from(data[p]) {
                    Err(e) => Err(e),
                    Ok(port) => if p + 3 > data.len() {
                        Err(Error::UnexpectedEof)
                    } else {
                        Ok(
                            (
                                DeviceMessageModel::DeviceDistanceSensor {
                                    port,
                                    distance: spec_le16_signed(data[p + 1], data[p + 2]),
                                },
                                p + 3,
                            ),
                        )
                    },
                }
            }
        } else if tag == 0x0e {
            if p >= data.len() {
                Err(Error::UnexpectedEof)
            } else {
                match HubPort::spec_try_from(data[p]) {
                    Err(e) => Err(e),
                    Ok(port) => if p + 10 > data.len() {
                        Err(Error::UnexpectedEof)
                    } else {
                        Ok(
                            (
                                DeviceMessageModel::Device3x3ColorMatrix {
                                    port,
                                    pixels: data.subrange(p + 1, p + 10),
                                },
                                p + 10,
                            ),
                        )
                    },
                }
            }
        } else {
            Err(Error::UnknownMessage)
        }
    }
}

impl DeviceMessage {
    /// Parses one telemetry entry.
    pub fn deserialize(r: &mut Reader) -> (res: Result<DeviceMessage, Error>)
        ensures
            final(r).data == old(r).data,
            match res {
                Ok(m) => spec_parse_device_message(old(r).data@, old(r).pos as int) == Ok::<
                    (DeviceMessageModel, int),
                    Error,
                >((m@, final(r).pos as int)) && old(r).pos < final(r).pos && final(r).pos <= old(
                    r,
                ).data@.len(),
                Err(e) => spec_parse_device_message(old(r).data@, old(r).pos as int) == Err::<
                    (DeviceMessageModel, int),
                    Error,
                >(e),
            },
    {
        proof {
            reveal(spec_parse_device_message);
        }
        let tag = match r.read_u8() {
            Ok(b) => b,
            Err(e) => {
                return Err(e);
            },
        };
        match tag {
            0x00 => {
                match r.read_u8() {
                    Ok(v) => Ok(DeviceMessage::DeviceBattery(v)),
                    Err(e) => Err(e),
                }
            },
            0x01 => {
                let fb = match r.read_u8() {
                    Ok(b) => b,
                    Err(e) => {
                        return Err(e);
                    },
                };
                let up_face = match HubFace::try_from(fb) {
                    Ok(f) => f,
                    Err(e) => {
                        return Err(e);
                    },
                };
                let yb = match r.read_u8() {
                    Ok(b) => b,
                    Err(e) => {
                        return Err(e);
                    },
                };
                let yaw_face = match HubFace::try_from(yb) {
                    Ok(f) => f,
                    Err(e) => {
                        return Err(e);
                    },
                };
                let yaw = match r.read_i16_le() {
                    Ok(x) => x,
                    Err(e) => {
                        return Err(e);
                    },
                };
                let pitch = match r.read_i16_le() {
                    Ok(x) => x,
                    Err(e) => {
                        return Err(e);
                    },
                };
                let roll = match r.read_i16_le() {
                    Ok(x) => x,
                    Err(e) => {
                        return Err(e);
                    },
                };
                let accelerometer_x = match r.read_i16_le() {
                    Ok(x) => x,
                    Err(e) => {
                        return Err(e);
                    },
                };
                let accelerometer_y = match r.read_i16_le() {
                    Ok(x) => x,
                    Err(e) => {
                        return Err(e);
                    },
                };
                let accelerometer_z = match r.read_i16_le() {
                    Ok(x) => x,
                    Err(e) => {
                        return Err(e);
                    },
                };
                let gyroscope_x = match r.read_i16_le() {
                    Ok(x) => x,
                    Err(e) => {
                        return Err(e);
                    },
                };
                let gyroscope_y = match r.read_i16_le() {
                    Ok(x) => x,
                    Err(e) => {
                        return Err(e);
                    },
                };
                let gyroscope_z = match r.read_i16_le() {
                    Ok(x) => x,
                    Err(e) => {
                        return Err(e);
                    },
                };
                Ok(
                    DeviceMessage::DeviceImuValues {
                        up_face,
                        yaw_face,
                        yaw,
                        pitch,
                        roll,
                        accelerometer_x,
                        accelerometer_y,
                        accelerometer_z,
                        gyroscope_x,
                        gyroscope_y,
                        gyroscope_z,
                    },
                )
            },
            0x02 => {
                match r.read_bytes(25) {
                    Ok(v) => Ok(DeviceMessage::Device5x5MatrixDisplay(v)),
                    Err(e) => Err(e),
                }
            },
            0x0a => {
                let pb = match r.read_u8() {
                    Ok(b) => b,
                    Err(e) => {
                        return Err(e);
                    },
                };
                let port = match HubPort::try_from(pb) {
                    Ok(x) => x,
                    Err(e) => {
                        return Err(e);
                    },
                };
                let mb = match r.read_u8() {
                    Ok(b) => b,
                    Err(e) => {
                        return Err(e);
                    },
                };
                let motor_device_type = match MotorDeviceType::try_from(mb) {
                    Ok(x) => x,
                    Err(e) => {
                        return Err(e);
                    },
                };
                let absolute_position = match r.read_i16_le() {
                    Ok(x) => x,
                    Err(e) => {
                        return Err(e);
                    },
                };
                let power = match r.read_i16_le() {
                    Ok(x) => x,
                    Err(e) => {
                        return Err(e);
                    },
                };
                let speed = match r.read_i8() {
                    Ok(x) => x,
                    Err(e) => {
                        return Err(e);
                    },
                };
                let position = match r.read_i32_le() {
                    Ok(x) => x,
                    Err(e) => {
                        return Err(e);
                    },
                };
                Ok(
                    DeviceMessage::DeviceMotor {
                        port,
                        motor_device_type,
                        absolute_position,
                        power,
                        speed,
                        position,
                    },
                )
            },
            0x0b => {
                let pb = match r.read_u8() {
                    Ok(b) => b,
                    Err(e) => {
                        return Err(e);
                    },
                };
                let port = match HubPort::try_from(pb) {
                    Ok(x) => x,
                    Err(e) => {
                        return Err(e);
                    },
                };
                let value = match r.read_u8() {
                    Ok(x) => x,
                    Err(e) => {
                        return Err(e);
                    },
                };
                let prb = match r.read_u8() {
                    Ok(x) => x,
                    Err(e) => {
                        return Err(e);
                    },
                };
                let pressure = if prb == 0x01 {
                    true
                } else if prb == 0x00 {
                    false
                } else {
                    return Err(Error::InvalidEnumValue { enum_name: "bool", value: prb });
                };
                Ok(DeviceMessage::DeviceForceSensor { port, value, pressure })
            },
            0x0c => {
                let pb = match r.read_u8() {
                    Ok(b) => b,
                    Err(e) => {
                        return Err(e);
                    },
                };
                let port = match HubPort::try_from(pb) {
                    Ok(x) => x,
                    Err(e) => {
                        return Err(e);
                    },
                };
                let cb = match r.read_u8() {
                    Ok(x) => x,
                    Err(e) => {
                        return Err(e);
                    },
                };
                let color = match Color::try_from(cb) {
                    Ok(c) => Some(c),
                    Err(_) => None,
                };
                let red = match r.read_u16_le() {
                    Ok(x) => x,
                    Err(e) => {
                        return Err(e);
                    },
                };
                let green = match r.read_u16_le() {
                    Ok(x) => x,
                    Err(e) => {
                        return Err(e);
                    },
                };
                let blue = match r.read_u16_le() {
                    Ok(x) => x,
                    Err(e) => {
                        return Err(e);
                    },
                };
                Ok(DeviceMessage::DeviceColorSensor { port, color, red, green, blue })
            },
            0x0d => {
                let pb = match r.read_u8() {
                    Ok(b) => b,
                    Err(e) => {
                        return Err(e);
                    },
                };
                let port = match HubPort::try_from(pb) {
                    Ok(x) => x,
                    Err(e) => {
                        return Err(e);
                    },
                };
                let distance = match r.read_i16_le() {
                    Ok(x) => x,
                    Err(e) => {
                        return Err(e);
                    },
                };
                Ok(DeviceMessage::DeviceDistanceSensor { port, distance })
            },
            0x0e => {
                let pb = match r.read_u8() {
                    Ok(b) => b,
                    Err(e) => {
                        return Err(e);
                    },
                };
                let port = match HubPort::try_from(pb) {
                    Ok(x) => x,
                    Err(e) => {
                        return Err(e);
                    },
                };
                let pixels = match r.read_bytes(9) {
                    Ok(v) => v,
                    Err(e) => {
                        return Err(e);
                    },
                };
                Ok(DeviceMessage::Device3x3ColorMatrix { port, pixels })
            },
            _ => Err(Error::UnknownMessage),
        }
    }
}

/// The telemetry entries between `pos` and `end`, parsed in order. An
/// entry may run past `end`; parsing stops at the first entry that begins
/// at or beyond it.
pub open spec fn spec_parse_device_messages(data: Seq<u8>, pos: int, end: int) -> Result<
    (Seq<DeviceMessageModel>, int),
    Error,
>
    decreases end - pos,
{
    if pos >= end {
        Ok((seq![], pos))
    } else {
        match spec_parse_device_message(data, pos) {
            Err(e) => Err(e),
            Ok(p) => if p.1 >= end {
                Ok((seq![p.0], p.1))
            } else if pos < p.1 {
                match spec_parse_device_messages(data, p.1, end) {
                    Ok(q) => Ok((seq![p.0] + q.0, q.1)),
                    Err(e) => Err(e),
                }
            } else {
                Err(Error::UnknownMessage)
            },
        }
    }
}

/// The periodic telemetry bundle: a byte-size prefix, then self-describing
/// entries until the declared size is consumed.
#[derive(Debug, PartialEq, Eq, Hash, Clone)]
pub struct DeviceNotification {
    pub payload: Vec<DeviceMessage>,
}

impl DeviceNotification {
    /// The bundle parsed from its size prefix and entries.
    pub open spec fn spec_parse(data: Seq<u8>, pos: int) -> Result<
        (Seq<DeviceMessageModel>, int),
        Error,
    > {
        if pos < 0 || pos + 2 > data.len() {
            Err(Error::UnexpectedEof)
        } else {
            let size = spec_le16(data[pos], data[pos + 1]);
            spec_parse_device_messages(data, pos + 2, pos + 2 + size)
        }
    }

    /// Parses the bundle.
    #[verifier::rlimit(100)]
    #[verifier::loop_isolation(false)]
    pub fn deserialize(r: &mut Reader) -> (res: Result<DeviceNotification, Error>)
        ensures
            final(r).data == old(r).data,
            match res {
                Ok(m) => (match Self::spec_parse(old(r).data@, old(r).pos as int) {
                    Ok(p) => m.payload@.map_values(|d: DeviceMessage| d@) == p.0 && final(r).pos
                        == p.1,
                    Err(_) => false,
                }),
                Err(e) => Self::spec_parse(old(r).data@, old(r).pos as int) == Err::<
                    (Seq<DeviceMessageModel>, int),
                    Error,
                >(e),
            },
    {
        let size = match r.read_u16_le() {
            Ok(x) => x,
            Err(e) => {
                return Err(e);
            },
        };
        let ghost data = r.data@;
        let start: usize = r.pos;
        let ghost pos0 = start as int;
        let ghost end = pos0 + size as int;
        let mut payload: Vec<DeviceMessage> = Vec::new();
        proof {
            assert(payload@.map_values(|d: DeviceMessage| d@) =~= Seq::<
                DeviceMessageModel,
            >::empty());
            match spec_parse_device_messages(data, pos0, end) {
                Ok(q) => {
                    assert(Seq::<DeviceMessageModel>::empty() + q.0 =~= q.0);
                },
                Err(_) => {},
            }
        }
        while r.pos - start < size as usize
            invariant
                r.data == old(r).data,
                data == old(r).data@,
                start <= r.pos,
                spec_parse_device_messages(data, pos0, end) == (match spec_parse_device_messages(
                    data,
                    r.pos as int,
                    end,
                ) {
                    Ok(q) => Ok::<(Seq<DeviceMessageModel>, int), Error>((
                        payload@.map_values(|d: DeviceMessage| d@) + q.0,
                        q.1,
                    )),
                    Err(e) => Err::<(Seq<DeviceMessageModel>, int), Error>(e),
                }),
            decreases vstd::math::max(end - r.pos, 0),
        {
            let ghost cur = r.pos as int;
            let ghost prev = payload@;
            let m = match DeviceMessage::deserialize(r) {
                Ok(m) => m,
                Err(e) => {
                    proof {
                        assert(spec_parse_device_messages(data, cur, end) == Err::<
                            (Seq<DeviceMessageModel>, int),
                            Error,
                        >(e));
                    }
                    return Err(e);
                },
            };
            let ghost mv = m@;
            payload.push(m);
            proof {
                assert(payload@.map_values(|d: DeviceMessage| d@) =~= prev.map_values(
                    |d: DeviceMessage| d@,
                ).push(mv));
                let nxt = r.pos as int;
                if nxt >= end {
                    assert(spec_parse_device_messages(data, cur, end) == Ok::<
                        (Seq<DeviceMessageModel>, int),
                        Error,
                    >((seq![mv], nxt)));
                    assert(prev.map_values(|d: DeviceMessage| d@) + seq![mv]
                        =~= payload@.map_values(|d: DeviceMessage| d@));
                    match spec_parse_device_messages(data, nxt, end) {
                        Ok(q) => {
                            assert(q.0 =~= Seq::<DeviceMessageModel>::empty());
                            assert(payload@.map_values(|d: DeviceMessage| d@) + q.0
                                =~= payload@.map_values(|d: DeviceMessage| d@));
                        },
                        Err(_) => {},
                    }
                } else {
                    match spec_parse_device_messages(data, nxt, end) {
                        Ok(q) => {
                            assert(spec_parse_device_messages(data, cur, end) == Ok::<
                                (Seq<DeviceMessageModel>, int),
                                Error,
                            >((seq![mv] + q.0, q.1)));
                            assert(prev.map_values(|d: DeviceMessage| d@) + (seq![mv] + q.0)
                                =~= payload@.map_values(|d: DeviceMessage| d@) + q.0);
                        },
                        Err(e) => {
                            assert(spec_parse_device_messages(data, cur, end) == Err::<
                                (Seq<DeviceMessageModel>, int),
                                Error,
                            >(e));
                        },
                    }
                }
            }
        }
        proof {
            assert(spec_parse_device_messages(data, r.pos as int, end) == Ok::<
                (Seq<DeviceMessageModel>, int),
                Error,
            >((Seq::<DeviceMessageModel>::empty(), r.pos as int)));
            assert(payload@.map_values(|d: DeviceMessage| d@) + Seq::<DeviceMessageModel>::empty()
                =~= payload@.map_values(|d: DeviceMessage| d@));
        }
        Ok(DeviceNotification { payload })
    }
}

/// Every response and notification the hub can send.
#[derive(Debug, PartialEq, Eq, Hash, Clone)]
pub enum TxMessage {
    InfoResponse(InfoResponse),
    StartFirmwareUploadResponse(StartFirmwareUploadResponse),
    StartFileUploadResponse(StartFileUploadResponse),
    TransferChunkResponse(TransferChunkResponse),
    BeginFirmwareUpdateResponse(BeginFirmwareUpdateResponse),
    SetHubNameResponse(SetHubNameResponse),
    GetHubNameResponse(GetHubNameResponse),
    DeviceUuidResponse(DeviceUuidResponse),
    ProgramFlowResponse(ProgramFlowResponse),
    ProgramFlowNotification(ProgramFlowNotification),
    ClearSlotResponse(ClearSlotResponse),
    ConsoleNotification(ConsoleNotification),
    DeviceNotificationResponse(DeviceNotificationResponse),
    DeviceNotification(DeviceNotification),
}

/// What [`TxMessage::deserialize`] returns on `data`: the message behind
/// the leading opcode, parsed by that opcode's layout; an unlisted opcode
/// is an unknown message, and an empty payload is exhaustion. Bytes past a
/// message's declared fields are ignored.
pub open spec fn spec_tx_deserialized(data: Seq<u8>, res: Result<TxMessage, Error>) -> bool {
    if data.len() == 0 {
        res == Err::<TxMessage, Error>(Error::UnexpectedEof)
    } else {
        let op = data[0];
        if op == 0x01 {
            res == (match InfoResponse::spec_parse(data, 1) {
                Ok(p) => Ok::<TxMessage, Error>(TxMessage::InfoResponse(p.0)),
                Err(e) => Err::<TxMessage, Error>(e),
            })
        } else if op == 0x0b {
            res == (match StartFirmwareUploadResponse::spec_parse(data, 1) {
                Ok(p) => Ok::<TxMessage, Error>(TxMessage::StartFirmwareUploadResponse(p.0)),
                Err(e) => Err::<TxMessage, Error>(e),
            })
        } else if op == 0x0d {
            res == (match StartFileUploadResponse::spec_parse(data, 1) {
                Ok(p) => Ok::<TxMessage, Error>(TxMessage::StartFileUploadResponse(p.0)),
                Err(e) => Err::<TxMessage, Error>(e),
            })
        } else if op == 0x11 {
            res == (match TransferChunkResponse::spec_parse(data, 1) {
                Ok(p) => Ok::<TxMessage, Error>(TxMessage::TransferChunkResponse(p.0)),
                Err(e) => Err::<TxMessage, Error>(e),
            })
        } else if op == 0x15 {
            res == (match BeginFirmwareUpdateResponse::spec_parse(data, 1) {
                Ok(p) => Ok::<TxMessage, Error>(TxMessage::BeginFirmwareUpdateResponse(p.0)),
                Err(e) => Err::<TxMessage, Error>(e),
            })
        } else if op == 0x17 {
            res == (match SetHubNameResponse::spec_parse(data, 1) {
                Ok(p) => Ok::<TxMessage, Error>(TxMessage::SetHubNameResponse(p.0)),
                Err(e) => Err::<TxMessage, Error>(e),
            })
        } else if op == 0x19 {
            match res {
                Ok(m) => match m {
                    TxMessage::GetHubNameResponse(g) => (match spec_parse_str(data, 1) {
                        Ok(p) => g.name@ == p.0,
                        Err(_) => false,
                    }),
                    _ => false,
                },
                Err(e) => spec_parse_str(data, 1) == Err::<(Seq<char>, int), Error>(e),
            }
        } else if op == 0x1b {
            match res {
                Ok(m) => match m {
                    TxMessage::DeviceUuidResponse(u) => data.len() >= 17 && u.uuid@
                        == data.subrange(1, 17),
                    _ => false,
                },
                Err(e) => e == Error::UnexpectedEof && data.len() < 17,
            }
        } else if op == 0x1f {
            res == (match ProgramFlowResponse::spec_parse(data, 1) {
                Ok(p) => Ok::<TxMessage, Error>(TxMessage::ProgramFlowResponse(p.0)),
                Err(e) => Err::<TxMessage, Error>(e),
            })
        } else if op == 0x20 {
            res == (match ProgramFlowNotification::spec_parse(data, 1) {
                Ok(p) => Ok::<TxMessage, Error>(TxMessage::ProgramFlowNotification(p.0)),
                Err(e) => Err::<TxMessage, Error>(e),
            })
        } else if op == 0x47 {
            res == (match ClearSlotResponse::spec_parse(data, 1) {
                Ok(p) => Ok::<TxMessage, Error>(TxMessage::ClearSlotResponse(p.0)),
                Err(e) => Err::<TxMessage, Error>(e),
            })
        } else if op == 0x21 {
            match res {
                Ok(m) => match m {
                    TxMessage::ConsoleNotification(c) => (match spec_parse_str(data, 1) {
                        Ok(p) => c.console_message@ == p.0,
                        Err(_) => false,
                    }),
                    _ => false,
                },
                Err(e) => spec_parse_str(data, 1) == Err::<(Seq<char>, int), Error>(e),
            }
        } else if op == 0x29 {
            res == (match DeviceNotificationResponse::spec_parse(data, 1) {
                Ok(p) => Ok::<TxMessage, Error>(TxMessage::DeviceNotificationResponse(p.0)),
                Err(e) => Err::<TxMessage, Error>(e),
            })
        } else if op == 0x3c {
            match res {
                Ok(m) => match m {
                    TxMessage::DeviceNotification(n) => (match DeviceNotification::spec_parse(
                        data,
                        1,
                    ) {
                        Ok(p) => n.payload@.map_values(|d: DeviceMessage| d@) == p.0,
                        Err(_) => false,
                    }),
                    _ => false,
                },
                Err(e) => DeviceNotification::spec_parse(data, 1) == Err::<
                    (Seq<DeviceMessageModel>, int),
                    Error,
                >(e),
            }
        } else {
            res == Err::<TxMessage, Error>(Error::UnknownMessage)
        }
    }
}

impl TxMessage {
    /// Parses one received payload: the leading opcode selects the message
    /// kind, whose fields follow.
    pub fn deserialize(data: Vec<u8>) -> (res: Result<TxMessage, Error>)
        ensures
            spec_tx_deserialized(data@, res),
    {
        let mut r = Reader::new(data);
        let op = match r.read_u8() {
            Ok(b) => b,
            Err(e) => {
                return Err(e);
            },
        };
        match op {
            0x01 => match InfoResponse::deserialize(&mut r) {
                Ok(m) => Ok(TxMessage::InfoResponse(m)),
                Err(e) => Err(e),
            },
            0x0b => match StartFirmwareUploadResponse::deserialize(&mut r) {
                Ok(m) => Ok(TxMessage::StartFirmwareUploadResponse(m)),
                Err(e) => Err(e),
            },
            0x0d => match StartFileUploadResponse::deserialize(&mut r) {
                Ok(m) => Ok(TxMessage::StartFileUploadResponse(m)),
                Err(e) => Err(e),
            },
            0x11 => match TransferChunkResponse::deserialize(&mut r) {
                Ok(m) => Ok(TxMessage::TransferChunkResponse(m)),
                Err(e) => Err(e),
            },
            0x15 => match BeginFirmwareUpdateResponse::deserialize(&mut r) {
                Ok(m) => Ok(TxMessage::BeginFirmwareUpdateResponse(m)),
                Err(e) => Err(e),
            },
            0x17 => match SetHubNameResponse::deserialize(&mut r) {
                Ok(m) => Ok(TxMessage::SetHubNameResponse(m)),
                Err(e) => Err(e),
            },
            0x19 => match GetHubNameResponse::deserialize(&mut r) {
                Ok(m) => Ok(TxMessage::GetHubNameResponse(m)),
                Err(e) => Err(e),
            },
            0x1b => match DeviceUuidResponse::deserialize(&mut r) {
                Ok(m) => Ok(TxMessage::DeviceUuidResponse(m)),
                Err(e) => Err(e),
            },
            0x1f => match ProgramFlowResponse::deserialize(&mut r) {
                Ok(m) => Ok(TxMessage::ProgramFlowResponse(m)),
                Err(e) => Err(e),
            },
            0x20 => match ProgramFlowNotification::deserialize(&mut r) {
                Ok(m) => Ok(TxMessage::ProgramFlowNotification(m)),
                Err(e) => Err(e),
            },
            0x47 => match ClearSlotResponse::deserialize(&mut r) {
                Ok(m) => Ok(TxMessage::ClearSlotResponse(m)),
                Err(e) => Err(e),
            },
            0x21 => match ConsoleNotification::deserialize(&mut r) {
                Ok(m) => Ok(TxMessage::ConsoleNotification(m)),
                Err(e) => Err(e),
            },
            0x29 => match DeviceNotificationResponse::deserialize(&mut r) {
                Ok(m) => Ok(TxMessage::DeviceNotificationResponse(m)),
                Err(e) => Err(e),
            },
            0x3c => match DeviceNotification::deserialize(&mut r) {
                Ok(m) => Ok(TxMessage::DeviceNotification(m)),
                Err(e) => Err(e),
            },
            _ => Err(Error::UnknownMessage),
        }
    }
}

/// Whether an opcode names a response that begins with a status byte.
pub open spec fn is_status_response_opcode(op: u8) -> bool {
    op == 0x0b || op == 0x0d || op == 0x11 || op == 0x15 || op == 0x17 || op == 0x1f || op == 0x29
        || op == 0x47
}

/// A response that carries an acknowledgement status fails to parse with
/// an invalid-enumeration error, and no other result, whenever its status
/// byte is out of range.
pub proof fn lemma_invalid_status_rejected(data: Seq<u8>, res: Result<TxMessage, Error>)
    requires
        data.len() >= 2,
        is_status_response_opcode(data[0]),
        data[1] >= 2,
        spec_tx_deserialized(data, res),
    ensures
        res == Err::<TxMessage, Error>(
            Error::InvalidEnumValue { enum_name: "ResponseStatus", value: data[1] },
        ),
{
}

/// An orientation entry whose face byte is out of range fails to parse
/// with an invalid-enumeration error naming the face.
pub proof fn lemma_invalid_face_rejected(data: Seq<u8>, pos: int)
    requires
        0 <= pos,
        pos + 1 < data.len(),
        data[pos] == 0x01,
        data[pos + 1] > 5,
    ensures
        spec_parse_device_message(data, pos) == Err::<(DeviceMessageModel, int), Error>(
            Error::InvalidEnumValue { enum_name: "HubFace", value: data[pos + 1] },
        ),
{
    reveal(spec_parse_device_message);
}

/// A motor entry whose port byte is out of range fails to parse with an
/// invalid-enumeration error naming the port.
pub proof fn lemma_invalid_port_rejected(data: Seq<u8>, pos: int)
    requires
        0 <= pos,
        pos + 1 < data.len(),
        data[pos] == 0x0a,
        data[pos + 1] > 5,
    ensures
        spec_parse_device_message(data, pos) == Err::<(DeviceMessageModel, int), Error>(
            Error::InvalidEnumValue { enum_name: "HubPort", value: data[pos + 1] },
        ),
{
    reveal(spec_parse_device_message);
}

/// A motor entry whose motor-type byte is out of range fails to parse with
/// an invalid-enumeration error naming the motor type.
pub proof fn lemma_invalid_motor_type_rejected(data: Seq<u8>, pos: int)
    requires
        0 <= pos,
        pos + 2 < data.len(),
        data[pos] == 0x0a,
        data[pos + 1] <= 5,
        data[pos + 2] != 0x30 && data[pos + 2] != 0x31 && data[pos + 2] != 0x41,
    ensures
        spec_parse_device_message(data, pos) == Err::<(DeviceMessageModel, int), Error>(
            Error::InvalidEnumValue { enum_name: "MotorDeviceType", value: data[pos + 2] },
        ),
{
    reveal(spec_parse_device_message);
}

/// A color-sensor entry whose color byte is out of range still parses,
/// reporting no color rather than failing.
pub proof fn lemma_out_of_range_color_degrades(data: Seq<u8>, pos: int)
    requires
        0 <= pos,
        pos + 8 < data.len(),
        data[pos] == 0x0c,
        data[pos + 1] <= 5,
        data[pos + 2] > 0x0a,
    ensures
        spec_parse_device_message(data, pos) matches Ok(p) && (p.0 matches
            DeviceMessageModel::DeviceColorSensor { color, .. } && color is None),
{
    reveal(spec_parse_device_message);
}

} // verus!

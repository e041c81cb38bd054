//! The connection session: negotiated limits, request preparation, response
//! correlation, and the demultiplexing of unsolicited notifications.
//!
//! The session itself never touches the transport. The surrounding
//! application writes the packets this module prepares and hands every raw
//! notification fragment to [`SpikeConnection::feed_fragment`]; the session
//! reassembles frames, decodes and parses them, and routes each message to
//! one of four delivery paths: the latest-telemetry slot, the console
//! queue, the program-flow queue, or the generic response queue.

pub mod message;

use vstd::prelude::*;

use crate::checksum::{crc32_chained, crc32_padded_with_seed, spec_pad4, CRC_INITIAL};
use crate::codec::{decode_message, encode_message, spec_decode, spec_encode, FRAME_DELIMITER};
use crate::connection::message::{
    ConsoleNotification, DeviceNotification, InfoResponse, ProgramFlowNotification,
    ResponseStatus, RxMessage, TransferChunkRequest, TxMessage, spec_tx_deserialized,
    StartFileUploadRequest,
};
use crate::error::Error;
use vstd::pervasive::cloned;
use vstd::slice::{slice_subrange, slice_to_vec};

verus! {

/// How often the hub is asked to send telemetry, in milliseconds.
pub const DEVICE_NOTIFICATION_INTERVAL: u16 = 10;

/// `s` cut into consecutive pieces of `n` bytes, the last one shorter when
/// `n` does not divide the length.
pub open spec fn spec_split(s: Seq<u8>, n: nat) -> Seq<Seq<u8>>
    decreases s.len(),
{
    if n == 0 {
        seq![]
    } else if s.len() == 0 {
        seq![]
    } else if s.len() <= n {
        seq![s]
    } else {
        seq![s.take(n as int)] + spec_split(s.skip(n as int), n)
    }
}

/// Whether a reassembly buffer holds one complete frame: it is nonempty
/// and ends in the frame delimiter.
pub open spec fn spec_frame_complete(buf: Seq<u8>) -> bool {
    buf.len() >= 1 && buf.last() == FRAME_DELIMITER
}

/// One session with a connected hub: the limits and versions captured at
/// the handshake, the reassembly buffer of the notification stream, and
/// the four delivery paths the demultiplexer fills.
#[derive(Debug)]
pub struct SpikeConnection {
    /// Protocol version as (major, minor, build), captured at handshake.
    pub rpc_version: (u8, u8, u16),
    /// Firmware version as (major, minor, build), captured at handshake.
    pub firmware_version: (u8, u8, u16),
    /// Most bytes one transport write may carry.
    pub max_packet_size: u16,
    /// Most bytes one serialized message may carry.
    pub max_message_size: u16,
    /// Most bytes one upload chunk may carry.
    pub max_chunk_size: u16,
    /// The latest telemetry bundle, overwritten on every arrival.
    pub device_notification: Option<DeviceNotification>,
    /// The generic response path, in arrival order.
    pub msg_queue: Vec<Result<TxMessage, Error>>,
    /// Console output notifications, in arrival order.
    pub console_queue: Vec<ConsoleNotification>,
    /// Program start/stop notifications, in arrival order.
    pub program_flow_queue: Vec<ProgramFlowNotification>,
    /// Raw fragments of the frame currently being reassembled.
    pub buffer: Vec<u8>,
}

impl SpikeConnection {
    /// The negotiated limits and version pair, fixed for the session's
    /// lifetime.
    pub open spec fn spec_config_unchanged(pre: SpikeConnection, post: SpikeConnection) -> bool {
        post.rpc_version == pre.rpc_version && post.firmware_version == pre.firmware_version
            && post.max_packet_size == pre.max_packet_size && post.max_message_size
            == pre.max_message_size && post.max_chunk_size == pre.max_chunk_size
    }

    /// Where one decoded message goes: telemetry overwrites the shared
    /// slot, console and program-flow notifications append to their own
    /// queues, and everything else — failures included — appends to the
    /// generic response queue. No other path changes.
    pub open spec fn spec_routed(
        pre: SpikeConnection,
        post: SpikeConnection,
        m: Result<TxMessage, Error>,
    ) -> bool {
        match m {
            Ok(TxMessage::DeviceNotification(r)) => post.device_notification == Some(r)
                && post.msg_queue@ == pre.msg_queue@ && post.console_queue@ == pre.console_queue@
                && post.program_flow_queue@ == pre.program_flow_queue@,
            Ok(TxMessage::ConsoleNotification(r)) => post.console_queue@
                == pre.console_queue@.push(r) && post.device_notification
                == pre.device_notification && post.msg_queue@ == pre.msg_queue@
                && post.program_flow_queue@ == pre.program_flow_queue@,
            Ok(TxMessage::ProgramFlowNotification(r)) => post.program_flow_queue@
                == pre.program_flow_queue@.push(r) && post.device_notification
                == pre.device_notification && post.msg_queue@ == pre.msg_queue@
                && post.console_queue@ == pre.console_queue@,
            _ => post.msg_queue@ == pre.msg_queue@.push(m) && post.device_notification
                == pre.device_notification && post.console_queue@ == pre.console_queue@
                && post.program_flow_queue@ == pre.program_flow_queue@,
        }
    }

    /// The packet that opens the handshake: an encoded information request.
    pub fn handshake_packet() -> (res: Vec<u8>)
        ensures
            res@ == spec_encode(seq![0x00u8]),
    {
        let bytes = RxMessage::InfoRequest.serialize();
        encode_message(bytes)
    }

    /// Builds the session from the first decoded frame of a fresh
    /// transport. The frame must decode, must parse as the information
    /// response, and must declare product, group and device type zero —
    /// any other declared family is not the expected hub. The negotiated
    /// limits are captured once and never renegotiated.
    pub fn new(first_frame: Vec<u8>) -> (res: Result<SpikeConnection, Error>)
        ensures
            spec_decode(first_frame@) is None ==> res == Err::<SpikeConnection, Error>(
                Error::CorruptedFrame,
            ),
            match spec_decode(first_frame@) {
                None => true,
                Some(payload) => {
                    if payload.len() == 0 {
                        res == Err::<SpikeConnection, Error>(Error::UnexpectedEof)
                    } else if payload[0] == 0x01 {
                        match InfoResponse::spec_parse(payload, 1) {
                            Ok(p) => if p.0.product_group_device_type != 0 {
                                res == Err::<SpikeConnection, Error>(Error::BadDevice)
                            } else {
                                match res {
                                    Ok(c) => c.rpc_version == (
                                        p.0.rpc_major,
                                        p.0.rpc_minor,
                                        p.0.rpc_build,
                                    ) && c.firmware_version == (
                                        p.0.firmware_major,
                                        p.0.firmware_minor,
                                        p.0.firmware_build,
                                    ) && c.max_packet_size == p.0.max_packet_size
                                        && c.max_message_size == p.0.max_msg_size
                                        && c.max_chunk_size == p.0.max_chunk_size
                                        && c.device_notification is None && c.msg_queue@ == Seq::<
                                        Result<TxMessage, Error>,
                                    >::empty() && c.console_queue@ == Seq::<
                                        ConsoleNotification,
                                    >::empty() && c.program_flow_queue@ == Seq::<
                                        ProgramFlowNotification,
                                    >::empty() && c.buffer@ == Seq::<u8>::empty(),
                                    Err(_) => false,
                                }
                            },
                            Err(e) => res == Err::<SpikeConnection, Error>(e),
                        }
                    } else {
                        exists|m: Result<TxMessage, Error>|
                            #[trigger] spec_tx_deserialized(payload, m) && res == (match m {
                                Ok(_) => Err::<SpikeConnection, Error>(Error::WrongMessage),
                                Err(e) => Err::<SpikeConnection, Error>(e),
                            })
                    }
                },
            },
    {
        let payload = match decode_message(first_frame) {
            Ok(p) => p,
            Err(_) => {
                return Err(Error::CorruptedFrame);
            },
        };
        let ghost gpayload = payload@;
        let parsed = TxMessage::deserialize(payload);
        proof {
            assert(spec_tx_deserialized(gpayload, parsed));
        }
        let info = match parsed {
            Ok(TxMessage::InfoResponse(r)) => r,
            Ok(_) => {
                return Err(Error::WrongMessage);
            },
            Err(e) => {
                return Err(e);
            },
        };
        if info.product_group_device_type != 0 {
            return Err(Error::BadDevice);
        }
        Ok(
            SpikeConnection {
                rpc_version: (info.rpc_major, info.rpc_minor, info.rpc_build),
                firmware_version: (info.firmware_major, info.firmware_minor, info.firmware_build),
                max_packet_size: info.max_packet_size,
                max_message_size: info.max_msg_size,
                max_chunk_size: info.max_chunk_size,
                device_notification: None,
                msg_queue: Vec::new(),
                console_queue: Vec::new(),
                program_flow_queue: Vec::new(),
                buffer: Vec::new(),
            },
        )
    }

    /// Returns the protocol version as (major, minor, build).
    pub fn rpc_version(&self) -> (res: (u8, u8, u16))
        ensures
            res == self.rpc_version,
    {
        self.rpc_version
    }

    /// Returns the firmware version as (major, minor, build).
    pub fn firmware_version(&self) -> (res: (u8, u8, u16))
        ensures
            res == self.firmware_version,
    {
        self.firmware_version
    }

    /// Returns the most bytes one transport write may carry.
    pub fn max_packet_size(&self) -> (res: u16)
        ensures
            res == self.max_packet_size,
    {
        self.max_packet_size
    }

    /// Returns the most bytes one serialized message may carry.
    pub fn max_message_size(&self) -> (res: u16)
        ensures
            res == self.max_message_size,
    {
        self.max_message_size
    }

    /// Returns the most bytes one upload chunk may carry.
    pub fn max_chunk_size(&self) -> (res: u16)
        ensures
            res == self.max_chunk_size,
    {
        self.max_chunk_size
    }

    /// Turns one request into the transport packets that carry it: the
    /// request serializes, is rejected when it exceeds the negotiated
    /// message size, is framed, and the frame is split to the negotiated
    /// packet size. The caller writes the packets in order.
    #[verifier::loop_isolation(false)]
    pub fn prepare_message(&self, message: RxMessage) -> (res: Result<Vec<Vec<u8>>, Error>)
        requires
            self.max_packet_size >= 1,
        ensures
            match res {
                Ok(packets) => message.spec_serialize().len() <= self.max_message_size
                    && packets@.map_values(|p: Vec<u8>| p@) == spec_split(
                    spec_encode(message.spec_serialize()),
                    self.max_packet_size as nat,
                ),
                Err(e) => e == Error::OversizedMessage && message.spec_serialize().len()
                    > self.max_message_size,
            },
    {
        let bytes = message.serialize();
        if bytes.len() > self.max_message_size as usize {
            return Err(Error::OversizedMessage);
        }
        let encoded = encode_message(bytes);
        let ghost enc = encoded@;
        let n: usize = self.max_packet_size as usize;
        let mut packets: Vec<Vec<u8>> = Vec::new();
        let mut i: usize = 0;
        proof {
            assert(enc.skip(0) =~= enc);
            assert(packets@.map_values(|p: Vec<u8>| p@) =~= Seq::<Seq<u8>>::empty());
            assert(Seq::<Seq<u8>>::empty() + spec_split(enc, n as nat) =~= spec_split(
                enc,
                n as nat,
            ));
        }
        while i < encoded.len()
            invariant
                i <= encoded@.len(),
                spec_split(enc, n as nat) == packets@.map_values(|p: Vec<u8>| p@) + spec_split(
                    enc.skip(i as int),
                    n as nat,
                ),
            decreases encoded@.len() - i,
        {
            let ghost prev = packets@;
            let end: usize = if encoded.len() - i > n {
                i + n
            } else {
                encoded.len()
            };
            let piece = slice_to_vec(slice_subrange(encoded.as_slice(), i, end));
            packets.push(piece);
            proof {
                let rest = enc.skip(i as int);
                assert(packets@.map_values(|p: Vec<u8>| p@) =~= prev.map_values(|p: Vec<u8>| p@)
                    .push(enc.subrange(i as int, end as int)));
                if enc.len() - i <= n {
                    assert(spec_split(rest, n as nat) == seq![rest]);
                    assert(enc.subrange(i as int, end as int) =~= rest);
                    assert(prev.map_values(|p: Vec<u8>| p@) + seq![rest] =~= packets@.map_values(
                        |p: Vec<u8>| p@,
                    ));
                    assert(enc.skip(end as int) =~= Seq::<u8>::empty());
                    assert(packets@.map_values(|p: Vec<u8>| p@) + spec_split(
                        enc.skip(end as int),
                        n as nat,
                    ) =~= packets@.map_values(|p: Vec<u8>| p@));
                } else {
                    assert(spec_split(rest, n as nat) == seq![rest.take(n as int)] + spec_split(
                        rest.skip(n as int),
                        n as nat,
                    ));
                    assert(rest.take(n as int) =~= enc.subrange(i as int, end as int));
                    assert(rest.skip(n as int) =~= enc.skip(end as int));
                    assert(prev.map_values(|p: Vec<u8>| p@) + (seq![rest.take(n as int)]
                        + spec_split(enc.skip(end as int), n as nat)) =~= packets@.map_values(
                        |p: Vec<u8>| p@,
                    ) + spec_split(enc.skip(end as int), n as nat));
                }
            }
            i = end;
        }
        proof {
            assert(enc.skip(i as int) =~= Seq::<u8>::empty());
            assert(packets@.map_values(|p: Vec<u8>| p@) + spec_split(
                enc.skip(i as int),
                n as nat,
            ) =~= packets@.map_values(|p: Vec<u8>| p@));
        }
        Ok(packets)
    }

    /// Hands the session one raw fragment from the notification stream.
    /// Fragments accumulate in the reassembly buffer; when the buffer ends
    /// in the frame delimiter it is taken as one complete frame, decoded,
    /// parsed and routed, and the buffer is reset. A frame that fails to
    /// decode or parse is delivered as a failed result on the generic
    /// response path, so a waiting caller observes the error.
    pub fn feed_fragment(&mut self, fragment: &[u8])
        ensures
            Self::spec_config_unchanged(*old(self), *final(self)),
            !spec_frame_complete(old(self).buffer@ + fragment@) ==> final(self).buffer@ == old(
                self,
            ).buffer@ + fragment@ && final(self).device_notification == old(
                self,
            ).device_notification && final(self).msg_queue@ == old(self).msg_queue@ && final(self).console_queue@ == old(self).console_queue@ && final(self).program_flow_queue@ == old(
                self,
            ).program_flow_queue@,
            spec_frame_complete(old(self).buffer@ + fragment@) ==> final(self).buffer@ == Seq::<
                u8,
            >::empty(),
            spec_frame_complete(old(self).buffer@ + fragment@) && spec_decode(
                old(self).buffer@ + fragment@,
            ) is None ==> Self::spec_routed(*old(self), *final(self), Err(Error::CorruptedFrame)),
            spec_frame_complete(old(self).buffer@ + fragment@) ==> (match spec_decode(
                old(self).buffer@ + fragment@,
            ) {
                Some(payload) => exists|m: Result<TxMessage, Error>|
                    #[trigger] spec_tx_deserialized(payload, m) && Self::spec_routed(
                        *old(self),
                        *final(self),
                        m,
                    ),
                None => true,
            }),
    {
        self.buffer.extend_from_slice(fragment);
        proof {
            assert forall|i: int| 0 <= i < self.buffer@.len() implies self.buffer@[i] == (old(
                self,
            ).buffer@ + fragment@)[i] by {
                if i >= old(self).buffer@.len() {
                    assert(cloned::<u8>(fragment@[i - old(self).buffer@.len()], self.buffer@[i]));
                }
            }
            assert(self.buffer@ =~= old(self).buffer@ + fragment@);
        }
        let blen = self.buffer.len();
        if blen == 0 {
            return ;
        }
        if self.buffer[blen - 1] != FRAME_DELIMITER {
            return ;
        }
        let ghost whole = self.buffer@;
        let frame = self.buffer.split_off(0);
        proof {
            assert(frame@ =~= whole);
            assert(self.buffer@ =~= Seq::<u8>::empty());
        }
        let ghost gframe = frame@;
        match decode_message(frame) {
            Err(_) => {
                self.msg_queue.push(Err(Error::CorruptedFrame));
                proof {
                    assert(spec_decode(gframe) is None);
                    assert(Self::spec_routed(
                        *old(self),
                        *self,
                        Err::<TxMessage, Error>(Error::CorruptedFrame),
                    ));
                }
            },
            Ok(payload) => {
                let ghost gpayload = payload@;
                let parsed = TxMessage::deserialize(payload);
                let ghost gparsed = parsed;
                proof {
                    assert(spec_tx_deserialized(gpayload, gparsed));
                }
                match parsed {
                    Ok(TxMessage::DeviceNotification(r)) => {
                        self.device_notification = Some(r);
                    },
                    Ok(TxMessage::ConsoleNotification(r)) => {
                        self.console_queue.push(r);
                    },
                    Ok(TxMessage::ProgramFlowNotification(r)) => {
                        self.program_flow_queue.push(r);
                    },
                    m => {
                        self.msg_queue.push(m);
                    },
                }
                proof {
                    assert(Self::spec_routed(*old(self), *self, gparsed));
                    let buf2 = old(self).buffer@ + fragment@;
                    match spec_decode(buf2) {
                        Some(payload2) => {
                            assert(payload2 == gpayload);
                            assert(spec_tx_deserialized(payload2, gparsed));
                            assert(exists|m: Result<TxMessage, Error>|
                                #[trigger] spec_tx_deserialized(payload2, m)
                                    && Self::spec_routed(*old(self), *self, m));
                        },
                        None => {},
                    }
                }
            },
        }
    }

    /// Returns and consumes the oldest unread generic response, or
    /// nothing when none is waiting. Unsolicited notifications never
    /// appear here; they are diverted to their own paths on arrival.
    pub fn try_receive_message(&mut self) -> (res: Option<Result<TxMessage, Error>>)
        ensures
            Self::spec_config_unchanged(*old(self), *final(self)),
            final(self).buffer == old(self).buffer,
            final(self).device_notification == old(self).device_notification,
            final(self).console_queue == old(self).console_queue,
            final(self).program_flow_queue == old(self).program_flow_queue,
            match res {
                Some(m) => old(self).msg_queue@.len() >= 1 && m == old(self).msg_queue@[0]
                    && final(self).msg_queue@ == old(self).msg_queue@.skip(1),
                None => old(self).msg_queue@.len() == 0 && final(self).msg_queue == old(
                    self,
                ).msg_queue,
            },
    {
        if self.msg_queue.len() > 0 {
            let m = self.msg_queue.remove(0);
            proof {
                assert(self.msg_queue@ =~= old(self).msg_queue@.skip(1));
            }
            Some(m)
        } else {
            None
        }
    }

    /// Returns and consumes the oldest unread console notification, or
    /// nothing when none is waiting.
    pub fn try_console_notification(&mut self) -> (res: Option<ConsoleNotification>)
        ensures
            Self::spec_config_unchanged(*old(self), *final(self)),
            final(self).buffer == old(self).buffer,
            final(self).device_notification == old(self).device_notification,
            final(self).msg_queue == old(self).msg_queue,
            final(self).program_flow_queue == old(self).program_flow_queue,
            match res {
                Some(m) => old(self).console_queue@.len() >= 1 && m == old(self).console_queue@[0]
                    && final(self).console_queue@ == old(self).console_queue@.skip(1),
                None => old(self).console_queue@.len() == 0 && final(self).console_queue == old(
                    self,
                ).console_queue,
            },
    {
        if self.console_queue.len() > 0 {
            let m = self.console_queue.remove(0);
            proof {
                assert(self.console_queue@ =~= old(self).console_queue@.skip(1));
            }
            Some(m)
        } else {
            None
        }
    }

    /// Returns and consumes the oldest unread program-flow notification,
    /// or nothing when none is waiting.
    pub fn try_program_flow_notification(&mut self) -> (res: Option<ProgramFlowNotification>)
        ensures
            Self::spec_config_unchanged(*old(self), *final(self)),
            final(self).buffer == old(self).buffer,
            final(self).device_notification == old(self).device_notification,
            final(self).msg_queue == old(self).msg_queue,
            final(self).console_queue == old(self).console_queue,
            match res {
                Some(m) => old(self).program_flow_queue@.len() >= 1 && m == old(
                    self,
                ).program_flow_queue@[0] && final(self).program_flow_queue@ == old(
                    self,
                ).program_flow_queue@.skip(1),
                None => old(self).program_flow_queue@.len() == 0 && final(self).program_flow_queue == old(self).program_flow_queue,
            },
    {
        if self.program_flow_queue.len() > 0 {
            let m = self.program_flow_queue.remove(0);
            proof {
                assert(self.program_flow_queue@ =~= old(self).program_flow_queue@.skip(1));
            }
            Some(m)
        } else {
            None
        }
    }

    /// A look at the latest telemetry bundle, if one has arrived since
    /// telemetry was enabled.
    pub fn try_device_notification(&self) -> (res: Option<&DeviceNotification>)
        ensures
            match (res, self.device_notification) {
                (Some(d), Some(n)) => *d == n,
                (None, None) => true,
                _ => false,
            },
    {
        self.device_notification.as_ref()
    }

    /// Empties the latest-telemetry slot, as disabling telemetry does.
    pub fn clear_device_notification(&mut self)
        ensures
            Self::spec_config_unchanged(*old(self), *final(self)),
            final(self).buffer == old(self).buffer,
            final(self).msg_queue == old(self).msg_queue,
            final(self).console_queue == old(self).console_queue,
            final(self).program_flow_queue == old(self).program_flow_queue,
            final(self).device_notification is None,
    {
        self.device_notification = None;
    }

    /// The rename decision on its correlated response: success when
    /// acknowledged, refusal when not, the wrong message otherwise.
    pub fn handle_set_hub_name_response(message: TxMessage) -> (res: Result<(), Error>)
        ensures
            match message {
                TxMessage::SetHubNameResponse(r) => res == (if r.response_status
                    == ResponseStatus::NotAcknowledged {
                    Err::<(), Error>(Error::NotAcknowledged("SetHubNameRequest", None))
                } else {
                    Ok::<(), Error>(())
                }),
                _ => res == Err::<(), Error>(Error::WrongMessage),
            },
    {
        match message {
            TxMessage::SetHubNameResponse(r) => {
                if r.response_status == ResponseStatus::NotAcknowledged {
                    Err(Error::NotAcknowledged("SetHubNameRequest", None))
                } else {
                    Ok(())
                }
            },
            _ => Err(Error::WrongMessage),
        }
    }

    /// The name-query decision on its correlated response: the carried
    /// name, or the wrong message.
    pub fn handle_get_hub_name_response(message: TxMessage) -> (res: Result<String, Error>)
        ensures
            match message {
                TxMessage::GetHubNameResponse(r) => (match res {
                    Ok(s) => s@ == r.name@,
                    Err(_) => false,
                }),
                _ => res == Err::<String, Error>(Error::WrongMessage),
            },
    {
        match message {
            TxMessage::GetHubNameResponse(r) => Ok(r.name),
            _ => Err(Error::WrongMessage),
        }
    }

    /// The identifier-query decision on its correlated response: the
    /// sixteen identifier bytes, or the wrong message.
    pub fn handle_get_hub_uuid_response(message: TxMessage) -> (res: Result<Vec<u8>, Error>)
        ensures
            match message {
                TxMessage::DeviceUuidResponse(r) => (match res {
                    Ok(u) => u@ == r.uuid@,
                    Err(_) => false,
                }),
                _ => res == Err::<Vec<u8>, Error>(Error::WrongMessage),
            },
    {
        match message {
            TxMessage::DeviceUuidResponse(r) => Ok(r.uuid),
            _ => Err(Error::WrongMessage),
        }
    }

    /// The telemetry-configuration decision on its correlated response,
    /// shared by enabling and disabling.
    pub fn handle_device_notification_response(message: TxMessage) -> (res: Result<(), Error>)
        ensures
            match message {
                TxMessage::DeviceNotificationResponse(r) => res == (if r.response_status
                    == ResponseStatus::NotAcknowledged {
                    Err::<(), Error>(Error::NotAcknowledged("DeviceNotificationRequest", None))
                } else {
                    Ok::<(), Error>(())
                }),
                _ => res == Err::<(), Error>(Error::WrongMessage),
            },
    {
        match message {
            TxMessage::DeviceNotificationResponse(r) => {
                if r.response_status == ResponseStatus::NotAcknowledged {
                    Err(Error::NotAcknowledged("DeviceNotificationRequest", None))
                } else {
                    Ok(())
                }
            },
            _ => Err(Error::WrongMessage),
        }
    }

    /// The program-start decision on its correlated response.
    pub fn handle_program_flow_response(message: TxMessage) -> (res: Result<(), Error>)
        ensures
            match message {
                TxMessage::ProgramFlowResponse(r) => res == (if r.response_status
                    == ResponseStatus::NotAcknowledged {
                    Err::<(), Error>(Error::NotAcknowledged("ProgramFlowRequest", None))
                } else {
                    Ok::<(), Error>(())
                }),
                _ => res == Err::<(), Error>(Error::WrongMessage),
            },
    {
        match message {
            TxMessage::ProgramFlowResponse(r) => {
                if r.response_status == ResponseStatus::NotAcknowledged {
                    Err(Error::NotAcknowledged("ProgramFlowRequest", None))
                } else {
                    Ok(())
                }
            },
            _ => Err(Error::WrongMessage),
        }
    }

    /// The upload-opening decision on its correlated response.
    pub fn handle_start_file_upload_response(message: TxMessage) -> (res: Result<(), Error>)
        ensures
            match message {
                TxMessage::StartFileUploadResponse(r) => res == (if r.response_status
                    == ResponseStatus::NotAcknowledged {
                    Err::<(), Error>(Error::NotAcknowledged("StartFileUploadRequest", None))
                } else {
                    Ok::<(), Error>(())
                }),
                _ => res == Err::<(), Error>(Error::WrongMessage),
            },
    {
        match message {
            TxMessage::StartFileUploadResponse(r) => {
                if r.response_status == ResponseStatus::NotAcknowledged {
                    Err(Error::NotAcknowledged("StartFileUploadRequest", None))
                } else {
                    Ok(())
                }
            },
            _ => Err(Error::WrongMessage),
        }
    }

    /// The slot-clearing decision on its two correlated response frames.
    /// The hub answers this operation with an extra frame before the real
    /// acknowledgement; the first frame is read and discarded unexamined.
    /// Whether the hub genuinely double-acknowledges or this mirrors a
    /// quirk of the protocol is undetermined, so the behaviour is kept as
    /// it stands rather than normalized.
    pub fn handle_clear_slot_response(discarded: TxMessage, second: TxMessage) -> (res: Result<
        (),
        Error,
    >)
        ensures
            match second {
                TxMessage::ClearSlotResponse(r) => res == (if r.response_status
                    == ResponseStatus::NotAcknowledged {
                    Err::<(), Error>(Error::NotAcknowledged("ClearSlotResponse", None))
                } else {
                    Ok::<(), Error>(())
                }),
                _ => res == Err::<(), Error>(Error::WrongMessage),
            },
    {
        let _ = discarded;
        match second {
            TxMessage::ClearSlotResponse(r) => {
                if r.response_status == ResponseStatus::NotAcknowledged {
                    Err(Error::NotAcknowledged("ClearSlotResponse", None))
                } else {
                    Ok(())
                }
            },
            _ => Err(Error::WrongMessage),
        }
    }

    /// Builds the request that opens an upload: the program's name and
    /// slot, and the checksum of the whole zero-padded payload.
    pub fn start_file_upload_request(
        file_name: String,
        program_slot: u8,
        code: &[u8],
    ) -> (req: StartFileUploadRequest)
        ensures
            req.file_name == file_name,
            req.program_slot == program_slot,
            req.crc32 == crc32_chained(CRC_INITIAL, spec_pad4(code@)),
    {
        let crc32 = crate::checksum::crc32_padded(code);
        StartFileUploadRequest { file_name, program_slot, crc32 }
    }
}

/// Console notifications keep their arrival order: routing one and then
/// another appends them, in that order, at the back of the console queue,
/// and a reader that consumes the queue front first sees them in the order
/// they arrived.
pub proof fn lemma_console_notifications_in_order(
    pre: SpikeConnection,
    mid: SpikeConnection,
    post: SpikeConnection,
    m1: ConsoleNotification,
    m2: ConsoleNotification,
)
    requires
        SpikeConnection::spec_routed(pre, mid, Ok(TxMessage::ConsoleNotification(m1))),
        SpikeConnection::spec_routed(mid, post, Ok(TxMessage::ConsoleNotification(m2))),
    ensures
        post.console_queue@ == pre.console_queue@ + seq![m1, m2],
{
    assert(post.console_queue@ =~= pre.console_queue@ + seq![m1, m2]);
}

/// The chunked, checksummed transfer of one payload: yields each
/// transfer-chunk request in order, no chunk larger than the negotiated
/// size, each chunk's checksum seeded with the previous chunk's.
pub struct ChunkTransfer {
    /// The whole payload being transferred.
    pub data: Vec<u8>,
    /// How many bytes have been handed out so far.
    pub offset: usize,
    /// The accumulator seed for the next chunk's checksum.
    pub seed: u32,
    /// Most bytes one chunk may carry.
    pub max_chunk_size: u16,
}

impl ChunkTransfer {
    /// The transfer's internal consistency: the offset stays within the
    /// payload's bounds and the chunk size is usable.
    pub open spec fn wf(self) -> bool {
        self.offset <= self.data@.len() && self.max_chunk_size >= 1
    }

    /// Opens a transfer of `data` in chunks of at most `max_chunk_size`.
    pub fn new(data: Vec<u8>, max_chunk_size: u16) -> (t: ChunkTransfer)
        requires
            max_chunk_size >= 1,
        ensures
            t.data == data,
            t.offset == 0,
            t.seed == CRC_INITIAL,
            t.max_chunk_size == max_chunk_size,
            t.wf(),
    {
        ChunkTransfer { data, offset: 0, seed: CRC_INITIAL, max_chunk_size }
    }

    /// Whether every byte of the payload has been handed out.
    pub fn finished(&self) -> (b: bool)
        ensures
            b == (self.offset >= self.data@.len()),
    {
        self.offset >= self.data.len()
    }

    /// The next chunk to send: the payload bytes from the current offset,
    /// at most the negotiated chunk size of them, together with the
    /// running checksum — this chunk, zero-padded, folded into an
    /// accumulator seeded by the previous chunk's checksum. The new
    /// checksum seeds the next chunk.
    pub fn next_request(&mut self) -> (req: TransferChunkRequest)
        requires
            old(self).wf(),
            old(self).offset < old(self).data@.len(),
        ensures
            final(self).wf(),
            final(self).data == old(self).data,
            final(self).max_chunk_size == old(self).max_chunk_size,
            final(self).offset == (if old(self).offset + old(self).max_chunk_size <= old(
                self,
            ).data@.len() {
                old(self).offset + old(self).max_chunk_size
            } else {
                old(self).data@.len() as int
            }),
            old(self).offset < final(self).offset,
            req.payload@ == old(self).data@.subrange(
                old(self).offset as int,
                final(self).offset as int,
            ),
            req.crc32 == crc32_chained(old(self).seed, spec_pad4(req.payload@)),
            final(self).seed == req.crc32,
    {
        let end: usize = if self.data.len() - self.offset > self.max_chunk_size as usize {
            self.offset + self.max_chunk_size as usize
        } else {
            self.data.len()
        };
        let chunk = slice_to_vec(slice_subrange(self.data.as_slice(), self.offset, end));
        let crc32 = crc32_padded_with_seed(self.seed, chunk.as_slice());
        self.seed = crc32;
        self.offset = end;
        TransferChunkRequest { crc32, payload: chunk }
    }

    /// The decision on one chunk's correlated response; a refusal names
    /// the offset at which the failing chunk started.
    pub fn acknowledge(message: TxMessage, chunk_offset: usize) -> (res: Result<(), Error>)
        ensures
            match message {
                TxMessage::TransferChunkResponse(r) => res == (if r.response_status
                    == ResponseStatus::NotAcknowledged {
                    Err::<(), Error>(
                        Error::NotAcknowledged("TransferChunkRequest", Some(chunk_offset)),
                    )
                } else {
                    Ok::<(), Error>(())
                }),
                _ => res == Err::<(), Error>(Error::WrongMessage),
            },
    {
        match message {
            TxMessage::TransferChunkResponse(r) => {
                if r.response_status == ResponseStatus::NotAcknowledged {
                    Err(Error::NotAcknowledged("TransferChunkRequest", Some(chunk_offset)))
                } else {
                    Ok(())
                }
            },
            _ => Err(Error::WrongMessage),
        }
    }
}

} // verus!

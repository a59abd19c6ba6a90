//! The packet framer: classifies a raw transport buffer by its leading type
//! tag and slices out the fixed header fields of Command, ACL-Data or Event
//! packets. Tags it recognizes but does not decode, and tags it does not
//! recognize at all, yield `Unknown` holding the whole buffer. Any truncated
//! header aborts framing with no result.

use vstd::prelude::*;

use crate::reader::Reader;
use crate::wire::le_u16;

verus! {

pub const COMMAND_PACKET_TYPE: u8 = 0x01;

pub const ACL_DATA_PACKET_TYPE: u8 = 0x02;

pub const SYNCHRONOUS_DATA_PACKET_TYPE: u8 = 0x03;

pub const EVENT_PACKET_TYPE: u8 = 0x04;

pub const ISO_DATA_PACKET_TYPE: u8 = 0x05;

/// A framed transport packet. Every payload borrows from the buffer it was
/// framed out of.
#[derive(Debug)]
pub enum HCIPacket<'p> {
    Command(HCICommandPacket<'p>),
    ACLData(HCIACLDataPacket<'p>),
    Event(HCIEventPacket<'p>),
    Unknown(&'p [u8]),
}

/// A Command packet: a 2-byte opcode, a parameter length and that many
/// parameter bytes.
#[derive(Debug)]
pub struct HCICommandPacket<'p> {
    pub opcode: u16,
    pub len: usize,
    pub parameters: &'p [u8],
}

/// An Event packet: a 1-byte event code, a parameter length and that many
/// parameter bytes.
#[derive(Debug)]
pub struct HCIEventPacket<'p> {
    pub evcode: u8,
    pub len: usize,
    pub parameters: &'p [u8],
}

/// An ACL Data packet: a 12-bit connection handle, two 2-bit flags, a data
/// length and that many data bytes.
#[derive(Debug)]
pub struct HCIACLDataPacket<'p> {
    pub handle: u16,
    pub packet_boundary_flag: u8,
    pub broadcast_flag: u8,
    pub len: usize,
    pub data: &'p [u8],
}

/// The mathematical value of a framed packet, with payloads as byte
/// sequences.
pub enum PacketModel {
    Command { opcode: u16, len: nat, parameters: Seq<u8> },
    ACLData { handle: u16, packet_boundary_flag: u8, broadcast_flag: u8, len: nat, data: Seq<u8> },
    Event { evcode: u8, len: nat, parameters: Seq<u8> },
    Unknown { bytes: Seq<u8> },
}

impl<'p> View for HCICommandPacket<'p> {
    type V = PacketModel;

    open spec fn view(&self) -> PacketModel {
        PacketModel::Command {
            opcode: self.opcode,
            len: self.len as nat,
            parameters: self.parameters@,
        }
    }
}

impl<'p> View for HCIEventPacket<'p> {
    type V = PacketModel;

    open spec fn view(&self) -> PacketModel {
        PacketModel::Event {
            evcode: self.evcode,
            len: self.len as nat,
            parameters: self.parameters@,
        }
    }
}

impl<'p> View for HCIACLDataPacket<'p> {
    type V = PacketModel;

    open spec fn view(&self) -> PacketModel {
        PacketModel::ACLData {
            handle: self.handle,
            packet_boundary_flag: self.packet_boundary_flag,
            broadcast_flag: self.broadcast_flag,
            len: self.len as nat,
            data: self.data@,
        }
    }
}

impl<'p> View for HCIPacket<'p> {
    type V = PacketModel;

    open spec fn view(&self) -> PacketModel {
        match self {
            HCIPacket::Command(p) => p@,
            HCIPacket::ACLData(p) => p@,
            HCIPacket::Event(p) => p@,
            HCIPacket::Unknown(bytes) => PacketModel::Unknown { bytes: bytes@ },
        }
    }
}

/// The connection handle of an ACL header word: its low 12 bits.
pub open spec fn acl_handle(header: u16) -> u16 {
    (header % 0x1000) as u16
}

/// The packet-boundary flag of an ACL header word: bits 2 and 3 of the
/// 4-bit flag nibble that sits above the handle.
pub open spec fn acl_packet_boundary_flag(header: u16) -> u8 {
    ((header / 0x4000) % 4) as u8
}

/// The broadcast flag of an ACL header word: bits 0 and 1 of the 4-bit flag
/// nibble that sits above the handle.
pub open spec fn acl_broadcast_flag(header: u16) -> u8 {
    ((header / 0x1000) % 4) as u8
}

/// What framing a buffer yields: the packet for buffers whose header and
/// declared payload fit, nothing for truncated ones.
pub open spec fn frame(bytes: Seq<u8>) -> Option<PacketModel> {
    if bytes.len() < 1 {
        None
    } else if bytes[0] == COMMAND_PACKET_TYPE {
        if bytes.len() >= 4 && bytes.len() >= 4 + bytes[3] {
            Some(
                PacketModel::Command {
                    opcode: le_u16(bytes.subrange(1, 3)),
                    len: bytes[3] as nat,
                    parameters: bytes.subrange(4, 4 + bytes[3]),
                },
            )
        } else {
            None
        }
    } else if bytes[0] == ACL_DATA_PACKET_TYPE {
        if bytes.len() >= 5 && bytes.len() >= 5 + le_u16(bytes.subrange(3, 5)) {
            Some(
                PacketModel::ACLData {
                    handle: acl_handle(le_u16(bytes.subrange(1, 3))),
                    packet_boundary_flag: acl_packet_boundary_flag(le_u16(bytes.subrange(1, 3))),
                    broadcast_flag: acl_broadcast_flag(le_u16(bytes.subrange(1, 3))),
                    len: le_u16(bytes.subrange(3, 5)) as nat,
                    data: bytes.subrange(5, 5 + le_u16(bytes.subrange(3, 5))),
                },
            )
        } else {
            None
        }
    } else if bytes[0] == EVENT_PACKET_TYPE {
        if bytes.len() >= 3 && bytes.len() >= 3 + bytes[2] {
            Some(
                PacketModel::Event {
                    evcode: bytes[1],
                    len: bytes[2] as nat,
                    parameters: bytes.subrange(3, 3 + bytes[2]),
                },
            )
        } else {
            None
        }
    } else {
        Some(PacketModel::Unknown { bytes })
    }
}

impl<'p> HCIPacket<'p> {
    /// Frames one raw transport buffer: reads the leading type tag, then the
    /// fixed header of the tagged packet kind and its declared payload.
    /// Returns nothing if any header field or the payload is truncated.
    pub fn from_buf(buf: &'p [u8]) -> (r: Option<HCIPacket<'p>>)
        ensures
            match r {
                Some(p) => frame(buf@) == Some(p@),
                None => frame(buf@) is None,
            },
    {
        let mut reader = Reader::new(buf);
        let packet_type = match reader.read_u8() {
            Some(t) => t,
            None => {
                return None;
            },
        };

        if packet_type == COMMAND_PACKET_TYPE {
            let opcode = match reader.read_u16() {
                Some(v) => v,
                None => {
                    return None;
                },
            };
            let len = match reader.read_u8() {
                Some(v) => v as usize,
                None => {
                    return None;
                },
            };
            let data = match reader.read_u8_slice(len) {
                Some(v) => v,
                None => {
                    return None;
                },
            };
            let p = HCICommandPacket::new(opcode, len, data);
            proof {
                assert(p.parameters@ =~= buf@.subrange(4, 4 + buf@[3]));
            }
            Some(HCIPacket::Command(p))
        } else if packet_type == ACL_DATA_PACKET_TYPE {
            let header = match reader.read_u16() {
                Some(v) => v,
                None => {
                    return None;
                },
            };
            let handle = header % 0x1000;
            let flags = (header / 0x1000) as u8;
            let packet_boundary_flag = (flags / 4) % 4;
            let broadcast_flag = flags % 4;
            let len = match reader.read_u16() {
                Some(v) => v as usize,
                None => {
                    return None;
                },
            };
            let data = match reader.read_u8_slice(len) {
                Some(v) => v,
                None => {
                    return None;
                },
            };
            let p = HCIACLDataPacket::new(handle, packet_boundary_flag, broadcast_flag, len, data);
            proof {
                assert(flags == header / 0x1000);
                assert(packet_boundary_flag == acl_packet_boundary_flag(header));
                assert(broadcast_flag == acl_broadcast_flag(header));
                assert(p.data@ =~= buf@.subrange(5, 5 + le_u16(buf@.subrange(3, 5))));
            }
            Some(HCIPacket::ACLData(p))
        } else if packet_type == EVENT_PACKET_TYPE {
            let evcode = match reader.read_u8() {
                Some(v) => v,
                None => {
                    return None;
                },
            };
            let len = match reader.read_u8() {
                Some(v) => v as usize,
                None => {
                    return None;
                },
            };
            let data = match reader.read_u8_slice(len) {
                Some(v) => v,
                None => {
                    return None;
                },
            };
            let p = HCIEventPacket::new(evcode, len, data);
            proof {
                assert(p.parameters@ =~= buf@.subrange(3, 3 + buf@[2]));
            }
            Some(HCIPacket::Event(p))
        } else {
            Some(HCIPacket::Unknown(buf))
        }
    }
}

impl<'p> HCICommandPacket<'p> {
    /// Whether the declared parameter length matches the parameter bytes.
    pub open spec fn wf(&self) -> bool {
        self.len == self.parameters@.len()
    }

    /// A Command packet over the first `len` bytes of `buf`.
    pub fn new(opcode: u16, len: usize, buf: &'p [u8]) -> (r: Self)
        requires
            len <= buf@.len(),
        ensures
            r.opcode == opcode,
            r.len == len,
            r.parameters@ == buf@.subrange(0, len as int),
            r.wf(),
    {
        HCICommandPacket { opcode, len, parameters: &buf[0..len] }
    }
}

impl<'p> HCIEventPacket<'p> {
    /// Whether the declared parameter length matches the parameter bytes.
    pub open spec fn wf(&self) -> bool {
        self.len == self.parameters@.len()
    }

    /// An Event packet over the first `len` bytes of `buf`.
    pub fn new(evcode: u8, len: usize, buf: &'p [u8]) -> (r: Self)
        requires
            len <= buf@.len(),
        ensures
            r.evcode == evcode,
            r.len == len,
            r.parameters@ == buf@.subrange(0, len as int),
            r.wf(),
    {
        HCIEventPacket { evcode, len, parameters: &buf[0..len] }
    }
}

impl<'p> HCIACLDataPacket<'p> {
    /// Whether the declared data length matches the data bytes.
    pub open spec fn wf(&self) -> bool {
        self.len == self.data@.len()
    }

    /// An ACL Data packet over the first `len` bytes of `buf`.
    pub fn new(
        handle: u16,
        packet_boundary_flag: u8,
        broadcast_flag: u8,
        len: usize,
        buf: &'p [u8],
    ) -> (r: Self)
        requires
            len <= buf@.len(),
        ensures
            r.handle == handle,
            r.packet_boundary_flag == packet_boundary_flag,
            r.broadcast_flag == broadcast_flag,
            r.len == len,
            r.data@ == buf@.subrange(0, len as int),
            r.wf(),
    {
        HCIACLDataPacket { handle, packet_boundary_flag, broadcast_flag, len, data: &buf[0..len] }
    }
}

/// Framing recovers exactly what a well-formed Command packet buffer
/// encodes: the buffer `[tag, opcode-low, opcode-high, count]` followed by
/// `count` parameter bytes frames to a Command packet holding that opcode,
/// that count and those bytes.
pub proof fn lemma_command_frame_round_trip(bytes: Seq<u8>, opcode: u16, parameters: Seq<u8>)
    requires
        parameters.len() <= 255,
        bytes.len() == 4 + parameters.len(),
        bytes[0] == COMMAND_PACKET_TYPE,
        bytes[1] == opcode % 0x100,
        bytes[2] == opcode / 0x100,
        bytes[3] == parameters.len(),
        bytes.subrange(4, bytes.len() as int) == parameters,
    ensures
        frame(bytes) == Some(
            PacketModel::Command { opcode, len: parameters.len(), parameters },
        ),
{
    assert(le_u16(bytes.subrange(1, 3)) == opcode) by {
        assert(bytes.subrange(1, 3)[0] == opcode % 0x100);
        assert(bytes.subrange(1, 3)[1] == opcode / 0x100);
    }
    assert(bytes.subrange(4, 4 + bytes[3]) =~= parameters);
}

} // verus!

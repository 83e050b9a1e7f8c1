//! Inter-board packets: their fields, checksum check and decoding, the raw
//! framing on the wire, and the heartbeat payload.
use vstd::prelude::*;
use crate::constants::{packet_type_code, packet_type_of, PacketType, START1, START2};
use crate::crc::{calc_checksum, xor_fold};

verus! {

/// A packet between the boards: a type, eight data bytes and their XOR checksum.
#[derive(Clone, Copy, Debug)]
pub struct UartPacket {
    pub ptype: u8,
    pub data: [u8; 8],
    pub checksum: u8,
}

/// Why a received packet is dropped.
#[derive(Clone, Copy, Debug, PartialEq, Eq, Structural)]
pub enum PacketError {
    BadChecksum,
    UnknownType,
}

/// What a received packet means: its type if the checksum holds and the
/// type is known.
pub open spec fn packet_meaning(p: UartPacket) -> Result<PacketType, PacketError> {
    if xor_fold(p.data@) != p.checksum {
        Err(PacketError::BadChecksum)
    } else {
        match packet_type_of(p.ptype) {
            Some(t) => Ok(t),
            None => Err(PacketError::UnknownType),
        }
    }
}

/// Check a received packet and decode its type.
pub fn process_packet(p: &UartPacket) -> (r: Result<PacketType, PacketError>)
    ensures
        r == packet_meaning(*p),
{
    let sum = calc_checksum(&p.data);
    if sum != p.checksum {
        return Err(PacketError::BadChecksum);
    }
    match PacketType::from_u8(p.ptype) {
        Some(t) => Ok(t),
        None => Err(PacketError::UnknownType),
    }
}

/// Build a packet of the given type, with its checksum.
pub fn make_packet(ptype: u8, data: [u8; 8]) -> (p: UartPacket)
    ensures
        p.ptype == ptype,
        p.data == data,
        p.checksum == xor_fold(data@),
{
    let checksum = calc_checksum(&data);
    UartPacket { ptype, data, checksum }
}

/// A packet built with its checksum is read back as the type it was built with.
pub proof fn lemma_made_packet_dispatches(t: PacketType, data: [u8; 8])
    ensures
        packet_meaning(UartPacket { ptype: packet_type_code(t), data, checksum: xor_fold(data@) }) == Ok::<
            PacketType,
            PacketError,
        >(t),
{
    crate::constants::lemma_packet_type_roundtrip(t);
}

/// The packet in its queued form: type, data, checksum.
pub open spec fn packet_bytes(p: UartPacket) -> [u8; 10] {
    [p.ptype, p.data[0], p.data[1], p.data[2], p.data[3], p.data[4], p.data[5], p.data[6], p.data[7], p.checksum]
}

/// Read a packet from its queued form.
pub fn packet_from_bytes(b: &[u8; 10]) -> (p: UartPacket)
    ensures
        packet_bytes(p) == *b,
{
    let p = UartPacket { ptype: b[0], data: [b[1], b[2], b[3], b[4], b[5], b[6], b[7], b[8]], checksum: b[9] };
    assert(packet_bytes(p) =~= *b);
    p
}

/// Write a packet in its queued form.
pub fn packet_to_bytes(p: &UartPacket) -> (b: [u8; 10])
    ensures
        b == packet_bytes(*p),
{
    let b = [p.ptype, p.data[0], p.data[1], p.data[2], p.data[3], p.data[4], p.data[5], p.data[6], p.data[7], p.checksum];
    assert(b =~= packet_bytes(*p));
    b
}

/// The packet framed for the wire: two start bytes, then its queued form.
pub open spec fn raw_packet_bytes(p: UartPacket) -> [u8; 12] {
    let q = packet_bytes(p);
    [START1, START2, q[0], q[1], q[2], q[3], q[4], q[5], q[6], q[7], q[8], q[9]]
}

/// Frame a packet for the wire.
pub fn write_raw_packet(p: &UartPacket) -> (raw: [u8; 12])
    ensures
        raw == raw_packet_bytes(*p),
{
    let raw = [START1, START2, p.ptype, p.data[0], p.data[1], p.data[2], p.data[3], p.data[4], p.data[5],
        p.data[6], p.data[7], p.checksum];
    assert(raw =~= raw_packet_bytes(*p));
    raw
}

/// The heartbeat payload: firmware version and checksum (little-endian 16
/// bits each), then the active output.
pub open spec fn heartbeat_payload(version: u16, crc16: u16, active_output: u8) -> [u8; 8] {
    [(version % 256) as u8, (version / 256) as u8, (crc16 % 256) as u8, (crc16 / 256) as u8, active_output, 0, 0, 0]
}

/// Build the heartbeat payload.
pub fn build_heartbeat_payload(version: u16, crc16: u16, active_output: u8) -> (d: [u8; 8])
    ensures
        d == heartbeat_payload(version, crc16, active_output),
{
    let d = [(version % 256) as u8, (version / 256) as u8, (crc16 % 256) as u8, (crc16 / 256) as u8, active_output,
        0, 0, 0];
    assert(d =~= heartbeat_payload(version, crc16, active_output));
    d
}

/// The 16-bit little-endian value at the start of a payload.
pub open spec fn payload_u16(data: [u8; 8]) -> u16 {
    (data[0] as int + data[1] as int * 256) as u16
}

/// The version in a heartbeat payload reads back as the version it was built with.
pub proof fn lemma_heartbeat_version_roundtrip(version: u16, crc16: u16, active_output: u8)
    ensures
        payload_u16(heartbeat_payload(version, crc16, active_output)) == version,
{
}


/// Size of the receive ring.
pub const DMA_RX_BUFFER_SIZE: u32 = 1024;

/// How many received bytes lie between the read position and where the
/// receiver writes next, around the ring, kept to the ring's range.
pub open spec fn ptr_delta(current: u32, read: u32, size: u32) -> u32 {
    (if current >= read { (current - read) as u32 } else { size.wrapping_sub(read).wrapping_add(current) }) & 0x3FF
}

/// Count the received bytes not read yet.
pub fn get_ptr_delta(current: u32, read: u32, size: u32) -> (d: u32)
    ensures
        d == ptr_delta(current, read, size),
{
    let delta = if current >= read { current - read } else { size.wrapping_sub(read).wrapping_add(current) };
    delta & 0x3FF
}

} // verus!

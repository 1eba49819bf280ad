use vstd::prelude::*;

use crate::errors::ParseError;
use crate::packet::PacketView;

verus! {

/// Length of the fixed link-layer header. It is consumed only to compute an
/// offset; no field of it is extracted.
pub const LINK_HEADER_LEN: usize = 14;

/// Length of the network-layer base header, and the least number of bytes a
/// read of one of its fields demands past the link header.
pub const NETWORK_HEADER_MIN_LEN: usize = 20;

/// The least buffer length either policy can parse: a link header followed by
/// a network base header.
pub const MIN_PARSE_LEN: usize = LINK_HEADER_LEN + NETWORK_HEADER_MIN_LEN;

/// Offset of the 32-bit source address within the network header.
pub const SOURCE_ADDR_OFFSET: usize = 12;

/// Offset of the 1-byte protocol identifier within the network header.
pub const PROTOCOL_OFFSET: usize = 9;

/// Width of the transport-layer source-port field.
pub const TRANSPORT_PORT_LEN: usize = 2;

/// Protocol identifier of TCP.
pub const PROTO_TCP: u8 = 6;

/// Protocol identifier of UDP.
pub const PROTO_UDP: u8 = 17;

/// The 16-bit value that the two bytes at `off` encode in network byte order
/// (big endian).
pub open spec fn be16_at(b: Seq<u8>, off: int) -> int
    recommends
        0 <= off,
        off + 2 <= b.len(),
{
    0x100 * (b[off] as int) + (b[off + 1] as int)
}

/// The 32-bit value that the four bytes at `off` encode in network byte order
/// (big endian).
pub open spec fn be32_at(b: Seq<u8>, off: int) -> int
    recommends
        0 <= off,
        off + 4 <= b.len(),
{
    0x1000000 * (b[off] as int) + 0x10000 * (b[off + 1] as int) + 0x100 * (b[off + 2] as int)
        + (b[off + 3] as int)
}

/// The network header's own length as its first byte declares it: the low
/// nibble counts 32-bit words.
pub open spec fn network_header_len_of(b: Seq<u8>, cursor: int) -> int
    recommends
        0 <= cursor < b.len(),
{
    4 * ((b[cursor] as int) % 16)
}

/// Whether a protocol identifier names one of the two supported transport
/// protocols.
pub open spec fn is_tcp_or_udp(protocol: u8) -> bool {
    protocol == PROTO_TCP || protocol == PROTO_UDP
}

/// Advances a cursor past the fixed link-layer header. No bounds check is
/// needed beyond what the subsequent read performs.
pub fn skip_link_header(cursor: usize) -> (r: usize)
    requires
        cursor + LINK_HEADER_LEN <= usize::MAX,
    ensures
        r == cursor + LINK_HEADER_LEN,
{
    cursor + LINK_HEADER_LEN
}

/// Reads the network-layer source address at its fixed offset past `cursor`,
/// the start of the network header, converting network byte order to host
/// byte order. Fails with `OutOfBounds` whenever the buffer ends before the
/// network base header does.
pub fn read_source_address(pkt: &PacketView, cursor: usize) -> (r: Result<u32, ParseError>)
    ensures
        r is Ok <==> cursor + NETWORK_HEADER_MIN_LEN <= pkt@.len(),
        r matches Ok(a) ==> a == be32_at(pkt@, cursor + SOURCE_ADDR_OFFSET),
        r matches Err(e) ==> e is OutOfBounds,
{
    let header = pkt.slice(cursor, NETWORK_HEADER_MIN_LEN)?;
    let b0 = header[SOURCE_ADDR_OFFSET];
    let b1 = header[SOURCE_ADDR_OFFSET + 1];
    let b2 = header[SOURCE_ADDR_OFFSET + 2];
    let b3 = header[SOURCE_ADDR_OFFSET + 3];
    Ok((b0 as u32) * 0x1000000 + (b1 as u32) * 0x10000 + (b2 as u32) * 0x100 + (b3 as u32))
}

/// Reads the 1-byte protocol identifier from the network header starting at
/// `cursor`. Fails with `OutOfBounds` whenever the buffer ends before the
/// network base header does.
pub fn read_protocol(pkt: &PacketView, cursor: usize) -> (r: Result<u8, ParseError>)
    ensures
        r is Ok <==> cursor + NETWORK_HEADER_MIN_LEN <= pkt@.len(),
        r matches Ok(p) ==> p == pkt@[cursor + PROTOCOL_OFFSET],
        r matches Err(e) ==> e is OutOfBounds,
{
    let header = pkt.slice(cursor, NETWORK_HEADER_MIN_LEN)?;
    Ok(header[PROTOCOL_OFFSET])
}

/// Reads the network header's declared length from the header starting at
/// `cursor`. Fails with `OutOfBounds` whenever the buffer ends before the
/// network base header does.
pub fn read_header_length(pkt: &PacketView, cursor: usize) -> (r: Result<usize, ParseError>)
    ensures
        r is Ok <==> cursor + NETWORK_HEADER_MIN_LEN <= pkt@.len(),
        r matches Ok(n) ==> n == network_header_len_of(pkt@, cursor as int),
        r matches Err(e) ==> e is OutOfBounds,
{
    let header = pkt.slice(cursor, NETWORK_HEADER_MIN_LEN)?;
    let words = header[0] % 16;
    Ok((words as usize) * 4)
}

/// Dispatches on the transport protocol: for TCP or UDP, reads the 2-byte
/// source-port field at `network_header_length` past `cursor`, the start of
/// the network header, converting network byte order to host byte order; for
/// any other protocol, fails with `UnsupportedProtocol`. Fails with
/// `OutOfBounds` whenever too few bytes remain for the port field.
pub fn read_transport_source_port(
    pkt: &PacketView,
    cursor: usize,
    protocol: u8,
    network_header_length: usize,
) -> (r: Result<u16, ParseError>)
    requires
        cursor + network_header_length + TRANSPORT_PORT_LEN <= usize::MAX,
    ensures
        !is_tcp_or_udp(protocol) ==> (r matches Err(e) && e is UnsupportedProtocol),
        is_tcp_or_udp(protocol) ==> (r is Ok <==> cursor + network_header_length
            + TRANSPORT_PORT_LEN <= pkt@.len()),
        r matches Ok(p) ==> is_tcp_or_udp(protocol) && p == be16_at(
            pkt@,
            cursor + network_header_length,
        ),
        is_tcp_or_udp(protocol) ==> (r matches Err(e) ==> e is OutOfBounds),
{
    if !(protocol == PROTO_TCP || protocol == PROTO_UDP) {
        return Err(ParseError::UnsupportedProtocol);
    }
    let port_bytes = pkt.slice(cursor + network_header_length, TRANSPORT_PORT_LEN)?;
    Ok((port_bytes[0] as u16) * 0x100 + (port_bytes[1] as u16))
}

} // verus!

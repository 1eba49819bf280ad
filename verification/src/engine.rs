use vstd::prelude::*;

use crate::errors::ParseError;
use crate::packet::PacketView;
use crate::parser::LINK_HEADER_LEN;
use crate::parser::PROTOCOL_OFFSET;
use crate::parser::SOURCE_ADDR_OFFSET;
use crate::parser::TRANSPORT_PORT_LEN;
use crate::parser::be16_at;
use crate::parser::be32_at;
use crate::parser::is_tcp_or_udp;
use crate::parser::network_header_len_of;
use crate::parser::read_header_length;
use crate::parser::read_protocol;
use crate::parser::read_source_address;
use crate::parser::read_transport_source_port;
use crate::parser::skip_link_header;
use crate::parser::MIN_PARSE_LEN;
use crate::table::BlocklistTable;

verus! {

/// The caller's code for a permitted packet.
pub const PASS_CODE: u32 = 2;

/// The caller's code for a rejected packet.
pub const DROP_CODE: u32 = 1;

/// The caller's code for an invocation whose parsing or verification failed;
/// the caller maps it to a conservative, no-op disposition.
pub const ABORT_CODE: u32 = 3;

/// The final disposition of one packet.
#[derive(Clone, Copy, Debug, PartialEq, Eq, Structural)]
pub enum Action {
    /// The packet is permitted.
    Pass,
    /// The packet is rejected.
    Drop,
    /// Parsing or verification failed; the caller treats this conservatively.
    Abort,
}

impl Action {
    /// The integer code handed to the hosting environment.
    pub open spec fn spec_code(self) -> u32 {
        match self {
            Action::Pass => PASS_CODE,
            Action::Drop => DROP_CODE,
            Action::Abort => ABORT_CODE,
        }
    }

    /// The integer code handed to the hosting environment.
    pub fn code(&self) -> (code: u32)
        ensures
            code == self.spec_code(),
    {
        match self {
            Action::Pass => PASS_CODE,
            Action::Drop => DROP_CODE,
            Action::Abort => ABORT_CODE,
        }
    }
}

/// Which of the two parsing policies an invocation runs under.
#[derive(Clone, Copy, Debug, PartialEq, Eq, Structural)]
pub enum Policy {
    /// Extracts only the source address and enforces the blocklist; never
    /// reads a transport header, so unknown transport protocols do not fail.
    IpOnly,
    /// Additionally extracts the transport source port, aborting on any
    /// protocol other than TCP or UDP; diagnostic-only: it records the
    /// would-be blocklist verdict but always passes the packet.
    ProtocolAware,
}

/// The transport-layer fields the protocol-aware policy extracts.
#[derive(Clone, Copy, Debug, PartialEq, Eq, Structural)]
pub struct TransportInfo {
    /// The network header's protocol identifier.
    pub protocol: u8,
    /// The transport header's source port, in host byte order.
    pub source_port: u16,
}

/// One structured trace entry per successfully parsed packet: what the
/// invocation returned, what the blocklist said, and which fields were read.
/// Emitting it is best-effort and never on the critical correctness path, so
/// the engine only builds the record; the surrounding service renders it.
#[derive(Clone, Copy, Debug)]
pub struct DecisionRecord {
    /// The action returned to the caller.
    pub action: Action,
    /// The blocklist outcome, recorded for observability. Under the IP-only
    /// policy it is also the action; under the protocol-aware policy the
    /// action is always `Pass`, whatever the verdict.
    pub verdict: Action,
    /// The packet's source address, in host byte order.
    pub source_address: u32,
    /// The transport fields; present under the protocol-aware policy only.
    pub transport: Option<TransportInfo>,
}

/// Whether the buffer reaches past the link header and the network base
/// header, the least a parse demands under either policy.
pub open spec fn header_parse_ok(b: Seq<u8>) -> bool {
    MIN_PARSE_LEN <= b.len()
}

/// The source address a well-formed buffer carries, in host byte order.
pub open spec fn spec_source_address(b: Seq<u8>) -> u32 {
    be32_at(b, LINK_HEADER_LEN + SOURCE_ADDR_OFFSET) as u32
}

/// The protocol identifier a well-formed buffer carries.
pub open spec fn spec_protocol(b: Seq<u8>) -> u8 {
    b[LINK_HEADER_LEN + PROTOCOL_OFFSET]
}

/// The network header's declared length.
pub open spec fn spec_network_header_len(b: Seq<u8>) -> int {
    network_header_len_of(b, LINK_HEADER_LEN as int)
}

/// Where the transport header starts: the declared network-header length past
/// the network header's own start.
pub open spec fn spec_transport_offset(b: Seq<u8>) -> int {
    LINK_HEADER_LEN + spec_network_header_len(b)
}

/// Whether the buffer reaches past the transport source-port field.
pub open spec fn transport_parse_ok(b: Seq<u8>) -> bool {
    spec_transport_offset(b) + TRANSPORT_PORT_LEN <= b.len()
}

/// The transport source port a buffer carries, in host byte order.
pub open spec fn spec_source_port(b: Seq<u8>) -> int {
    be16_at(b, spec_transport_offset(b))
}

/// Whether parsing the buffer succeeds under `policy`: the headers must be
/// long enough, and the protocol-aware policy additionally demands a TCP or
/// UDP packet whose source-port field is within bounds.
pub open spec fn parse_ok(b: Seq<u8>, policy: Policy) -> bool {
    &&& header_parse_ok(b)
    &&& policy is ProtocolAware ==> is_tcp_or_udp(spec_protocol(b)) && transport_parse_ok(b)
}

/// What one invocation returns for the buffer `b` under `policy`, with
/// `blocked` the set of blocklisted source addresses: the whole engine as one
/// function.
pub open spec fn spec_firewall(b: Seq<u8>, blocked: Set<u32>, policy: Policy) -> u32 {
    if !header_parse_ok(b) {
        ABORT_CODE
    } else {
        match policy {
            Policy::IpOnly => if blocked.contains(spec_source_address(b)) {
                DROP_CODE
            } else {
                PASS_CODE
            },
            Policy::ProtocolAware => if !is_tcp_or_udp(spec_protocol(b)) {
                ABORT_CODE
            } else if !transport_parse_ok(b) {
                ABORT_CODE
            } else {
                PASS_CODE
            },
        }
    }
}

/// The stateless decision function: a packet is dropped exactly when its
/// source address is present in the table, else passed.
pub fn decide(table: &BlocklistTable, address: u32) -> (verdict: Action)
    ensures
        verdict is Drop <==> table@.contains(address),
        verdict is Drop || verdict is Pass,
{
    if table.lookup(address) {
        Action::Drop
    } else {
        Action::Pass
    }
}

/// Terminal path of an invocation that cannot proceed: the hosting
/// environment forbids unwinding, so a failure yields the abort code instead.
pub fn panic() -> (code: u32)
    ensures
        code == ABORT_CODE,
{
    Action::Abort.code()
}

/// Parses one packet under `policy`, consults the blocklist, and builds the
/// decision record, or reports the first parse failure. Walks the states
/// link-parsed, network-parsed, optionally transport-parsed, decided; any
/// failure short-circuits out, and no state is revisited.
pub fn try_firewall(pkt: &PacketView, table: &BlocklistTable, policy: Policy) -> (r: Result<
    DecisionRecord,
    ParseError,
>)
    ensures
        r is Ok <==> parse_ok(pkt@, policy),
        r matches Ok(d) ==> {
            &&& d.source_address == spec_source_address(pkt@)
            &&& (d.verdict is Drop <==> table@.contains(spec_source_address(pkt@)))
            &&& (d.verdict is Drop || d.verdict is Pass)
            &&& (policy is IpOnly ==> d.action == d.verdict && d.transport is None)
            &&& (policy is ProtocolAware ==> d.action is Pass && (d.transport matches Some(t)
                && t.protocol == spec_protocol(pkt@) && t.source_port == spec_source_port(pkt@)))
        },
        r matches Err(e) ==> {
            &&& (!header_parse_ok(pkt@) ==> e is OutOfBounds)
            &&& (header_parse_ok(pkt@) && !is_tcp_or_udp(spec_protocol(pkt@))
                ==> e is UnsupportedProtocol)
            &&& (header_parse_ok(pkt@) && is_tcp_or_udp(spec_protocol(pkt@)) ==> e is OutOfBounds)
        },
{
    let cursor = skip_link_header(0);
    let source_address = read_source_address(pkt, cursor)?;
    let verdict = decide(table, source_address);
    match policy {
        Policy::IpOnly => Ok(
            DecisionRecord { action: verdict, verdict, source_address, transport: None },
        ),
        Policy::ProtocolAware => {
            let protocol = read_protocol(pkt, cursor)?;
            let network_header_length = read_header_length(pkt, cursor)?;
            let source_port = read_transport_source_port(
                pkt,
                cursor,
                protocol,
                network_header_length,
            )?;
            Ok(
                DecisionRecord {
                    action: Action::Pass,
                    verdict,
                    source_address,
                    transport: Some(TransportInfo { protocol, source_port }),
                },
            )
        },
    }
}

/// The single entry point: parses and decides under `policy` and returns the
/// action code, converting every internal failure to the abort code at this
/// boundary.
pub fn firewall(pkt: &PacketView, table: &BlocklistTable, policy: Policy) -> (code: u32)
    ensures
        code == spec_firewall(pkt@, table@, policy),
{
    match try_firewall(pkt, table, policy) {
        Ok(decision) => decision.action.code(),
        Err(_) => panic(),
    }
}

/// A packet shorter than the link header and the network base header is
/// aborted, under either policy and whatever the table holds.
pub proof fn lemma_short_packet_aborts(b: Seq<u8>, blocked: Set<u32>, policy: Policy)
    requires
        b.len() < MIN_PARSE_LEN,
    ensures
        spec_firewall(b, blocked, policy) == ABORT_CODE,
{
}

/// Under the IP-only policy a well-formed packet is dropped exactly when its
/// source address is blocklisted, and passed otherwise.
pub proof fn lemma_ip_only_enforces(b: Seq<u8>, blocked: Set<u32>)
    requires
        MIN_PARSE_LEN <= b.len(),
    ensures
        spec_firewall(b, blocked, Policy::IpOnly) == DROP_CODE <==> blocked.contains(
            spec_source_address(b),
        ),
        spec_firewall(b, blocked, Policy::IpOnly) == PASS_CODE <==> !blocked.contains(
            spec_source_address(b),
        ),
{
}

/// The protocol-aware policy is diagnostic-only: a well-formed TCP or UDP
/// packet whose port field is within bounds is passed, whatever the table
/// holds.
pub proof fn lemma_protocol_aware_diagnostic(b: Seq<u8>, blocked: Set<u32>)
    requires
        MIN_PARSE_LEN <= b.len(),
        is_tcp_or_udp(spec_protocol(b)),
        transport_parse_ok(b),
    ensures
        spec_firewall(b, blocked, Policy::ProtocolAware) == PASS_CODE,
{
}

/// Under the protocol-aware policy a packet that is neither TCP nor UDP is
/// aborted, whatever the table holds.
pub proof fn lemma_protocol_aware_rejects_others(b: Seq<u8>, blocked: Set<u32>)
    requires
        MIN_PARSE_LEN <= b.len(),
        !is_tcp_or_udp(spec_protocol(b)),
    ensures
        spec_firewall(b, blocked, Policy::ProtocolAware) == ABORT_CODE,
{
}

} // verus!

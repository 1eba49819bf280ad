use packet_filter::engine::firewall;
use packet_filter::engine::try_firewall;
use packet_filter::engine::Action;
use packet_filter::engine::Policy;
use packet_filter::engine::ABORT_CODE;
use packet_filter::engine::DROP_CODE;
use packet_filter::engine::PASS_CODE;
use packet_filter::errors::ParseError;
use packet_filter::packet::PacketView;
use packet_filter::table::BlocklistTable;

const BLOCKED_SRC: [u8; 4] = [10, 245, 192, 185];
const BLOCKED_ADDR: u32 = 183877817;
const TCP: u8 = 6;
const UDP: u8 = 17;
const ICMP: u8 = 1;

/// A link header of zeros, a 20-byte network header carrying `protocol` and
/// `src`, and a transport header whose source port is `port`.
fn packet(protocol: u8, src: [u8; 4], port: u16) -> Vec<u8> {
    let mut b = vec![0u8; 14];
    let mut ip = vec![0u8; 20];
    ip[0] = 0x45;
    ip[9] = protocol;
    ip[12..16].copy_from_slice(&src);
    b.extend_from_slice(&ip);
    b.push((port >> 8) as u8);
    b.push((port & 0xff) as u8);
    b
}

fn blocklist_with(addr: u32) -> BlocklistTable {
    let mut t = BlocklistTable::with_max_entries(1024);
    assert!(t.insert(addr, 0).is_ok());
    t
}

#[test]
fn blocked_source_dropped_under_ip_only() {
    let b = packet(TCP, BLOCKED_SRC, 80);
    let table = blocklist_with(BLOCKED_ADDR);
    let code = firewall(&PacketView::new(b.as_slice()), &table, Policy::IpOnly);
    assert_eq!(code, DROP_CODE);
}

#[test]
fn empty_table_passes_under_ip_only() {
    let b = packet(TCP, BLOCKED_SRC, 80);
    let table = BlocklistTable::with_max_entries(1024);
    let code = firewall(&PacketView::new(b.as_slice()), &table, Policy::IpOnly);
    assert_eq!(code, PASS_CODE);
}

#[test]
fn truncated_buffer_aborts_under_both_policies() {
    let b = &packet(TCP, BLOCKED_SRC, 80)[..10];
    let table = blocklist_with(BLOCKED_ADDR);
    assert_eq!(firewall(&PacketView::new(b), &table, Policy::IpOnly), ABORT_CODE);
    assert_eq!(firewall(&PacketView::new(b), &table, Policy::ProtocolAware), ABORT_CODE);
}

#[test]
fn empty_buffer_aborts_under_both_policies() {
    let b: [u8; 0] = [];
    let table = BlocklistTable::with_max_entries(8);
    assert_eq!(firewall(&PacketView::new(&b), &table, Policy::IpOnly), ABORT_CODE);
    assert_eq!(firewall(&PacketView::new(&b), &table, Policy::ProtocolAware), ABORT_CODE);
}

#[test]
fn protocol_aware_records_port_and_passes_when_blocked() {
    let b = packet(TCP, BLOCKED_SRC, 443);
    let table = blocklist_with(BLOCKED_ADDR);
    let pkt = PacketView::new(b.as_slice());
    assert_eq!(firewall(&pkt, &table, Policy::ProtocolAware), PASS_CODE);
    let record = try_firewall(&pkt, &table, Policy::ProtocolAware).unwrap();
    assert_eq!(record.action, Action::Pass);
    assert_eq!(record.verdict, Action::Drop);
    assert_eq!(record.source_address, BLOCKED_ADDR);
    let transport = record.transport.unwrap();
    assert_eq!(transport.source_port, 443);
    assert_eq!(transport.protocol, TCP);
}

#[test]
fn protocol_aware_records_port_and_passes_when_absent() {
    let b = packet(UDP, [192, 168, 0, 1], 443);
    let table = blocklist_with(BLOCKED_ADDR);
    let pkt = PacketView::new(b.as_slice());
    assert_eq!(firewall(&pkt, &table, Policy::ProtocolAware), PASS_CODE);
    let record = try_firewall(&pkt, &table, Policy::ProtocolAware).unwrap();
    assert_eq!(record.action, Action::Pass);
    assert_eq!(record.verdict, Action::Pass);
    let transport = record.transport.unwrap();
    assert_eq!(transport.source_port, 443);
    assert_eq!(transport.protocol, UDP);
}

#[test]
fn protocol_aware_aborts_on_unsupported_protocol() {
    let b = packet(ICMP, BLOCKED_SRC, 0);
    let table = BlocklistTable::with_max_entries(8);
    let pkt = PacketView::new(b.as_slice());
    assert_eq!(firewall(&pkt, &table, Policy::ProtocolAware), ABORT_CODE);
    let err = try_firewall(&pkt, &table, Policy::ProtocolAware).unwrap_err();
    assert_eq!(err, ParseError::UnsupportedProtocol);
}

#[test]
fn ip_only_never_reads_the_transport_header() {
    // 34 bytes: headers only. The IP-only policy decides; the protocol-aware
    // policy needs the port field and aborts.
    let b = &packet(TCP, [1, 2, 3, 4], 0)[..34];
    let table = BlocklistTable::with_max_entries(8);
    assert_eq!(firewall(&PacketView::new(b), &table, Policy::IpOnly), PASS_CODE);
    assert_eq!(firewall(&PacketView::new(b), &table, Policy::ProtocolAware), ABORT_CODE);
    let err = try_firewall(&PacketView::new(b), &table, Policy::ProtocolAware).unwrap_err();
    assert_eq!(err, ParseError::OutOfBounds);
}

#[test]
fn ip_only_does_not_fail_on_unknown_transport() {
    let b = packet(ICMP, [1, 2, 3, 4], 0);
    let table = BlocklistTable::with_max_entries(8);
    let record = try_firewall(&PacketView::new(b.as_slice()), &table, Policy::IpOnly).unwrap();
    assert_eq!(record.action, Action::Pass);
    assert_eq!(record.verdict, record.action);
    assert!(record.transport.is_none());
}

#[test]
fn declared_header_length_moves_the_port_field() {
    // A network header declaring 6 words (24 bytes): the port sits at byte 38.
    let mut b = vec![0u8; 14];
    let mut ip = vec![0u8; 24];
    ip[0] = 0x46;
    ip[9] = TCP;
    ip[12..16].copy_from_slice(&[1, 2, 3, 4]);
    b.extend_from_slice(&ip);
    b.push(0x1f);
    b.push(0x90); // port 8080
    let table = BlocklistTable::with_max_entries(8);
    let record = try_firewall(&PacketView::new(b.as_slice()), &table, Policy::ProtocolAware)
        .unwrap();
    assert_eq!(record.transport.unwrap().source_port, 8080);
}

#[test]
fn ip_only_boundary_is_the_network_header_end() {
    let whole = packet(TCP, BLOCKED_SRC, 80);
    let table = blocklist_with(BLOCKED_ADDR);
    // 33 bytes cut the network header short; 34 are enough for IP-only.
    assert_eq!(firewall(&PacketView::new(&whole[..33]), &table, Policy::IpOnly), ABORT_CODE);
    assert_eq!(firewall(&PacketView::new(&whole[..34]), &table, Policy::IpOnly), DROP_CODE);
}

#[test]
fn action_codes_match_the_host_convention() {
    assert_eq!(Action::Pass.code(), 2);
    assert_eq!(Action::Drop.code(), 1);
    assert_eq!(Action::Abort.code(), 3);
    assert_eq!(PASS_CODE, 2);
    assert_eq!(DROP_CODE, 1);
    assert_eq!(ABORT_CODE, 3);
}

use lilap::dhcp::{Dhcp, MIN_REQUEST_LEN, OFFER_LEN};
use lilap::server::ServerState;
use lilap::settings::Settings;
use lilap::wire::{HostAddr, Peer};

fn responder() -> Dhcp {
    Dhcp {
        addr: HostAddr::V4(127, 0, 0, 1),
        port: 67,
        dst_port: 68,
        state: ServerState::labelled("dhcp"),
    }
}

fn discovery(xid: [u8; 4], mac: [u8; 6], len: usize) -> Vec<u8> {
    let mut d = vec![0u8; len];
    d[0] = 1;
    d[1] = 1;
    d[2] = 6;
    d[4..8].copy_from_slice(&xid);
    d[28..34].copy_from_slice(&mac);
    d
}

#[test]
fn offer_has_exact_bytes() {
    let offer = responder().create_dhcp_offer(0xDEADBEEF, &[1, 2, 3, 4, 5, 6]);
    let mut expected = vec![0u8; 240];
    expected[0] = 2;
    expected[1] = 1;
    expected[2] = 6;
    expected[4] = 0xDE;
    expected[5] = 0xAD;
    expected[6] = 0xBE;
    expected[7] = 0xEF;
    expected[28..34].copy_from_slice(&[1, 2, 3, 4, 5, 6]);
    expected.extend_from_slice(&[53, 1, 2, 255]);
    assert_eq!(offer, expected);
    assert_eq!(offer.len(), OFFER_LEN);
}

#[test]
fn parse_reads_big_endian_xid_and_mac() {
    let d = discovery([0x12, 0x34, 0x56, 0x78], [0xAA, 0xBB, 0xCC, 0xDD, 0xEE, 0xFF], 300);
    let parsed = responder().parse_dhcp_request(&d);
    assert_eq!(parsed, Some((0x12345678, vec![0xAA, 0xBB, 0xCC, 0xDD, 0xEE, 0xFF])));
}

#[test]
fn parse_accepts_the_shortest_request() {
    let d = discovery([0, 0, 1, 0x0B], [9, 8, 7, 6, 5, 4], MIN_REQUEST_LEN);
    assert_eq!(responder().parse_dhcp_request(&d), Some((267, vec![9, 8, 7, 6, 5, 4])));
}

#[test]
fn parse_refuses_short_datagrams() {
    let dhcp = responder();
    assert_eq!(dhcp.parse_dhcp_request(&[]), None);
    assert_eq!(dhcp.parse_dhcp_request(&[0u8; 7]), None);
    assert_eq!(dhcp.parse_dhcp_request(&[1u8; 33]), None);
}

#[test]
fn offer_echoes_discovery() {
    let d = discovery([0xCA, 0xFE, 0xBA, 0xBE], [0, 0x1B, 0x44, 0x11, 0x3A, 0xB7], 240);
    let from = Peer { addr: HostAddr::V4(192, 168, 4, 17), port: 40000 };
    let out = responder().respond(&d, from).expect("a reply");
    assert_eq!(&out.payload[4..8], &d[4..8]);
    assert_eq!(&out.payload[28..34], &d[28..34]);
    assert_eq!(&out.payload[240..243], &[53, 1, 2]);
    assert_eq!(*out.payload.last().unwrap(), 255);
    assert_eq!(out.payload.len(), 244);
}

#[test]
fn offer_goes_to_the_client_port() {
    let d = discovery([1, 2, 3, 4], [1, 1, 1, 1, 1, 1], 64);
    let from = Peer { addr: HostAddr::V4(10, 0, 0, 9), port: 51234 };
    let out = responder().respond(&d, from).expect("a reply");
    assert_eq!(out.to, Peer { addr: HostAddr::V4(10, 0, 0, 9), port: 68 });
}

#[test]
fn short_datagram_gets_no_reply() {
    let from = Peer { addr: HostAddr::V4(10, 0, 0, 9), port: 68 };
    assert!(responder().respond(&[0u8; 33], from).is_none());
    assert!(responder().respond(&[], from).is_none());
}

fn settings(pairs: [(&str, &str); 2]) -> Settings {
    Settings {
        inner: confee::conf::Conf::from([
            (pairs[0].0.to_string(), pairs[0].1.to_string()),
            (pairs[1].0.to_string(), pairs[1].1.to_string()),
        ]),
    }
}

#[test]
fn dhcp_is_made_from_settings() {
    let conf = settings([("dhcp_src_port", "67"), ("dhcp_dst_port", "68")]);
    let dhcp = Dhcp::create(&conf, HostAddr::V4(127, 0, 0, 1));
    assert_eq!(dhcp.addr, HostAddr::V4(127, 0, 0, 1));
    assert_eq!(dhcp.port, 67);
    assert_eq!(dhcp.dst_port, 68);
    assert_eq!(dhcp.state.prefix, "dhcp");
}

#[test]
fn dhcp_is_not_made_without_its_ports() {
    let addr = HostAddr::V4(127, 0, 0, 1);
    assert!(Dhcp::try_create(&settings([("dhcp_src_port", "67"), ("other", "68")]), addr).is_none());
    assert!(Dhcp::try_create(&settings([("dhcp_dst_port", "68"), ("other", "67")]), addr).is_none());
    assert!(Dhcp::try_create(&settings([("dhcp_src_port", "67"), ("dhcp_dst_port", "65536")]), addr)
        .is_none());
    assert!(Dhcp::try_create(&settings([("dhcp_src_port", "sixty"), ("dhcp_dst_port", "68")]), addr)
        .is_none());
    assert!(Dhcp::try_create(&settings([("dhcp_src_port", "+67"), ("dhcp_dst_port", "068")]), addr)
        .is_some());
}

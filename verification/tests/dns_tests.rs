use lilap::dns::Dns;
use lilap::server::ServerState;
use lilap::settings::Settings;
use lilap::wire::{HostAddr, Peer};

fn responder(addr: HostAddr) -> Dns {
    Dns { addr, port: 53, state: ServerState::labelled("dns") }
}

fn query() -> Vec<u8> {
    let mut q = vec![0xAB, 0xCD, 0x01, 0x00, 0x00, 0x01, 0x00, 0x00, 0x00, 0x00, 0x00, 0x00];
    q.extend_from_slice(&[7]);
    q.extend_from_slice(b"example");
    q.extend_from_slice(&[3]);
    q.extend_from_slice(b"com");
    q.extend_from_slice(&[0, 0x00, 0x01, 0x00, 0x01]);
    q
}

#[test]
fn response_has_exact_bytes() {
    let q = query();
    let reply = responder(HostAddr::V4(192, 168, 1, 1)).create_response(&q);
    let mut expected = vec![0xAB, 0xCD, 0x81, 0x00, 0x00, 0x01, 0x00, 0x01, 0x00, 0x00, 0x00, 0x00];
    expected.extend_from_slice(&q[12..]);
    expected.extend_from_slice(&[0xC0, 0x0C, 0, 1, 0, 1, 0, 0, 0x01, 0x2C, 0, 4, 192, 168, 1, 1]);
    assert_eq!(reply, expected);
}

#[test]
fn response_in_a_cleared_buffer_stops_at_the_question() {
    let q = query();
    let mut buffer = vec![0u8; 512];
    buffer[..q.len()].copy_from_slice(&q);
    let reply = responder(HostAddr::V4(10, 0, 0, 1)).create_response(&buffer);
    assert_eq!(reply.len(), q.len() + 16);
    assert_eq!(&reply[12..q.len()], &q[12..]);
}

#[test]
fn answer_is_own_address_for_any_name() {
    let dns = responder(HostAddr::V4(172, 16, 0, 254));
    let mut other = query();
    other[13] = b'z';
    let type_at = other.len() - 3;
    other[type_at] = 0x1C;
    for q in [query(), other] {
        let reply = dns.create_response(&q);
        let n = reply.len();
        assert_eq!(&reply[n - 4..], &[172, 16, 0, 254]);
        assert_eq!(&reply[n - 10..n - 6], &[0, 0, 1, 0x2C]);
        assert_eq!(reply[7], 1);
        assert_eq!(&reply[n - 16..n - 14], &[0xC0, 0x0C]);
    }
}

#[test]
fn header_keeps_id_and_sets_response_flag() {
    let mut q = query();
    q[2] = 0x00;
    let reply = responder(HostAddr::V4(1, 2, 3, 4)).create_response(&q);
    assert_eq!(&reply[0..2], &q[0..2]);
    assert_eq!(reply[2], 0x80);
    assert_eq!(reply[2] & 0x80, 0x80);
    assert_eq!(reply[3], 0);
    assert_eq!(reply[11], 0);
    q[2] = 0x7F;
    let reply = responder(HostAddr::V4(1, 2, 3, 4)).create_response(&q);
    assert_eq!(reply[2], 0x81);
}

#[test]
fn header_keeps_high_count_bytes() {
    let mut q = query();
    q[6] = 0x55;
    q[10] = 0x66;
    q[7] = 0x09;
    q[11] = 0x09;
    let reply = responder(HostAddr::V4(1, 2, 3, 4)).create_response(&q);
    assert_eq!(reply[6], 0x55);
    assert_eq!(reply[7], 0x01);
    assert_eq!(reply[10], 0x66);
    assert_eq!(reply[11], 0x00);
}

#[test]
fn query_without_terminator_gets_header_and_answer() {
    let mut q = vec![0x00, 0x2A, 0x01, 0, 0, 1, 0, 0, 0, 0, 0, 0];
    q.extend_from_slice(&[5, b'a', b'b', b'c', b'd', b'e']);
    let reply = responder(HostAddr::V4(9, 9, 9, 9)).create_response(&q);
    assert_eq!(
        reply,
        vec![
            0x00, 0x2A, 0x81, 0, 0, 1, 0, 1, 0, 0, 0, 0, 0xC0, 0x0C, 0, 1, 0, 1, 0, 0, 1, 0x2C, 0,
            4, 9, 9, 9, 9
        ]
    );
}

#[test]
fn query_with_cut_off_question_gets_header_and_answer() {
    let mut q = vec![0x00, 0x2A, 0x00, 0, 0, 1, 0, 0, 0, 0, 0, 0];
    q.extend_from_slice(&[1, b'a', 0, 0, 1, 0]);
    let reply = responder(HostAddr::V4(9, 9, 9, 9)).create_response(&q);
    assert_eq!(reply.len(), 28);
    assert_eq!(&reply[12..14], &[0xC0, 0x0C]);
    q.push(1);
    let reply = responder(HostAddr::V4(9, 9, 9, 9)).create_response(&q);
    assert_eq!(reply.len(), 28 + 7);
    assert_eq!(&reply[12..19], &[1, b'a', 0, 0, 1, 0, 1]);
}

#[test]
fn short_datagram_reads_as_zero_header() {
    let reply = responder(HostAddr::V4(8, 8, 4, 4)).create_response(&[0x12, 0x34, 0x01]);
    assert_eq!(
        reply,
        vec![
            0x12, 0x34, 0x81, 0, 0, 0, 0, 1, 0, 0, 0, 0, 0xC0, 0x0C, 0, 1, 0, 1, 0, 0, 1, 0x2C, 0,
            4, 8, 8, 4, 4
        ]
    );
    let reply = responder(HostAddr::V4(8, 8, 4, 4)).create_response(&[]);
    assert_eq!(&reply[..12], &[0, 0, 0x80, 0, 0, 0, 0, 1, 0, 0, 0, 0]);
}

#[test]
fn address_of_another_family_leaves_no_data() {
    let q = query();
    let reply = responder(HostAddr::V6(1)).create_response(&q);
    assert_eq!(reply.len(), q.len() + 12);
    assert_eq!(&reply[reply.len() - 2..], &[0, 4]);
}

#[test]
fn reply_goes_back_to_the_sender() {
    let from = Peer { addr: HostAddr::V4(192, 168, 4, 2), port: 5353 };
    let dns = responder(HostAddr::V4(192, 168, 4, 1));
    let out = dns.respond(&query(), from);
    assert_eq!(out.to, from);
    assert_eq!(out.payload, dns.create_response(&query()));
}

#[test]
fn dns_is_made_from_settings() {
    let conf = Settings {
        inner: confee::conf::Conf::from([("dns_port".to_string(), "5353".to_string())]),
    };
    let dns = Dns::create(&conf, HostAddr::V4(127, 0, 0, 1));
    assert_eq!(dns.port, 5353);
    assert_eq!(dns.addr, HostAddr::V4(127, 0, 0, 1));
    assert_eq!(dns.state.prefix, "dns");
    let empty = Settings { inner: confee::conf::Conf::from([("x".to_string(), "1".to_string())]) };
    assert!(Dns::try_create(&empty, HostAddr::V4(127, 0, 0, 1)).is_none());
    let bad = Settings {
        inner: confee::conf::Conf::from([("dns_port".to_string(), "-53".to_string())]),
    };
    assert!(Dns::try_create(&bad, HostAddr::V4(127, 0, 0, 1)).is_none());
}

//! The captive DNS responder: whatever name a query asks for, the answer is
//! one address record that points at the service itself.

use crate::server::ServerState;
use crate::settings::{get_port, pairs, port_setting, Settings};
use crate::wire::{be_u32, HostAddr, Outgoing, Peer};
use vstd::prelude::*;

verus! {

/// The length of the header of a DNS message.
pub const HEADER_LEN: usize = 12;

/// The bytes that follow the terminator of the name in a question: its type
/// and its class.
pub const QUESTION_TAIL_LEN: usize = 4;

/// Seconds for which an answer may be kept.
pub const ANSWER_TTL: u32 = 300;

/// Byte `i` of the request. A request that ends before it reads as zero there,
/// as a cleared receive buffer does.
pub open spec fn header_byte(request: Seq<u8>, i: int) -> u8 {
    if 0 <= i < request.len() {
        request[i]
    } else {
        0u8
    }
}

/// The third byte of the answer's header: the response flag, and the request's
/// wish for recursion echoed beside it.
pub open spec fn response_flags(request: Seq<u8>) -> u8 {
    if header_byte(request, 2) & 0x01 != 0 {
        0x81u8
    } else {
        0x80u8
    }
}

/// The header of the answer: that of the request with the flags rewritten, no
/// error code, the low byte of the answer count set to one and the low byte of
/// the additional count cleared.
pub open spec fn response_header(request: Seq<u8>) -> Seq<u8> {
    seq![
        header_byte(request, 0),
        header_byte(request, 1),
        response_flags(request),
        0x00u8,
        header_byte(request, 4),
        header_byte(request, 5),
        header_byte(request, 6),
        0x01u8,
        header_byte(request, 8),
        header_byte(request, 9),
        header_byte(request, 10),
        0x00u8,
    ]
}

/// The index of the first zero byte at or behind `from`, or the length of the
/// sequence where there is none.
pub open spec fn first_zero(bytes: Seq<u8>, from: int) -> int
    decreases bytes.len() - from,
{
    if from >= bytes.len() {
        bytes.len() as int
    } else if bytes[from] == 0 {
        from
    } else {
        first_zero(bytes, from + 1)
    }
}

/// Whether the request holds a whole question: behind the header a name that
/// ends in a zero byte, and behind that byte a type and a class.
pub open spec fn has_question(request: Seq<u8>) -> bool {
    first_zero(request, HEADER_LEN as int) + QUESTION_TAIL_LEN < request.len()
}

/// The question of the request, from the end of the header to the end of the
/// class; empty where the request holds no whole question.
pub open spec fn question(request: Seq<u8>) -> Seq<u8> {
    if has_question(request) {
        request.subrange(
            HEADER_LEN as int,
            first_zero(request, HEADER_LEN as int) + 1 + QUESTION_TAIL_LEN,
        )
    } else {
        Seq::<u8>::empty()
    }
}

/// The data of the answer record: the four octets of an IPv4 address, nothing
/// for an address of another family.
pub open spec fn address_data(addr: HostAddr) -> Seq<u8> {
    match addr {
        HostAddr::V4(a, b, c, d) => seq![a, b, c, d],
        HostAddr::V6(_) => Seq::<u8>::empty(),
    }
}

/// The answer record in front of its data: a pointer to the name at offset 12,
/// type A, class IN, a time to live of 300 seconds and a data length of four.
pub open spec fn answer_fixed() -> Seq<u8> {
    seq![0xC0u8, 0x0Cu8, 0x00u8, 0x01u8, 0x00u8, 0x01u8, 0x00u8, 0x00u8, 0x01u8, 0x2Cu8, 0x00u8, 0x04u8]
}

/// The answer record that points at `addr`.
pub open spec fn answer(addr: HostAddr) -> Seq<u8> {
    answer_fixed() + address_data(addr)
}

/// The whole answer to a request: rewritten header, the question as it came,
/// and one answer record.
pub open spec fn response(request: Seq<u8>, addr: HostAddr) -> Seq<u8> {
    response_header(request) + question(request) + answer(addr)
}

/// The captive DNS responder, as its configuration describes it.
#[derive(Debug)]
pub struct Dns {
    /// The address that the socket is bound to, and that every answer names.
    pub addr: HostAddr,
    /// The port on which queries arrive.
    pub port: u16,
    pub state: ServerState,
}

/// Builds the header of the answer from the request.
fn header_of(request: &[u8]) -> (header: Vec<u8>)
    ensures
        header@ == response_header(request@),
{
    let mut header: Vec<u8> = Vec::new();
    let mut i: usize = 0;
    while i < HEADER_LEN
        invariant
            i <= HEADER_LEN,
            header@ == Seq::new(i as nat, |k: int| header_byte(request@, k)),
        decreases HEADER_LEN - i,
    {
        let b: u8 = if i < request.len() {
            request[i]
        } else {
            0u8
        };
        header.push(b);
        i += 1;
        assert(header@ =~= Seq::new(i as nat, |k: int| header_byte(request@, k)));
    }
    let wants_recursion: bool = request.len() > 2 && (request[2] & 0x01) != 0;
    assert(0u8 & 0x01 == 0) by (bit_vector);
    let flags: u8 = if wants_recursion {
        0x81u8
    } else {
        0x80u8
    };
    header.set(2, flags);
    header.set(3, 0x00u8);
    header.set(7, 0x01u8);
    header.set(11, 0x00u8);
    assert(header@ =~= response_header(request@));
    header
}

/// Finds the end of the question: the index behind its class.
fn question_end(request: &[u8]) -> (end: Option<usize>)
    ensures
        end is Some <==> has_question(request@),
        end matches Some(e) ==> e == first_zero(request@, HEADER_LEN as int) + 1
            + QUESTION_TAIL_LEN && HEADER_LEN < e <= request@.len(),
{
    let mut at: usize = HEADER_LEN;
    while at < request.len() && request[at] != 0
        invariant
            HEADER_LEN <= at,
            first_zero(request@, HEADER_LEN as int) == first_zero(request@, at as int),
        decreases request.len() - at,
    {
        at += 1;
    }
    if at < request.len() && request.len() - at > QUESTION_TAIL_LEN {
        Some(at + 1 + QUESTION_TAIL_LEN)
    } else {
        None
    }
}

/// Appends the answer record that points at `addr`.
fn push_answer(reply: &mut Vec<u8>, addr: HostAddr)
    ensures
        final(reply)@ == old(reply)@ + answer(addr),
{
    reply.push(0xC0u8);
    reply.push(0x0Cu8);
    reply.push(0x00u8);
    reply.push(0x01u8);
    reply.push(0x00u8);
    reply.push(0x01u8);
    reply.push(0x00u8);
    reply.push(0x00u8);
    reply.push(0x01u8);
    reply.push(0x2Cu8);
    reply.push(0x00u8);
    reply.push(0x04u8);
    assert(reply@ =~= old(reply)@ + answer_fixed());
    match addr {
        HostAddr::V4(a, b, c, d) => {
            reply.push(a);
            reply.push(b);
            reply.push(c);
            reply.push(d);
        },
        HostAddr::V6(_) => {},
    }
    assert(reply@ =~= old(reply)@ + answer(addr));
}

impl Dns {
    /// Whether the pairs of a configuration hold what the responder needs: a
    /// port under `dns_port`.
    pub open spec fn configured(p: Map<Seq<char>, Seq<char>>) -> bool {
        port_setting(p, "dns_port"@) is Some
    }

    /// Whether `self` is the responder that the pairs describe, at `addr`.
    pub open spec fn made_from(self, p: Map<Seq<char>, Seq<char>>, addr: HostAddr) -> bool {
        &&& self.addr == addr
        &&& Some(self.port) == port_setting(p, "dns_port"@)
        &&& self.state.prefix@ == "dns"@
    }

    /// Makes the responder from a configuration, or nothing where the
    /// configuration lacks the port or holds one that is no port. `addr` is
    /// the address that the configuration holds under `link_addr`.
    pub fn try_create(conf: &Settings, addr: HostAddr) -> (dns: Option<Self>)
        ensures
            dns is Some <==> Dns::configured(pairs(*conf)),
            dns matches Some(d) ==> d.made_from(pairs(*conf), addr),
    {
        match get_port(conf, "dns_port") {
            Some(p) => Some(Dns { addr, port: p, state: ServerState::labelled("dns") }),
            None => None,
        }
    }

    /// Makes the responder from a configuration that holds what it needs.
    pub fn create(conf: &Settings, addr: HostAddr) -> (dns: Self)
        requires
            Dns::configured(pairs(*conf)),
        ensures
            dns.made_from(pairs(*conf), addr),
    {
        Dns::try_create(conf, addr).unwrap()
    }

    /// Builds the answer to a request. `request` is the receive buffer as the
    /// socket filled it.
    pub fn create_response(&self, request: &[u8]) -> (reply: Vec<u8>)
        ensures
            reply@ == response(request@, self.addr),
    {
        let mut reply: Vec<u8> = header_of(request);
        match question_end(request) {
            Some(end) => {
                let mut q: usize = HEADER_LEN;
                while q < end
                    invariant
                        HEADER_LEN <= q <= end <= request.len(),
                        reply@ == response_header(request@) + request@.subrange(
                            HEADER_LEN as int,
                            q as int,
                        ),
                    decreases end - q,
                {
                    reply.push(request[q]);
                    q += 1;
                    assert(reply@ =~= response_header(request@) + request@.subrange(
                        HEADER_LEN as int,
                        q as int,
                    ));
                }
            },
            None => {
                assert(reply@ =~= response_header(request@) + question(request@));
            },
        }
        push_answer(&mut reply, self.addr);
        reply
    }

    /// Decides what a datagram deserves: always an answer, sent back to where
    /// the datagram came from.
    pub fn respond(&self, request: &[u8], from: Peer) -> (reply: Outgoing)
        ensures
            reply.payload@ == response(request@, self.addr),
            reply.to == from,
    {
        Outgoing { payload: self.create_response(request), to: from }
    }
}

/// Every answer of a service with an IPv4 address ends in one record whose
/// data are the octets of that address and whose time to live spells 300, and
/// the low byte of its answer count is one, whatever the request asked for.
pub proof fn lemma_answer_is_own_address(request: Seq<u8>, a: u8, b: u8, c: u8, d: u8)
    ensures
        ({
            let reply = response(request, HostAddr::V4(a, b, c, d));
            let n = reply.len() as int;
            &&& n >= HEADER_LEN + 16
            &&& reply.subrange(n - 4, n) == seq![a, b, c, d]
            &&& reply.subrange(n - 10, n - 6) == seq![0x00u8, 0x00u8, 0x01u8, 0x2Cu8]
            &&& be_u32(reply.subrange(n - 10, n - 6)) == ANSWER_TTL
            &&& reply[7] == 1
        }),
{
    let reply = response(request, HostAddr::V4(a, b, c, d));
    let n = reply.len() as int;
    assert(reply.subrange(n - 4, n) =~= seq![a, b, c, d]);
    assert(reply.subrange(n - 10, n - 6) =~= seq![0x00u8, 0x00u8, 0x01u8, 0x2Cu8]);
}

/// The header of an answer keeps the transaction id of the request in its
/// first two bytes and has the response flag set in its third.
pub proof fn lemma_header_round_trip(request: Seq<u8>, addr: HostAddr)
    requires
        request.len() >= 2,
    ensures
        ({
            let reply = response(request, addr);
            &&& reply.len() >= HEADER_LEN
            &&& reply.subrange(0, 2) == request.subrange(0, 2)
            &&& reply[2] & 0x80 == 0x80
        }),
{
    let reply = response(request, addr);
    assert(reply.subrange(0, 2) =~= request.subrange(0, 2));
    assert(0x80u8 & 0x80 == 0x80) by (bit_vector);
    assert(0x81u8 & 0x80 == 0x80) by (bit_vector);
}

} // verus!

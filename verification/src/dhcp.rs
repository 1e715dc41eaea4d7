//! The DHCP responder: every datagram long enough to hold a transaction id
//! and a hardware address is taken for a discovery and answered with an offer
//! that echoes both.

use crate::server::ServerState;
use crate::settings::{get_port, pairs, port_setting, Settings};
use crate::wire::{be_bytes, be_u32, read_u32_be, u32_be_bytes, zeros, HostAddr, Outgoing, Peer};
use vstd::prelude::*;
use vstd::slice::slice_subrange;

verus! {

/// The shortest datagram that holds a transaction id and a hardware address.
pub const MIN_REQUEST_LEN: usize = 34;

/// The length of the fixed part of an offer, in front of its options.
pub const OFFER_FIXED_LEN: usize = 240;

/// The length of an offer with its options.
pub const OFFER_LEN: usize = 244;

/// The transaction id of a request: bytes 4 to 8, in network byte order.
pub open spec fn request_xid(datagram: Seq<u8>) -> u32
    recommends
        datagram.len() >= MIN_REQUEST_LEN,
{
    be_u32(datagram.subrange(4, 8)) as u32
}

/// The hardware address of the client: bytes 28 to 34.
pub open spec fn request_mac(datagram: Seq<u8>) -> Seq<u8>
    recommends
        datagram.len() >= MIN_REQUEST_LEN,
{
    datagram.subrange(28, 34)
}

/// The offer for a transaction id and a hardware address of six bytes: a boot
/// reply for Ethernet that echoes both at the offsets of the request, with
/// every other fixed field zero, followed by the option that names the message
/// an offer and by the end option.
pub open spec fn offer(xid: u32, mac: Seq<u8>) -> Seq<u8>
    recommends
        mac.len() == 6,
{
    seq![2u8, 1u8, 6u8, 0u8] + u32_be_bytes(xid) + zeros(20) + mac + zeros(206) + seq![
        53u8,
        1u8,
        2u8,
        255u8,
    ]
}

/// The DHCP responder, as its configuration describes it.
#[derive(Debug)]
pub struct Dhcp {
    /// The address that the socket is bound to.
    pub addr: HostAddr,
    /// The port on which requests arrive.
    pub port: u16,
    /// The port of the client to which offers go.
    pub dst_port: u16,
    pub state: ServerState,
}

impl Dhcp {
    /// Whether the pairs of a configuration hold what the responder needs: a
    /// port under `dhcp_src_port` and one under `dhcp_dst_port`.
    pub open spec fn configured(p: Map<Seq<char>, Seq<char>>) -> bool {
        port_setting(p, "dhcp_src_port"@) is Some && port_setting(p, "dhcp_dst_port"@) is Some
    }

    /// Whether `self` is the responder that the pairs describe, at `addr`.
    pub open spec fn made_from(self, p: Map<Seq<char>, Seq<char>>, addr: HostAddr) -> bool {
        &&& self.addr == addr
        &&& Some(self.port) == port_setting(p, "dhcp_src_port"@)
        &&& Some(self.dst_port) == port_setting(p, "dhcp_dst_port"@)
        &&& self.state.prefix@ == "dhcp"@
    }

    /// Makes the responder from a configuration, or nothing where the
    /// configuration lacks a port or holds one that is no port. `addr` is the
    /// address that the configuration holds under `link_addr`.
    pub fn try_create(conf: &Settings, addr: HostAddr) -> (dhcp: Option<Self>)
        ensures
            dhcp is Some <==> Dhcp::configured(pairs(*conf)),
            dhcp matches Some(d) ==> d.made_from(pairs(*conf), addr),
    {
        let src: u16 = match get_port(conf, "dhcp_src_port") {
            Some(p) => p,
            None => {
                return None;
            },
        };
        let dst: u16 = match get_port(conf, "dhcp_dst_port") {
            Some(p) => p,
            None => {
                return None;
            },
        };
        Some(Dhcp { addr, port: src, dst_port: dst, state: ServerState::labelled("dhcp") })
    }

    /// Makes the responder from a configuration that holds what it needs.
    pub fn create(conf: &Settings, addr: HostAddr) -> (dhcp: Self)
        requires
            Dhcp::configured(pairs(*conf)),
        ensures
            dhcp.made_from(pairs(*conf), addr),
    {
        Dhcp::try_create(conf, addr).unwrap()
    }

    /// Reads the transaction id and the hardware address out of a datagram.
    /// A datagram too short to hold both is refused.
    pub fn parse_dhcp_request(&self, buffer: &[u8]) -> (parsed: Option<(u32, Vec<u8>)>)
        ensures
            parsed is None <==> buffer@.len() < MIN_REQUEST_LEN,
            parsed matches Some((xid, mac)) ==> xid == request_xid(buffer@) && mac@ == request_mac(
                buffer@,
            ),
    {
        if buffer.len() < MIN_REQUEST_LEN {
            return None;
        }
        let xid: u32 = match read_u32_be(slice_subrange(buffer, 4, 8)) {
            Ok(x) => x,
            Err(_) => {
                return None;
            },
        };
        assert(buffer@.subrange(4, 8).subrange(0, 4) =~= buffer@.subrange(4, 8));
        let mac_window: &[u8] = slice_subrange(buffer, 28, 34);
        let mut client_mac: Vec<u8> = Vec::new();
        let mut i: usize = 0;
        while i < 6
            invariant
                i <= 6,
                mac_window@.len() == 6,
                client_mac@ == mac_window@.subrange(0, i as int),
            decreases 6 - i,
        {
            client_mac.push(mac_window[i]);
            i += 1;
            assert(client_mac@ =~= mac_window@.subrange(0, i as int));
        }
        assert(client_mac@ =~= buffer@.subrange(28, 34));
        Some((xid, client_mac))
    }

    /// Builds the offer for a transaction id and a hardware address.
    pub fn create_dhcp_offer(&self, transaction_id: u32, client_mac: &[u8]) -> (response: Vec<u8>)
        requires
            client_mac@.len() == 6,
        ensures
            response@ == offer(transaction_id, client_mac@),
    {
        let mut response: Vec<u8> = Vec::new();
        let mut i: usize = 0;
        while i < OFFER_FIXED_LEN
            invariant
                i <= OFFER_FIXED_LEN,
                response@ == zeros(i as nat),
            decreases OFFER_FIXED_LEN - i,
        {
            response.push(0u8);
            i += 1;
            assert(response@ =~= zeros(i as nat));
        }
        response.set(0, 2u8);
        response.set(1, 1u8);
        response.set(2, 6u8);
        let xid: [u8; 4] = be_bytes(transaction_id);
        let mut j: usize = 0;
        while j < 4
            invariant
                j <= 4,
                xid@ == u32_be_bytes(transaction_id),
                response@ == (seq![2u8, 1u8, 6u8, 0u8] + xid@.subrange(0, j as int) + zeros(
                    (OFFER_FIXED_LEN - 4 - j) as nat,
                )),
            decreases 4 - j,
        {
            response.set(4 + j, xid[j]);
            j += 1;
            assert(response@ =~= seq![2u8, 1u8, 6u8, 0u8] + xid@.subrange(0, j as int) + zeros(
                (OFFER_FIXED_LEN - 4 - j) as nat,
            ));
        }
        let mut k: usize = 0;
        while k < 6
            invariant
                k <= 6,
                client_mac@.len() == 6,
                xid@ == u32_be_bytes(transaction_id),
                response@ == (seq![2u8, 1u8, 6u8, 0u8] + xid@ + zeros(20) + client_mac@.subrange(
                    0,
                    k as int,
                ) + zeros((212 - k) as nat)),
            decreases 6 - k,
        {
            response.set(28 + k, client_mac[k]);
            k += 1;
            assert(response@ =~= seq![2u8, 1u8, 6u8, 0u8] + xid@ + zeros(20)
                + client_mac@.subrange(0, k as int) + zeros((212 - k) as nat));
        }
        response.push(53u8);
        response.push(1u8);
        response.push(2u8);
        response.push(255u8);
        assert(response@ =~= offer(transaction_id, client_mac@));
        response
    }

    /// Decides what a datagram deserves: nothing where it is too short to be
    /// parsed, else an offer, sent to the sender's address but to the client
    /// port of the configuration, not to the port that the datagram came from.
    pub fn respond(&self, datagram: &[u8], from: Peer) -> (reply: Option<Outgoing>)
        ensures
            reply is None <==> datagram@.len() < MIN_REQUEST_LEN,
            reply matches Some(out) ==> out.payload@ == offer(
                request_xid(datagram@),
                request_mac(datagram@),
            ) && out.to == (Peer { addr: from.addr, port: self.dst_port }),
    {
        match self.parse_dhcp_request(datagram) {
            Some((xid, client_mac)) => {
                let payload: Vec<u8> = self.create_dhcp_offer(xid, client_mac.as_slice());
                Some(Outgoing { payload, to: Peer { addr: from.addr, port: self.dst_port } })
            },
            None => None,
        }
    }
}

/// An offer echoes its request: bytes 4 to 8 are those of the datagram that
/// it answers and spell its transaction id, bytes 28 to 34 are its hardware
/// address, the options begin with the three bytes that name the message an
/// offer, and the last byte is the end option.
pub proof fn lemma_offer_echoes_request(datagram: Seq<u8>)
    requires
        datagram.len() >= MIN_REQUEST_LEN,
    ensures
        ({
            let reply = offer(request_xid(datagram), request_mac(datagram));
            &&& reply.len() == OFFER_LEN
            &&& reply.subrange(4, 8) == datagram.subrange(4, 8)
            &&& be_u32(reply.subrange(4, 8)) == request_xid(datagram)
            &&& reply.subrange(28, 34) == datagram.subrange(28, 34)
            &&& reply.subrange(OFFER_FIXED_LEN as int, OFFER_FIXED_LEN + 3) == seq![53u8, 1u8, 2u8]
            &&& reply.last() == 255u8
        }),
{
    let reply = offer(request_xid(datagram), request_mac(datagram));
    crate::wire::lemma_be_bytes_of_value(datagram.subrange(4, 8));
    assert(reply.subrange(4, 8) =~= datagram.subrange(4, 8));
    crate::wire::lemma_be_round_trip(request_xid(datagram));
    assert(reply.subrange(28, 34) =~= datagram.subrange(28, 34));
    assert(reply.subrange(OFFER_FIXED_LEN as int, OFFER_FIXED_LEN + 3) =~= seq![53u8, 1u8, 2u8]);
}

} // verus!

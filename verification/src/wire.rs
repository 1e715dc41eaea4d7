//! Values shared by the datagram services: network addresses and big-endian
//! integers.

use byteorder::{BigEndian, ReadBytesExt};
use vstd::prelude::*;

verus! {

/// The error type of `std::io`, which the readers of `byteorder` return.
#[verifier::external_type_specification]
#[verifier::external_body]
pub struct ExIoError(std::io::Error);

/// An IP address, held as plain numbers.
#[derive(Clone, Copy, Debug, PartialEq, Eq, Structural)]
pub enum HostAddr {
    /// The four octets of an IPv4 address, first octet first.
    V4(u8, u8, u8, u8),
    /// The 128 bits of an IPv6 address, first group in the high bits.
    V6(u128),
}

/// One end of a network conversation: an address and a port.
#[derive(Clone, Copy, Debug, PartialEq, Eq, Structural)]
pub struct Peer {
    pub addr: HostAddr,
    pub port: u16,
}

/// A message that a service wants sent, and where to.
#[derive(Debug)]
pub struct Outgoing {
    pub payload: Vec<u8>,
    pub to: Peer,
}

/// The number that four bytes spell in network byte order.
pub open spec fn be_u32(b: Seq<u8>) -> int
    recommends
        b.len() == 4,
{
    b[0] as int * 0x100_0000 + b[1] as int * 0x1_0000 + b[2] as int * 0x100 + b[3] as int
}

/// The four bytes that spell `x` in network byte order.
pub open spec fn u32_be_bytes(x: u32) -> Seq<u8> {
    seq![
        (x as int / 0x100_0000) as u8,
        (x as int / 0x1_0000 % 0x100) as u8,
        (x as int / 0x100 % 0x100) as u8,
        (x as int % 0x100) as u8,
    ]
}

/// Reading back the bytes of a number gives the number.
pub proof fn lemma_be_round_trip(x: u32)
    ensures
        u32_be_bytes(x).len() == 4,
        be_u32(u32_be_bytes(x)) == x,
{
}

/// The bytes of the number that four bytes spell are those four bytes.
pub proof fn lemma_be_bytes_of_value(b: Seq<u8>)
    requires
        b.len() == 4,
    ensures
        0 <= be_u32(b) <= u32::MAX,
        u32_be_bytes(be_u32(b) as u32) == b,
{
    assert(u32_be_bytes(be_u32(b) as u32) =~= b);
}

/// `n` zero bytes.
pub open spec fn zeros(n: nat) -> Seq<u8> {
    Seq::new(n, |i: int| 0u8)
}

/// Calls `byteorder::ReadBytesExt::read_u32::<BigEndian>` on the byte slice as
/// reader. That function takes four bytes from the reader and hands them to
/// `u32::from_be_bytes`; on a slice of fewer than four bytes the reader's
/// `read_exact` fails and its error is returned.
#[verifier::external_body]
pub(crate) fn read_u32_be(bytes: &[u8]) -> (r: Result<u32, std::io::Error>)
    ensures
        bytes@.len() >= 4 ==> r is Ok && r->Ok_0 == be_u32(bytes@.subrange(0, 4)),
        bytes@.len() < 4 ==> r is Err,
{
    let mut reader: &[u8] = bytes;
    reader.read_u32::<BigEndian>()
}

/// The four bytes of `x` in network byte order.
pub fn be_bytes(x: u32) -> (b: [u8; 4])
    ensures
        b@ == u32_be_bytes(x),
{
    let b0: u8 = (x >> 24) as u8;
    let b1: u8 = ((x >> 16) & 0xff) as u8;
    let b2: u8 = ((x >> 8) & 0xff) as u8;
    let b3: u8 = (x & 0xff) as u8;
    assert(x >> 24 == x / 0x100_0000) by (bit_vector);
    assert((x >> 16) & 0xff == x / 0x1_0000 % 0x100) by (bit_vector);
    assert((x >> 8) & 0xff == x / 0x100 % 0x100) by (bit_vector);
    assert(x & 0xff == x % 0x100) by (bit_vector);
    let b: [u8; 4] = [b0, b1, b2, b3];
    assert(b@ =~= u32_be_bytes(x));
    b
}

} // verus!

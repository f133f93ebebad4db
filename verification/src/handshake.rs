//! The five-byte header that host and radio exchange before every transfer.
//!
//! The host sends a request marker followed by four zero bytes. The radio
//! answers in the same five bytes: a status byte, then how many bytes it will
//! accept and how many it has ready, each as a little-endian 16-bit number.

use vstd::prelude::*;
use crate::Pending;

verus! {

/// Length of the handshake header.
pub const HEADER_LEN: usize = 5;

/// Status byte of a radio that is ready to talk.
pub const READY: u8 = 0x02;

/// First byte of the host's request to write.
pub const WRITE_REQUEST: u8 = 0x0A;

/// First byte of the host's request to read.
pub const READ_REQUEST: u8 = 0x0B;

/// The number that two bytes spell in little-endian order.
pub open spec fn le16(lo: u8, hi: u8) -> int {
    lo as int + 256 * (hi as int)
}

/// Whether the reply's status byte is the ready marker.
pub open spec fn is_ready(reply: Seq<u8>) -> bool {
    reply[0] == READY
}

/// How many bytes the radio will accept, as the reply states it.
pub open spec fn write_capacity(reply: Seq<u8>) -> int {
    le16(reply[1], reply[2])
}

/// How many bytes the radio has ready to send, as the reply states it.
pub open spec fn read_capacity(reply: Seq<u8>) -> int {
    le16(reply[3], reply[4])
}

/// The header a host sends to open a transfer: the request marker, then
/// zeros.
pub open spec fn request(marker: u8) -> Seq<u8> {
    seq![marker, 0u8, 0u8, 0u8, 0u8]
}

/// What a reply means: not ready unless the status byte says so, else the
/// write and read capacities.
pub open spec fn parsed<E>(reply: Seq<u8>) -> Result<(u16, u16), Pending<E>> {
    if is_ready(reply) {
        Ok((write_capacity(reply) as u16, read_capacity(reply) as u16))
    } else {
        Err(Pending::NotReady)
    }
}

/// The header that asks the radio for a chance to write.
pub fn write_request() -> (header: [u8; HEADER_LEN])
    ensures
        header@ == request(WRITE_REQUEST),
{
    let header = [WRITE_REQUEST, 0x00, 0x00, 0x00, 0x00];
    assert(header@ =~= request(WRITE_REQUEST));
    header
}

/// The header that asks the radio for a chance to read.
pub fn read_request() -> (header: [u8; HEADER_LEN])
    ensures
        header@ == request(READ_REQUEST),
{
    let header = [READ_REQUEST, 0x00, 0x00, 0x00, 0x00];
    assert(header@ =~= request(READ_REQUEST));
    header
}

fn le16_of(lo: u8, hi: u8) -> (n: u16)
    ensures
        n == le16(lo, hi),
{
    let n = (hi as u16) << 8 | lo as u16;
    assert(((hi as u16) << 8 | lo as u16) == lo as u16 + 256 * (hi as u16)) by (bit_vector);
    n
}

/// Reads the radio's reply. Any status byte but the ready marker means not
/// ready, whatever the other four bytes hold; a ready reply yields the write
/// capacity and the read capacity.
pub fn parse_spi_header<E>(header: &[u8; HEADER_LEN]) -> (result: Result<
    (u16, u16),
    Pending<E>,
>)
    ensures
        result == parsed::<E>(header@),
        !is_ready(header@) ==> result == Err::<(u16, u16), Pending<E>>(Pending::NotReady),
        is_ready(header@) ==> (result matches Ok((write_len, read_len)) && write_len
            == write_capacity(header@) && read_len == read_capacity(header@)),
{
    if header[0] != READY {
        Err(Pending::NotReady)
    } else {
        Ok((le16_of(header[1], header[2]), le16_of(header[3], header[4])))
    }
}

} // verus!

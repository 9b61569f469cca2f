//! The address-resolution lookup: what is handed to the system's resolution
//! call, and what its answer means.

use vstd::prelude::*;

use crate::abi::{OsError, NO_ERROR};

verus! {

/// The number of bytes of a hardware address that the lookup offers room for.
pub const MAC_ADDRESS_LEN: u32 = 6;

/// The arguments of one resolution call.
#[derive(Clone, Copy, Debug, PartialEq, Eq, Structural)]
pub struct ArpRequest {
    /// The address to resolve: the integer that lies in memory as the
    /// address's four octets, first octet first.
    pub dest_ip: u32,
    /// The address to send from, in the same form.
    pub src_ip: u32,
    /// What the output buffer holds before the call.
    pub mac_addr: u64,
    /// What the length argument holds before the call: the room offered.
    pub mac_addr_len: u32,
}

/// The source address of a lookup: the one given, or the unspecified
/// address when none is given.
pub open spec fn source_or_unspecified(src_ip: Option<[u8; 4]>) -> Seq<u8> {
    match src_ip {
        Some(ip) => ip@,
        None => seq![0u8, 0u8, 0u8, 0u8],
    }
}

/// The integer whose bytes, least significant first, are `octets`.
pub open spec fn little_endian(octets: Seq<u8>) -> int {
    octets[0] + 0x100 * octets[1] + 0x1_0000 * octets[2] + 0x100_0000 * octets[3]
}

/// The integer whose bytes, most significant first, are `octets`.
pub open spec fn big_endian(octets: Seq<u8>) -> int {
    octets[3] + 0x100 * octets[2] + 0x1_0000 * octets[1] + 0x100_0000 * octets[0]
}

/// Whether `ip` is an integer that lies in memory as `octets`, on a machine
/// of either byte order.
pub open spec fn lies_as(ip: u32, octets: Seq<u8>) -> bool {
    ip == little_endian(octets) || ip == big_endian(octets)
}

/// `u32::from_ne_bytes` of std: the integer that the machine stores as
/// `octets`. Which of the two byte orders the machine has is not stated.
#[verifier::external_body]
fn ip_from_octets(octets: [u8; 4]) -> (ip: u32)
    ensures
        lies_as(ip, octets@),
{
    u32::from_ne_bytes(octets)
}

/// What a resolution call returns to the caller of the lookup: on success the
/// buffer as the system left it and the number of its bytes that are valid,
/// on any other status the failure that carries the status.
pub open spec fn reply_of(status: u32, mac_addr: u64, mac_addr_len: u32) -> Result<
    (u64, u32),
    OsError,
> {
    if status == NO_ERROR {
        Ok((mac_addr, mac_addr_len))
    } else {
        Err(OsError { status })
    }
}

/// Prepares the resolution of `dest_ip`, sent from `src_ip` or from the
/// unspecified address.
///
/// The output buffer starts with all bits set and offers room for
/// [`MAC_ADDRESS_LEN`] bytes.
pub fn arp_request(dest_ip: [u8; 4], src_ip: Option<[u8; 4]>) -> (request: ArpRequest)
    ensures
        lies_as(request.dest_ip, dest_ip@),
        lies_as(request.src_ip, source_or_unspecified(src_ip)),
        src_ip is None ==> request.src_ip == 0,
        request.mac_addr == u64::MAX,
        request.mac_addr_len == MAC_ADDRESS_LEN,
{
    let src: [u8; 4] = match src_ip {
        Some(ip) => ip,
        None => [0u8; 4],
    };
    assert(src@ =~= source_or_unspecified(src_ip));
    ArpRequest {
        dest_ip: ip_from_octets(dest_ip),
        src_ip: ip_from_octets(src),
        mac_addr: u64::MAX,
        mac_addr_len: MAC_ADDRESS_LEN,
    }
}

/// Reads the answer of a resolution call that returned `status` and left
/// `mac_addr` in the output buffer and `mac_addr_len` in the length argument.
pub fn arp_reply(status: u32, mac_addr: u64, mac_addr_len: u32) -> (reply: Result<
    (u64, u32),
    OsError,
>)
    ensures
        reply == reply_of(status, mac_addr, mac_addr_len),
{
    if status == NO_ERROR {
        Ok((mac_addr, mac_addr_len))
    } else {
        Err(OsError { status })
    }
}

} // verus!

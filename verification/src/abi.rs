//! The binary contract of the adapter enumeration and address-resolution
//! calls: buffer capacities, status codes and interface type codes.

use vstd::prelude::*;

verus! {

/// Capacity of an adapter description, without its terminator padding.
pub const MAX_ADAPTER_DESCRIPTION_LENGTH: usize = 128;

/// Capacity of an adapter name, without its terminator padding.
pub const MAX_ADAPTER_NAME_LENGTH: usize = 256;

/// Capacity of the hardware address buffer of an adapter record.
pub const MAX_ADAPTER_ADDRESS_LENGTH: usize = 8;

/// Size of the adapter name buffer: the capacity and four bytes of padding.
pub const ADAPTER_NAME_SIZE: usize = MAX_ADAPTER_NAME_LENGTH + 4;

/// Size of the adapter description buffer: the capacity and four bytes of padding.
pub const ADAPTER_DESCRIPTION_SIZE: usize = MAX_ADAPTER_DESCRIPTION_LENGTH + 4;

/// Size of a dotted-decimal address or mask buffer.
pub const IP_ADDRESS_STRING_SIZE: usize = 16;

/// Status of a call that succeeded.
pub const ERROR_SUCCESS: u32 = 0;

/// Status of a call that succeeded.
pub const NO_ERROR: u32 = 0;

/// Status of an enumeration call whose buffer was too small.
pub const ERROR_BUFFER_OVERFLOW: u32 = 111;

/// The value of an enabled boolean field.
pub const TRUE: i32 = 1;

/// Some other type of network interface.
pub const MIB_IF_TYPE_OTHER: u32 = 1;

/// An Ethernet network interface.
pub const MIB_IF_TYPE_ETHERNET: u32 = 6;

/// A token ring network interface.
pub const IF_TYPE_ISO88025_TOKENRING: u32 = 9;

/// A PPP network interface.
pub const MIB_IF_TYPE_PPP: u32 = 23;

/// A software loopback network interface.
pub const MIB_IF_TYPE_LOOPBACK: u32 = 24;

/// A SLIP network interface.
pub const MIB_IF_TYPE_SLIP: u32 = 28;

/// An IEEE 802.11 wireless network interface.
pub const IF_TYPE_IEEE80211: u32 = 71;

/// A failure reported by the operating system, carrying the raw status of
/// the call that failed.
#[derive(Clone, Copy, Debug, PartialEq, Eq, Structural)]
pub struct OsError {
    /// The status as the call returned it.
    pub status: u32,
}

} // verus!

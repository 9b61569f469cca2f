//! Safe, read-only views over the operating system's network adapter table,
//! together with the decisions of the probe-then-fill protocol that obtains
//! it and of the address-resolution lookup.
//!
//! The calls into the operating system are not made here. Their callers
//! report what came back, as plain values, and act on what is decided here.

pub mod abi;
pub mod acquisition;
pub mod arp;
pub mod c_str;
pub mod ip_adapter_info;
pub mod ip_adapter_info_list;
pub mod ip_addr_string;

pub use crate::abi::OsError;
pub use crate::ip_adapter_info::IpAdapterInfo;
pub use crate::ip_adapter_info_list::IpAdapterInfoList;
pub use crate::ip_addr_string::IpAddrString;

use std::time::{Duration, SystemTime};

use iphlpapi::abi::{ERROR_BUFFER_OVERFLOW, ERROR_SUCCESS};
use iphlpapi::acquisition::{outcome, start, step, Action, Event, Outcome, Phase};
use iphlpapi::ip_adapter_info::{AdaperKind, RawAdapterInfo};
use iphlpapi::ip_addr_string::RawAddrString;
use iphlpapi::{IpAdapterInfoList, IpAddrString};

fn buf<const N: usize>(text: &str) -> [u8; N] {
    let mut out = [0u8; N];
    out[..text.len()].copy_from_slice(text.as_bytes());
    out
}

fn addr(address: &str, mask: &str, next: Option<IpAddrString>) -> IpAddrString {
    let raw = RawAddrString { address: buf(address), mask: buf(mask) };
    IpAddrString::new(raw, next).unwrap()
}

fn none() -> IpAddrString {
    addr("", "", None)
}

fn with_lease() -> RawAdapterInfo {
    RawAdapterInfo {
        combo_index: 0,
        adapter_name: buf("{A1B2C3D4-0000-4000-8000-00000000000A}"),
        description: buf("Wireless Network Adapter"),
        address_length: 6,
        address: [0x3c, 0x52, 0x82, 0x10, 0x20, 0x30, 0, 0],
        index: 4,
        kind: 71,
        dhcp_enabled: 1,
        current_ip_address: None,
        ip_address_list: addr(
            "192.168.0.23",
            "255.255.255.0",
            Some(addr("192.168.0.24", "255.255.255.0", None)),
        ),
        gateway_list: addr("192.168.0.1", "255.255.255.255", None),
        dhcp_server: addr("192.168.0.1", "255.255.255.255", None),
        have_wins: 0,
        primary_wins_server: none(),
        secondary_wins_server: none(),
        lease_obtained: 1_700_000_000,
        lease_expires: 1_700_086_400,
    }
}

fn without_dhcp() -> RawAdapterInfo {
    RawAdapterInfo {
        combo_index: 0,
        adapter_name: buf("{A1B2C3D4-0000-4000-8000-00000000000B}"),
        description: buf("Ethernet Adapter"),
        address_length: 6,
        address: [0x00, 0x15, 0x5d, 0x01, 0x02, 0x03, 0, 0],
        index: 9,
        kind: 6,
        dhcp_enabled: 0,
        current_ip_address: None,
        ip_address_list: addr("10.1.2.3", "255.255.0.0", None),
        gateway_list: addr("10.1.0.1", "255.255.255.255", None),
        dhcp_server: addr("10.1.0.2", "255.255.255.255", None),
        have_wins: 0,
        primary_wins_server: none(),
        secondary_wins_server: none(),
        lease_obtained: 1_700_000_000,
        lease_expires: 1_700_086_400,
    }
}

/// Goes through an acquisition as the system would answer it on a machine
/// with two adapters, and hands out the table.
fn get_adapters_info() -> Result<IpAdapterInfoList, iphlpapi::OsError> {
    let (phase, action) = start();
    assert_eq!(action, Action::Probe);
    let (phase, action) = step(
        phase,
        Event::ProbeReturned { status: ERROR_BUFFER_OVERFLOW, size: 1408 },
    );
    assert_eq!(action, Action::Allocate { size: 1408 });
    let (phase, action) = step(phase, Event::Allocated);
    assert_eq!(action, Action::Fill { size: 1408 });
    let (phase, action) = step(phase, Event::FillReturned { status: ERROR_SUCCESS });
    assert_eq!(action, Action::Nothing);
    assert_eq!(phase, Phase::Holding);
    match outcome(phase) {
        Some(Ok(Outcome::Table)) => {
            Ok(IpAdapterInfoList::from_records(vec![with_lease(), without_dhcp()]).unwrap())
        }
        Some(Ok(Outcome::Empty)) => Ok(IpAdapterInfoList::empty()),
        Some(Err(e)) => Err(e),
        None => unreachable!(),
    }
}

fn count(adapters: &IpAdapterInfoList) -> usize {
    let mut n = 0;
    let mut iter = adapters.iter();
    while iter.next().is_some() {
        n += 1;
    }
    n
}

#[test]
fn common() {
    let adapters = get_adapters_info().unwrap();
    println!("Num Adapters: {}", count(&adapters));
    let mut iter = adapters.iter();
    while let Some(adapter) = iter.next() {
        println!("Combo Index: {}", adapter.get_combo_index());
        println!("Adapter Name: {}", String::from_utf8_lossy(adapter.get_name()));
        println!(
            "Description: {}",
            String::from_utf8_lossy(adapter.get_description())
        );
        let mut hardware = String::from("Hardware Address: ");
        let addresses = adapter.get_address();
        for (i, b) in addresses.iter().enumerate() {
            if i == addresses.len() - 1 {
                hardware.push_str(&format!("{:02X}", b));
            } else {
                hardware.push_str(&format!("{:02X}-", b));
            }
        }
        println!("{}", hardware);

        println!("IP Address List: ");
        let mut ips = adapter.get_ip_address_list().iter();
        while let Some(ip) = ips.next() {
            println!("    Ip: {}", String::from_utf8_lossy(ip.get_address()));
            println!("    Mask: {}", String::from_utf8_lossy(ip.get_mask()));
            println!();
        }

        println!("Gateway List: ");
        let mut gateways = adapter.get_gateway_list().iter();
        while let Some(ip) = gateways.next() {
            println!("    Ip: {}", String::from_utf8_lossy(ip.get_address()));
            println!("    Mask: {}", String::from_utf8_lossy(ip.get_mask()));
            println!();
        }

        println!();
    }
}

#[test]
fn adapter_list_debug() {
    let adapters = get_adapters_info().unwrap();
    let shown = format!("{:?}", adapters);
    println!("{}", shown);
    assert!(shown.contains("IpAdapterInfoList"));
}

#[test]
fn get() {
    let list = get_adapters_info().unwrap();
    println!("{:?}", list);
    assert!(!list.is_empty());
}

#[test]
fn two_adapters_one_with_a_lease_and_one_without_dhcp() {
    let adapters = get_adapters_info().unwrap();
    assert!(!adapters.is_empty());
    assert_eq!(count(&adapters), 2);

    let mut iter = adapters.iter();
    let first = iter.next().unwrap();
    let second = iter.next().unwrap();
    assert!(iter.next().is_none());

    assert!(first.get_dhcp_enabled());
    assert_eq!(first.get_kind(), Ok(AdaperKind::IEEE80211));
    assert_eq!(
        first.get_lease_obtained(),
        Some(SystemTime::UNIX_EPOCH + Duration::from_secs(1_700_000_000))
    );
    assert_eq!(
        first.get_lease_expires(),
        Some(SystemTime::UNIX_EPOCH + Duration::from_secs(1_700_086_400))
    );
    assert!(first.get_lease_obtained().unwrap() < first.get_lease_expires().unwrap());
    assert_eq!(
        first.get_dhcp_server().unwrap().get_address(),
        &b"192.168.0.1"[..]
    );
    assert_eq!(first.get_address(), &[0x3c, 0x52, 0x82, 0x10, 0x20, 0x30][..]);

    assert!(!second.get_dhcp_enabled());
    assert_eq!(second.get_kind(), Ok(AdaperKind::Ethernet));
    assert!(second.get_dhcp_server().is_none());
    assert_eq!(second.get_lease_obtained(), None);
    assert_eq!(second.get_lease_expires(), None);
    assert_eq!(second.get_ip_address_list().get_address(), &b"10.1.2.3"[..]);
}

#[test]
fn the_addresses_of_an_adapter_are_walked_in_order() {
    let adapters = get_adapters_info().unwrap();
    let first = adapters.iter().next().unwrap();
    let mut seen = Vec::new();
    let mut ips = first.get_ip_address_list().iter();
    while let Some(ip) = ips.next() {
        seen.push((ip.get_address().to_vec(), ip.get_mask().to_vec()));
    }
    assert_eq!(
        seen,
        vec![
            (b"192.168.0.23".to_vec(), b"255.255.255.0".to_vec()),
            (b"192.168.0.24".to_vec(), b"255.255.255.0".to_vec()),
        ]
    );
}

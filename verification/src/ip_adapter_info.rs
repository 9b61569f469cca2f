//! One network adapter of the table, its kind, and the walk along the chain
//! of adapters.

use std::time::{Duration, SystemTime};

use vstd::prelude::*;
use vstd::slice::slice_subrange;

use crate::abi::{
    ADAPTER_DESCRIPTION_SIZE, ADAPTER_NAME_SIZE, IF_TYPE_IEEE80211, IF_TYPE_ISO88025_TOKENRING,
    MAX_ADAPTER_ADDRESS_LENGTH, MIB_IF_TYPE_ETHERNET, MIB_IF_TYPE_LOOPBACK, MIB_IF_TYPE_OTHER,
    MIB_IF_TYPE_PPP, MIB_IF_TYPE_SLIP, TRUE,
};
use crate::c_str::{is_terminated, len_until_nul, text, until_nul};
use crate::ip_addr_string::{IpAddrString, RecordError};

verus! {

/// The kind of adapter
#[derive(Clone, Copy, Debug, PartialEq, Eq, Structural)]
pub enum AdaperKind {
    /// Some other type of network interface.
    Other,
    /// An Ethernet network interface.
    Ethernet,
    /// A token ring network interface.
    TokenRing,
    /// A PPP network interface.
    Ppp,
    /// A software loopback network interface.
    Loopback,
    /// An ATM network interface.
    Atm,
    /// An IEEE 802.11 wireless network interface.
    IEEE80211,
}

/// The kind that the interface type code `n` stands for, or the code itself
/// where it stands for none.
pub open spec fn kind_of(n: u32) -> Result<AdaperKind, u32> {
    if n == MIB_IF_TYPE_OTHER {
        Ok(AdaperKind::Other)
    } else if n == MIB_IF_TYPE_ETHERNET {
        Ok(AdaperKind::Ethernet)
    } else if n == IF_TYPE_ISO88025_TOKENRING {
        Ok(AdaperKind::TokenRing)
    } else if n == MIB_IF_TYPE_PPP {
        Ok(AdaperKind::Ppp)
    } else if n == MIB_IF_TYPE_LOOPBACK {
        Ok(AdaperKind::Loopback)
    } else if n == MIB_IF_TYPE_SLIP {
        Ok(AdaperKind::Atm)
    } else if n == IF_TYPE_IEEE80211 {
        Ok(AdaperKind::IEEE80211)
    } else {
        Err(n)
    }
}

impl TryFrom<u32> for AdaperKind {
    type Error = u32;

    /// Decodes an interface type code. A code that stands for no kind comes
    /// back as the error.
    fn try_from(n: u32) -> (r: Result<Self, Self::Error>) {
        match n {
            MIB_IF_TYPE_OTHER => Ok(AdaperKind::Other),
            MIB_IF_TYPE_ETHERNET => Ok(AdaperKind::Ethernet),
            IF_TYPE_ISO88025_TOKENRING => Ok(AdaperKind::TokenRing),
            MIB_IF_TYPE_PPP => Ok(AdaperKind::Ppp),
            MIB_IF_TYPE_LOOPBACK => Ok(AdaperKind::Loopback),
            MIB_IF_TYPE_SLIP => Ok(AdaperKind::Atm),
            IF_TYPE_IEEE80211 => Ok(AdaperKind::IEEE80211),
            _ => Err(n),
        }
    }
}

impl vstd::std_specs::convert::TryFromSpecImpl<u32> for AdaperKind {
    open spec fn obeys_try_from_spec() -> bool {
        true
    }

    open spec fn try_from_spec(n: u32) -> Result<Self, Self::Error> {
        kind_of(n)
    }
}

/// `std::time::SystemTime`, a point in time as the platform counts it.
#[verifier::external_type_specification]
#[verifier::external_body]
pub struct ExSystemTime(std::time::SystemTime);

/// The nanoseconds from the Unix epoch to `time`; negative before the epoch.
pub uninterp spec fn unix_nanos(time: SystemTime) -> int;

/// The nanoseconds in a second.
pub const NANOS_PER_SEC: u64 = 1_000_000_000;

/// `SystemTime::checked_add` of std, called on `SystemTime::UNIX_EPOCH` with
/// the `Duration` of `secs` whole seconds. Where it gives a point in time,
/// that point lies exactly `secs` seconds after the epoch. It gives none
/// where the platform cannot represent that point; which points a platform
/// can represent is not stated.
#[verifier::external_body]
fn epoch_checked_add(secs: u64) -> (time: Option<SystemTime>)
    ensures
        time matches Some(t) ==> unix_nanos(t) == secs * NANOS_PER_SEC,
{
    SystemTime::UNIX_EPOCH.checked_add(Duration::from_secs(secs))
}

/// The seconds after the epoch that a raw lease time stands for. A raw time
/// of -1 means that there is no value, and no other negative count is a time.
pub open spec fn lease_seconds_of(time: i64) -> Option<u64> {
    if time >= 0 {
        Some(time as u64)
    } else {
        None
    }
}

/// Decodes a raw lease time to the count of seconds after the epoch that it
/// stands for.
pub fn lease_seconds(time: i64) -> (secs: Option<u64>)
    ensures
        secs == lease_seconds_of(time),
{
    if time == -1 {
        return None;
    }
    match u64::try_from(time) {
        Ok(secs) => Some(secs),
        Err(_) => None,
    }
}

/// Decodes a raw lease time to a point in time.
///
/// A raw time that stands for no count of seconds is absent, and so is one
/// that the platform cannot represent as a point in time.
pub fn time_to_system_time(time: i64) -> (r: Option<SystemTime>)
    ensures
        lease_seconds_of(time) is None ==> r is None,
        r matches Some(t) ==> unix_nanos(t) == time * NANOS_PER_SEC,
{
    match lease_seconds(time) {
        Some(secs) => epoch_checked_add(secs),
        None => None,
    }
}

/// The fields of an adapter record, as the system stored them.
#[derive(Debug)]
pub struct RawAdapterInfo {
    /// Reserved.
    pub combo_index: u32,
    /// The name of the adapter, as text that a zero byte ends.
    pub adapter_name: [u8; ADAPTER_NAME_SIZE],
    /// The description of the adapter, as text that a zero byte ends.
    pub description: [u8; ADAPTER_DESCRIPTION_SIZE],
    /// How many bytes of `address` are the hardware address.
    pub address_length: u32,
    /// The buffer of the hardware address.
    pub address: [u8; MAX_ADAPTER_ADDRESS_LENGTH],
    /// The index of the adapter. It does not outlast a restart.
    pub index: u32,
    /// The interface type code.
    pub kind: u32,
    /// Not zero where DHCP is enabled for the adapter.
    pub dhcp_enabled: u32,
    /// Reserved.
    pub current_ip_address: Option<IpAddrString>,
    /// The addresses of the adapter.
    pub ip_address_list: IpAddrString,
    /// The gateways of the adapter.
    pub gateway_list: IpAddrString,
    /// The DHCP server. It means something only where DHCP is enabled.
    pub dhcp_server: IpAddrString,
    /// `TRUE` where the adapter uses WINS.
    pub have_wins: i32,
    /// The primary WINS server. It means something only where WINS is used.
    pub primary_wins_server: IpAddrString,
    /// The secondary WINS server. It means something only where WINS is used.
    pub secondary_wins_server: IpAddrString,
    /// When the lease was obtained, in seconds after the epoch, or -1.
    pub lease_obtained: i64,
    /// When the lease expires, in seconds after the epoch, or -1.
    pub lease_expires: i64,
}

impl RawAdapterInfo {
    /// What is wrong with the fields, if anything: a hardware address
    /// reported longer than its buffer, or else a name or a description
    /// without a zero byte.
    pub open spec fn defect(self) -> Option<RecordError> {
        if self.address_length > MAX_ADAPTER_ADDRESS_LENGTH {
            Some(RecordError::AddressLength { length: self.address_length })
        } else if !is_terminated(self.adapter_name@) || !is_terminated(self.description@) {
            Some(RecordError::Unterminated)
        } else {
            None
        }
    }

    /// Looks for what is wrong with the fields.
    pub fn validate(&self) -> (r: Result<(), RecordError>)
        ensures
            match r {
                Ok(_) => self.defect() is None,
                Err(e) => self.defect() == Some(e),
            },
    {
        if self.address_length as usize > MAX_ADAPTER_ADDRESS_LENGTH {
            return Err(RecordError::AddressLength { length: self.address_length });
        }
        if len_until_nul(self.adapter_name.as_slice()) >= ADAPTER_NAME_SIZE || len_until_nul(
            self.description.as_slice(),
        ) >= ADAPTER_DESCRIPTION_SIZE {
            return Err(RecordError::Unterminated);
        }
        Ok(())
    }
}

/// The fields of the adapters of `chain`, in order.
pub open spec fn fields_of(chain: Seq<IpAdapterInfo>) -> Seq<RawAdapterInfo> {
    chain.map_values(|adapter: IpAdapterInfo| adapter.raw())
}

/// Whether `index` is the place of the first record of `records` with
/// something wrong, and `e` is what is wrong with it.
pub open spec fn first_defect_at(records: Seq<RawAdapterInfo>, index: int, e: RecordError) -> bool {
    &&& 0 <= index < records.len()
    &&& records[index].defect() == Some(e)
    &&& forall|j: int| 0 <= j < index ==> (#[trigger] records[j]).defect() is None
}

/// Data about a network adapter
#[derive(Debug)]
pub struct IpAdapterInfo {
    raw: RawAdapterInfo,
    next: Option<Box<IpAdapterInfo>>,
}

impl IpAdapterInfo {
    #[verifier::type_invariant]
    spec fn well_formed(self) -> bool {
        self.raw.defect() is None
    }

    /// The fields of the record as they were stored.
    pub closed spec fn raw(&self) -> RawAdapterInfo {
        self.raw
    }

    /// The adapter that follows this one in the table, if there is one.
    pub closed spec fn next_spec(&self) -> Option<IpAdapterInfo> {
        match self.next {
            Some(next) => Some(*next),
            None => None,
        }
    }

    /// The adapters from this one to the end of the table, in order.
    pub open spec fn chain(&self) -> Seq<IpAdapterInfo>
        decreases self,
    {
        match self.next_spec() {
            Some(next) => seq![*self] + next.chain(),
            None => seq![*self],
        }
    }

    /// The adapter reached from this one by following the table `steps`
    /// times, if the table goes that far.
    pub open spec fn nth_next(&self, steps: nat) -> Option<IpAdapterInfo>
        decreases steps,
    {
        if steps == 0 {
            Some(*self)
        } else {
            match self.next_spec() {
                Some(next) => next.nth_next((steps - 1) as nat),
                None => None,
            }
        }
    }

    /// Whether DHCP is enabled for the adapter: its flag is not zero.
    pub open spec fn dhcp_enabled(&self) -> bool {
        self.raw().dhcp_enabled != 0
    }

    /// Whether the adapter uses WINS: its flag is `TRUE`.
    pub open spec fn have_wins(&self) -> bool {
        self.raw().have_wins == TRUE
    }

    /// The DHCP server of the adapter, absent where DHCP is not enabled.
    pub open spec fn dhcp_server(&self) -> Option<IpAddrString> {
        if self.dhcp_enabled() {
            Some(self.raw().dhcp_server)
        } else {
            None
        }
    }

    /// The primary WINS server of the adapter, absent where WINS is not used.
    pub open spec fn primary_wins_server(&self) -> Option<IpAddrString> {
        if self.have_wins() {
            Some(self.raw().primary_wins_server)
        } else {
            None
        }
    }

    /// The secondary WINS server of the adapter, absent where WINS is not used.
    pub open spec fn secondary_wins_server(&self) -> Option<IpAddrString> {
        if self.have_wins() {
            Some(self.raw().secondary_wins_server)
        } else {
            None
        }
    }

    /// When the lease was obtained, in seconds after the epoch: absent where
    /// DHCP is not enabled or the raw time stands for no count of seconds.
    pub open spec fn lease_obtained_seconds(&self) -> Option<u64> {
        if self.dhcp_enabled() {
            lease_seconds_of(self.raw().lease_obtained)
        } else {
            None
        }
    }

    /// When the lease expires, in seconds after the epoch: absent where DHCP
    /// is not enabled or the raw time stands for no count of seconds.
    pub open spec fn lease_expires_seconds(&self) -> Option<u64> {
        if self.dhcp_enabled() {
            lease_seconds_of(self.raw().lease_expires)
        } else {
            None
        }
    }

    /// Makes an adapter record of its fields and the adapters that follow it.
    ///
    /// A reported hardware address length above the capacity of the buffer
    /// is refused, never cut down; so is a name or a description without a
    /// zero byte.
    pub fn new(raw: RawAdapterInfo, next: Option<IpAdapterInfo>) -> (r: Result<
        IpAdapterInfo,
        RecordError,
    >)
        ensures
            match r {
                Ok(adapter) => raw.defect() is None && adapter.raw() == raw && adapter.next_spec()
                    == next,
                Err(e) => raw.defect() == Some(e),
            },
    {
        match raw.validate() {
            Ok(_) => {},
            Err(e) => {
                return Err(e);
            },
        }
        let next: Option<Box<IpAdapterInfo>> = match next {
            Some(adapter) => Some(Box::new(adapter)),
            None => None,
        };
        Ok(IpAdapterInfo { raw, next })
    }

    /// Makes one table of `records`, in their order, and gives its first
    /// adapter; none where there are no records. Where something is wrong
    /// with a record, the first such record decides the error.
    pub fn link(records: Vec<RawAdapterInfo>) -> (r: Result<Option<IpAdapterInfo>, RecordError>)
        ensures
            match r {
                Ok(Some(first)) => records@.len() > 0 && fields_of(first.chain()) == records@,
                Ok(None) => records@.len() == 0,
                Err(e) => exists|i: int| first_defect_at(records@, i, e),
            },
            r is Ok <==> forall|i: int|
                0 <= i < records@.len() ==> (#[trigger] records@[i]).defect() is None,
    {
        let mut checked: usize = 0;
        while checked < records.len()
            invariant
                0 <= checked <= records@.len(),
                forall|j: int| 0 <= j < checked ==> (#[trigger] records@[j]).defect() is None,
            decreases records@.len() - checked,
        {
            match records[checked].validate() {
                Ok(_) => {},
                Err(e) => {
                    assert(first_defect_at(records@, checked as int, e));
                    return Err(e);
                },
            }
            checked = checked + 1;
        }
        let mut stack: Vec<RawAdapterInfo> = records;
        let mut next: Option<IpAdapterInfo> = None;
        while stack.len() > 0
            invariant
                stack@.len() <= records@.len(),
                stack@ == records@.take(stack@.len() as int),
                forall|j: int|
                    0 <= j < records@.len() ==> (#[trigger] records@[j]).defect() is None,
                match next {
                    Some(first) => stack@.len() < records@.len() && fields_of(first.chain())
                        == records@.skip(stack@.len() as int),
                    None => stack@.len() == records@.len(),
                },
            decreases stack@.len(),
        {
            let ghost left = stack@.len() - 1;
            let ghost rest = next;
            let raw: RawAdapterInfo = match stack.pop() {
                Some(raw) => raw,
                None => {
                    return Ok(next);
                },
            };
            assert(raw == records@[left]);
            match IpAdapterInfo::new(raw, next) {
                Ok(adapter) => {
                    proof {
                        lemma_fields_of_chain(adapter);
                        match rest {
                            Some(first) => {
                                assert(records@.skip(left) =~= seq![raw] + records@.skip(left + 1));
                            },
                            None => {
                                assert(records@.skip(left) =~= seq![raw]);
                            },
                        }
                        assert(stack@ =~= records@.take(left));
                    }
                    next = Some(adapter);
                },
                Err(e) => {
                    return Err(e);
                },
            }
        }
        proof {
            if next is Some {
                assert(records@.skip(0) =~= records@);
            }
        }
        Ok(next)
    }

    /// Try to get the next adapter in this linked list.
    pub fn next(&self) -> (r: Option<&Self>)
        ensures
            match r {
                Some(next) => self.next_spec() == Some(*next),
                None => self.next_spec() is None,
            },
    {
        match &self.next {
            Some(next) => Some(&**next),
            None => None,
        }
    }

    /// Iterate over the remaining data in this linked list
    pub fn iter(&self) -> (iter: Iter<'_>)
        ensures
            iter@ == self.chain(),
    {
        Iter::new(Some(self))
    }

    /// Get the combo index. This is reserved.
    pub fn get_combo_index(&self) -> (r: u32)
        ensures
            r == self.raw().combo_index,
    {
        self.raw.combo_index
    }

    /// The GUID name of the adapter
    pub fn get_name(&self) -> (r: &[u8])
        ensures
            r@ == text(self.raw().adapter_name@),
            is_terminated(self.raw().adapter_name@),
    {
        proof {
            use_type_invariant(self);
        }
        until_nul(self.raw.adapter_name.as_slice())
    }

    /// The "friendly" name of the adapter
    pub fn get_description(&self) -> (r: &[u8])
        ensures
            r@ == text(self.raw().description@),
            is_terminated(self.raw().description@),
    {
        proof {
            use_type_invariant(self);
        }
        until_nul(self.raw.description.as_slice())
    }

    /// The Hardware Address
    pub fn get_address(&self) -> (r: &[u8])
        ensures
            r@.len() == self.raw().address_length,
            r@.len() <= MAX_ADAPTER_ADDRESS_LENGTH,
            r@ == self.raw().address@.take(self.raw().address_length as int),
    {
        proof {
            use_type_invariant(self);
        }
        let length: usize = self.raw.address_length as usize;
        slice_subrange(self.raw.address.as_slice(), 0, length)
    }

    /// The index. This is not persistent.
    pub fn get_index(&self) -> (r: u32)
        ensures
            r == self.raw().index,
    {
        self.raw.index
    }

    /// Get the adapter kind.
    pub fn get_kind(&self) -> (r: Result<AdaperKind, u32>)
        ensures
            r == kind_of(self.raw().kind),
    {
        AdaperKind::try_from(self.raw.kind)
    }

    /// Check if dhcp is enabled for this adapter
    pub fn get_dhcp_enabled(&self) -> (r: bool)
        ensures
            r == self.dhcp_enabled(),
    {
        self.raw.dhcp_enabled != 0
    }

    /// Reserved.
    pub fn get_current_ip_address(&self) -> (r: Option<&IpAddrString>)
        ensures
            match r {
                Some(record) => self.raw().current_ip_address == Some(*record),
                None => self.raw().current_ip_address is None,
            },
    {
        self.raw.current_ip_address.as_ref()
    }

    /// A linked list of ip addresses associated with this adapter
    pub fn get_ip_address_list(&self) -> (r: &IpAddrString)
        ensures
            *r == self.raw().ip_address_list,
    {
        &self.raw.ip_address_list
    }

    /// A linked list of gateways associated with this adapter
    pub fn get_gateway_list(&self) -> (r: &IpAddrString)
        ensures
            *r == self.raw().gateway_list,
    {
        &self.raw.gateway_list
    }

    /// Get the addr of the dhcp server.
    pub fn get_dhcp_server(&self) -> (r: Option<&IpAddrString>)
        ensures
            match r {
                Some(record) => self.dhcp_server() == Some(*record),
                None => self.dhcp_server() is None,
            },
    {
        if !self.get_dhcp_enabled() {
            return None;
        }
        Some(&self.raw.dhcp_server)
    }

    /// Checks whether WINS is enabled
    pub fn get_have_wins(&self) -> (r: bool)
        ensures
            r == self.have_wins(),
    {
        self.raw.have_wins == TRUE
    }

    /// Get the primary wins server.
    pub fn get_primary_wins_server(&self) -> (r: Option<&IpAddrString>)
        ensures
            match r {
                Some(record) => self.primary_wins_server() == Some(*record),
                None => self.primary_wins_server() is None,
            },
    {
        if !self.get_have_wins() {
            return None;
        }
        Some(&self.raw.primary_wins_server)
    }

    /// Get the secondary wins server.
    pub fn get_secondary_wins_server(&self) -> (r: Option<&IpAddrString>)
        ensures
            match r {
                Some(record) => self.secondary_wins_server() == Some(*record),
                None => self.secondary_wins_server() is None,
            },
    {
        if !self.get_have_wins() {
            return None;
        }
        Some(&self.raw.secondary_wins_server)
    }

    /// Get the time the DHCP lease was obtained.
    pub fn get_lease_obtained(&self) -> (r: Option<SystemTime>)
        ensures
            self.lease_obtained_seconds() is None ==> r is None,
            r matches Some(t) ==> self.lease_obtained_seconds() matches Some(secs)
                && unix_nanos(t) == secs * NANOS_PER_SEC,
    {
        if !self.get_dhcp_enabled() {
            return None;
        }
        time_to_system_time(self.raw.lease_obtained)
    }

    /// Get the time the DHCP lease expires.
    pub fn get_lease_expires(&self) -> (r: Option<SystemTime>)
        ensures
            self.lease_expires_seconds() is None ==> r is None,
            r matches Some(t) ==> self.lease_expires_seconds() matches Some(secs)
                && unix_nanos(t) == secs * NANOS_PER_SEC,
    {
        if !self.get_dhcp_enabled() {
            return None;
        }
        time_to_system_time(self.raw.lease_expires)
    }
}

/// The fields of a chain are the fields of its first adapter and then those
/// of the chain that follows it.
pub proof fn lemma_fields_of_chain(adapter: IpAdapterInfo)
    ensures
        fields_of(adapter.chain()) == match adapter.next_spec() {
            Some(next) => seq![adapter.raw()] + fields_of(next.chain()),
            None => seq![adapter.raw()],
        },
{
    match adapter.next_spec() {
        Some(next) => {
            assert(fields_of(adapter.chain()) =~= seq![adapter.raw()] + fields_of(next.chain()));
        },
        None => {
            assert(fields_of(adapter.chain()) =~= seq![adapter.raw()]);
        },
    }
}

/// The table ends: following it from any adapter reaches the adapters of its
/// chain one after the other, and after as many steps as the chain has
/// adapters there is none left.
pub proof fn lemma_chain_ends(adapter: IpAdapterInfo, steps: nat)
    ensures
        adapter.chain().len() >= 1,
        adapter.chain()[0] == adapter,
        steps < adapter.chain().len() ==> adapter.nth_next(steps) == Some(
            adapter.chain()[steps as int],
        ),
        steps >= adapter.chain().len() ==> adapter.nth_next(steps) is None,
    decreases steps,
{
    if steps > 0 {
        match adapter.next_spec() {
            Some(next) => {
                lemma_chain_ends(next, (steps - 1) as nat);
            },
            None => {},
        }
    }
}

/// Gated fields: where DHCP is not enabled, the DHCP server and both lease
/// times are absent, whatever the record holds for them; where WINS is not
/// used, both WINS servers are absent.
pub proof fn lemma_gated_fields_absent(adapter: IpAdapterInfo)
    ensures
        !adapter.dhcp_enabled() ==> adapter.dhcp_server() is None
            && adapter.lease_obtained_seconds() is None && adapter.lease_expires_seconds() is None,
        !adapter.have_wins() ==> adapter.primary_wins_server() is None
            && adapter.secondary_wins_server() is None,
{
}

/// A walk along the table of adapters, from one adapter to the end.
pub struct Iter<'a> {
    adapter: Option<&'a IpAdapterInfo>,
}

impl<'a> View for Iter<'a> {
    type V = Seq<IpAdapterInfo>;

    /// The adapters that the walk has yet to give, in order.
    closed spec fn view(&self) -> Seq<IpAdapterInfo> {
        match self.adapter {
            Some(adapter) => adapter.chain(),
            None => Seq::empty(),
        }
    }
}

impl<'a> Iter<'a> {
    /// A walk that starts at `adapter`, or that gives nothing.
    pub fn new(adapter: Option<&'a IpAdapterInfo>) -> (iter: Self)
        ensures
            iter@ == match adapter {
                Some(first) => first.chain(),
                None => Seq::empty(),
            },
    {
        Self { adapter }
    }

    /// Gives the adapter at which the walk stands and moves on to the one
    /// that follows it.
    pub fn next(&mut self) -> (r: Option<&'a IpAdapterInfo>)
        ensures
            match r {
                Some(adapter) => old(self)@.len() > 0 && *adapter == old(self)@[0] && final(self)@
                    == old(self)@.drop_first(),
                None => old(self)@.len() == 0 && final(self)@.len() == 0,
            },
    {
        match self.adapter {
            Some(adapter) => {
                let following = adapter.next();
                proof {
                    lemma_chain_ends(*adapter, 0);
                    match following {
                        Some(next) => {
                            assert(adapter.chain().drop_first() =~= next.chain());
                        },
                        None => {
                            assert(adapter.chain().drop_first() =~= Seq::empty());
                        },
                    }
                }
                self.adapter = following;
                Some(adapter)
            },
            None => None,
        }
    }
}

} // verus!

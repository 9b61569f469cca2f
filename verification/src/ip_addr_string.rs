//! One address of an adapter, with its mask, and the walk along the chain
//! of addresses.

use vstd::prelude::*;

use crate::abi::IP_ADDRESS_STRING_SIZE;
use crate::c_str::{is_terminated, len_until_nul, text, until_nul};

verus! {

/// Why a record was not accepted.
#[derive(Clone, Copy, Debug, PartialEq, Eq, Structural)]
pub enum RecordError {
    /// A text buffer holds no zero byte.
    Unterminated,
    /// The reported length of the hardware address is more than its buffer holds.
    AddressLength { length: u32 },
}

/// The fields of an address record, as the system stored them.
#[derive(Clone, Copy, Debug, PartialEq, Eq)]
pub struct RawAddrString {
    /// The address in dotted-decimal text that a zero byte ends.
    pub address: [u8; IP_ADDRESS_STRING_SIZE],
    /// The mask in dotted-decimal text that a zero byte ends.
    pub mask: [u8; IP_ADDRESS_STRING_SIZE],
}

impl RawAddrString {
    /// What is wrong with the fields, if anything: an address or a mask
    /// without a zero byte.
    pub open spec fn defect(self) -> Option<RecordError> {
        if !is_terminated(self.address@) || !is_terminated(self.mask@) {
            Some(RecordError::Unterminated)
        } else {
            None
        }
    }

    /// Looks for what is wrong with the fields.
    pub fn validate(&self) -> (r: Result<(), RecordError>)
        ensures
            match r {
                Ok(_) => self.defect() is None,
                Err(e) => self.defect() == Some(e),
            },
    {
        if len_until_nul(self.address.as_slice()) >= IP_ADDRESS_STRING_SIZE || len_until_nul(
            self.mask.as_slice(),
        ) >= IP_ADDRESS_STRING_SIZE {
            return Err(RecordError::Unterminated);
        }
        Ok(())
    }
}

/// An address and its mask in dotted-decimal text, and the addresses that
/// follow it in its list.
#[derive(Debug)]
pub struct IpAddrString {
    raw: RawAddrString,
    next: Option<Box<IpAddrString>>,
}

/// The fields of the records of `chain`, in order.
pub open spec fn fields_of(chain: Seq<IpAddrString>) -> Seq<RawAddrString> {
    chain.map_values(|record: IpAddrString| record.raw())
}

/// Whether `index` is the place of the first record of `records` with
/// something wrong, and `e` is what is wrong with it.
pub open spec fn first_defect_at(records: Seq<RawAddrString>, index: int, e: RecordError) -> bool {
    &&& 0 <= index < records.len()
    &&& records[index].defect() == Some(e)
    &&& forall|j: int| 0 <= j < index ==> (#[trigger] records[j]).defect() is None
}

impl IpAddrString {
    #[verifier::type_invariant]
    spec fn well_formed(self) -> bool {
        self.raw.defect() is None
    }

    /// The fields of the record as they were stored.
    pub closed spec fn raw(&self) -> RawAddrString {
        self.raw
    }

    /// The record that follows this one, if there is one.
    pub closed spec fn next_spec(&self) -> Option<IpAddrString> {
        match self.next {
            Some(next) => Some(*next),
            None => None,
        }
    }

    /// The records from this one to the end of its list, in order.
    pub open spec fn chain(&self) -> Seq<IpAddrString>
        decreases self,
    {
        match self.next_spec() {
            Some(next) => seq![*self] + next.chain(),
            None => seq![*self],
        }
    }

    /// The record reached from this one by following the list `steps` times,
    /// if the list goes that far.
    pub open spec fn nth_next(&self, steps: nat) -> Option<IpAddrString>
        decreases steps,
    {
        if steps == 0 {
            Some(*self)
        } else {
            match self.next_spec() {
                Some(next) => next.nth_next((steps - 1) as nat),
                None => None,
            }
        }
    }

    /// Makes a record of its fields and the records that follow it. An
    /// address or a mask without a zero byte is refused.
    pub fn new(raw: RawAddrString, next: Option<IpAddrString>) -> (r: Result<
        IpAddrString,
        RecordError,
    >)
        ensures
            match r {
                Ok(record) => raw.defect() is None && record.raw() == raw && record.next_spec()
                    == next,
                Err(e) => raw.defect() == Some(e),
            },
    {
        match raw.validate() {
            Ok(_) => {},
            Err(e) => {
                return Err(e);
            },
        }
        let next: Option<Box<IpAddrString>> = match next {
            Some(record) => Some(Box::new(record)),
            None => None,
        };
        Ok(IpAddrString { raw, next })
    }

    /// Makes one list of `records`, in their order, and gives its first
    /// record; none where there are no records. Where something is wrong
    /// with a record, the first such record decides the error.
    pub fn link(records: Vec<RawAddrString>) -> (r: Result<Option<IpAddrString>, RecordError>)
        ensures
            match r {
                Ok(Some(first)) => records@.len() > 0 && fields_of(first.chain()) == records@,
                Ok(None) => records@.len() == 0,
                Err(e) => exists|i: int| first_defect_at(records@, i, e),
            },
            r is Ok <==> forall|i: int| 0 <= i < records@.len() ==> (#[trigger] records@[i]).defect() is None,
    {
        let mut checked: usize = 0;
        while checked < records.len()
            invariant
                0 <= checked <= records@.len(),
                forall|j: int| 0 <= j < checked ==> (#[trigger] records@[j]).defect() is None,
            decreases records@.len() - checked,
        {
            match records[checked].validate() {
                Ok(_) => {},
                Err(e) => {
                    assert(first_defect_at(records@, checked as int, e));
                    return Err(e);
                },
            }
            checked = checked + 1;
        }
        let mut next: Option<IpAddrString> = None;
        let mut left: usize = records.len();
        while left > 0
            invariant
                0 <= left <= records@.len(),
                forall|j: int| 0 <= j < records@.len() ==> (#[trigger] records@[j]).defect() is None,
                match next {
                    Some(first) => left < records@.len() && fields_of(first.chain())
                        == records@.skip(left as int),
                    None => left == records@.len(),
                },
            decreases left,
        {
            left = left - 1;
            let raw: RawAddrString = records[left];
            let ghost rest = next;
            match IpAddrString::new(raw, next) {
                Ok(record) => {
                    proof {
                        lemma_fields_of_chain(record);
                        match rest {
                            Some(first) => {
                                assert(records@.skip(left as int) =~= seq![raw] + records@.skip(
                                    left as int + 1,
                                ));
                            },
                            None => {
                                assert(records@.skip(left as int) =~= seq![raw]);
                            },
                        }
                    }
                    next = Some(record);
                },
                Err(e) => {
                    assert(false);
                    return Err(e);
                },
            }
        }
        proof {
            if next is Some {
                assert(records@.skip(0) =~= records@);
            }
        }
        Ok(next)
    }

    /// Try to get the next `IpAddrString` in this linked list
    pub fn next(&self) -> (r: Option<&Self>)
        ensures
            match r {
                Some(next) => self.next_spec() == Some(*next),
                None => self.next_spec() is None,
            },
    {
        match &self.next {
            Some(next) => Some(&**next),
            None => None,
        }
    }

    /// Get the address
    pub fn get_address(&self) -> (r: &[u8])
        ensures
            r@ == text(self.raw().address@),
            is_terminated(self.raw().address@),
    {
        proof {
            use_type_invariant(self);
        }
        until_nul(self.raw.address.as_slice())
    }

    /// Get the mask
    pub fn get_mask(&self) -> (r: &[u8])
        ensures
            r@ == text(self.raw().mask@),
            is_terminated(self.raw().mask@),
    {
        proof {
            use_type_invariant(self);
        }
        until_nul(self.raw.mask.as_slice())
    }

    /// Iter the remaining data in this linked list
    pub fn iter(&self) -> (iter: Iter<'_>)
        ensures
            iter@ == self.chain(),
    {
        Iter::new(Some(self))
    }
}

/// The fields of a chain are the fields of its first record and then those
/// of the chain that follows it.
pub proof fn lemma_fields_of_chain(record: IpAddrString)
    ensures
        fields_of(record.chain()) == match record.next_spec() {
            Some(next) => seq![record.raw()] + fields_of(next.chain()),
            None => seq![record.raw()],
        },
{
    match record.next_spec() {
        Some(next) => {
            assert(fields_of(record.chain()) =~= seq![record.raw()] + fields_of(next.chain()));
        },
        None => {
            assert(fields_of(record.chain()) =~= seq![record.raw()]);
        },
    }
}

/// The list ends: following it from any record reaches the records of its
/// chain one after the other, and after as many steps as the chain has
/// records there is none left.
pub proof fn lemma_chain_ends(record: IpAddrString, steps: nat)
    ensures
        record.chain().len() >= 1,
        record.chain()[0] == record,
        steps < record.chain().len() ==> record.nth_next(steps) == Some(
            record.chain()[steps as int],
        ),
        steps >= record.chain().len() ==> record.nth_next(steps) is None,
    decreases steps,
{
    if steps > 0 {
        match record.next_spec() {
            Some(next) => {
                lemma_chain_ends(next, (steps - 1) as nat);
            },
            None => {},
        }
    }
}

/// A walk along a list of addresses, from one record to the end.
pub struct Iter<'a> {
    ip_addr: Option<&'a IpAddrString>,
}

impl<'a> View for Iter<'a> {
    type V = Seq<IpAddrString>;

    /// The records that the walk has yet to give, in order.
    closed spec fn view(&self) -> Seq<IpAddrString> {
        match self.ip_addr {
            Some(record) => record.chain(),
            None => Seq::empty(),
        }
    }
}

impl<'a> Iter<'a> {
    /// A walk that starts at `ip_addr`, or that gives nothing.
    pub fn new(ip_addr: Option<&'a IpAddrString>) -> (iter: Self)
        ensures
            iter@ == match ip_addr {
                Some(record) => record.chain(),
                None => Seq::empty(),
            },
    {
        Self { ip_addr }
    }

    /// Gives the record at which the walk stands and moves on to the one
    /// that follows it.
    pub fn next(&mut self) -> (r: Option<&'a IpAddrString>)
        ensures
            match r {
                Some(record) => old(self)@.len() > 0 && *record == old(self)@[0] && final(self)@
                    == old(self)@.drop_first(),
                None => old(self)@.len() == 0 && final(self)@.len() == 0,
            },
    {
        match self.ip_addr {
            Some(record) => {
                let following = record.next();
                proof {
                    lemma_chain_ends(*record, 0);
                    match following {
                        Some(next) => {
                            assert(record.chain().drop_first() =~= next.chain());
                        },
                        None => {
                            assert(record.chain().drop_first() =~= Seq::empty());
                        },
                    }
                }
                self.ip_addr = following;
                Some(record)
            },
            None => None,
        }
    }
}

} // verus!

//! The table of adapters that one query gave.

use vstd::prelude::*;

use crate::ip_adapter_info::{
    fields_of, first_defect_at, lemma_chain_ends, IpAdapterInfo, Iter, RawAdapterInfo,
};
use crate::ip_addr_string::RecordError;

verus! {

/// A Linked List of `IpAdapterInfo`s.
#[derive(Debug)]
pub struct IpAdapterInfoList {
    /// If this is empty, data will be absent.
    data: Option<Box<IpAdapterInfo>>,
}

impl View for IpAdapterInfoList {
    type V = Seq<IpAdapterInfo>;

    /// The adapters of the table, in order.
    closed spec fn view(&self) -> Seq<IpAdapterInfo> {
        match self.data {
            Some(first) => first.chain(),
            None => Seq::empty(),
        }
    }
}

impl IpAdapterInfoList {
    /// Create an empty `IpAdapterInfoList`.
    pub fn empty() -> (list: Self)
        ensures
            list@ == Seq::<IpAdapterInfo>::empty(),
    {
        Self { data: None }
    }

    /// Create the `IpAdapterInfoList` of the adapters that start at `first`.
    pub fn new(first: IpAdapterInfo) -> (list: Self)
        ensures
            list@ == first.chain(),
    {
        Self { data: Some(Box::new(first)) }
    }

    /// Create the `IpAdapterInfoList` of `records`, in their order. Where
    /// something is wrong with a record, the first such record decides the
    /// error.
    pub fn from_records(records: Vec<RawAdapterInfo>) -> (r: Result<Self, RecordError>)
        ensures
            match r {
                Ok(list) => fields_of(list@) == records@,
                Err(e) => exists|i: int| first_defect_at(records@, i, e),
            },
            r is Ok <==> forall|i: int|
                0 <= i < records@.len() ==> (#[trigger] records@[i]).defect() is None,
    {
        match IpAdapterInfo::link(records) {
            Ok(Some(first)) => Ok(Self::new(first)),
            Ok(None) => {
                assert(fields_of(Seq::<IpAdapterInfo>::empty()) =~= records@);
                Ok(Self::empty())
            },
            Err(e) => Err(e),
        }
    }

    /// Returns true if empty
    pub fn is_empty(&self) -> (r: bool)
        ensures
            r <==> self@.len() == 0,
    {
        proof {
            if self.data is Some {
                lemma_chain_ends(*self.data->0, 0);
            }
        }
        self.data.is_none()
    }

    /// Iter over the stored data
    pub fn iter(&self) -> (iter: Iter<'_>)
        ensures
            iter@ == self@,
    {
        match &self.data {
            Some(first) => Iter::new(Some(&**first)),
            None => Iter::new(None),
        }
    }
}

} // verus!

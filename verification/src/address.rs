//! The public addresses of this machine, resolved once for a run.

use crate::config::{Record, RecordType, RecordView};
use crate::outcome::SkipReason;
use vstd::prelude::*;

verus! {

/// The service that answers with the caller's public IPv4 address as text.
pub const IPV4_ENDPOINT: &'static str = "https://api4.ipify.org?format=txt";

/// The service that answers with the caller's public IPv6 address as text.
pub const IPV6_ENDPOINT: &'static str = "https://api6.ipify.org?format=txt";

/// What an [`AddressSet`] holds, as mathematical values.
pub struct AddressSetView {
    pub ipv4: Option<Seq<char>>,
    pub ipv6: Option<Seq<char>>,
}

impl AddressSetView {
    /// The address of a family, if that family was resolved.
    pub open spec fn address(self, family: RecordType) -> Option<Seq<char>> {
        match family {
            RecordType::A => self.ipv4,
            RecordType::Aaaa => self.ipv6,
        }
    }
}

/// The value that a record should hold: the resolved address of its family.
/// There is none where the type names no family, or where the family was not
/// resolved; the record is then skipped for the reason given.
pub open spec fn desired_value(record: RecordView, addresses: AddressSetView) -> Result<
    Seq<char>,
    SkipReason,
> {
    match record.record_type() {
        None => Err(SkipReason::UnsupportedType),
        Some(family) => match addresses.address(family) {
            None => Err(SkipReason::FamilyDisabled),
            Some(address) => Ok(address),
        },
    }
}

/// The addresses resolved for a run, one slot for each family. An empty slot
/// means that resolution failed: the family is disabled for the whole run.
#[derive(Debug, Clone, PartialEq, Eq, Default)]
pub struct AddressSet {
    pub ipv4: Option<String>,
    pub ipv6: Option<String>,
}

impl View for AddressSet {
    type V = AddressSetView;

    open spec fn view(&self) -> AddressSetView {
        AddressSetView { ipv4: self.ipv4.deep_view(), ipv6: self.ipv6.deep_view() }
    }
}

impl AddressSet {
    /// The address set made of what the two lookups gave, each on its own:
    /// a lookup that failed leaves its slot empty and does not touch the
    /// other.
    pub fn resolve(ipv4: Option<String>, ipv6: Option<String>) -> (r: AddressSet)
        ensures
            r@ == (AddressSetView { ipv4: ipv4.deep_view(), ipv6: ipv6.deep_view() }),
    {
        AddressSet { ipv4, ipv6 }
    }

    /// The address of a family, if that family was resolved.
    pub fn address(&self, family: RecordType) -> (r: Option<&String>)
        ensures
            r.deep_view() == self@.address(family),
    {
        match family {
            RecordType::A => self.ipv4.as_ref(),
            RecordType::Aaaa => self.ipv6.as_ref(),
        }
    }

    /// The value that `record` should hold, or the reason why it is skipped
    /// before any call is made for it.
    pub fn desired(&self, record: &Record) -> (r: Result<&String, SkipReason>)
        ensures
            r is Ok <==> desired_value(record@, self@) is Ok,
            r matches Ok(address) ==> desired_value(record@, self@) == Ok::<Seq<char>, SkipReason>(
                address@,
            ),
            r matches Err(reason) ==> desired_value(record@, self@) == Err::<
                Seq<char>,
                SkipReason,
            >(reason),
    {
        match record.record_type() {
            None => Err(SkipReason::UnsupportedType),
            Some(family) => match self.address(family) {
                None => Err(SkipReason::FamilyDisabled),
                Some(address) => Ok(address),
            },
        }
    }

    /// Tells whether a family is disabled for this run.
    pub fn is_disabled(&self, family: RecordType) -> (r: bool)
        ensures
            r == (self@.address(family) is None),
    {
        self.address(family).is_none()
    }
}

} // verus!

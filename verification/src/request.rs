//! The calls that the reconciler asks its caller to make.

use crate::config::{Domain, DomainView, Record, RecordView};
use crate::remote::{GandiRecord, GandiRecordView};
use vstd::prelude::*;
use vstd::string::StringExecFns;

verus! {

/// The three calls of the provider's record API.
#[derive(Debug, Clone, Copy, PartialEq, Eq, Structural)]
pub enum Call {
    /// Read the record set (`GET`).
    Fetch,
    /// Create the record set (`POST`).
    Create,
    /// Replace the record set (`PUT`).
    Update,
}

impl Call {
    /// The HTTP method of the call.
    pub open spec fn method_text(self) -> Seq<char> {
        match self {
            Call::Fetch => "GET"@,
            Call::Create => "POST"@,
            Call::Update => "PUT"@,
        }
    }

    /// The HTTP method to use for the call.
    pub fn method(&self) -> (m: &'static str)
        ensures
            m@ == self.method_text(),
    {
        match self {
            Call::Fetch => "GET",
            Call::Create => "POST",
            Call::Update => "PUT",
        }
    }
}

/// Where the provider serves the records of all domains.
pub open spec fn domains_url() -> Seq<char> {
    "https://api.gandi.net/v5/livedns/domains/"@
}

/// The address of a record set:
/// `https://api.gandi.net/v5/livedns/domains/{domain}/records/{name}/{type}`.
pub open spec fn endpoint_of(domain: DomainView, record: RecordView) -> Seq<char> {
    domains_url() + domain.name + "/records/"@ + record.name + "/"@ + record.rtype
}

/// The value of the `Authorization` header for a domain: `Apikey`, a space,
/// and the domain's key.
pub open spec fn authorization_of(domain: DomainView) -> Seq<char> {
    "Apikey "@ + domain.api_key
}

/// The address under which the provider serves `record` of `domain`.
pub fn endpoint(domain: &Domain, record: &Record) -> (r: String)
    ensures
        r@ == endpoint_of(domain@, record@),
{
    let mut url = String::from_str("https://api.gandi.net/v5/livedns/domains/");
    url.append(domain.name());
    url.append("/records/");
    url.append(record.name());
    url.append("/");
    url.append(record.rtype());
    url
}

/// The value of the `Authorization` header for requests about `domain`.
pub fn authorization(domain: &Domain) -> (r: String)
    ensures
        r@ == authorization_of(domain@),
{
    let mut value = String::from_str("Apikey ");
    value.append(domain.api_key());
    value
}

/// What a [`Request`] holds, as mathematical values.
pub struct RequestView {
    pub call: Call,
    pub domain: int,
    pub record: int,
    pub endpoint: Seq<char>,
    pub authorization: Seq<char>,
    pub payload: Option<GandiRecordView>,
}

/// One call for the caller to make: which call, for which record of the
/// configuration, to which address, with which `Authorization` header, and,
/// for a create or an update, the record set to send.
#[derive(Debug, Clone, PartialEq, Eq)]
pub struct Request {
    pub call: Call,
    pub domain: usize,
    pub record: usize,
    pub endpoint: String,
    pub authorization: String,
    pub payload: Option<GandiRecord>,
}

impl View for Request {
    type V = RequestView;

    open spec fn view(&self) -> RequestView {
        RequestView {
            call: self.call,
            domain: self.domain as int,
            record: self.record as int,
            endpoint: self.endpoint@,
            authorization: self.authorization@,
            payload: self.payload.deep_view(),
        }
    }
}

impl DeepView for Request {
    type V = RequestView;

    open spec fn deep_view(&self) -> RequestView {
        self.view()
    }
}

} // verus!

//! What the provider answers: the outcome of one HTTP call, the record set it
//! stores, and what a fetch tells about the remote state of a record.

use crate::config::Record;
use crate::json::{
    json_document, json_of, member_texts, member_unsigned, read_document, read_member_texts,
    read_member_unsigned, Json,
};
use crate::outcome::FatalCause;
use vstd::prelude::*;

verus! {

/// What a [`GandiRecord`] holds, as mathematical values.
pub struct GandiRecordView {
    pub values: Seq<Seq<char>>,
    pub ttl: u32,
}

/// A record set as the provider exchanges it: the values and the time to
/// live. It is what a fetch reads and what a create or update sends.
#[derive(Debug, Clone, PartialEq, Eq, Default)]
pub struct GandiRecord {
    pub rrset_values: Vec<String>,
    pub rrset_ttl: u32,
}

impl View for GandiRecord {
    type V = GandiRecordView;

    open spec fn view(&self) -> GandiRecordView {
        GandiRecordView { values: self.rrset_values.deep_view(), ttl: self.rrset_ttl }
    }
}

impl DeepView for GandiRecord {
    type V = GandiRecordView;

    open spec fn deep_view(&self) -> GandiRecordView {
        self.view()
    }
}

/// A remote record set differs from the desired one unless it holds the same
/// set of values and the same time to live.
pub open spec fn differs(remote: GandiRecordView, values: Seq<Seq<char>>, ttl: u32) -> bool {
    !(remote.values.to_set() == values.to_set() && remote.ttl == ttl)
}

/// The member that lists the values of a record set.
pub open spec fn values_key() -> Seq<char> {
    "rrset_values"@
}

/// The member that holds the time to live of a record set.
pub open spec fn ttl_key() -> Seq<char> {
    "rrset_ttl"@
}

/// The record set made of what was read from two members: `None` unless the
/// values were read and the time to live was read and fits 32 bits.
pub open spec fn record_of_members(values: Option<Seq<Seq<char>>>, ttl: Option<u64>) -> Option<
    GandiRecordView,
> {
    match (values, ttl) {
        (Some(values), Some(ttl)) => if ttl <= u32::MAX {
            Some(GandiRecordView { values, ttl: ttl as u32 })
        } else {
            None
        },
        _ => None,
    }
}

/// The record set that a JSON document describes. The document has to be an
/// object, its member `rrset_values` an array of texts, and its member
/// `rrset_ttl` a whole number from 0 to `u32::MAX`. Other members are not
/// looked at.
pub open spec fn record_of_json(document: Json) -> Option<GandiRecordView> {
    record_of_members(
        member_texts(document, values_key()),
        member_unsigned(document, ttl_key()),
    )
}

/// The record set that a response body describes: `None` where the body is
/// not a JSON document or the document describes no record set.
pub open spec fn record_of_body(body: Seq<char>) -> Option<GandiRecordView> {
    match json_document(body) {
        Some(document) => record_of_json(document),
        None => None,
    }
}

/// Tells whether `text` is one of `list`.
fn contains_text(list: &Vec<String>, text: &String) -> (r: bool)
    ensures
        r == list.deep_view().contains(text@),
{
    let mut i: usize = 0;
    while i < list.len()
        invariant
            i <= list.len(),
            forall|j: int| 0 <= j < i ==> list.deep_view()[j] != text@,
        decreases list.len() - i,
    {
        if list[i] == *text {
            assert(list.deep_view()[i as int] == text@);
            return true;
        }
        i += 1;
    }
    false
}

/// Tells whether every text of `part` is one of `whole`.
fn all_contained(part: &Vec<String>, whole: &Vec<String>) -> (r: bool)
    ensures
        r == part.deep_view().to_set().subset_of(whole.deep_view().to_set()),
{
    let mut i: usize = 0;
    while i < part.len()
        invariant
            i <= part.len(),
            forall|j: int| 0 <= j < i ==> whole.deep_view().contains(#[trigger] part.deep_view()[j]),
        decreases part.len() - i,
    {
        if !contains_text(whole, &part[i]) {
            assert(part.deep_view().to_set().contains(part.deep_view()[i as int]));
            return false;
        }
        i += 1;
    }
    true
}

impl GandiRecord {
    /// The record set with the given values and time to live.
    pub fn new(rrset_values: Vec<String>, rrset_ttl: u32) -> (r: GandiRecord)
        ensures
            r@ == (GandiRecordView { values: rrset_values.deep_view(), ttl: rrset_ttl }),
    {
        GandiRecord { rrset_values, rrset_ttl }
    }

    /// Compares this remote record set with the desired one, which has the
    /// time to live of `record` and the given values. Returns `true` where
    /// they differ: unless both hold the same set of values, whatever their
    /// order, and the same time to live.
    pub fn diff(&self, record: &Record, values: Vec<String>) -> (changed: bool)
        ensures
            changed == differs(self@, values.deep_view(), record@.ttl),
            !changed <==> (self@.values.to_set() == values.deep_view().to_set() && self@.ttl
                == record@.ttl),
    {
        let same = self.rrset_ttl == record.ttl() && all_contained(&self.rrset_values, &values)
            && all_contained(&values, &self.rrset_values);
        proof {
            let a = self@.values.to_set();
            let b = values.deep_view().to_set();
            if a.subset_of(b) && b.subset_of(a) {
                assert(a =~= b);
            }
        }
        !same
    }

    /// Puts together what was read from the two members of a document. The
    /// result is `None` unless the values were read and the time to live was
    /// read and fits 32 bits.
    pub fn from_members(values: Option<Vec<String>>, ttl: Option<u64>) -> (r: Option<GandiRecord>)
        ensures
            r.deep_view() == record_of_members(values.deep_view(), ttl),
    {
        match (values, ttl) {
            (Some(values), Some(ttl)) => {
                if ttl <= u32::MAX as u64 {
                    Some(GandiRecord { rrset_values: values, rrset_ttl: ttl as u32 })
                } else {
                    None
                }
            },
            _ => None,
        }
    }

    /// Reads a record set from a JSON document.
    pub fn from_document(document: &serde_json::Value) -> (r: Option<GandiRecord>)
        ensures
            r.deep_view() == record_of_json(json_of(*document)),
    {
        let values = read_member_texts(document, "rrset_values");
        let ttl = read_member_unsigned(document, "rrset_ttl");
        GandiRecord::from_members(values, ttl)
    }

    /// Reads a record set from the body of a response.
    pub fn from_body(body: &str) -> (r: Option<GandiRecord>)
        ensures
            r.deep_view() == record_of_body(body@),
    {
        match read_document(body) {
            Some(document) => GandiRecord::from_document(&document),
            None => None,
        }
    }
}

/// What an [`HttpOutcome`] holds, as mathematical values.
pub enum HttpOutcomeView {
    Success(u16, Seq<char>),
    AuthFailure(u16),
    PermissionDenied(u16),
    Conflict(u16, Seq<char>),
    UnexpectedStatus(u16, Seq<char>),
    TransportFailure(Seq<char>),
}

/// How one call to the provider ended.
#[derive(Debug, Clone, PartialEq, Eq)]
pub enum HttpOutcome {
    /// A status from 200 to 299, with the body.
    Success(u16, String),
    /// Status 401: the API key was not accepted.
    AuthFailure(u16),
    /// Status 403: the key may not touch the resource.
    PermissionDenied(u16),
    /// Status 409, with the body.
    Conflict(u16, String),
    /// Any other status, with the body.
    UnexpectedStatus(u16, String),
    /// No response came back; the text says why.
    TransportFailure(String),
}

impl View for HttpOutcome {
    type V = HttpOutcomeView;

    open spec fn view(&self) -> HttpOutcomeView {
        match self {
            HttpOutcome::Success(status, body) => HttpOutcomeView::Success(*status, body@),
            HttpOutcome::AuthFailure(status) => HttpOutcomeView::AuthFailure(*status),
            HttpOutcome::PermissionDenied(status) => HttpOutcomeView::PermissionDenied(*status),
            HttpOutcome::Conflict(status, body) => HttpOutcomeView::Conflict(*status, body@),
            HttpOutcome::UnexpectedStatus(status, body) => HttpOutcomeView::UnexpectedStatus(
                *status,
                body@,
            ),
            HttpOutcome::TransportFailure(detail) => HttpOutcomeView::TransportFailure(detail@),
        }
    }
}

impl DeepView for HttpOutcome {
    type V = HttpOutcomeView;

    open spec fn deep_view(&self) -> HttpOutcomeView {
        self.view()
    }
}

/// The outcome that a response with the given status and body stands for.
pub open spec fn outcome_of_status(status: u16, body: Seq<char>) -> HttpOutcomeView {
    if status == 401 {
        HttpOutcomeView::AuthFailure(status)
    } else if status == 403 {
        HttpOutcomeView::PermissionDenied(status)
    } else if status == 409 {
        HttpOutcomeView::Conflict(status, body)
    } else if 200 <= status <= 299 {
        HttpOutcomeView::Success(status, body)
    } else {
        HttpOutcomeView::UnexpectedStatus(status, body)
    }
}

impl HttpOutcomeView {
    /// The status of the response, where one came back.
    pub open spec fn status(self) -> Option<u16> {
        match self {
            HttpOutcomeView::Success(status, _) => Some(status),
            HttpOutcomeView::AuthFailure(status) => Some(status),
            HttpOutcomeView::PermissionDenied(status) => Some(status),
            HttpOutcomeView::Conflict(status, _) => Some(status),
            HttpOutcomeView::UnexpectedStatus(status, _) => Some(status),
            HttpOutcomeView::TransportFailure(_) => None,
        }
    }
}

impl HttpOutcome {
    /// The outcome of a call that was answered with `status` and `body`:
    /// 401 is an authentication failure, 403 a denied permission, 409 a
    /// conflict, 200 to 299 a success, and every other status unexpected.
    pub fn from_status(status: u16, body: String) -> (r: HttpOutcome)
        ensures
            r@ == outcome_of_status(status, body@),
            r@.status() == Some(status),
    {
        if status == 401 {
            HttpOutcome::AuthFailure(status)
        } else if status == 403 {
            HttpOutcome::PermissionDenied(status)
        } else if status == 409 {
            HttpOutcome::Conflict(status, body)
        } else if 200 <= status && status <= 299 {
            HttpOutcome::Success(status, body)
        } else {
            HttpOutcome::UnexpectedStatus(status, body)
        }
    }

    /// The status of the response, where one came back.
    pub fn status(&self) -> (r: Option<u16>)
        ensures
            r == self@.status(),
    {
        match self {
            HttpOutcome::Success(status, _) => Some(*status),
            HttpOutcome::AuthFailure(status) => Some(*status),
            HttpOutcome::PermissionDenied(status) => Some(*status),
            HttpOutcome::Conflict(status, _) => Some(*status),
            HttpOutcome::UnexpectedStatus(status, _) => Some(*status),
            HttpOutcome::TransportFailure(_) => None,
        }
    }
}

/// What a [`RemoteState`] holds, as mathematical values.
pub enum RemoteStateView {
    NotFound,
    Found(GandiRecordView),
    Fatal(FatalCause),
    Unexpected(u16, Seq<char>),
    TransportFailure(Seq<char>),
    Malformed(Seq<char>),
}

/// What a fetch tells about the remote state of a record.
#[derive(Debug, Clone, PartialEq, Eq)]
pub enum RemoteState {
    /// The provider holds no such record set.
    NotFound,
    /// The provider holds this record set.
    Found(GandiRecord),
    /// The provider turned the key down: the domain is to be given up.
    Fatal(FatalCause),
    /// The provider answered with a status that tells nothing, and this body.
    Unexpected(u16, String),
    /// No answer came back; the text says why.
    TransportFailure(String),
    /// The provider answered 200 with this body, which describes no record
    /// set.
    Malformed(String),
}

impl View for RemoteState {
    type V = RemoteStateView;

    open spec fn view(&self) -> RemoteStateView {
        match self {
            RemoteState::NotFound => RemoteStateView::NotFound,
            RemoteState::Found(record) => RemoteStateView::Found(record@),
            RemoteState::Fatal(cause) => RemoteStateView::Fatal(*cause),
            RemoteState::Unexpected(status, body) => RemoteStateView::Unexpected(*status, body@),
            RemoteState::TransportFailure(detail) => RemoteStateView::TransportFailure(detail@),
            RemoteState::Malformed(body) => RemoteStateView::Malformed(body@),
        }
    }
}

/// What a successful fetch with the given body tells, once the body has been
/// read: the record set found, or that the body is malformed.
pub open spec fn state_of_found(body: Seq<char>, record: Option<GandiRecordView>) -> RemoteStateView {
    match record {
        Some(record) => RemoteStateView::Found(record),
        None => RemoteStateView::Malformed(body),
    }
}

/// What the outcome of a fetch tells about the remote record.
///
/// | outcome                         | remote state                     |
/// |---------------------------------|----------------------------------|
/// | success with status 200         | found, or malformed body         |
/// | success with another status     | unexpected                       |
/// | authentication failure          | fatal: bad API key               |
/// | permission denied               | fatal: forbidden                 |
/// | conflict                        | unexpected                       |
/// | unexpected status 404           | not found                        |
/// | another unexpected status       | unexpected                       |
/// | transport failure               | transport failure                |
pub open spec fn fetch_state(outcome: HttpOutcomeView) -> RemoteStateView {
    match outcome {
        HttpOutcomeView::Success(status, body) => if status == 200 {
            state_of_found(body, record_of_body(body))
        } else {
            RemoteStateView::Unexpected(status, body)
        },
        HttpOutcomeView::AuthFailure(_) => RemoteStateView::Fatal(FatalCause::BadApiKey),
        HttpOutcomeView::PermissionDenied(_) => RemoteStateView::Fatal(FatalCause::Forbidden),
        HttpOutcomeView::Conflict(status, body) => RemoteStateView::Unexpected(status, body),
        HttpOutcomeView::UnexpectedStatus(status, body) => if status == 404 {
            RemoteStateView::NotFound
        } else {
            RemoteStateView::Unexpected(status, body)
        },
        HttpOutcomeView::TransportFailure(detail) => RemoteStateView::TransportFailure(detail),
    }
}

impl RemoteState {
    /// What a fetch that was answered 200 with `body` tells, given the record
    /// set that was read from the body, if one was.
    pub fn of_found(body: String, record: Option<GandiRecord>) -> (r: RemoteState)
        ensures
            r@ == state_of_found(body@, record.deep_view()),
    {
        match record {
            Some(record) => RemoteState::Found(record),
            None => RemoteState::Malformed(body),
        }
    }
}

/// Classifies the outcome of a fetch: whether the record exists remotely and
/// what it holds, whether the domain has to be given up, or why nothing is
/// known.
pub fn classify_fetch(outcome: HttpOutcome) -> (r: RemoteState)
    ensures
        r@ == fetch_state(outcome@),
{
    match outcome {
        HttpOutcome::Success(status, body) => {
            if status == 200 {
                let record = GandiRecord::from_body(body.as_str());
                RemoteState::of_found(body, record)
            } else {
                RemoteState::Unexpected(status, body)
            }
        },
        HttpOutcome::AuthFailure(_) => RemoteState::Fatal(FatalCause::BadApiKey),
        HttpOutcome::PermissionDenied(_) => RemoteState::Fatal(FatalCause::Forbidden),
        HttpOutcome::Conflict(status, body) => RemoteState::Unexpected(status, body),
        HttpOutcome::UnexpectedStatus(status, body) => {
            if status == 404 {
                RemoteState::NotFound
            } else {
                RemoteState::Unexpected(status, body)
            }
        },
        HttpOutcome::TransportFailure(detail) => RemoteState::TransportFailure(detail),
    }
}

} // verus!

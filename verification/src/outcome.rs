//! The terminal status of a record, and the words that report it.

use vstd::prelude::*;

verus! {

/// Why a domain is given up.
#[derive(Debug, Clone, Copy, PartialEq, Eq, Structural)]
pub enum FatalCause {
    /// The provider did not accept the API key (status 401).
    BadApiKey,
    /// The key may not touch the resource (status 403).
    Forbidden,
}

impl FatalCause {
    /// The words for this cause.
    pub open spec fn message_text(self) -> Seq<char> {
        match self {
            FatalCause::BadApiKey => "bad API key"@,
            FatalCause::Forbidden => "forbidden"@,
        }
    }

    /// The words that report this cause.
    pub fn message(&self) -> (m: &'static str)
        ensures
            m@ == self.message_text(),
    {
        match self {
            FatalCause::BadApiKey => "bad API key",
            FatalCause::Forbidden => "forbidden",
        }
    }
}

/// Why a record was left alone.
#[derive(Debug, Clone, Copy, PartialEq, Eq, Structural)]
pub enum SkipReason {
    /// No address of the record's family was resolved for this run.
    FamilyDisabled,
    /// The record's type is neither `A` nor `AAAA`.
    UnsupportedType,
    /// The provider turned the domain's key down, at this record or at an
    /// earlier one of the same domain.
    DomainAborted(FatalCause),
    /// The provider refused to create the record because one with that name
    /// and type already exists.
    Conflict,
    /// The provider answered with a status that the step does not know.
    UnexpectedStatus(u16),
    /// The provider could not be reached.
    TransportFailure,
    /// The provider answered a fetch with a body that describes no record.
    MalformedResponse,
}

impl SkipReason {
    /// The words for this reason.
    pub open spec fn message_text(self) -> Seq<char> {
        match self {
            SkipReason::FamilyDisabled => "family disabled"@,
            SkipReason::UnsupportedType => "unsupported record type"@,
            SkipReason::DomainAborted(_) => "domain aborted"@,
            SkipReason::Conflict => "conflict: record already exists"@,
            SkipReason::UnexpectedStatus(_) => "unexpected status"@,
            SkipReason::TransportFailure => "transport failure"@,
            SkipReason::MalformedResponse => "malformed response"@,
        }
    }

    /// The words that report this reason.
    pub fn message(&self) -> (m: &'static str)
        ensures
            m@ == self.message_text(),
    {
        match self {
            SkipReason::FamilyDisabled => "family disabled",
            SkipReason::UnsupportedType => "unsupported record type",
            SkipReason::DomainAborted(_) => "domain aborted",
            SkipReason::Conflict => "conflict: record already exists",
            SkipReason::UnexpectedStatus(_) => "unexpected status",
            SkipReason::TransportFailure => "transport failure",
            SkipReason::MalformedResponse => "malformed response",
        }
    }
}

/// How much attention a report asks for.
#[derive(Debug, Clone, Copy, PartialEq, Eq, Structural)]
pub enum Level {
    Info,
    Warn,
    Error,
}

/// The terminal status of one record.
#[derive(Debug, Clone, Copy, PartialEq, Eq, Structural)]
pub enum Outcome {
    /// The record was left alone, for the reason given.
    Skip(SkipReason),
    /// The record did not exist and was created.
    Created,
    /// The record did not exist at the fetch, but did at the create: someone
    /// else made it in between.
    AlreadyExisted,
    /// The record held something else and was updated.
    Updated,
    /// The record already held the desired values and time to live.
    NoChangeNeeded,
}

impl Outcome {
    /// The record is in place remotely: it was created, updated, or needed
    /// no change.
    pub open spec fn succeeded(self) -> bool {
        !(self is Skip)
    }

    /// Tells whether the record is in place remotely.
    pub fn is_success(&self) -> (r: bool)
        ensures
            r == self.succeeded(),
    {
        match self {
            Outcome::Skip(_) => false,
            _ => true,
        }
    }

    /// The reason why the record was skipped, if it was.
    pub fn skip_reason(&self) -> (r: Option<SkipReason>)
        ensures
            r == (match *self {
                Outcome::Skip(reason) => Some(reason),
                _ => None,
            }),
    {
        match self {
            Outcome::Skip(reason) => Some(*reason),
            _ => None,
        }
    }

    /// The words for this status.
    pub open spec fn message_text(self) -> Seq<char> {
        match self {
            Outcome::Skip(reason) => reason.message_text(),
            Outcome::Created => "record created"@,
            Outcome::AlreadyExisted => "record already existed"@,
            Outcome::Updated => "record updated"@,
            Outcome::NoChangeNeeded => "no update needed"@,
        }
    }

    /// The words that report this status.
    pub fn message(&self) -> (m: &'static str)
        ensures
            m@ == self.message_text(),
    {
        match self {
            Outcome::Skip(reason) => reason.message(),
            Outcome::Created => "record created",
            Outcome::AlreadyExisted => "record already existed",
            Outcome::Updated => "record updated",
            Outcome::NoChangeNeeded => "no update needed",
        }
    }

    /// The attention this status asks for: information for a record that is
    /// in place, a warning for one whose family has no address, an error for
    /// every other skip.
    pub open spec fn level_of(self) -> Level {
        match self {
            Outcome::Skip(SkipReason::FamilyDisabled) => Level::Warn,
            Outcome::Skip(_) => Level::Error,
            _ => Level::Info,
        }
    }

    /// The level at which to report this status.
    pub fn level(&self) -> (r: Level)
        ensures
            r == self.level_of(),
    {
        match self {
            Outcome::Skip(SkipReason::FamilyDisabled) => Level::Warn,
            Outcome::Skip(_) => Level::Error,
            _ => Level::Info,
        }
    }
}

/// What a [`Report`] holds, as mathematical values.
pub struct ReportView {
    pub domain: int,
    pub record: int,
    pub outcome: Outcome,
}

/// The terminal status of the record at position `record` of the domain at
/// position `domain` of the configuration.
#[derive(Debug, Clone, Copy, PartialEq, Eq)]
pub struct Report {
    pub domain: usize,
    pub record: usize,
    pub outcome: Outcome,
}

impl View for Report {
    type V = ReportView;

    open spec fn view(&self) -> ReportView {
        ReportView { domain: self.domain as int, record: self.record as int, outcome: self.outcome }
    }
}

impl DeepView for Report {
    type V = ReportView;

    open spec fn deep_view(&self) -> ReportView {
        self.view()
    }
}

} // verus!

//! The configured domains and records, and the rules a configuration has to
//! meet before reconciliation starts.

use crate::chars::{name_chars, only_name_chars};
use vstd::prelude::*;

verus! {

/// The smallest time to live, in seconds, that the provider accepts.
pub const MIN_TTL: u32 = 300;

/// The largest time to live, in seconds, that the provider accepts.
pub const MAX_TTL: u32 = 2_592_000;

/// The least number of bytes an API key holds.
pub const MIN_API_KEY_LEN: usize = 3;

/// The address family of a record: `A` holds an IPv4 address, `AAAA` an
/// IPv6 address.
#[derive(Debug, Clone, Copy, PartialEq, Eq, Structural)]
pub enum RecordType {
    A,
    Aaaa,
}

/// The type name `A`.
pub open spec fn type_a() -> Seq<char> {
    seq!['A']
}

/// The type name `AAAA`.
pub open spec fn type_aaaa() -> Seq<char> {
    seq!['A', 'A', 'A', 'A']
}

/// The address family that a type name stands for, if it names one.
pub open spec fn record_type_of(rtype: Seq<char>) -> Option<RecordType> {
    if rtype == type_a() {
        Some(RecordType::A)
    } else if rtype == type_aaaa() {
        Some(RecordType::Aaaa)
    } else {
        None
    }
}

/// Why a configuration is refused.
#[derive(Debug, Clone, Copy, PartialEq, Eq, Structural)]
pub enum ConfigError {
    /// A domain name holds a character other than ASCII letters, digits and `.`.
    DomainName,
    /// An API key is shorter than three bytes.
    ApiKey,
    /// A record name holds a character other than ASCII letters, digits and `@`.
    RecordName,
    /// A record type is neither `A` nor `AAAA`.
    RecordType,
    /// A time to live lies outside the range the provider accepts.
    Ttl,
}

impl ConfigError {
    /// The text of the message for this error.
    pub open spec fn message_text(self) -> Seq<char> {
        match self {
            ConfigError::DomainName =>
                "Configuration Error: Domain name does not match ascii_alphanumeric pattern"@,
            ConfigError::ApiKey => "Configuration Error: api Key seems empty"@,
            ConfigError::RecordName =>
                "Configuration Error: Record name does not match ascii_alphanumeric pattern"@,
            ConfigError::RecordType => "Configuration Error: Record type is neither A or AAAA"@,
            ConfigError::Ttl =>
                "Configuration Error: TTL size exceed gandis's minimum or maximum value (2_592_000)"@,
        }
    }

    /// The message that tells a user what is wrong.
    pub fn message(&self) -> (m: &'static str)
        ensures
            m@ == self.message_text(),
    {
        match self {
            ConfigError::DomainName =>
                "Configuration Error: Domain name does not match ascii_alphanumeric pattern",
            ConfigError::ApiKey => "Configuration Error: api Key seems empty",
            ConfigError::RecordName =>
                "Configuration Error: Record name does not match ascii_alphanumeric pattern",
            ConfigError::RecordType => "Configuration Error: Record type is neither A or AAAA",
            ConfigError::Ttl =>
                "Configuration Error: TTL size exceed gandis's minimum or maximum value (2_592_000)",
        }
    }
}

/// What a [`Record`] holds, as mathematical values.
pub struct RecordView {
    pub name: Seq<char>,
    pub rtype: Seq<char>,
    pub values: Seq<Seq<char>>,
    pub ttl: u32,
}

impl RecordView {
    /// The address family of the record, if its type names one.
    pub open spec fn record_type(self) -> Option<RecordType> {
        record_type_of(self.rtype)
    }

    /// The first rule that the record breaks, taken in the order name, type,
    /// time to live.
    pub open spec fn check(self) -> Result<(), ConfigError> {
        if !name_chars(self.name, '@') {
            Err(ConfigError::RecordName)
        } else if self.record_type() is None {
            Err(ConfigError::RecordType)
        } else if self.ttl > MAX_TTL || self.ttl < MIN_TTL {
            Err(ConfigError::Ttl)
        } else {
            Ok(())
        }
    }

    /// The record meets every rule: its name is made of ASCII letters, digits
    /// and `@`, its type is `A` or `AAAA`, and its time to live lies between
    /// [`MIN_TTL`] and [`MAX_TTL`].
    pub open spec fn valid(self) -> bool {
        &&& name_chars(self.name, '@')
        &&& self.record_type() is Some
        &&& MIN_TTL <= self.ttl <= MAX_TTL
    }
}

/// A record set in the provider's terms: the name below the domain, the type,
/// the values and the time to live. A configured record has no values until
/// the resolved address is put in.
#[derive(Debug, Clone)]
pub struct Record {
    rrset_name: String,
    rrset_type: String,
    rrset_values: Vec<String>,
    rrset_ttl: u32,
}

impl View for Record {
    type V = RecordView;

    closed spec fn view(&self) -> RecordView {
        RecordView {
            name: self.rrset_name@,
            rtype: self.rrset_type@,
            values: self.rrset_values.deep_view(),
            ttl: self.rrset_ttl,
        }
    }
}

impl DeepView for Record {
    type V = RecordView;

    open spec fn deep_view(&self) -> RecordView {
        self.view()
    }
}

/// What an [`ApiRecord`] holds, as mathematical values.
pub struct ApiRecordView {
    pub name: Seq<char>,
    pub rtype: Seq<char>,
    pub values: Seq<Seq<char>>,
    pub ttl: u32,
    pub href: Seq<char>,
}

/// A record set as the provider lists it: what a [`Record`] holds, and the
/// address under which the provider serves it.
#[derive(Debug, Clone)]
pub struct ApiRecord {
    rrset_name: String,
    rrset_type: String,
    rrset_values: Vec<String>,
    rrset_ttl: u32,
    rrset_href: String,
}

impl View for ApiRecord {
    type V = ApiRecordView;

    closed spec fn view(&self) -> ApiRecordView {
        ApiRecordView {
            name: self.rrset_name@,
            rtype: self.rrset_type@,
            values: self.rrset_values.deep_view(),
            ttl: self.rrset_ttl,
            href: self.rrset_href@,
        }
    }
}

impl ApiRecord {
    /// A listed record set with the given fields.
    pub fn new(
        rrset_name: String,
        rrset_type: String,
        rrset_values: Vec<String>,
        rrset_ttl: u32,
        rrset_href: String,
    ) -> (r: ApiRecord)
        ensures
            r@ == (ApiRecordView {
                name: rrset_name@,
                rtype: rrset_type@,
                values: rrset_values.deep_view(),
                ttl: rrset_ttl,
                href: rrset_href@,
            }),
    {
        ApiRecord { rrset_name, rrset_type, rrset_values, rrset_ttl, rrset_href }
    }
}

impl Record {
    /// A configured record: name, type and time to live, and no values yet.
    pub fn new(name: String, rtype: String, ttl: u32) -> (r: Record)
        ensures
            r@ == (RecordView { name: name@, rtype: rtype@, values: Seq::empty(), ttl }),
    {
        let r = Record {
            rrset_name: name,
            rrset_type: rtype,
            rrset_values: Vec::new(),
            rrset_ttl: ttl,
        };
        assert(r.rrset_values.deep_view() =~= Seq::<Seq<char>>::empty());
        r
    }

    /// Checks the record against the rules of a configuration and names the
    /// first one that it breaks: the name, then the type, then the time to
    /// live.
    pub fn validate_fields(&self) -> (r: Result<(), ConfigError>)
        ensures
            r == self@.check(),
            r is Ok <==> self@.valid(),
    {
        if !only_name_chars(self.rrset_name.as_str(), '@') {
            return Err(ConfigError::RecordName);
        }
        if self.record_type().is_none() {
            return Err(ConfigError::RecordType);
        }
        if self.rrset_ttl > MAX_TTL || self.rrset_ttl < MIN_TTL {
            return Err(ConfigError::Ttl);
        }
        Ok(())
    }

    /// The name of the record below its domain.
    pub fn name(&self) -> (r: &str)
        ensures
            r@ == self@.name,
    {
        self.rrset_name.as_str()
    }

    /// The type of the record as the configuration names it.
    pub fn rtype(&self) -> (r: &str)
        ensures
            r@ == self@.rtype,
    {
        self.rrset_type.as_str()
    }

    /// The address family of the record: `None` where its type is neither
    /// `A` nor `AAAA`.
    pub fn record_type(&self) -> (r: Option<RecordType>)
        ensures
            r == self@.record_type(),
    {
        let t = self.rrset_type.as_str();
        let n = t.unicode_len();
        if n == 1 && t.get_char(0) == 'A' {
            assert(t@ =~= type_a());
            Some(RecordType::A)
        } else if n == 4 && t.get_char(0) == 'A' && t.get_char(1) == 'A' && t.get_char(2) == 'A'
            && t.get_char(3) == 'A' {
            assert(t@ =~= type_aaaa());
            Some(RecordType::Aaaa)
        } else {
            assert(t@ == type_aaaa() ==> t@[0] == 'A' && t@[1] == 'A' && t@[2] == 'A' && t@[3]
                == 'A');
            None
        }
    }

    /// The values of the record set.
    pub fn values(&self) -> (r: &Vec<String>)
        ensures
            r.deep_view() == self@.values,
    {
        &self.rrset_values
    }

    /// Replaces the values of the record set, and nothing else.
    pub fn set_rrset_values(&mut self, rrset_values: Vec<String>)
        ensures
            final(self)@ == (RecordView { values: rrset_values.deep_view(), ..old(self)@ }),
    {
        self.rrset_values = rrset_values;
    }

    /// The time to live of the record, in seconds.
    pub fn ttl(&self) -> (r: u32)
        ensures
            r == self@.ttl,
    {
        self.rrset_ttl
    }

    /// The record set that a listing of the provider describes: its name,
    /// type, values and time to live, without the address it is served under.
    pub fn from_api_record(apirecord: ApiRecord) -> (r: Record)
        ensures
            r@ == (RecordView {
                name: apirecord@.name,
                rtype: apirecord@.rtype,
                values: apirecord@.values,
                ttl: apirecord@.ttl,
            }),
    {
        Record {
            rrset_name: apirecord.rrset_name,
            rrset_type: apirecord.rrset_type,
            rrset_values: apirecord.rrset_values,
            rrset_ttl: apirecord.rrset_ttl,
        }
    }
}

/// What a [`Domain`] holds, as mathematical values.
pub struct DomainView {
    pub name: Seq<char>,
    pub api_key: Seq<char>,
    pub records: Seq<RecordView>,
}

/// The number of bytes that a text takes in UTF-8.
pub open spec fn byte_len(text: Seq<char>) -> nat {
    vstd::utf8::encode_utf8(text).len()
}

/// The first rule that one of `records` breaks, from position `from` on, the
/// records taken in order.
pub open spec fn check_records(records: Seq<RecordView>, from: int) -> Result<(), ConfigError>
    decreases records.len() - from,
{
    if from < 0 || from >= records.len() {
        Ok(())
    } else if records[from].check() is Err {
        records[from].check()
    } else {
        check_records(records, from + 1)
    }
}

impl DomainView {
    /// The first rule that the domain's own fields break: the name, then the
    /// API key.
    pub open spec fn check(self) -> Result<(), ConfigError> {
        if !name_chars(self.name, '.') {
            Err(ConfigError::DomainName)
        } else if byte_len(self.api_key) < MIN_API_KEY_LEN {
            Err(ConfigError::ApiKey)
        } else {
            Ok(())
        }
    }

    /// The domain's own fields meet every rule: the name is made of ASCII
    /// letters, digits and `.`, and the API key holds at least
    /// [`MIN_API_KEY_LEN`] bytes.
    pub open spec fn valid(self) -> bool {
        &&& name_chars(self.name, '.')
        &&& byte_len(self.api_key) >= MIN_API_KEY_LEN
    }

    /// The first rule broken by the domain or, after it, by one of its
    /// records.
    pub open spec fn check_all(self) -> Result<(), ConfigError> {
        if self.check() is Err {
            self.check()
        } else {
            check_records(self.records, 0)
        }
    }
}

/// A domain with the key that authorises changes to it and the records to
/// keep up to date, in the order of the configuration.
#[derive(Debug, Clone)]
pub struct Domain {
    name: String,
    api_key: String,
    pub record: Vec<Record>,
}

impl View for Domain {
    type V = DomainView;

    closed spec fn view(&self) -> DomainView {
        DomainView {
            name: self.name@,
            api_key: self.api_key@,
            records: self.record.deep_view(),
        }
    }
}

impl DeepView for Domain {
    type V = DomainView;

    open spec fn deep_view(&self) -> DomainView {
        self.view()
    }
}

impl Domain {
    /// A domain with its API key and records.
    pub fn new(name: String, api_key: String, record: Vec<Record>) -> (r: Domain)
        ensures
            r@ == (DomainView { name: name@, api_key: api_key@, records: record.deep_view() }),
    {
        Domain { name, api_key, record }
    }

    /// The name of the domain.
    pub fn name(&self) -> (r: &str)
        ensures
            r@ == self@.name,
    {
        self.name.as_str()
    }

    /// The key that authorises requests for this domain.
    pub fn api_key(&self) -> (r: &str)
        ensures
            r@ == self@.api_key,
    {
        self.api_key.as_str()
    }

    /// The records of the domain, in the order of the configuration.
    pub fn record(&self) -> (r: &[Record])
        ensures
            r.deep_view() == self@.records,
    {
        let r = self.record.as_slice();
        r
    }

    /// Checks the domain's own fields against the rules of a configuration
    /// and names the first one that they break: the name, then the API key.
    pub fn validate_fields(&self) -> (r: Result<(), ConfigError>)
        ensures
            r == self@.check(),
            r is Ok <==> self@.valid(),
    {
        if !only_name_chars(self.name.as_str(), '.') {
            return Err(ConfigError::DomainName);
        }
        if self.api_key.as_str().as_bytes().len() < MIN_API_KEY_LEN {
            return Err(ConfigError::ApiKey);
        }
        Ok(())
    }

    /// Checks the domain and then each of its records, in order, and names
    /// the first rule that is broken.
    pub fn validate(&self) -> (r: Result<(), ConfigError>)
        ensures
            r == self@.check_all(),
    {
        match self.validate_fields() {
            Err(e) => {
                return Err(e);
            },
            Ok(_) => {},
        }
        let mut i: usize = 0;
        while i < self.record.len()
            invariant
                i <= self.record.len(),
                self@.check() is Ok,
                check_records(self@.records, 0) == check_records(self@.records, i as int),
            decreases self.record.len() - i,
        {
            match self.record[i].validate_fields() {
                Err(e) => {
                    return Err(e);
                },
                Ok(_) => {},
            }
            i += 1;
        }
        Ok(())
    }
}

/// The first rule that one of `domains` or of their records breaks, from
/// position `from` on, the domains taken in order.
pub open spec fn check_domains(domains: Seq<DomainView>, from: int) -> Result<(), ConfigError>
    decreases domains.len() - from,
{
    if from < 0 || from >= domains.len() {
        Ok(())
    } else if domains[from].check_all() is Err {
        domains[from].check_all()
    } else {
        check_domains(domains, from + 1)
    }
}

/// The configuration: the domains to reconcile, in order.
#[derive(Debug, Clone)]
pub struct Config {
    pub domain: Vec<Domain>,
}

impl View for Config {
    type V = Seq<DomainView>;

    open spec fn view(&self) -> Seq<DomainView> {
        self.domain.deep_view()
    }
}

impl Config {
    /// The configured domains, in order.
    pub fn domain(&self) -> (r: &[Domain])
        ensures
            r.deep_view() == self@,
    {
        let r = self.domain.as_slice();
        r
    }

    /// Checks every domain and every record, in the order of the
    /// configuration, and names the first rule that is broken.
    pub fn validate(&self) -> (r: Result<(), ConfigError>)
        ensures
            r == check_domains(self@, 0),
    {
        let mut i: usize = 0;
        while i < self.domain.len()
            invariant
                i <= self.domain.len(),
                check_domains(self@, 0) == check_domains(self@, i as int),
            decreases self.domain.len() - i,
        {
            match self.domain[i].validate() {
                Err(e) => {
                    return Err(e);
                },
                Ok(_) => {},
            }
            i += 1;
        }
        Ok(())
    }
}

} // verus!

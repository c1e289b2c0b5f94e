use takina::address::{AddressSet, IPV4_ENDPOINT, IPV6_ENDPOINT};
use takina::args::TakinaArgs;
use takina::chars::{ascii_alphanumeric, only_name_chars};
use takina::config::{Domain, Record, RecordType};
use takina::outcome::{FatalCause, Level, Outcome, SkipReason};
use takina::request::{authorization, endpoint, Call};

#[test]
fn every_status_has_its_words() {
    assert_eq!(Outcome::Created.message(), "record created");
    assert_eq!(Outcome::AlreadyExisted.message(), "record already existed");
    assert_eq!(Outcome::Updated.message(), "record updated");
    assert_eq!(Outcome::NoChangeNeeded.message(), "no update needed");
    assert_eq!(Outcome::Skip(SkipReason::FamilyDisabled).message(), "family disabled");
    assert_eq!(Outcome::Skip(SkipReason::UnsupportedType).message(), "unsupported record type");
    assert_eq!(
        Outcome::Skip(SkipReason::DomainAborted(FatalCause::BadApiKey)).message(),
        "domain aborted"
    );
    assert_eq!(
        Outcome::Skip(SkipReason::DomainAborted(FatalCause::Forbidden)).message(),
        "domain aborted"
    );
    assert_eq!(Outcome::Skip(SkipReason::Conflict).message(), "conflict: record already exists");
    assert_eq!(Outcome::Skip(SkipReason::UnexpectedStatus(500)).message(), "unexpected status");
    assert_eq!(Outcome::Skip(SkipReason::TransportFailure).message(), "transport failure");
    assert_eq!(Outcome::Skip(SkipReason::MalformedResponse).message(), "malformed response");
    assert_eq!(SkipReason::FamilyDisabled.message(), "family disabled");
    assert_eq!(FatalCause::BadApiKey.message(), "bad API key");
    assert_eq!(FatalCause::Forbidden.message(), "forbidden");
}

#[test]
fn success_is_every_status_but_a_skip() {
    for outcome in [Outcome::Created, Outcome::AlreadyExisted, Outcome::Updated, Outcome::NoChangeNeeded] {
        assert!(outcome.is_success());
        assert_eq!(outcome.skip_reason(), None);
        assert_eq!(outcome.level(), Level::Info);
    }
    for reason in [
        SkipReason::FamilyDisabled,
        SkipReason::UnsupportedType,
        SkipReason::DomainAborted(FatalCause::Forbidden),
        SkipReason::Conflict,
        SkipReason::UnexpectedStatus(418),
        SkipReason::TransportFailure,
        SkipReason::MalformedResponse,
    ] {
        assert!(!Outcome::Skip(reason).is_success());
        assert_eq!(Outcome::Skip(reason).skip_reason(), Some(reason));
    }
}

#[test]
fn disabled_family_is_a_warning_and_other_skips_are_errors() {
    assert_eq!(Outcome::Skip(SkipReason::FamilyDisabled).level(), Level::Warn);
    assert_eq!(Outcome::Skip(SkipReason::UnsupportedType).level(), Level::Error);
    assert_eq!(Outcome::Skip(SkipReason::Conflict).level(), Level::Error);
    assert_eq!(Outcome::Skip(SkipReason::TransportFailure).level(), Level::Error);
    assert_eq!(Outcome::Skip(SkipReason::DomainAborted(FatalCause::BadApiKey)).level(), Level::Error);
}

#[test]
fn endpoint_names_domain_record_and_type() {
    let domain = Domain::new("example.com".to_string(), "secret".to_string(), Vec::new());
    let record = Record::new("www".to_string(), "AAAA".to_string(), 300);
    assert_eq!(
        endpoint(&domain, &record),
        "https://api.gandi.net/v5/livedns/domains/example.com/records/www/AAAA"
    );
    let apex = Record::new("@".to_string(), "A".to_string(), 300);
    assert_eq!(endpoint(&domain, &apex), "https://api.gandi.net/v5/livedns/domains/example.com/records/@/A");
}

#[test]
fn authorization_carries_the_key() {
    let domain = Domain::new("example.com".to_string(), "s3cr3t".to_string(), Vec::new());
    assert_eq!(authorization(&domain), "Apikey s3cr3t");
    let empty = Domain::new("example.com".to_string(), String::new(), Vec::new());
    assert_eq!(authorization(&empty), "Apikey ");
}

#[test]
fn each_call_has_its_method() {
    assert_eq!(Call::Fetch.method(), "GET");
    assert_eq!(Call::Create.method(), "POST");
    assert_eq!(Call::Update.method(), "PUT");
}

#[test]
fn address_set_keeps_each_family_apart() {
    let set = AddressSet::resolve(Some("203.0.113.5".to_string()), None);
    assert_eq!(set.address(RecordType::A), Some(&"203.0.113.5".to_string()));
    assert_eq!(set.address(RecordType::Aaaa), None);
    assert!(!set.is_disabled(RecordType::A));
    assert!(set.is_disabled(RecordType::Aaaa));
    let set = AddressSet::resolve(None, Some("2001:db8::5".to_string()));
    assert_eq!(set.address(RecordType::A), None);
    assert_eq!(set.address(RecordType::Aaaa), Some(&"2001:db8::5".to_string()));
    assert_eq!(set.ipv4, None);
    assert_eq!(set.ipv6, Some("2001:db8::5".to_string()));
}

#[test]
fn desired_value_is_the_address_of_the_family() {
    let set = AddressSet::resolve(Some("203.0.113.5".to_string()), None);
    let a = Record::new("www".to_string(), "A".to_string(), 300);
    let aaaa = Record::new("www".to_string(), "AAAA".to_string(), 300);
    let mx = Record::new("www".to_string(), "MX".to_string(), 300);
    assert_eq!(set.desired(&a), Ok(&"203.0.113.5".to_string()));
    assert_eq!(set.desired(&aaaa), Err(SkipReason::FamilyDisabled));
    assert_eq!(set.desired(&mx), Err(SkipReason::UnsupportedType));
}

#[test]
fn lookup_services_are_one_for_each_family() {
    assert_eq!(IPV4_ENDPOINT, "https://api4.ipify.org?format=txt");
    assert_eq!(IPV6_ENDPOINT, "https://api6.ipify.org?format=txt");
}

#[test]
fn configuration_path_falls_back_to_the_working_directory() {
    let given = TakinaArgs { config: Some("/etc/takina.toml".to_string()), check: true };
    assert_eq!(given.config_path(), "/etc/takina.toml");
    let none = TakinaArgs { config: None, check: false };
    assert_eq!(none.config_path(), "./takina.toml");
    assert_eq!(TakinaArgs::default().config_path(), "./takina.toml");
}

#[test]
fn letters_and_digits_are_alphanumeric() {
    for c in ['0', '9', 'a', 'z', 'A', 'Z', 'm', '5'] {
        assert!(ascii_alphanumeric(c));
    }
    for c in ['/', ':', '@', '[', '`', '{', ' ', '.', '-', '_', 'é', 'ß', '٣'] {
        assert!(!ascii_alphanumeric(c));
    }
}

#[test]
fn names_admit_one_further_character() {
    assert!(only_name_chars("", '.'));
    assert!(only_name_chars("example.com", '.'));
    assert!(!only_name_chars("example.com", '@'));
    assert!(only_name_chars("@", '@'));
    assert!(!only_name_chars("a b", '.'));
}

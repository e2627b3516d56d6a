use rustfs::host::{configure_host, HostError};
use s3s::host::{DomainError, S3Host};

fn domains(names: &[&str]) -> Vec<String> {
    names.iter().map(|name| name.to_string()).collect()
}

fn error_of(names: &[&str]) -> HostError {
    match configure_host(&domains(names)) {
        Ok(_) => panic!("accepted"),
        Err(error) => error,
    }
}

#[test]
fn without_domains_none_are_configured() {
    assert!(matches!(configure_host(&Vec::new()), Ok(None)));
}

#[test]
fn domains_are_kept() {
    let hosts = configure_host(&domains(&["example.com", "example.org:9000"])).unwrap().unwrap();
    let host = hosts.parse_host_header("bucket.example.com").unwrap();
    assert_eq!(host.domain(), "example.com");
    assert_eq!(host.bucket(), Some("bucket"));
    let host = hosts.parse_host_header("example.org:9000").unwrap();
    assert_eq!(host.domain(), "example.org:9000");
    assert_eq!(host.bucket(), None);
}

#[test]
fn invalid_domains_are_refused() {
    for name in ["", ".", "example..com", "example.com.", "exa mple.com", "example.com:", "example.com:99999"] {
        assert_eq!(error_of(&[name]), HostError::InvalidDomain, "{name:?}");
        assert_eq!(error_of(&["example.net", name]), HostError::InvalidDomain, "{name:?}");
    }
}

#[test]
fn overlapping_domains_are_refused() {
    assert_eq!(error_of(&["example.com", "example.com"]), HostError::OverlappingSubdomains);
    assert_eq!(error_of(&["example.com", "s3.example.com"]), HostError::OverlappingSubdomains);
    assert_eq!(error_of(&["s3.example.com", "example.com"]), HostError::OverlappingSubdomains);
    assert!(configure_host(&domains(&["example.com", "example.com.org"])).is_ok());
}

#[test]
fn errors_have_the_words_of_their_cause() {
    assert_eq!(HostError::InvalidDomain.message(), DomainError::InvalidDomain.to_string());
    assert_eq!(HostError::OverlappingSubdomains.message(), DomainError::OverlappingSubdomains.to_string());
    assert_eq!(HostError::ZeroDomains.message(), DomainError::ZeroDomains.to_string());
}

#[test]
fn first_domain_at_fault_decides() {
    assert_eq!(error_of(&["example.com", "example.com", "?"]), HostError::OverlappingSubdomains);
    assert_eq!(error_of(&["example.com", "?", "example.com"]), HostError::InvalidDomain);
    assert_eq!(error_of(&["?", "?"]), HostError::InvalidDomain);
    assert_eq!(error_of(&["a.org", "b.org", "x.a.org"]), HostError::OverlappingSubdomains);
}

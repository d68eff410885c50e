use ddns_updater::config::{Algorithm, Tsig};
use ddns_updater::credential::{Credential, CredentialError, DEFAULT_FUDGE};
use ddns_updater::error::Error;
use hickory_client::proto::dnssec::rdata::tsig::TsigAlgorithm;
use hickory_client::proto::dnssec::tsig::TSigner;
use hickory_client::proto::rr::Name;
use std::str::FromStr;

fn key(algorithm: Algorithm) -> Tsig {
    Tsig { name: "unused".to_string(), algorithm, secret: vec![1, 2, 3, 4, 5, 6, 7, 8] }
}

#[test]
fn fudge_is_300_seconds() {
    assert_eq!(DEFAULT_FUDGE, 300);
}

#[test]
fn credential_holds_the_key_under_the_updated_name() {
    let c = Credential::new(&key(Algorithm::HmacSha256), "host.example.com").unwrap();
    assert_eq!(c.name, "host.example.com");
    assert_eq!(c.algorithm, Algorithm::HmacSha256);
    assert_eq!(c.secret, vec![1, 2, 3, 4, 5, 6, 7, 8]);
    assert_eq!(c.fudge, 300);
}

#[test]
fn signer_is_made_from_the_same_values() {
    let c = Credential::new(&key(Algorithm::HmacSha512), "host.example.com").unwrap();
    assert_eq!(c.signer.key(), &[1u8, 2, 3, 4, 5, 6, 7, 8][..]);
    assert_eq!(c.signer.fudge(), 300);
    assert_eq!(*c.signer.algorithm(), TsigAlgorithm::HmacSha512);
    assert_eq!(*c.signer.signer_name(), Name::from_str("host.example.com.").unwrap());
}

#[test]
fn every_algorithm_is_accepted() {
    let c = Credential::new(&key(Algorithm::HmacSha256), "h.example.com").unwrap();
    assert_eq!(*c.signer.algorithm(), TsigAlgorithm::HmacSha256);
    let c = Credential::new(&key(Algorithm::HmacSha384), "h.example.com").unwrap();
    assert_eq!(*c.signer.algorithm(), TsigAlgorithm::HmacSha384);
    assert_eq!(c.algorithm, Algorithm::HmacSha384);
    let c = Credential::new(&key(Algorithm::HmacSha512), "h.example.com").unwrap();
    assert_eq!(*c.signer.algorithm(), TsigAlgorithm::HmacSha512);
}

#[test]
fn name_with_a_space_is_no_domain_name() {
    match Credential::new(&key(Algorithm::HmacSha256), "bad name") {
        Err(CredentialError::InvalidName(text, _)) => assert_eq!(text, "bad name"),
        _ => panic!("a name with a space was accepted"),
    }
}

#[test]
fn name_with_an_overlong_label_is_no_domain_name() {
    let label = "a".repeat(64);
    let name = format!("{}.example.com", label);
    assert!(Name::from_str(&name).is_err());
    match Credential::new(&key(Algorithm::HmacSha256), &name) {
        Err(CredentialError::InvalidName(text, _)) => assert_eq!(text, name),
        _ => panic!("a label of 64 characters was accepted"),
    }
}

#[test]
fn validity_is_that_of_the_dns_library() {
    for name in ["host.example.com", "host", "host.example.com.", "a b", "x\ty", "_srv.example.com"] {
        assert_eq!(
            Credential::new(&key(Algorithm::HmacSha256), name).is_ok(),
            Name::from_str(name).is_ok()
        );
    }
}

#[test]
fn accepted_signer_finishes_the_credential() {
    let made = Credential::new(&key(Algorithm::HmacSha256), "host.example.com").unwrap();
    let tsig = key(Algorithm::HmacSha384);
    let c = Credential::from_signer(&tsig, "other.example.com", Ok(made.signer)).unwrap();
    assert_eq!(c.name, "other.example.com");
    assert_eq!(c.algorithm, Algorithm::HmacSha384);
    assert_eq!(c.secret, vec![1, 2, 3, 4, 5, 6, 7, 8]);
    assert_eq!(c.fudge, 300);
}

#[test]
fn rejected_signer_is_reported() {
    let name = Name::from_str("host.example.com").unwrap();
    let refused = TSigner::new(vec![1, 2, 3], TsigAlgorithm::HmacMd5, name, 300);
    assert!(refused.is_err());
    match Credential::from_signer(&key(Algorithm::HmacSha256), "host.example.com", refused) {
        Err(CredentialError::Rejected(_)) => {}
        _ => panic!("a refused key gave a credential"),
    }
}

#[test]
fn refused_key_fails_the_run_as_a_credential_error() {
    let name = Name::from_str("host.example.com").unwrap();
    let refused = TSigner::new(vec![1, 2, 3], TsigAlgorithm::HmacMd5, name, 300);
    let e = match Credential::from_signer(&key(Algorithm::HmacSha256), "host.example.com", refused)
    {
        Err(e) => e,
        Ok(_) => panic!("a refused key gave a credential"),
    };
    assert!(matches!(Error::from_credential(e), Error::Credential(_)));
}

#[test]
fn invalid_name_fails_the_run_as_a_hostname_error() {
    let e = match Credential::new(&key(Algorithm::HmacSha256), "bad name") {
        Err(e) => e,
        Ok(_) => panic!("a name with a space was accepted"),
    };
    match Error::from_credential(e) {
        Error::InvalidHostnameDns(text, _) => assert_eq!(text, "bad name"),
        _ => panic!("an invalid name was not reported as such"),
    }
}

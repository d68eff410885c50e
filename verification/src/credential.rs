//! The signing credential of a run: one key, built once, shared by every attempt.

use crate::config::{Algorithm, Tsig};
use hickory_client::proto::dnssec::rdata::tsig::TsigAlgorithm;
use hickory_client::proto::dnssec::tsig::TSigner;
use hickory_client::proto::dnssec::DnsSecError;
use hickory_client::proto::rr::Name;
use hickory_client::proto::ProtoError;
use std::str::FromStr;
use vstd::prelude::*;

verus! {

/// Clock skew that the server tolerates on a signed message, in seconds.
pub const DEFAULT_FUDGE: u16 = 300;

/// A parsed domain name of the DNS library. Opaque here: it is carried, never read.
#[verifier::external_type_specification]
#[verifier::external_body]
pub struct ExName(Name);

/// The DNS library's general error. Opaque here.
#[verifier::external_type_specification]
#[verifier::external_body]
pub struct ExProtoError(ProtoError);

/// The DNS library's message signer. Opaque here.
#[verifier::external_type_specification]
#[verifier::external_body]
pub struct ExTSigner(TSigner);

/// The DNS library's error for signing and validation. Opaque here.
#[verifier::external_type_specification]
#[verifier::external_body]
pub struct ExDnsSecError(DnsSecError);

/// What the DNS library reads `text` as: the domain name, or nothing where `text` is
/// none.
pub uninterp spec fn parsed_name(text: Seq<char>) -> Option<Name>;

/// The signer that the DNS library makes for a key: its secret, the algorithm of its
/// codes, its name, and the clock skew that it tolerates.
pub uninterp spec fn signer_made(
    secret: Seq<u8>,
    algorithm: Algorithm,
    signer_name: Name,
    fudge: u16,
) -> TSigner;

/// Whether the DNS library reads `text` as a domain name.
pub open spec fn dns_name_valid(text: Seq<char>) -> bool {
    parsed_name(text) is Some
}

/// `Name::from_str`: reads `text` as a domain name. What it gives depends on the text
/// alone: the name called `parsed_name`, or an error where there is none.
#[verifier::external_body]
fn parse_name(text: &str) -> (r: Result<Name, ProtoError>)
    ensures
        (r is Ok) <==> (parsed_name(text@) is Some),
        r is Ok ==> r->Ok_0 == parsed_name(text@)->Some_0,
{
    Name::from_str(text)
}

/// `TSigner::new`: the signer for the given key, called `signer_made`. It rejects only
/// an algorithm that it cannot compute, and it computes all three of `Algorithm`.
#[verifier::external_body]
fn new_signer(secret: Vec<u8>, algorithm: Algorithm, signer_name: Name, fudge: u16) -> (r: Result<
    TSigner,
    DnsSecError,
>)
    ensures
        r is Ok,
        r->Ok_0 == signer_made(secret@, algorithm, signer_name, fudge),
{
    let algorithm = match algorithm {
        Algorithm::HmacSha256 => TsigAlgorithm::HmacSha256,
        Algorithm::HmacSha384 => TsigAlgorithm::HmacSha384,
        Algorithm::HmacSha512 => TsigAlgorithm::HmacSha512,
    };
    TSigner::new(secret, algorithm, signer_name, fudge)
}

/// Why no credential could be built.
#[derive(Debug)]
pub enum CredentialError {
    /// The key's name is not a domain name.
    InvalidName(String, ProtoError),
    /// The signer refused the key.
    Rejected(DnsSecError),
}

/// The key that signs every message of a run.
pub struct Credential {
    /// Name of the key: the name being updated.
    pub name: String,
    pub algorithm: Algorithm,
    pub secret: Vec<u8>,
    /// Clock skew that the server tolerates, in seconds.
    pub fudge: u16,
    /// The signer made from the four values above; sessions are signed with it.
    pub signer: TSigner,
}

impl Credential {
    /// The plain values of a credential for the key `tsig` under the name `name`.
    pub open spec fn describes(self, tsig: Tsig, name: Seq<char>) -> bool {
        &&& self.name@ == name
        &&& self.algorithm == tsig.algorithm
        &&& self.secret@ == tsig.secret@
        &&& self.fudge == DEFAULT_FUDGE
    }

    /// The credential of the key `tsig` under the name `name`: its plain values, and
    /// the signer that the DNS library makes from them.
    pub open spec fn made_for(self, tsig: Tsig, name: Seq<char>) -> bool {
        &&& self.describes(tsig, name)
        &&& parsed_name(name) is Some
        &&& self.signer == signer_made(
            tsig.secret@,
            tsig.algorithm,
            parsed_name(name)->Some_0,
            DEFAULT_FUDGE,
        )
    }

    /// Finishes a credential from what the signer's constructor returned.
    pub fn from_signer(tsig: &Tsig, name: &str, signer: Result<TSigner, DnsSecError>) -> (r: Result<
        Credential,
        CredentialError,
    >)
        ensures
            signer is Ok <==> r is Ok,
            r matches Ok(c) ==> c.describes(*tsig, name@) && Ok::<TSigner, DnsSecError>(c.signer)
                == signer,
            r matches Err(e) ==> e matches CredentialError::Rejected(cause) && Err::<
                TSigner,
                DnsSecError,
            >(cause) == signer,
    {
        match signer {
            Ok(signer) => Ok(
                Credential {
                    name: name.to_owned(),
                    algorithm: tsig.algorithm,
                    secret: tsig.secret.clone(),
                    fudge: DEFAULT_FUDGE,
                    signer,
                },
            ),
            Err(cause) => Err(CredentialError::Rejected(cause)),
        }
    }

    /// Builds the credential of a run: the key `tsig`, named after the name that is
    /// updated, with the signer made from the key's secret and algorithm, that name and
    /// the fixed clock skew. Succeeds exactly when `name` is a domain name.
    pub fn new(tsig: &Tsig, name: &str) -> (r: Result<Credential, CredentialError>)
        ensures
            r is Ok <==> dns_name_valid(name@),
            r matches Ok(c) ==> c.made_for(*tsig, name@),
            r matches Err(e) ==> e matches CredentialError::InvalidName(text, _) && text@ == name@,
    {
        match parse_name(name) {
            Err(cause) => Err(CredentialError::InvalidName(name.to_owned(), cause)),
            Ok(signer_name) => {
                let signer = new_signer(
                    tsig.secret.clone(),
                    tsig.algorithm,
                    signer_name,
                    DEFAULT_FUDGE,
                );
                Credential::from_signer(tsig, name, signer)
            },
        }
    }
}

} // verus!

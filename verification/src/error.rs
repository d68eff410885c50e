//! Why a run, or one attempt of it, did not succeed.

use crate::credential::CredentialError;
use crate::server::Endpoint;
use hickory_client::proto::dnssec::DnsSecError;
use hickory_client::proto::ProtoError;
use vstd::prelude::*;

verus! {

/// Response code of a server that carried out what it was asked.
pub const NO_ERROR: u16 = 0;

/// The failures of a run. Texts are the reasons that the system or the transport gave.
#[derive(Debug)]
pub enum Error {
    /// The name server's host name did not resolve.
    ResolveDnsHost(String, String),
    /// The name server's host name resolved to no address: there is no candidate.
    NoServerAddress(String),
    /// The interfaces could not be listed, or none carries the route to the server.
    Interface(crate::iface::Error),
    /// No interface of this name is up.
    InterfaceNotFound(String),
    /// The local host name is no text; it is given as far as it can be read.
    InvalidHostnameUtf8(String),
    /// The name to update is not a domain name.
    InvalidHostnameDns(String, ProtoError),
    /// The signer refused the configured key.
    Credential(DnsSecError),
    /// No session with the server could be opened.
    ClientCreate(Endpoint, String),
    /// A request to the server got no response.
    ClientQuery(Endpoint, String),
    /// The server named no zone for the name.
    AuthoritativeZoneNotFound(String),
    /// The server answered with a response code other than "no error".
    BadResponse(u16),
}

impl Error {
    /// The failure of a run for want of a credential.
    pub open spec fn spec_from_credential(e: CredentialError) -> Error {
        match e {
            CredentialError::InvalidName(text, cause) => Error::InvalidHostnameDns(text, cause),
            CredentialError::Rejected(cause) => Error::Credential(cause),
        }
    }

    /// The failure of a run for want of a credential.
    pub fn from_credential(e: CredentialError) -> (r: Error)
        ensures
            r == Error::spec_from_credential(e),
    {
        match e {
            CredentialError::InvalidName(text, cause) => Error::InvalidHostnameDns(text, cause),
            CredentialError::Rejected(cause) => Error::Credential(cause),
        }
    }
}

} // verus!

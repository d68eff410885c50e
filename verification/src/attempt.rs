//! One attempt: the update against one candidate, from finding the interface to
//! judging the server's response.
//!
//! Like the run, an attempt does no network call itself: each step names the one
//! thing to do next, and its `resume` takes the answer.

use crate::config::Config;
use crate::dns::{
    replace_addrs, replace_addrs_message, soa_query, soa_question, Query, UpdateTransaction,
};
use crate::error::{Error, NO_ERROR};
use crate::iface::{addrs_named, first_with_address, has_address};
use crate::ip::{filter_suitable, suitable_only, IpAddr};
use crate::run::{Candidates, Prepared};
use crate::server::Endpoint;
use vstd::prelude::*;

verus! {

/// Waiting for the local address of a connection to the server.
pub struct NeedRoute {
    pub server: Endpoint,
}

/// Waiting for a signed session with the server.
pub struct NeedSession {
    pub server: Endpoint,
    /// The addresses to publish.
    pub addrs: Vec<IpAddr>,
}

/// Waiting for the server's answer to the question which zone holds the name.
pub struct NeedZone {
    pub server: Endpoint,
    /// What to ask the server: the start of authority of the name to update.
    pub question: Query,
    /// The addresses to publish.
    pub addrs: Vec<IpAddr>,
}

/// Waiting for the server's response to the update.
pub struct NeedResponse {
    pub server: Endpoint,
    /// The update to submit.
    pub transaction: UpdateTransaction,
}

/// What an attempt does next.
pub enum AttemptStep {
    /// Connect to the server, note the local address, and close the connection.
    ProbeRoute(NeedRoute),
    /// Open a session with the server, signed with the run's credential.
    OpenSession(NeedSession),
    /// Put the step's question to the server, over the session.
    QueryZone(NeedZone),
    /// Submit the transaction.
    Submit(NeedResponse),
    /// The attempt is over.
    Done(Result<(), Error>),
}

/// What follows once the interface is known: a session is opened for its suitable
/// addresses, in the snapshot's order; an interface that the snapshot does not know
/// ends the attempt.
pub open spec fn selects_addresses(
    r: AttemptStep,
    prepared: Prepared,
    server: Endpoint,
    iface: Seq<char>,
) -> bool {
    if prepared.inventory.knows(iface) {
        r matches AttemptStep::OpenSession(n) && n.server == server && n.addrs@ == suitable_only(
            addrs_named(prepared.inventory.ifaces@, iface),
        )
    } else {
        r matches AttemptStep::Done(Err(Error::InterfaceNotFound(name))) && name@ == iface
    }
}

/// What follows once the zone is known: the transaction that replaces the name's
/// address records by `addrs` is submitted.
pub open spec fn submits(
    r: AttemptStep,
    config: Config,
    prepared: Prepared,
    server: Endpoint,
    addrs: Seq<IpAddr>,
    zone: Seq<char>,
) -> bool {
    r matches AttemptStep::Submit(n) && n.server == server && n.transaction@ == replace_addrs(
        zone,
        prepared.name@,
        config.global.ttl.0,
        addrs,
        n.transaction.id,
    )
}

/// Picks the addresses of the interface `iface` that may be published.
fn select_addresses(prepared: &Prepared, server: Endpoint, iface: &str) -> (r: AttemptStep)
    ensures
        selects_addresses(r, *prepared, server, iface@),
{
    match prepared.inventory.get_addrs_by_name(iface) {
        None => AttemptStep::Done(Err(Error::InterfaceNotFound(iface.to_owned()))),
        Some(addrs) => AttemptStep::OpenSession(
            NeedSession { server, addrs: filter_suitable(&addrs) },
        ),
    }
}

/// Builds the transaction for `zone`.
fn build_message(
    config: &Config,
    prepared: &Prepared,
    server: Endpoint,
    addrs: &Vec<IpAddr>,
    zone: &str,
) -> (r: AttemptStep)
    ensures
        submits(r, *config, *prepared, server, addrs@, zone@),
{
    let transaction = replace_addrs_message(
        zone,
        prepared.name.as_str(),
        config.global.ttl.0,
        addrs.as_slice(),
    );
    AttemptStep::Submit(NeedResponse { server, transaction })
}

impl Candidates {
    /// Begins the attempt against the current candidate. With a configured interface
    /// its addresses are selected at once; else the route to the server is probed.
    pub fn begin(&self, config: &Config) -> (r: AttemptStep)
        ensures
            match config.global.interface {
                Some(iface) => selects_addresses(r, self.prepared, self.server, iface@),
                None => r matches AttemptStep::ProbeRoute(n) && n.server == self.server,
            },
    {
        match &config.global.interface {
            Some(iface) => select_addresses(&self.prepared, self.server, iface.as_str()),
            None => AttemptStep::ProbeRoute(NeedRoute { server: self.server }),
        }
    }
}

impl NeedRoute {
    /// Takes the local address of the probe connection, or the reason why none was
    /// made. The addresses are those of the first interface that holds the local
    /// address; a failed probe, or an address that no interface holds, ends the attempt.
    pub fn resume(self, prepared: &Prepared, probed: Result<IpAddr, String>) -> (r: AttemptStep)
        ensures
            match probed {
                Err(cause) => r matches AttemptStep::Done(
                    Err(Error::Interface(crate::iface::Error::Connection(s, c))),
                ) && s == self.server && c == cause,
                Ok(ip) => if has_address(prepared.inventory.ifaces@, ip) {
                    exists|i: int|
                        first_with_address(prepared.inventory.ifaces@, ip, i) && selects_addresses(
                            r,
                            *prepared,
                            self.server,
                            prepared.inventory.ifaces@[i].name@,
                        )
                } else {
                    r matches AttemptStep::Done(
                        Err(Error::Interface(crate::iface::Error::InterfaceNotFound(a))),
                    ) && a == ip
                },
            },
    {
        match prepared.inventory.get_iface_by_tcp_source_ip(self.server, probed) {
            Err(e) => AttemptStep::Done(Err(Error::Interface(e))),
            Ok(iface) => select_addresses(prepared, self.server, iface),
        }
    }
}

impl NeedSession {
    /// Takes the news of the session: opened, or the reason why not, which ends the
    /// attempt. With a configured zone the update is built for it; else the server is
    /// asked for the start of authority of the name to update.
    pub fn resume(self, config: &Config, prepared: &Prepared, opened: Result<(), String>) -> (r:
        AttemptStep)
        ensures
            match opened {
                Err(cause) => r matches AttemptStep::Done(Err(Error::ClientCreate(s, c))) && s
                    == self.server && c == cause,
                Ok(()) => match config.global.zone {
                    Some(zone) => submits(r, *config, *prepared, self.server, self.addrs@, zone@),
                    None => r matches AttemptStep::QueryZone(n) && n.server == self.server
                        && n.question@ == soa_question(prepared.name@) && n.addrs == self.addrs,
                },
            },
    {
        match opened {
            Err(cause) => AttemptStep::Done(Err(Error::ClientCreate(self.server, cause))),
            Ok(()) => match &config.global.zone {
                Some(zone) => build_message(
                    config,
                    prepared,
                    self.server,
                    &self.addrs,
                    zone.as_str(),
                ),
                None => AttemptStep::QueryZone(
                    NeedZone {
                        server: self.server,
                        question: soa_query(prepared.name.as_str()),
                        addrs: self.addrs,
                    },
                ),
            },
        }
    }
}

impl NeedZone {
    /// Takes the owner names of the records in the authority section of the server's
    /// answer, in order, or the reason why there was no answer. The zone is the first
    /// of them; no answer, or an empty authority section, ends the attempt.
    pub fn resume(
        self,
        config: &Config,
        prepared: &Prepared,
        authority: Result<Vec<String>, String>,
    ) -> (r: AttemptStep)
        ensures
            match authority {
                Err(cause) => r matches AttemptStep::Done(Err(Error::ClientQuery(s, c))) && s
                    == self.server && c == cause,
                Ok(owners) => if owners@.len() == 0 {
                    r matches AttemptStep::Done(Err(Error::AuthoritativeZoneNotFound(name)))
                        && name@ == prepared.name@
                } else {
                    submits(r, *config, *prepared, self.server, self.addrs@, owners@[0]@)
                },
            },
    {
        match authority {
            Err(cause) => AttemptStep::Done(Err(Error::ClientQuery(self.server, cause))),
            Ok(owners) => {
                if owners.len() == 0 {
                    AttemptStep::Done(
                        Err(Error::AuthoritativeZoneNotFound(prepared.name.clone())),
                    )
                } else {
                    build_message(config, prepared, self.server, &self.addrs, owners[0].as_str())
                }
            },
        }
    }
}

/// How an attempt ends on the server's response code: "no error" is success, any
/// other code a failure that carries it.
pub open spec fn judged(code: u16) -> Result<(), Error> {
    if code == NO_ERROR {
        Ok(())
    } else {
        Err(Error::BadResponse(code))
    }
}

impl NeedResponse {
    /// Takes the response code of the server, or the reason why there was no
    /// response. Either way the attempt is over.
    pub fn resume(self, response: Result<u16, String>) -> (r: AttemptStep)
        ensures
            match response {
                Err(cause) => r matches AttemptStep::Done(Err(Error::ClientQuery(s, c))) && s
                    == self.server && c == cause,
                Ok(code) => r == AttemptStep::Done(judged(code)),
            },
    {
        match response {
            Err(cause) => AttemptStep::Done(Err(Error::ClientQuery(self.server, cause))),
            Ok(code) => {
                if code == NO_ERROR {
                    AttemptStep::Done(Ok(()))
                } else {
                    AttemptStep::Done(Err(Error::BadResponse(code)))
                }
            },
        }
    }
}

} // verus!

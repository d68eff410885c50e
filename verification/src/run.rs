//! The run: resolve the name server, prepare what every attempt shares, and try the
//! server's addresses one after another until one of them accepts the update.
//!
//! The run does no network or system call itself. Each step names the one thing to do
//! next; the caller does it and hands the answer to the step's `resume`.

use crate::config::{Config, Protocol};
use crate::credential::{dns_name_valid, Credential};
use crate::error::Error;
use crate::iface::{Interface, Interfaces};
use crate::server::{
    endpoints, server_with_port, spec_endpoints, spec_server_with_port, Endpoint, SocketAddr,
};
use vstd::prelude::*;

verus! {

/// What is made once and shared by every attempt of a run.
pub struct Prepared {
    /// The interfaces as they were when the run began.
    pub inventory: Interfaces,
    /// The name whose address records are replaced.
    pub name: String,
    /// The key that signs every session of the run.
    pub credential: Credential,
}

/// Waiting for the name server's addresses.
pub struct NeedServers {
    /// What to resolve: the name server with its port.
    pub server: String,
    /// The transport that sessions with the resolved addresses use.
    pub protocol: Protocol,
}

/// Waiting for the list of interfaces.
pub struct NeedInterfaces {
    /// The candidate to try first.
    pub first: Endpoint,
    /// All candidates, in the order in which resolution gave them.
    pub servers: Vec<Endpoint>,
}

/// Waiting for the local host name.
pub struct NeedHostname {
    /// The candidate to try first.
    pub first: Endpoint,
    /// All candidates, in the order in which resolution gave them.
    pub servers: Vec<Endpoint>,
    pub inventory: Interfaces,
}

/// Waiting for the outcome of the attempt against `server`.
pub struct Candidates {
    /// The candidate that is being tried.
    pub server: Endpoint,
    /// All candidates, in the order in which resolution gave them.
    pub servers: Vec<Endpoint>,
    /// Index of the candidate to try if this one fails.
    pub next: usize,
    pub prepared: Prepared,
}

/// What a run does next.
pub enum RunStep {
    /// Resolve the name server into its addresses.
    ResolveServers(NeedServers),
    /// List the interfaces that are up.
    EnumerateInterfaces(NeedInterfaces),
    /// Read the local host name.
    ReadHostname(NeedHostname),
    /// Attempt the update against one candidate.
    Attempt(Candidates),
    /// The run is over.
    Done(Result<(), Error>),
}

/// Begins a run: the name server is resolved first.
pub fn start(config: &Config) -> (r: RunStep)
    ensures
        r matches RunStep::ResolveServers(n) && n.protocol == config.global.protocol && n.server@
            == spec_server_with_port(config.global.name_server@, crate::config::DNS_PORT),
{
    RunStep::ResolveServers(
        NeedServers {
            server: server_with_port(config.global.name_server.as_str(), config.global.protocol),
            protocol: config.global.protocol,
        },
    )
}

/// What follows once the name to update is known: the attempt against the first
/// candidate where the name is a domain name, with the credential built for it; else
/// the end of the run.
pub open spec fn begins_attempts(
    r: RunStep,
    first: Endpoint,
    servers: Vec<Endpoint>,
    inventory: Interfaces,
    name: Seq<char>,
    config: Config,
) -> bool {
    if dns_name_valid(name) {
        r matches RunStep::Attempt(c) && c.server == first && c.servers == servers && c.next == 1
            && c.prepared.inventory == inventory && c.prepared.name@ == name
            && c.prepared.credential.made_for(config.tsig, name)
    } else {
        r matches RunStep::Done(Err(Error::InvalidHostnameDns(text, _))) && text@ == name
    }
}

/// Builds the credential for `name` and begins with the first candidate.
fn with_name(
    first: Endpoint,
    servers: Vec<Endpoint>,
    inventory: Interfaces,
    name: &str,
    config: &Config,
) -> (r: RunStep)
    ensures
        begins_attempts(r, first, servers, inventory, name@, *config),
{
    match Credential::new(&config.tsig, name) {
        Err(e) => RunStep::Done(Err(Error::from_credential(e))),
        Ok(credential) => RunStep::Attempt(
            Candidates {
                server: first,
                servers,
                next: 1,
                prepared: Prepared { inventory, name: name.to_owned(), credential },
            },
        ),
    }
}

impl NeedServers {
    /// Takes the addresses that the name server resolved to, in the resolver's order,
    /// or the reason why it did not resolve. An unresolved server ends the run in
    /// failure; so does one that resolved to no address, for no candidate is left
    /// that could accept the update.
    pub fn resume(self, resolved: Result<Vec<SocketAddr>, String>) -> (r: RunStep)
        ensures
            match resolved {
                Err(cause) => r matches RunStep::Done(Err(Error::ResolveDnsHost(s, c))) && s
                    == self.server && c == cause,
                Ok(list) => if list@.len() == 0 {
                    r matches RunStep::Done(Err(Error::NoServerAddress(s))) && s == self.server
                } else {
                    r matches RunStep::EnumerateInterfaces(n) && n.servers@ == spec_endpoints(
                        list@,
                        self.protocol,
                    ) && n.first == n.servers@[0]
                },
            },
    {
        match resolved {
            Err(cause) => RunStep::Done(Err(Error::ResolveDnsHost(self.server, cause))),
            Ok(list) => {
                if list.len() == 0 {
                    RunStep::Done(Err(Error::NoServerAddress(self.server)))
                } else {
                    let servers = endpoints(&list, self.protocol);
                    RunStep::EnumerateInterfaces(NeedInterfaces { first: servers[0], servers })
                }
            },
        }
    }
}

impl NeedInterfaces {
    /// Takes the system's list of interfaces, or the reason why it gave none, which
    /// ends the run. With a configured host name the first attempt follows, else the
    /// local host name is read.
    pub fn resume(self, config: &Config, queried: Result<Vec<Interface>, String>) -> (r: RunStep)
        ensures
            match queried {
                Err(cause) => r matches RunStep::Done(
                    Err(Error::Interface(crate::iface::Error::QueryInterface(c))),
                ) && c == cause,
                Ok(list) => match config.global.hostname {
                    None => r matches RunStep::ReadHostname(n) && n.first == self.first
                        && n.servers == self.servers && n.inventory.ifaces == list,
                    Some(name) => begins_attempts(
                        r,
                        self.first,
                        self.servers,
                        Interfaces { ifaces: list },
                        name@,
                        *config,
                    ),
                },
            },
    {
        match Interfaces::new(queried) {
            Err(e) => RunStep::Done(Err(Error::Interface(e))),
            Ok(inventory) => match &config.global.hostname {
                Some(name) => with_name(
                    self.first,
                    self.servers,
                    inventory,
                    name.as_str(),
                    config,
                ),
                None => RunStep::ReadHostname(
                    NeedHostname { first: self.first, servers: self.servers, inventory },
                ),
            },
        }
    }
}

impl NeedHostname {
    /// Takes the local host name, or, where it is no text, what can be read of it.
    /// A host name that is a domain name becomes the name to update and the first
    /// attempt follows; any other ends the run.
    pub fn resume(self, config: &Config, hostname: Result<String, String>) -> (r: RunStep)
        ensures
            match hostname {
                Err(unreadable) => r matches RunStep::Done(Err(Error::InvalidHostnameUtf8(t)))
                    && t == unreadable,
                Ok(name) => begins_attempts(
                    r,
                    self.first,
                    self.servers,
                    self.inventory,
                    name@,
                    *config,
                ),
            },
    {
        match hostname {
            Err(unreadable) => RunStep::Done(Err(Error::InvalidHostnameUtf8(unreadable))),
            Ok(name) => with_name(
                self.first,
                self.servers,
                self.inventory,
                name.as_str(),
                config,
            ),
        }
    }
}

impl Candidates {
    /// What follows the outcome of the attempt against the current candidate: success
    /// ends the run; a failure is handed on when it was the last candidate's, else it
    /// is dropped and the next candidate is tried.
    pub open spec fn after(self, outcome: Result<(), Error>) -> RunStep {
        match outcome {
            Ok(()) => RunStep::Done(Ok(())),
            Err(e) => if self.next < self.servers@.len() {
                RunStep::Attempt(
                    Candidates {
                        server: self.servers@[self.next as int],
                        servers: self.servers,
                        next: (self.next + 1) as usize,
                        prepared: self.prepared,
                    },
                )
            } else {
                RunStep::Done(Err(e))
            },
        }
    }

    /// Takes the outcome of the attempt against the current candidate.
    pub fn resume(self, outcome: Result<(), Error>) -> (r: RunStep)
        ensures
            r == self.after(outcome),
    {
        match outcome {
            Ok(()) => RunStep::Done(Ok(())),
            Err(e) => {
                if self.next < self.servers.len() {
                    let server = self.servers[self.next];
                    RunStep::Attempt(
                        Candidates {
                            server,
                            servers: self.servers,
                            next: self.next + 1,
                            prepared: self.prepared,
                        },
                    )
                } else {
                    RunStep::Done(Err(e))
                }
            },
        }
    }
}

/// Where a run stands after the attempts, from the one against `c.server` on, have
/// had `outcomes`, one candidate each and in order. Outcomes that are left when the
/// run is over belong to attempts that are never made.
pub open spec fn run_from(c: Candidates, outcomes: Seq<Result<(), Error>>) -> RunStep
    decreases outcomes.len(),
{
    if outcomes.len() == 0 {
        RunStep::Attempt(c)
    } else {
        match c.after(outcomes[0]) {
            RunStep::Attempt(n) => run_from(n, outcomes.skip(1)),
            over => over,
        }
    }
}

/// Candidates are tried in the order of resolution: after `outcomes.len()` failures
/// with a candidate still left, the next in the list is tried, and what the attempts
/// share is as it was.
pub proof fn lemma_failures_advance(c: Candidates, outcomes: Seq<Result<(), Error>>)
    requires
        forall|j: int| 0 <= j < outcomes.len() ==> outcomes[j] is Err,
        outcomes.len() > 0,
        c.next + outcomes.len() <= c.servers@.len(),
    ensures
        run_from(c, outcomes) == RunStep::Attempt(
            Candidates {
                server: c.servers@[c.next + outcomes.len() - 1],
                servers: c.servers,
                next: (c.next + outcomes.len()) as usize,
                prepared: c.prepared,
            },
        ),
    decreases outcomes.len(),
{
    assert(c.servers.len() == c.servers@.len());
    let n = c.after(outcomes[0])->Attempt_0;
    if outcomes.len() == 1 {
        assert(run_from(n, outcomes.skip(1)) == RunStep::Attempt(n));
    } else {
        lemma_failures_advance(n, outcomes.skip(1));
    }
}

/// The first success ends the run with success: whatever failed before is forgotten,
/// and no candidate after it is tried, whatever its attempt would have given.
pub proof fn lemma_first_success_ends_run(
    c: Candidates,
    outcomes: Seq<Result<(), Error>>,
    k: int,
)
    requires
        0 <= k < outcomes.len(),
        outcomes[k] is Ok,
        forall|j: int| 0 <= j < k ==> outcomes[j] is Err,
        c.next + k <= c.servers@.len(),
    ensures
        run_from(c, outcomes) == RunStep::Done(Ok(())),
    decreases k,
{
    assert(c.servers.len() == c.servers@.len());
    if k > 0 {
        let n = c.after(outcomes[0])->Attempt_0;
        lemma_first_success_ends_run(n, outcomes.skip(1), k - 1);
    }
}

/// Where every candidate fails, the run fails with the failure of the last one.
pub proof fn lemma_all_failed_reports_last(c: Candidates, outcomes: Seq<Result<(), Error>>)
    requires
        forall|j: int| 0 <= j < outcomes.len() ==> outcomes[j] is Err,
        c.next <= c.servers@.len(),
        outcomes.len() == c.servers@.len() - c.next + 1,
    ensures
        run_from(c, outcomes) == RunStep::Done(outcomes.last()),
    decreases outcomes.len(),
{
    assert(c.servers.len() == c.servers@.len());
    if c.next < c.servers@.len() {
        let n = c.after(outcomes[0])->Attempt_0;
        lemma_all_failed_reports_last(n, outcomes.skip(1));
        assert(outcomes.skip(1).last() == outcomes.last());
    } else {
        assert(outcomes.last() == outcomes[0]);
    }
}

/// A run succeeds exactly when some candidate succeeds: with an outcome for the
/// current candidate and for each one after it, the run is over, and its result is
/// success if and only if one of the outcomes is.
pub proof fn lemma_success_iff_a_candidate_succeeds(
    c: Candidates,
    outcomes: Seq<Result<(), Error>>,
)
    requires
        c.next <= c.servers@.len(),
        outcomes.len() == c.servers@.len() - c.next + 1,
    ensures
        run_from(c, outcomes) matches RunStep::Done(result) && (result is Ok <==> exists|k: int|
            0 <= k < outcomes.len() && outcomes[k] is Ok),
    decreases outcomes.len(),
{
    assert(c.servers.len() == c.servers@.len());
    if outcomes[0] is Err {
        if c.next < c.servers@.len() {
            let n = c.after(outcomes[0])->Attempt_0;
            let rest = outcomes.skip(1);
            lemma_success_iff_a_candidate_succeeds(n, rest);
            if exists|k: int| 0 <= k < outcomes.len() && outcomes[k] is Ok {
                let k = choose|k: int| 0 <= k < outcomes.len() && outcomes[k] is Ok;
                assert(rest[k - 1] is Ok);
            }
            if exists|k: int| 0 <= k < rest.len() && rest[k] is Ok {
                let k = choose|k: int| 0 <= k < rest.len() && rest[k] is Ok;
                assert(outcomes[k + 1] is Ok);
            }
        }
    }
}

} // verus!

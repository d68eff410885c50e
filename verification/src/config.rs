//! Settings of one run, as plain values. Reading them from a file is the caller's business.

use std::time::Duration;
use vstd::prelude::*;

verus! {

/// Time to live of published records when none is configured, in seconds.
pub const DEFAULT_TTL: u32 = 300;

/// Time allowed for each network round trip when none is configured, in seconds.
pub const DEFAULT_TIMEOUT: u64 = 5;

/// The port that name servers listen on.
pub const DNS_PORT: u16 = 53;

/// Time to live of the published address records, in seconds.
#[derive(Clone, Copy, Debug, PartialEq, Eq, Structural)]
pub struct Ttl(pub u32);

impl Default for Ttl {
    fn default() -> (r: Self)
        ensures
            r.0 == DEFAULT_TTL,
    {
        Self(DEFAULT_TTL)
    }
}

/// Time allowed for each network round trip, in whole seconds.
#[derive(Clone, Copy, Debug, PartialEq, Eq, Structural)]
pub struct Timeout(pub u64);

/// The length of a `Duration`, in nanoseconds.
pub uninterp spec fn duration_nanos(d: Duration) -> nat;

/// `Duration::from_secs`: a duration of exactly `secs` whole seconds.
#[verifier::external_body]
fn duration_from_secs(secs: u64) -> (r: Duration)
    ensures
        duration_nanos(r) == secs as nat * 1_000_000_000,
{
    Duration::from_secs(secs)
}

impl Timeout {
    /// The time limit as a `Duration`.
    pub fn to_duration(self) -> (r: Duration)
        ensures
            duration_nanos(r) == self.0 as nat * 1_000_000_000,
    {
        duration_from_secs(self.0)
    }
}

impl Default for Timeout {
    fn default() -> (r: Self)
        ensures
            r.0 == DEFAULT_TIMEOUT,
    {
        Self(DEFAULT_TIMEOUT)
    }
}

/// Transport that carries the DNS session.
#[derive(Clone, Copy, Debug, PartialEq, Eq, Structural)]
pub enum Protocol {
    Tcp,
    Udp,
}

impl Protocol {
    /// The port used when the name server is configured without one.
    pub fn default_port(self) -> (r: u16)
        ensures
            r == DNS_PORT,
    {
        DNS_PORT
    }
}

impl Default for Protocol {
    fn default() -> (r: Self)
        ensures
            r == Protocol::Udp,
    {
        Self::Udp
    }
}

/// How much the run reports about itself.
#[derive(Clone, Copy, Debug, PartialEq, Eq, Structural)]
pub enum LogLevel {
    Info,
    Debug,
    Trace,
}

impl Default for LogLevel {
    fn default() -> (r: Self)
        ensures
            r == LogLevel::Info,
    {
        Self::Info
    }
}

impl LogLevel {
    /// The level's name as a logging filter writes it.
    pub open spec fn spec_name(self) -> Seq<char> {
        match self {
            LogLevel::Info => "info"@,
            LogLevel::Debug => "debug"@,
            LogLevel::Trace => "trace"@,
        }
    }

    /// The level's name as a logging filter writes it: `info`, `debug` or `trace`.
    pub fn as_str(self) -> (r: &'static str)
        ensures
            r@ == self.spec_name(),
    {
        match self {
            Self::Info => "info",
            Self::Debug => "debug",
            Self::Trace => "trace",
        }
    }
}

/// Settings that are not specific to the signing key.
#[derive(Debug)]
pub struct Global {
    /// Host name or address of the name server, with or without a port.
    pub name_server: String,
    /// The zone that holds the name; discovered from each server when absent.
    pub zone: Option<String>,
    /// The name to update; the local host name when absent.
    pub hostname: Option<String>,
    pub ttl: Ttl,
    pub timeout: Timeout,
    pub protocol: Protocol,
    /// The interface whose addresses are published; found by routing when absent.
    pub interface: Option<String>,
    pub log_level: LogLevel,
}

/// Message authentication code of the signing key.
#[derive(Clone, Copy, Debug, PartialEq, Eq, Structural)]
pub enum Algorithm {
    HmacSha256,
    HmacSha384,
    HmacSha512,
}

/// The signing key as configured.
#[derive(Debug)]
pub struct Tsig {
    pub name: String,
    pub algorithm: Algorithm,
    pub secret: Vec<u8>,
}

/// Everything a run is configured with.
#[derive(Debug)]
pub struct Config {
    pub global: Global,
    pub tsig: Tsig,
}

} // verus!

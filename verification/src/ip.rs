//! Address selection: which addresses of an interface are worth publishing.
//!
//! Addresses are held as plain integers in network order, so that a prefix such as
//! `169.254.0.0/16` is a statement about the leading octets of the number.

use vstd::prelude::*;

verus! {

/// An IPv4 address, held as its 32 bits in network order (most significant octet first).
#[derive(Clone, Copy, Debug, PartialEq, Eq, Structural, Hash)]
pub struct Ipv4Addr {
    pub bits: u32,
}

/// An IPv6 address, held as its 128 bits in network order (most significant segment first).
#[derive(Clone, Copy, Debug, PartialEq, Eq, Structural, Hash)]
pub struct Ipv6Addr {
    pub bits: u128,
}

/// An address of either family.
#[derive(Clone, Copy, Debug, PartialEq, Eq, Structural, Hash)]
pub enum IpAddr {
    V4(Ipv4Addr),
    V6(Ipv6Addr),
}

/// The number that the four octets `a.b.c.d` stand for.
pub open spec fn v4_bits(a: u8, b: u8, c: u8, d: u8) -> int {
    a as int * 0x100_0000 + b as int * 0x1_0000 + c as int * 0x100 + d as int
}

/// The number that eight 16-bit segments stand for, the first being the most significant.
pub open spec fn v6_bits(s: Seq<u16>) -> int
    recommends
        s.len() == 8,
{
    s[0] as int * 0x1_0000_0000_0000_0000_0000_0000_0000
        + s[1] as int * 0x1_0000_0000_0000_0000_0000_0000
        + s[2] as int * 0x1_0000_0000_0000_0000_0000
        + s[3] as int * 0x1_0000_0000_0000_0000
        + s[4] as int * 0x1_0000_0000_0000
        + s[5] as int * 0x1_0000_0000
        + s[6] as int * 0x1_0000
        + s[7] as int
}

impl Ipv4Addr {
    /// The first (most significant) octet.
    pub open spec fn first_octet(self) -> int {
        self.bits as int / 0x100_0000
    }

    /// The second octet.
    pub open spec fn second_octet(self) -> int {
        (self.bits as int / 0x1_0000) % 0x100
    }

    /// `224.0.0.0/4`.
    pub open spec fn spec_is_multicast(self) -> bool {
        224 <= self.first_octet() <= 239
    }

    /// `127.0.0.0/8`.
    pub open spec fn spec_is_loopback(self) -> bool {
        self.first_octet() == 127
    }

    /// `169.254.0.0/16`.
    pub open spec fn spec_is_link_local(self) -> bool {
        self.first_octet() == 169 && self.second_octet() == 254
    }

    /// `255.255.255.255`.
    pub open spec fn spec_is_broadcast(self) -> bool {
        self.bits == 0xFFFF_FFFFu32
    }

    /// The address `a.b.c.d`.
    pub fn new(a: u8, b: u8, c: u8, d: u8) -> (r: Self)
        ensures
            r.bits as int == v4_bits(a, b, c, d),
    {
        let high: u32 = (a as u32) * 0x100_0000 + (b as u32) * 0x1_0000;
        let low: u32 = (c as u32) * 0x100 + (d as u32);
        Ipv4Addr { bits: high + low }
    }

    /// The four octets, most significant first.
    pub fn octets(self) -> (r: (u8, u8, u8, u8))
        ensures
            v4_bits(r.0, r.1, r.2, r.3) == self.bits as int,
            r.0 as int == self.first_octet(),
            r.1 as int == self.second_octet(),
    {
        let a: u32 = self.bits / 0x100_0000;
        let b: u32 = (self.bits / 0x1_0000) % 0x100;
        let c: u32 = (self.bits / 0x100) % 0x100;
        let d: u32 = self.bits % 0x100;
        (a as u8, b as u8, c as u8, d as u8)
    }

    #[verifier::when_used_as_spec(spec_is_multicast)]
    pub fn is_multicast(self) -> (r: bool)
        ensures
            r == self.spec_is_multicast(),
    {
        let a: u32 = self.bits / 0x100_0000;
        224 <= a && a <= 239
    }

    #[verifier::when_used_as_spec(spec_is_loopback)]
    pub fn is_loopback(self) -> (r: bool)
        ensures
            r == self.spec_is_loopback(),
    {
        self.bits / 0x100_0000 == 127
    }

    #[verifier::when_used_as_spec(spec_is_link_local)]
    pub fn is_link_local(self) -> (r: bool)
        ensures
            r == self.spec_is_link_local(),
    {
        self.bits / 0x100_0000 == 169 && (self.bits / 0x1_0000) % 0x100 == 254
    }

    #[verifier::when_used_as_spec(spec_is_broadcast)]
    pub fn is_broadcast(self) -> (r: bool)
        ensures
            r == self.spec_is_broadcast(),
    {
        self.bits == 0xFFFF_FFFFu32
    }
}

impl Ipv6Addr {
    /// The first (most significant) 16-bit segment.
    pub open spec fn first_segment(self) -> int {
        self.bits as int / 0x1_0000_0000_0000_0000_0000_0000_0000
    }

    /// `fe80::/10`.
    pub open spec fn spec_is_unicast_link_local(self) -> bool {
        0xfe80 <= self.first_segment() <= 0xfebf
    }

    /// `::1`.
    pub open spec fn spec_is_loopback(self) -> bool {
        self.bits == 1u128
    }

    /// `ff00::/8`.
    pub open spec fn spec_is_multicast(self) -> bool {
        0xff00 <= self.first_segment()
    }

    /// The address whose eight segments are `s`, most significant first.
    pub fn new(s: [u16; 8]) -> (r: Self)
        ensures
            r.bits as int == v6_bits(s@),
    {
        let s0: u128 = (s[0] as u128) * 0x1_0000_0000_0000_0000_0000_0000_0000;
        let s1: u128 = (s[1] as u128) * 0x1_0000_0000_0000_0000_0000_0000;
        let s2: u128 = (s[2] as u128) * 0x1_0000_0000_0000_0000_0000;
        let s3: u128 = (s[3] as u128) * 0x1_0000_0000_0000_0000;
        let s4: u128 = (s[4] as u128) * 0x1_0000_0000_0000;
        let s5: u128 = (s[5] as u128) * 0x1_0000_0000;
        let s6: u128 = (s[6] as u128) * 0x1_0000;
        let s7: u128 = s[7] as u128;
        Ipv6Addr { bits: s0 + s1 + s2 + s3 + s4 + s5 + s6 + s7 }
    }

    #[verifier::when_used_as_spec(spec_is_unicast_link_local)]
    pub fn is_unicast_link_local_compat(self) -> (r: bool)
        ensures
            r == self.spec_is_unicast_link_local(),
    {
        let s: u128 = self.bits / 0x1_0000_0000_0000_0000_0000_0000_0000;
        0xfe80 <= s && s <= 0xfebf
    }

    #[verifier::when_used_as_spec(spec_is_loopback)]
    pub fn is_loopback(self) -> (r: bool)
        ensures
            r == self.spec_is_loopback(),
    {
        self.bits == 1u128
    }

    #[verifier::when_used_as_spec(spec_is_multicast)]
    pub fn is_multicast(self) -> (r: bool)
        ensures
            r == self.spec_is_multicast(),
    {
        self.bits / 0x1_0000_0000_0000_0000_0000_0000_0000 >= 0xff00
    }
}

/// An IPv4 address is published unless it is multicast, loopback, link-local or the
/// broadcast address.
pub open spec fn suitable_v4(ip: Ipv4Addr) -> bool {
    !ip.spec_is_multicast() && !ip.spec_is_loopback() && !ip.spec_is_link_local()
        && !ip.spec_is_broadcast()
}

/// An IPv6 address is published unless it is unicast link-local, loopback or multicast.
pub open spec fn suitable_v6(ip: Ipv6Addr) -> bool {
    !ip.spec_is_unicast_link_local() && !ip.spec_is_loopback() && !ip.spec_is_multicast()
}

/// Whether an address may be published in the DNS.
pub open spec fn suitable(ip: IpAddr) -> bool {
    match ip {
        IpAddr::V4(a) => suitable_v4(a),
        IpAddr::V6(a) => suitable_v6(a),
    }
}

pub fn is_suitable_ipv4(ip: Ipv4Addr) -> (r: bool)
    ensures
        r == suitable_v4(ip),
{
    !ip.is_multicast() && !ip.is_loopback() && !ip.is_link_local() && !ip.is_broadcast()
}

pub fn is_suitable_ipv6(ip: Ipv6Addr) -> (r: bool)
    ensures
        r == suitable_v6(ip),
{
    !ip.is_unicast_link_local_compat() && !ip.is_loopback() && !ip.is_multicast()
}

/// Decides whether `ip` may be published. Total: every address gets an answer.
pub fn is_suitable_ip(ip: IpAddr) -> (r: bool)
    ensures
        r == suitable(ip),
{
    match ip {
        IpAddr::V4(a) => is_suitable_ipv4(a),
        IpAddr::V6(a) => is_suitable_ipv6(a),
    }
}

/// The suitable addresses among `addrs`, in their order.
pub open spec fn suitable_only(addrs: Seq<IpAddr>) -> Seq<IpAddr> {
    addrs.filter(|ip: IpAddr| suitable(ip))
}

/// Keeps the suitable addresses of `addrs`, in their order.
pub fn filter_suitable(addrs: &Vec<IpAddr>) -> (r: Vec<IpAddr>)
    ensures
        r@ == suitable_only(addrs@),
{
    let mut out: Vec<IpAddr> = Vec::new();
    let mut i: usize = 0;
    proof {
        assert(addrs@.take(0) =~= Seq::<IpAddr>::empty());
    }
    while i < addrs.len()
        invariant
            i <= addrs.len(),
            out@ == suitable_only(addrs@.take(i as int)),
        decreases addrs.len() - i,
    {
        let ip = addrs[i];
        proof {
            let pred = |ip: IpAddr| suitable(ip);
            let before = addrs@.take(i as int);
            assert(addrs@.take(i as int + 1) =~= before.push(ip));
            assert(before.push(ip).drop_last() =~= before);
            reveal(Seq::filter);
            assert(before.push(ip).filter(pred) == if pred(ip) {
                before.filter(pred).push(ip)
            } else {
                before.filter(pred)
            });
        }
        if is_suitable_ip(ip) {
            out.push(ip);
        }
        i += 1;
    }
    proof {
        assert(addrs@.take(addrs.len() as int) =~= addrs@);
    }
    out
}

/// An IPv4 address written by its octets is suitable exactly when it lies in none of
/// `224.0.0.0/4`, `127.0.0.0/8`, `169.254.0.0/16` and is not `255.255.255.255`.
pub proof fn lemma_suitable_v4_by_octets(a: u8, b: u8, c: u8, d: u8)
    ensures
        0 <= v4_bits(a, b, c, d) <= u32::MAX,
        suitable(IpAddr::V4(Ipv4Addr { bits: v4_bits(a, b, c, d) as u32 })) <==> {
            &&& !(224 <= a <= 239)
            &&& a != 127
            &&& !(a == 169 && b == 254)
            &&& !(a == 255 && b == 255 && c == 255 && d == 255)
        },
{
}

/// An IPv6 address written by its segments is suitable exactly when it lies in none of
/// `fe80::/10` and `ff00::/8` and is not `::1`.
pub proof fn lemma_suitable_v6_by_segments(s: Seq<u16>)
    requires
        s.len() == 8,
    ensures
        0 <= v6_bits(s) <= u128::MAX,
        suitable(IpAddr::V6(Ipv6Addr { bits: v6_bits(s) as u128 })) <==> {
            &&& (s[0] & 0xffc0) != 0xfe80
            &&& (s[0] & 0xff00) != 0xff00
            &&& s != seq![0u16, 0u16, 0u16, 0u16, 0u16, 0u16, 0u16, 1u16]
        },
{
    let h = s[0];
    assert(((h & 0xffc0) == 0xfe80) <==> (0xfe80 <= h <= 0xfebf)) by (bit_vector);
    assert(((h & 0xff00) == 0xff00) <==> (0xff00 <= h)) by (bit_vector);
    let one = seq![0u16, 0u16, 0u16, 0u16, 0u16, 0u16, 0u16, 1u16];
    if s[0] == 0 && s[1] == 0 && s[2] == 0 && s[3] == 0 && s[4] == 0 && s[5] == 0 && s[6] == 0
        && s[7] == 1 {
        assert(s =~= one);
    } else {
        assert(one[0] == 0 && one[1] == 0 && one[2] == 0 && one[3] == 0 && one[4] == 0 && one[5]
            == 0 && one[6] == 0 && one[7] == 1);
    }
}

} // verus!

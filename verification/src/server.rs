//! The configured name server: where it is reached, and in which order its
//! addresses are tried.

use crate::config::Protocol;
use crate::ip::IpAddr;
use vstd::prelude::*;
use vstd::string::StrSliceExecFns;
use vstd::string::StringExecFns;

verus! {

/// An address and a port, as host name resolution gives them.
#[derive(Clone, Copy, Debug, PartialEq, Eq, Structural, Hash)]
pub struct SocketAddr {
    pub ip: IpAddr,
    pub port: u16,
}

/// One candidate: an address of the name server, its port, and the transport that
/// the session with it uses.
#[derive(Clone, Copy, Debug, PartialEq, Eq, Structural)]
pub struct Endpoint {
    pub ip: IpAddr,
    pub port: u16,
    pub protocol: Protocol,
}

/// The candidate at a resolved address.
pub open spec fn endpoint_at(addr: SocketAddr, protocol: Protocol) -> Endpoint {
    Endpoint { ip: addr.ip, port: addr.port, protocol }
}

/// The candidates at the resolved addresses, in the resolver's order.
pub open spec fn spec_endpoints(resolved: Seq<SocketAddr>, protocol: Protocol) -> Seq<Endpoint> {
    resolved.map_values(|addr: SocketAddr| endpoint_at(addr, protocol))
}

/// The character that stands for a decimal digit.
pub open spec fn digit_char(d: nat) -> char
    recommends
        d < 10,
{
    if d == 0 {
        '0'
    } else if d == 1 {
        '1'
    } else if d == 2 {
        '2'
    } else if d == 3 {
        '3'
    } else if d == 4 {
        '4'
    } else if d == 5 {
        '5'
    } else if d == 6 {
        '6'
    } else if d == 7 {
        '7'
    } else if d == 8 {
        '8'
    } else {
        '9'
    }
}

/// A number in decimal, without leading zeros.
pub open spec fn decimal(n: nat) -> Seq<char>
    decreases n,
{
    if n < 10 {
        seq![digit_char(n)]
    } else {
        decimal(n / 10).push(digit_char(n % 10))
    }
}

/// How many colons `text` holds.
pub open spec fn colons(text: Seq<char>) -> nat
    decreases text.len(),
{
    if text.len() == 0 {
        0
    } else {
        colons(text.drop_last()) + if text.last() == ':' {
            1nat
        } else {
            0nat
        }
    }
}

/// Whether `text` opens with a bracket, as an address literal written with its port does.
pub open spec fn bracketed(text: Seq<char>) -> bool {
    text.len() > 0 && text[0] == '['
}

/// Whether a closing bracket in `text` has a colon directly behind it.
pub open spec fn port_after_bracket(text: Seq<char>) -> bool {
    exists|i: int| 0 <= i && i + 1 < text.len() && #[trigger] text[i] == ']' && text[i + 1] == ':'
}

/// Whether the configured server names its port: `host:port` with its single colon, or
/// a bracketed literal with a colon and a port behind the closing bracket.
pub open spec fn names_port(text: Seq<char>) -> bool {
    if bracketed(text) {
        port_after_bracket(text)
    } else {
        colons(text) == 1
    }
}

/// Whether the configured server is an address literal written bare: several colons
/// and no bracket in front. Its colons belong to the address; none of them sets off a port.
pub open spec fn bare_literal(text: Seq<char>) -> bool {
    !bracketed(text) && colons(text) >= 2
}

/// The text handed to host name resolution: the configured server as it is when it
/// names a port; else with the default port after a colon, a bare address literal
/// being put in brackets first.
pub open spec fn spec_server_with_port(name_server: Seq<char>, port: u16) -> Seq<char> {
    if names_port(name_server) {
        name_server
    } else if bare_literal(name_server) {
        seq!['['] + name_server + seq![']', ':'] + decimal(port as nat)
    } else {
        name_server + seq![':'] + decimal(port as nat)
    }
}

/// One decimal digit as text.
fn digit_str(d: u16) -> (r: &'static str)
    requires
        d < 10,
    ensures
        r@ == seq![digit_char(d as nat)],
{
    proof {
        reveal_strlit("0");
        reveal_strlit("1");
        reveal_strlit("2");
        reveal_strlit("3");
        reveal_strlit("4");
        reveal_strlit("5");
        reveal_strlit("6");
        reveal_strlit("7");
        reveal_strlit("8");
        reveal_strlit("9");
    }
    let r = match d {
        0 => "0",
        1 => "1",
        2 => "2",
        3 => "3",
        4 => "4",
        5 => "5",
        6 => "6",
        7 => "7",
        8 => "8",
        _ => "9",
    };
    assert(r@ =~= seq![digit_char(d as nat)]);
    r
}

/// A port number in decimal.
pub fn port_text(port: u16) -> (r: String)
    ensures
        r@ == decimal(port as nat),
    decreases port,
{
    if port < 10 {
        digit_str(port).to_owned()
    } else {
        let mut text = port_text(port / 10);
        let last = digit_str(port % 10);
        text.append(last);
        assert(text@ =~= decimal(port as nat / 10).push(digit_char(port as nat % 10)));
        text
    }
}

/// Counts the colons of `text`.
fn count_colons(text: &str) -> (r: usize)
    ensures
        r == colons(text@),
{
    let n = text.unicode_len();
    let mut count: usize = 0;
    let mut i: usize = 0;
    proof {
        assert(text@.take(0) =~= Seq::<char>::empty());
    }
    while i < n
        invariant
            n == text@.len(),
            i <= n,
            count <= i,
            count == colons(text@.take(i as int)),
        decreases n - i,
    {
        proof {
            assert(text@.take(i as int + 1).drop_last() =~= text@.take(i as int));
        }
        if text.get_char(i) == ':' {
            count += 1;
        }
        i += 1;
    }
    proof {
        assert(text@.take(n as int) =~= text@);
    }
    count
}

/// Looks for a closing bracket with a colon directly behind it.
fn closes_before_port(text: &str) -> (r: bool)
    ensures
        r == port_after_bracket(text@),
{
    let n = text.unicode_len();
    let mut i: usize = 0;
    while i < n && i + 1 < n
        invariant
            n == text@.len(),
            forall|j: int| 0 <= j < i && j + 1 < n ==> !(#[trigger] text@[j] == ']' && text@[j + 1]
                == ':'),
        decreases n - i,
    {
        if text.get_char(i) == ']' && text.get_char(i + 1) == ':' {
            return true;
        }
        i += 1;
    }
    false
}

/// Whether the configured server names its port.
pub fn has_port(text: &str) -> (r: bool)
    ensures
        r == names_port(text@),
{
    if text.unicode_len() > 0 && text.get_char(0) == '[' {
        closes_before_port(text)
    } else {
        count_colons(text) == 1
    }
}

/// Whether the configured server is an address literal without brackets.
pub fn is_bare_literal(text: &str) -> (r: bool)
    ensures
        r == bare_literal(text@),
{
    if text.unicode_len() > 0 && text.get_char(0) == '[' {
        false
    } else {
        count_colons(text) >= 2
    }
}

/// The name server as host name resolution takes it: unchanged when it names a port,
/// else with the protocol's default port, and in brackets where it is a bare address
/// literal.
pub fn server_with_port(name_server: &str, protocol: Protocol) -> (r: String)
    ensures
        r@ == spec_server_with_port(name_server@, crate::config::DNS_PORT),
{
    if has_port(name_server) {
        return name_server.to_owned();
    }
    let port = port_text(protocol.default_port());
    proof {
        reveal_strlit(":");
        reveal_strlit("[");
        reveal_strlit("]:");
    }
    if is_bare_literal(name_server) {
        let mut text = "[".to_owned();
        text.append(name_server);
        text.append("]:");
        text.append(port.as_str());
        assert(text@ =~= seq!['['] + name_server@ + seq![']', ':'] + decimal(
            crate::config::DNS_PORT as nat,
        ));
        text
    } else {
        let mut text = name_server.to_owned();
        text.append(":");
        text.append(port.as_str());
        assert(text@ =~= name_server@ + seq![':'] + decimal(crate::config::DNS_PORT as nat));
        text
    }
}

/// The candidates of a run: one for each resolved address, in the resolver's order,
/// which is the order in which they are tried.
pub fn endpoints(resolved: &Vec<SocketAddr>, protocol: Protocol) -> (r: Vec<Endpoint>)
    ensures
        r@ == spec_endpoints(resolved@, protocol),
{
    let mut out: Vec<Endpoint> = Vec::new();
    let mut i: usize = 0;
    while i < resolved.len()
        invariant
            i <= resolved.len(),
            out@ =~= spec_endpoints(resolved@.take(i as int), protocol),
        decreases resolved.len() - i,
    {
        let addr = resolved[i];
        proof {
            assert(resolved@.take(i as int + 1) =~= resolved@.take(i as int).push(addr));
        }
        out.push(Endpoint { ip: addr.ip, port: addr.port, protocol });
        i += 1;
    }
    proof {
        assert(resolved@.take(resolved.len() as int) =~= resolved@);
    }
    out
}

/// A text holds no colon exactly when its count of colons is zero.
pub proof fn lemma_no_colon(text: Seq<char>)
    ensures
        colons(text) == 0 <==> !text.contains(':'),
    decreases text.len(),
{
    if text.len() > 0 {
        let front = text.drop_last();
        lemma_no_colon(front);
        if text.contains(':') {
            let k = choose|k: int| 0 <= k < text.len() && text[k] == ':';
            if k < front.len() {
                assert(front[k] == ':');
            }
        }
        if front.contains(':') {
            let k = choose|k: int| 0 <= k < front.len() && front[k] == ':';
            assert(text[k] == ':');
        }
        if text.last() == ':' {
            assert(text[text.len() - 1] == ':');
        }
    }
}

/// A name server that names its port is handed on as it is.
pub proof fn lemma_explicit_port_kept(name_server: Seq<char>, port: u16)
    requires
        names_port(name_server),
    ensures
        spec_server_with_port(name_server, port) == name_server,
{
}

/// A name server without a colon gets the default port: the result is the host, a
/// colon and `53`.
pub proof fn lemma_default_port_appended(name_server: Seq<char>)
    requires
        !name_server.contains(':'),
    ensures
        spec_server_with_port(name_server, 53) == name_server + seq![':', '5', '3'],
{
    lemma_no_colon(name_server);
    if port_after_bracket(name_server) {
        let i = choose|i: int|
            0 <= i && i + 1 < name_server.len() && #[trigger] name_server[i] == ']'
                && name_server[i + 1] == ':';
        assert(name_server.contains(name_server[i + 1]));
    }
    reveal_with_fuel(decimal, 3);
    assert(decimal(53) =~= seq!['5', '3']);
    assert(name_server + seq![':'] + seq!['5', '3'] =~= name_server + seq![':', '5', '3']);
}

/// A bare address literal gets brackets and the default port: its own colons are no
/// port.
pub proof fn lemma_bare_literal_bracketed(name_server: Seq<char>)
    requires
        bare_literal(name_server),
    ensures
        spec_server_with_port(name_server, 53) == seq!['['] + name_server + seq![
            ']',
            ':',
            '5',
            '3',
        ],
{
    reveal_with_fuel(decimal, 3);
    assert(decimal(53) =~= seq!['5', '3']);
    assert(seq!['['] + name_server + seq![']', ':'] + seq!['5', '3'] =~= seq!['['] + name_server
        + seq![']', ':', '5', '3']);
}

/// A bracketed literal without a port keeps its brackets and gets the default port.
pub proof fn lemma_bracketed_literal_gets_port(name_server: Seq<char>)
    requires
        bracketed(name_server),
        !port_after_bracket(name_server),
    ensures
        spec_server_with_port(name_server, 53) == name_server + seq![':', '5', '3'],
{
    reveal_with_fuel(decimal, 3);
    assert(decimal(53) =~= seq!['5', '3']);
    assert(name_server + seq![':'] + seq!['5', '3'] =~= name_server + seq![':', '5', '3']);
}

} // verus!

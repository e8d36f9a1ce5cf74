//! Server addresses: the host of a `host:port` text, and whether it is the
//! local machine.
use crate::text::{chars_of, eq_ignore_ascii_case, strip, text_of, Strippable};
use vstd::prelude::*;

verus! {

/// The text of an IPv4 address: its four parts in decimal, between dots.
pub open spec fn dotted(a: u8, b: u8, c: u8, d: u8) -> Seq<char> {
    crate::text::decimal(a as nat) + "."@ + crate::text::decimal(b as nat) + "."@
        + crate::text::decimal(c as nat) + "."@ + crate::text::decimal(d as nat)
}

/// `host` with a port in decimal behind it.
pub open spec fn with_port(host: Seq<char>, port: u16) -> Seq<char> {
    host + ":"@ + crate::text::decimal(port as nat)
}

/// Whether a character can stand in the text of an IP address.
pub open spec fn is_ip_char(c: char) -> bool {
    '0' <= c <= '9' || 'a' <= c <= 'f' || 'A' <= c <= 'F' || c == ':' || c == '.'
}

/// Whether a character can stand in the text of an IP address with a port.
pub open spec fn is_socket_char(c: char) -> bool {
    is_ip_char(c) || c == '[' || c == ']' || c == '%'
}

/// The IP address, as text, of a text that is an IP address with a port.
pub uninterp spec fn socket_ip(addr: Seq<char>) -> Option<Seq<char>>;

/// Whether a text that is an IP address is a loopback address; `None` where
/// the text is none.
pub uninterp spec fn ip_loopback(host: Seq<char>) -> Option<bool>;

/// `host` in brackets.
pub open spec fn bracketed(host: Seq<char>) -> Seq<char> {
    "["@ + host + "]"@
}

/// Whether a text has two colons.
pub open spec fn has_two_colons(text: Seq<char>) -> bool {
    exists|i: int, j: int|
        0 <= i < j < text.len() && #[trigger] text[i] == ':' && #[trigger] text[j] == ':'
}

/// Whether a character stands in some text of the IPv6 loopback address.
pub open spec fn is_ipv6_loopback_char(c: char) -> bool {
    c == '0' || c == '1' || c == ':' || c == '.'
}

/// What is known of the IP address of a text that may be one with a port: the
/// forms of an IPv4 address, and of the IPv6 loopback address in brackets;
/// that every such address begins with a digit or a bracket and has a colon
/// before its port, which is its only one without a bracket; that no text with
/// another character in it is one; and that an IPv6 address in brackets,
/// without a scope, has a canonical text with a colon, and is the loopback
/// address only where it is made of zeros, ones, colons and dots.
pub open spec fn socket_ip_is_plain(addr: Seq<char>, ip: Option<Seq<char>>) -> bool {
    &&& forall|a: u8, b: u8, c: u8, d: u8, port: u16|
        addr == #[trigger] with_port(dotted(a, b, c, d), port) ==> ip == Some(dotted(a, b, c, d))
    &&& forall|port: u16| addr == #[trigger] with_port("[::1]"@, port) ==> ip == Some("::1"@)
    &&& ip is Some ==> addr.len() > 0 && ('0' <= addr[0] <= '9' || addr[0] == '[')
    &&& ip is Some ==> addr.contains(':')
    &&& ip is Some && addr[0] != '[' ==> !has_two_colons(addr)
    &&& ip is Some ==> forall|i: int| 0 <= i < addr.len() ==> is_socket_char(#[trigger] addr[i])
    &&& forall|host: Seq<char>, port: u16|
        addr == #[trigger] with_port(bracketed(host), port) && ip is Some && !host.contains('%')
            ==> ip->Some_0.contains(':') && (ip_loopback(ip->Some_0) == Some(true)
            ==> forall|i: int| 0 <= i < host.len() ==> is_ipv6_loopback_char(#[trigger] host[i]))
}

/// `core::net::SocketAddr`'s `FromStr`, and `Display` of its `ip`.
///
/// What they give is a function of the text: a dotted IPv4 address followed by
/// a single colon and a decimal port, or a bracketed IPv6 address followed by
/// them, gives the address in its canonical text; other texts give none.
#[verifier::external_body]
fn parse_socket_ip(addr: &str) -> (ip: Option<String>)
    ensures
        crate::text::text_option_view(ip) == socket_ip(addr@),
        socket_ip_is_plain(addr@, crate::text::text_option_view(ip)),
{
    addr.parse::<core::net::SocketAddr>().ok().map(|socket| socket.ip().to_string())
}

/// What is known of whether a text is a loopback address: the loopback
/// addresses are `127.x.y.z` and the texts of `::1`, which are made of zeros,
/// ones, colons and dots, and no text that is empty or has another character
/// than an IP address has is an address.
pub open spec fn loopback_is_plain(host: Seq<char>, loopback: Option<bool>) -> bool {
    &&& forall|a: u8, b: u8, c: u8, d: u8|
        host == #[trigger] dotted(a, b, c, d) ==> loopback == Some(a == 127)
    &&& host == "::1"@ ==> loopback == Some(true)
    &&& loopback == Some(true) ==> (exists|b: u8, c: u8, d: u8|
        host == #[trigger] dotted(127, b, c, d)) || (forall|i: int|
        0 <= i < host.len() ==> is_ipv6_loopback_char(#[trigger] host[i]))
    &&& loopback is Some ==> host.len() > 0
    &&& loopback is Some ==> forall|i: int| 0 <= i < host.len() ==> is_ip_char(#[trigger] host[i])
}

/// `core::net::IpAddr`'s `FromStr` and `is_loopback`.
///
/// What they give is a function of the text. `is_loopback` holds of the IPv4
/// addresses in `127.0.0.0/8` and of the IPv6 address `::1`.
#[verifier::external_body]
fn parse_ip_loopback(host: &str) -> (loopback: Option<bool>)
    ensures
        loopback == ip_loopback(host@),
        loopback_is_plain(host@, loopback),
{
    host.parse::<core::net::IpAddr>().ok().map(|ip| ip.is_loopback())
}

/// Whether the first `i` characters of `addr` are a host without a colon and
/// without brackets.
pub open spec fn is_plain_host(addr: Seq<char>, i: int) -> bool {
    forall|j: int|
        0 <= j < i ==> #[trigger] addr[j] != ':' && addr[j] != '[' && addr[j] != ']'
}

/// Whether the first `i` characters of `addr` are a host in brackets.
pub open spec fn is_bracketed_host(addr: Seq<char>, i: int) -> bool {
    &&& addr[0] == '['
    &&& addr[i - 1] == ']'
    &&& forall|j: int| 0 < j < i - 1 ==> #[trigger] addr[j] != '[' && addr[j] != ']'
}

/// Whether `addr` is a host, a colon at position `i`, and a port of digits. A
/// host that has a colon itself stands in brackets.
pub open spec fn splits_at(addr: Seq<char>, i: int) -> bool {
    &&& 0 < i < addr.len() - 1
    &&& addr[i] == ':'
    &&& forall|j: int| i < j < addr.len() ==> '0' <= #[trigger] addr[j] <= '9'
    &&& is_plain_host(addr, i) || is_bracketed_host(addr, i)
}

/// `host` without brackets round it.
pub open spec fn unbracketed(host: Seq<char>) -> Seq<char> {
    crate::text::stripped_end(
        crate::text::stripped_start(host, Strippable::Just('[')),
        Strippable::Just(']'),
    )
}

/// The host of `addr`, given the IP address that parsing it found: that
/// address, or what stands before a colon and a port, without brackets, or
/// else all of `addr`.
pub open spec fn host_text(addr: Seq<char>, ip: Option<Seq<char>>) -> Seq<char> {
    match ip {
        Some(ip) => ip,
        None => if exists|i: int| splits_at(addr, i) {
            unbracketed(addr.take(choose|i: int| splits_at(addr, i)))
        } else {
            addr
        },
    }
}

/// Only the last colon of an address can have a port behind it.
proof fn lemma_split_is_unique(addr: Seq<char>, i: int, j: int)
    requires
        splits_at(addr, i),
        splits_at(addr, j),
    ensures
        i == j,
{
    if i < j {
        assert('0' <= addr[j] <= '9');
    } else if j < i {
        assert('0' <= addr[i] <= '9');
    }
}

/// Whether the first `to` characters are a host, in brackets or without a
/// colon.
fn is_host(chars: &Vec<char>, to: usize) -> (host: bool)
    requires
        0 < to <= chars.len(),
    ensures
        host == (is_plain_host(chars@, to as int) || is_bracketed_host(chars@, to as int)),
{
    let bracketed: bool = chars[0] == '[' && chars[to - 1] == ']';
    let from: usize = if bracketed { 1 } else { 0 };
    let end: usize = if bracketed { to - 1 } else { to };
    let mut j: usize = from;
    while j < end
        invariant
            0 < to <= chars.len(),
            bracketed == (chars[0] == '[' && chars[to - 1] == ']'),
            from == if bracketed { 1int } else { 0int },
            end == if bracketed { to - 1 } else { to as int },
            from <= j <= end,
            forall|k: int|
                from <= k < j ==> #[trigger] chars@[k] != '[' && chars@[k] != ']' && (chars@[k]
                    == ':' ==> bracketed),
        decreases end - j,
    {
        let c: char = chars[j];
        if c == '[' || c == ']' || (c == ':' && !bracketed) {
            assert(chars@[j as int] == c);
            assert(bracketed ==> chars@[0] == '[');
            return false;
        }
        j = j + 1;
    }
    assert(bracketed ==> is_bracketed_host(chars@, to as int));
    assert(!bracketed ==> is_plain_host(chars@, to as int));
    true
}

/// The host of `addr`, given the IP address that parsing it found; see
/// [`host_of`].
pub fn host_given(addr: &str, ip: Option<String>) -> (host: String)
    ensures
        host@ == host_text(addr@, crate::text::text_option_view(ip)),
{
    if let Some(ip) = ip {
        return ip;
    }
    let chars: Vec<char> = chars_of(addr);
    let mut i: usize = chars.len();
    while i > 0 && '0' <= chars[i - 1] && chars[i - 1] <= '9'
        invariant
            i <= chars.len(),
            chars@ == addr@,
            forall|j: int| i <= j < chars.len() ==> '0' <= #[trigger] addr@[j] <= '9',
        decreases i,
    {
        i = i - 1;
    }
    if i > 1 && i < chars.len() && chars[i - 1] == ':' && is_host(&chars, i - 1) {
        let host = text_of(&chars, 0, i - 1);
        proof {
            assert(splits_at(addr@, i - 1));
            let k = choose|k: int| splits_at(addr@, k);
            lemma_split_is_unique(addr@, i - 1, k);
            assert(host@ =~= addr@.take(k));
        }
        return strip(host.as_str(), Strippable::Just('['), Strippable::Just(']'));
    }
    proof {
        assert forall|k: int| !splits_at(addr@, k) by {
            if splits_at(addr@, k) {
                if k < i - 1 {
                    assert('0' <= addr@[i - 1] <= '9');
                } else if k >= i {
                    assert('0' <= addr@[k] <= '9');
                }
            }
        }
    }
    addr.to_string()
}

/// The host of a `host:port` address, or of `[host]:port` where the host is an
/// IPv6 address. An address of another form, such as a bare `::1`, is taken
/// for a host as a whole.
pub fn host_of(addr: &str) -> (host: String)
    ensures
        host@ == host_text(addr@, socket_ip(addr@)),
        socket_ip_is_plain(addr@, socket_ip(addr@)),
{
    host_given(addr, parse_socket_ip(addr))
}

/// A text with two colons and no bracket in front, such as a bare IPv6
/// address, is no host with a port: it is a host as a whole.
pub proof fn law_bare_colons_are_no_port(addr: Seq<char>, i: int, j: int)
    requires
        0 <= i < j < addr.len(),
        addr[i] == ':',
        addr[j] == ':',
        addr[0] != '[',
    ensures
        host_text(addr, None) == addr,
{
    assert forall|k: int| !splits_at(addr, k) by {
        if splits_at(addr, k) {
            if k < j {
                assert('0' <= addr[j] <= '9');
            }
            assert(addr[i] == ':');
        }
    }
}

/// Whether `host` is the local machine, given whether it is a loopback IP
/// address.
pub open spec fn is_local(host: Seq<char>, loopback: Option<bool>) -> bool {
    crate::text::same_ignoring_ascii_case(host, "localhost"@) || loopback == Some(true)
}

/// Whether `host` is the local machine, given whether it is a loopback IP
/// address; see [`is_loopback_host`].
pub fn is_local_given(host: &str, loopback: Option<bool>) -> (local: bool)
    ensures
        local == is_local(host@, loopback),
        local <==> host@.map_values(|c: char| crate::text::ascii_lower(c)) == "localhost"@
            || loopback == Some(true),
{
    proof {
        law_local_is_localhost_or_loopback(host@, loopback);
    }
    if eq_ignore_ascii_case(host, "localhost") {
        return true;
    }
    match loopback {
        Some(loopback) => loopback,
        None => false,
    }
}

/// Whether `host` is the local machine: `localhost`, in upper or lower case,
/// or a loopback IP address.
pub fn is_loopback_host(host: &str) -> (local: bool)
    ensures
        local == is_local(host@, ip_loopback(host@)),
        local <==> host@.map_values(|c: char| crate::text::ascii_lower(c)) == "localhost"@
            || ip_loopback(host@) == Some(true),
        loopback_is_plain(host@, ip_loopback(host@)),
{
    is_local_given(host, parse_ip_loopback(host))
}

/// Whether `addr` is one of the local machine: `localhost` in upper or lower
/// case, `127.x.y.z`, or `::1`, alone, or with a port, where `::1` is in
/// brackets.
pub open spec fn is_loopback_address(addr: Seq<char>) -> bool {
    ||| crate::text::same_ignoring_ascii_case(addr, "localhost"@)
    ||| exists|b: u8, c: u8, d: u8| addr == #[trigger] dotted(127, b, c, d)
    ||| addr == "::1"@
    ||| exists|host: Seq<char>, port: u16|
        crate::text::same_ignoring_ascii_case(host, "localhost"@) && addr == #[trigger] with_port(
            host,
            port,
        )
    ||| exists|b: u8, c: u8, d: u8, port: u16|
        addr == #[trigger] with_port(dotted(127, b, c, d), port)
    ||| exists|port: u16| addr == #[trigger] with_port("[::1]"@, port)
}

/// Whether `host` is a name other than `localhost`: it has a character that no
/// IP address has, and no brackets.
pub open spec fn is_other_name(host: Seq<char>) -> bool {
    &&& !crate::text::same_ignoring_ascii_case(host, "localhost"@)
    &&& forall|i: int| 0 <= i < host.len() ==> #[trigger] host[i] != '[' && host[i] != ']'
    &&& exists|i: int| 0 <= i < host.len() && !is_socket_char(#[trigger] host[i])
}

/// Whether `addr` is a name other than `localhost`, alone or with a port.
pub open spec fn is_other_name_address(addr: Seq<char>) -> bool {
    ||| is_other_name(addr) && !addr.contains(':')
    ||| exists|host: Seq<char>, port: u16|
        is_other_name(host) && addr == #[trigger] with_port(host, port)
}

/// Whether `host` is an IPv6 address other than the loopback address: it has
/// two colons, neither brackets nor a scope, and a character that no text of
/// `::1` has.
pub open spec fn is_other_ipv6(host: Seq<char>) -> bool {
    &&& has_two_colons(host)
    &&& forall|i: int|
        0 <= i < host.len() ==> #[trigger] host[i] != '[' && host[i] != ']' && host[i] != '%'
    &&& exists|i: int| 0 <= i < host.len() && !is_ipv6_loopback_char(#[trigger] host[i])
}

/// Whether `addr` is an IP address other than a loopback address, alone or with
/// a port, where an IPv6 address is in brackets.
pub open spec fn is_other_ip_address(addr: Seq<char>) -> bool {
    ||| exists|a: u8, b: u8, c: u8, d: u8| a != 127 && addr == #[trigger] dotted(a, b, c, d)
    ||| exists|a: u8, b: u8, c: u8, d: u8, port: u16|
        a != 127 && addr == #[trigger] with_port(dotted(a, b, c, d), port)
    ||| is_other_ipv6(addr)
    ||| exists|host: Seq<char>, port: u16|
        is_other_ipv6(host) && addr == #[trigger] with_port(bracketed(host), port)
}

/// A text without a colon is a host as a whole.
proof fn lemma_host_without_colon(addr: Seq<char>, ip: Option<Seq<char>>)
    requires
        socket_ip_is_plain(addr, ip),
        !addr.contains(':'),
    ensures
        host_text(addr, ip) == addr,
{
    assert forall|k: int| !splits_at(addr, k) by {
        if splits_at(addr, k) {
            assert(addr[k] == ':');
        }
    }
}

/// The host of a name with a port is the name; where the name has a colon, it
/// is the whole text.
proof fn lemma_host_of_name(host: Seq<char>, port: u16, ip: Option<Seq<char>>, i: int)
    requires
        socket_ip_is_plain(with_port(host, port), ip),
        0 <= i < host.len(),
        !is_socket_char(host[i]),
        forall|i: int| 0 <= i < host.len() ==> #[trigger] host[i] != '[' && host[i] != ']',
    ensures
        host_text(with_port(host, port), ip) == if host.contains(':') {
            with_port(host, port)
        } else {
            host
        },
{
    reveal_strlit(":");
    let addr = with_port(host, port);
    let n = host.len() as int;
    crate::text::lemma_decimal_is_digits(port as nat);
    assert(addr[i] == host[i]);
    assert(ip is None);
    assert(addr[n] == ':');
    assert forall|j: int| n < j < addr.len() implies '0' <= #[trigger] addr[j] <= '9' by {
        assert(addr[j] == crate::text::decimal(port as nat)[j - n - 1]);
    }
    assert forall|k: int| splits_at(addr, k) implies k == n by {
        if k < n {
            assert('0' <= addr[n] <= '9');
        } else if k > n {
            assert('0' <= addr[k] <= '9');
        }
    }
    assert(addr[0] == host[0] && addr[0] != '[');
    if host.contains(':') {
        let j = choose|j: int| 0 <= j < host.len() && host[j] == ':';
        assert(addr[j] == ':');
        assert(!splits_at(addr, n));
    } else {
        assert forall|j: int| 0 <= j < n implies #[trigger] addr[j] != ':' && addr[j] != '['
            && addr[j] != ']' by {
            assert(addr[j] == host[j]);
        }
        assert(splits_at(addr, n));
        assert(addr.take(n) =~= host);
        assert(host[0] != '[' && host[n - 1] != ']');
    }
}

/// Whether `addr` is one of the local machine: whether its host is.
pub fn is_local_address(addr: &str) -> (local: bool)
    ensures
        ({
            let host = host_text(addr@, socket_ip(addr@));
            local == is_local(host, ip_loopback(host))
        }),
        ({
            let host = host_text(addr@, socket_ip(addr@));
            local <==> host.map_values(|c: char| crate::text::ascii_lower(c)) == "localhost"@
                || ip_loopback(host) == Some(true)
        }),
        is_loopback_address(addr@) ==> local,
        is_other_name_address(addr@) ==> !local,
        is_other_ip_address(addr@) ==> !local,
{
    let host = host_of(addr);
    let local: bool = is_loopback_host(host.as_str());
    proof {
        if is_loopback_address(addr@) {
            lemma_loopback_address(addr@, socket_ip(addr@), ip_loopback(host@));
        }
        if is_other_name_address(addr@) {
            lemma_other_name_address(addr@, socket_ip(addr@), ip_loopback(host@));
        }
        if is_other_ip_address(addr@) {
            lemma_other_ip_address(addr@, socket_ip(addr@), ip_loopback(host@));
        }
    }
    local
}

/// The host of a name other than `localhost` is not the local machine.
proof fn lemma_other_name_address(addr: Seq<char>, ip: Option<Seq<char>>, loopback: Option<bool>)
    requires
        is_other_name_address(addr),
        socket_ip_is_plain(addr, ip),
        loopback_is_plain(host_text(addr, ip), loopback),
    ensures
        !is_local(host_text(addr, ip), loopback),
{
    let host = host_text(addr, ip);
    reveal_strlit("localhost");
    if is_other_name(addr) && !addr.contains(':') {
        lemma_host_without_colon(addr, ip);
        let i = choose|i: int| 0 <= i < addr.len() && !is_socket_char(#[trigger] addr[i]);
        assert(!is_ip_char(host[i]));
    } else {
        let (name, port) = choose|name: Seq<char>, port: u16|
            is_other_name(name) && addr == #[trigger] with_port(name, port);
        let i = choose|i: int| 0 <= i < name.len() && !is_socket_char(#[trigger] name[i]);
        lemma_host_of_name(name, port, ip, i);
        assert(host[i] == name[i]);
        assert(!is_ip_char(host[i]));
        if name.contains(':') {
            reveal_strlit(":");
            let n = name.len() as int;
            assert(host[n] == ':');
            if crate::text::same_ignoring_ascii_case(host, "localhost"@) {
                assert(crate::text::ascii_lower(host[n]) == crate::text::ascii_lower(
                    "localhost"@[n],
                ));
            }
        }
    }
}

/// A text with a colon, or one that begins with a digit, is not `localhost`.
proof fn lemma_not_localhost(host: Seq<char>)
    requires
        host.contains(':') || (host.len() > 0 && '0' <= host[0] <= '9'),
    ensures
        !crate::text::same_ignoring_ascii_case(host, "localhost"@),
{
    if crate::text::same_ignoring_ascii_case(host, "localhost"@) {
        lemma_localhost_is_plain(host);
    }
}

/// An IPv6 address other than the loopback address is not the local machine.
proof fn lemma_other_ipv6(host: Seq<char>, loopback: Option<bool>)
    requires
        is_other_ipv6(host),
        loopback_is_plain(host, loopback),
    ensures
        !is_local(host, loopback),
{
    let (i, j) = choose|i: int, j: int|
        0 <= i < j < host.len() && #[trigger] host[i] == ':' && #[trigger] host[j] == ':';
    assert(host.contains(':'));
    lemma_not_localhost(host);
    assert forall|b: u8, c: u8, d: u8| host != #[trigger] dotted(127, b, c, d) by {
        lemma_dotted_has_no_colon(127, b, c, d);
    }
}

/// The host of an IPv6 address in brackets, with a port, is the address, where
/// parsing it finds none.
proof fn lemma_host_in_brackets(host: Seq<char>, port: u16)
    requires
        forall|i: int| 0 <= i < host.len() ==> #[trigger] host[i] != '[' && host[i] != ']',
    ensures
        host_text(with_port(bracketed(host), port), None) == host,
{
    reveal_strlit(":");
    reveal_strlit("[");
    reveal_strlit("]");
    let addr = with_port(bracketed(host), port);
    let n = host.len() as int;
    crate::text::lemma_decimal_is_digits(port as nat);
    assert(addr[0] == '[' && addr[n + 1] == ']' && addr[n + 2] == ':');
    assert forall|j: int| n + 2 < j < addr.len() implies '0' <= #[trigger] addr[j] <= '9' by {
        assert(addr[j] == crate::text::decimal(port as nat)[j - n - 3]);
    }
    assert forall|j: int| 0 < j < n + 1 implies #[trigger] addr[j] != '[' && addr[j] != ']' by {
        assert(addr[j] == host[j - 1]);
    }
    assert(splits_at(addr, n + 2));
    lemma_split_is_unique(addr, n + 2, choose|k: int| splits_at(addr, k));
    let part = addr.take(n + 2);
    assert(part[0] == '[');
    let inner = part.skip(1);
    assert(inner =~= host + "]"@);
    assert(inner[0] != '[');
    assert(crate::text::stripped_start(inner, Strippable::Just('[')) == inner);
    assert(inner.last() == ']');
    assert(inner.drop_last() =~= host);
    assert(crate::text::stripped_end(host, Strippable::Just(']')) == host);
}

/// The host of an IP address other than a loopback address is not the local
/// machine.
proof fn lemma_other_ip_address(addr: Seq<char>, ip: Option<Seq<char>>, loopback: Option<bool>)
    requires
        is_other_ip_address(addr),
        socket_ip_is_plain(addr, ip),
        loopback == ip_loopback(host_text(addr, ip)),
        loopback_is_plain(host_text(addr, ip), loopback),
    ensures
        !is_local(host_text(addr, ip), loopback),
{
    if exists|a: u8, b: u8, c: u8, d: u8| a != 127 && addr == #[trigger] dotted(a, b, c, d) {
        let (a, b, c, d) = choose|a: u8, b: u8, c: u8, d: u8|
            a != 127 && addr == #[trigger] dotted(a, b, c, d);
        lemma_dotted_has_no_colon(a, b, c, d);
        lemma_host_without_colon(addr, ip);
        lemma_not_localhost(addr);
    } else if exists|a: u8, b: u8, c: u8, d: u8, port: u16|
        a != 127 && addr == #[trigger] with_port(dotted(a, b, c, d), port) {
        let (a, b, c, d, port) = choose|a: u8, b: u8, c: u8, d: u8, port: u16|
            a != 127 && addr == #[trigger] with_port(dotted(a, b, c, d), port);
        lemma_dotted_has_no_colon(a, b, c, d);
        assert(ip == Some(dotted(a, b, c, d)));
        lemma_not_localhost(dotted(a, b, c, d));
    } else if is_other_ipv6(addr) {
        let (i, j) = choose|i: int, j: int|
            0 <= i < j < addr.len() && #[trigger] addr[i] == ':' && #[trigger] addr[j] == ':';
        assert(addr[0] != '[');
        assert(ip is None);
        law_bare_colons_are_no_port(addr, i, j);
        lemma_other_ipv6(addr, loopback);
    } else {
        let (host, port) = choose|host: Seq<char>, port: u16|
            is_other_ipv6(host) && addr == #[trigger] with_port(bracketed(host), port);
        if ip is Some {
            assert(!host.contains('%'));
            lemma_not_localhost(ip->Some_0);
        } else {
            lemma_host_in_brackets(host, port);
            lemma_other_ipv6(host, loopback);
        }
    }
}

/// The text of an IPv4 address begins with a digit and has no colon.
proof fn lemma_dotted_has_no_colon(a: u8, b: u8, c: u8, d: u8)
    ensures
        !dotted(a, b, c, d).contains(':'),
        dotted(a, b, c, d).len() > 0,
        '0' <= dotted(a, b, c, d)[0] <= '9',
{
    reveal_strlit(".");
    crate::text::lemma_decimal_is_digits(a as nat);
    assert(dotted(a, b, c, d)[0] == crate::text::decimal(a as nat)[0]);
    crate::text::lemma_decimal_is_digits(b as nat);
    crate::text::lemma_decimal_is_digits(c as nat);
    crate::text::lemma_decimal_is_digits(d as nat);
}

/// `localhost`, in upper or lower case, has neither colons nor brackets.
proof fn lemma_localhost_is_plain(host: Seq<char>)
    requires
        crate::text::same_ignoring_ascii_case(host, "localhost"@),
    ensures
        host.len() == 9,
        !is_socket_char(host[0]),
        !host.contains(':'),
        forall|i: int| 0 <= i < host.len() ==> #[trigger] host[i] != '[' && host[i] != ']',
{
    reveal_strlit("localhost");
    assert forall|i: int| 0 <= i < host.len() implies #[trigger] host[i] != '[' && host[i] != ']'
        && host[i] != ':' by {
        assert(crate::text::ascii_lower(host[i]) == crate::text::ascii_lower("localhost"@[i]));
    }
    assert(crate::text::ascii_lower(host[0]) == crate::text::ascii_lower("localhost"@[0]));
}

/// The host of an address of the local machine is the local machine.
proof fn lemma_loopback_address(addr: Seq<char>, ip: Option<Seq<char>>, loopback: Option<bool>)
    requires
        is_loopback_address(addr),
        socket_ip_is_plain(addr, ip),
        loopback_is_plain(host_text(addr, ip), loopback),
    ensures
        is_local(host_text(addr, ip), loopback),
{
    if crate::text::same_ignoring_ascii_case(addr, "localhost"@) {
        lemma_localhost_is_plain(addr);
        lemma_host_without_colon(addr, ip);
    } else if exists|b: u8, c: u8, d: u8| addr == #[trigger] dotted(127, b, c, d) {
        let (b, c, d) = choose|b: u8, c: u8, d: u8| addr == #[trigger] dotted(127, b, c, d);
        lemma_dotted_has_no_colon(127, b, c, d);
        lemma_host_without_colon(addr, ip);
    } else if addr == "::1"@ {
        reveal_strlit("::1");
        assert forall|k: int| !splits_at(addr, k) by {
            if splits_at(addr, k) {
                assert(addr[0] == ':');
            }
        }
    } else if exists|b: u8, c: u8, d: u8, port: u16|
        addr == #[trigger] with_port(dotted(127, b, c, d), port) {
        let (b, c, d, port) = choose|b: u8, c: u8, d: u8, port: u16|
            addr == #[trigger] with_port(dotted(127, b, c, d), port);
        assert(ip == Some(dotted(127, b, c, d)));
    } else if exists|port: u16| addr == #[trigger] with_port("[::1]"@, port) {
        assert(ip == Some("::1"@));
    } else {
        let (host, port) = choose|host: Seq<char>, port: u16|
            crate::text::same_ignoring_ascii_case(host, "localhost"@) && addr
                == #[trigger] with_port(host, port);
        lemma_localhost_is_plain(host);
        lemma_host_of_name(host, port, ip, 0);
    }
}

/// A host is the local machine exactly where it is `localhost` in lower case, or
/// a loopback IP address.
pub proof fn law_local_is_localhost_or_loopback(host: Seq<char>, loopback: Option<bool>)
    ensures
        is_local(host, loopback) <==> host.map_values(|c: char| crate::text::ascii_lower(c))
            == "localhost"@ || loopback == Some(true),
{
    crate::text::law_same_in_lower_case(host, "localhost"@);
    reveal_strlit("localhost");
    assert("localhost"@.map_values(|c: char| crate::text::ascii_lower(c)) =~= "localhost"@);
}

/// An IP address that parsing found is the host.
pub proof fn law_parsed_address_is_the_host(addr: Seq<char>, ip: Seq<char>)
    ensures
        host_text(addr, Some(ip)) == ip,
{
}

/// The host of `host:port` is what stands before the colon: a host that is not
/// empty and has neither a colon nor brackets, before a port of digits.
pub proof fn law_host_stands_before_the_port(host: Seq<char>, port: Seq<char>)
    requires
        host.len() > 0,
        forall|i: int|
            0 <= i < host.len() ==> #[trigger] host[i] != ':' && host[i] != '[' && host[i] != ']',
        port.len() > 0,
        forall|i: int| 0 <= i < port.len() ==> '0' <= #[trigger] port[i] <= '9',
    ensures
        host_text(host.push(':') + port, None) == host,
{
    let addr = host.push(':') + port;
    let n = host.len() as int;
    assert forall|j: int| n < j < addr.len() implies '0' <= #[trigger] addr[j] <= '9' by {
        assert(addr[j] == port[j - n - 1]);
    }
    assert forall|j: int| 0 <= j < n implies #[trigger] addr[j] != ':' && addr[j] != '[' && addr[j]
        != ']' by {
        assert(addr[j] == host[j]);
    }
    assert(splits_at(addr, n));
    lemma_split_is_unique(addr, n, choose|k: int| splits_at(addr, k));
    assert(addr.take(n) =~= host);
    assert(host[0] != '[' && host[n - 1] != ']');
}

/// The host of `[host]:port` is what stands between the brackets: a host without
/// further brackets, before a port of digits.
pub proof fn law_host_stands_in_brackets(host: Seq<char>, port: Seq<char>)
    requires
        forall|i: int| 0 <= i < host.len() ==> #[trigger] host[i] != '[' && host[i] != ']',
        port.len() > 0,
        forall|i: int| 0 <= i < port.len() ==> '0' <= #[trigger] port[i] <= '9',
    ensures
        host_text(Seq::empty().push('[') + host.push(']').push(':') + port, None) == host,
{
    let addr = Seq::empty().push('[') + host.push(']').push(':') + port;
    let n = host.len() as int;
    assert(addr[0] == '[' && addr[n + 1] == ']' && addr[n + 2] == ':');
    assert forall|j: int| n + 2 < j < addr.len() implies '0' <= #[trigger] addr[j] <= '9' by {
        assert(addr[j] == port[j - n - 3]);
    }
    assert forall|j: int| 0 < j < n + 1 implies #[trigger] addr[j] != '[' && addr[j] != ']' by {
        assert(addr[j] == host[j - 1]);
    }
    assert(splits_at(addr, n + 2));
    lemma_split_is_unique(addr, n + 2, choose|k: int| splits_at(addr, k));
    let inner = addr.take(n + 2).skip(1);
    assert(inner =~= host.push(']'));
    assert(inner[0] != '[');
    assert(crate::text::stripped_start(inner, Strippable::Just('[')) == inner);
    assert(inner.drop_last() =~= host);
    assert(crate::text::stripped_end(host, Strippable::Just(']')) == host);
}

/// A text of neither form, `host:port` or `[host]:port`, is a host as a whole.
pub proof fn law_other_text_is_its_own_host(addr: Seq<char>)
    requires
        forall|host: Seq<char>, port: Seq<char>|
            host.len() > 0 && port.len() > 0 && (forall|i: int|
                0 <= i < host.len() ==> #[trigger] host[i] != ':' && host[i] != '[' && host[i]
                    != ']') && (forall|i: int|
                0 <= i < port.len() ==> '0' <= #[trigger] port[i] <= '9') ==> addr
                != #[trigger] (host.push(':') + port),
        forall|host: Seq<char>, port: Seq<char>|
            port.len() > 0 && (forall|i: int|
                0 <= i < host.len() ==> #[trigger] host[i] != '[' && host[i] != ']') && (forall|
                i: int,
            |
                0 <= i < port.len() ==> '0' <= #[trigger] port[i] <= '9') ==> addr
                != #[trigger] (Seq::empty().push('[') + host.push(']').push(':') + port),
    ensures
        host_text(addr, None) == addr,
{
    assert forall|k: int| !splits_at(addr, k) by {
        if splits_at(addr, k) {
            let port = addr.skip(k + 1);
            assert forall|i: int| 0 <= i < port.len() implies '0' <= #[trigger] port[i] <= '9' by {
                assert(port[i] == addr[i + k + 1]);
            }
            if is_plain_host(addr, k) {
                let host = addr.take(k);
                assert forall|i: int| 0 <= i < host.len() implies #[trigger] host[i] != ':'
                    && host[i] != '[' && host[i] != ']' by {
                    assert(host[i] == addr[i]);
                }
                assert(addr =~= host.push(':') + port);
            } else {
                let host = addr.subrange(1, k - 1);
                assert forall|i: int| 0 <= i < host.len() implies #[trigger] host[i] != '['
                    && host[i] != ']' by {
                    assert(host[i] == addr[i + 1]);
                }
                assert(addr =~= Seq::empty().push('[') + host.push(']').push(':') + port);
            }
        }
    }
}

}

//! Socket addresses in text.

use vstd::prelude::*;

verus! {

/// The parts of `s` between the places where it holds `c`.
pub open spec fn parts(s: Seq<char>, c: char) -> Seq<Seq<char>>
    decreases s.len(),
{
    let end = crate::properties::find(s, c) as int;
    if end < s.len() {
        seq![s.take(end)] + parts(s.skip(end + 1), c)
    } else {
        seq![s]
    }
}

/// `s` writes a number up to `max` in decimal digits.
pub open spec fn is_number(s: Seq<char>, max: int) -> bool {
    crate::text::all_digits(s) && crate::text::digits_value(s) <= max
}

/// `s` writes a byte in decimal digits, without leading zeros.
pub open spec fn is_octet(s: Seq<char>) -> bool {
    is_number(s, 255) && (s.len() > 1 ==> s[0] != '0')
}

/// `s` is an IPv4 address: four bytes with a dot between any two.
pub open spec fn is_ipv4(s: Seq<char>) -> bool {
    let bytes = parts(s, '.');
    bytes.len() == 4 && forall|i: int| 0 <= i < bytes.len() ==> is_octet(#[trigger] bytes[i])
}

/// `c` is a hexadecimal digit.
pub open spec fn is_hex(c: char) -> bool {
    '0' <= c <= '9' || 'a' <= c <= 'f' || 'A' <= c <= 'F'
}

/// `s` is a group of an IPv6 address: one to four hexadecimal digits.
pub open spec fn is_group(s: Seq<char>) -> bool {
    1 <= s.len() <= 4 && forall|i: int| 0 <= i < s.len() ==> is_hex(#[trigger] s[i])
}

/// The groups of a part of an IPv6 address; an empty part has none.
pub open spec fn groups(s: Seq<char>) -> Seq<Seq<char>> {
    if s.len() == 0 {
        Seq::empty()
    } else {
        parts(s, ':')
    }
}

/// Each of `list` is a group, but for the last, which may be an IPv4 address.
pub open spec fn are_groups(list: Seq<Seq<char>>) -> bool {
    forall|i: int|
        0 <= i < list.len() ==> is_group(#[trigger] list[i]) || (i == list.len() - 1 && is_ipv4(
            list[i],
        ))
}

/// How many groups `list` stands for: an IPv4 address at its end stands for two.
pub open spec fn width(list: Seq<Seq<char>>) -> nat {
    if list.len() > 0 && is_ipv4(list.last()) {
        list.len() + 1
    } else {
        list.len()
    }
}

/// `s` is an IPv6 address with two colons at `at` that stand for one group of zeros or more. An
/// IPv4 address may stand behind the two colons only.
pub open spec fn is_shortened_at(s: Seq<char>, at: int) -> bool {
    let head = groups(s.take(at));
    let tail = groups(s.skip(at + 2));
    &&& 0 <= at <= s.len() - 2
    &&& s[at] == ':' && s[at + 1] == ':'
    &&& forall|i: int| 0 <= i < head.len() ==> is_group(#[trigger] head[i])
    &&& are_groups(tail)
    &&& head.len() + width(tail) <= 7
}

/// `s` is an IPv6 address: eight groups with a colon between any two, or fewer around two colons.
pub open spec fn is_ipv6(s: Seq<char>) -> bool {
    ||| are_groups(groups(s)) && width(groups(s)) == 8
    ||| exists|at: int| #[trigger] is_shortened_at(s, at)
}

/// `s` is an IPv6 address in square brackets, with the number of a scope behind a percent sign
/// where it has one.
pub open spec fn is_bracketed_ipv6(s: Seq<char>) -> bool {
    let inner = s.subrange(1, s.len() - 1);
    let at = crate::properties::find(inner, '%') as int;
    &&& s.len() >= 2
    &&& s[0] == '[' && s.last() == ']'
    &&& is_ipv6(inner.take(at))
    &&& at < inner.len() ==> is_number(inner.skip(at + 1), u32::MAX as int)
}

/// `s` is a socket address whose port stands behind the colon at `at`.
pub open spec fn is_address_at(s: Seq<char>, at: int) -> bool {
    &&& 0 <= at < s.len()
    &&& s[at] == ':'
    &&& is_ipv4(s.take(at)) || is_bracketed_ipv6(s.take(at))
    &&& is_number(s.skip(at + 1), u16::MAX as int)
}

/// `s` is a socket address: an IPv4 address or an IPv6 address in square brackets, a colon and a
/// port.
pub open spec fn is_socket_address(s: Seq<char>) -> bool {
    exists|at: int| #[trigger] is_address_at(s, at)
}

/// The address of a broker is a socket address exactly where its host is an IPv4 address or an
/// IPv6 address in square brackets and its port fits in 16 bits.
pub proof fn a_socket_address_is_a_host_and_a_port(config: crate::config::ConfigView)
    ensures
        is_socket_address(config.address()) <==> (is_ipv4(config.ip) || is_bracketed_ipv6(
            config.ip,
        )) && config.port <= u16::MAX,
{
    let s = config.address();
    let port = crate::text::decimal(config.port as nat);
    let colon = config.ip.len() as int;
    reveal_strlit(":");
    crate::text::lemma_decimal_all_digits(config.port as nat);
    assert(s[colon] == ':');
    assert(s.take(colon) =~= config.ip);
    assert(s.skip(colon + 1) =~= port);
    assert forall|at: int| #[trigger] is_address_at(s, at) implies at == colon by {
        if at < colon {
            assert(s.skip(at + 1)[colon - at - 1] == ':');
        } else if at > colon {
            assert(s[at] == port[at - colon - 1]);
        }
    }
    if is_socket_address(s) {
        let at = choose|at: int| #[trigger] is_address_at(s, at);
        assert(at == colon);
    } else {
        assert(!is_address_at(s, colon));
    }
}

} // verus!

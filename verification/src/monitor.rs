//! Which `Host` header values name a machine on the local network. The
//! live-weight monitor refuses state-changing requests whose `Host` is not
//! such a name, which defeats DNS-rebinding attacks from public domains.

use vstd::prelude::*;

use crate::report::{matches_ci_at, matches_ci_at_exec};

verus! {

/// An IPv4 address is on the LAN: loopback (127/8), private (10/8,
/// 172.16/12, 192.168/16), link-local (169.254/16) or carrier-grade NAT
/// (100.64/10, used by overlay networks).
pub open spec fn spec_ipv4_is_lan(o: [u8; 4]) -> bool {
    ||| o[0] == 127
    ||| o[0] == 10
    ||| (o[0] == 172 && 16 <= o[1] <= 31)
    ||| (o[0] == 192 && o[1] == 168)
    ||| (o[0] == 169 && o[1] == 254)
    ||| (o[0] == 100 && 64 <= o[1] < 128)
}

/// Whether an IPv4 address (by its octets) is on the LAN.
pub fn ipv4_is_lan(o: [u8; 4]) -> (b: bool)
    ensures
        b == spec_ipv4_is_lan(o),
{
    o[0] == 127 || o[0] == 10 || (o[0] == 172 && 16 <= o[1] && o[1] <= 31) || (o[0] == 192 && o[1]
        == 168) || (o[0] == 169 && o[1] == 254) || (o[0] == 100 && 64 <= o[1] && o[1] < 128)
}

/// The octets of an IPv4-mapped IPv6 address (`::ffff:a.b.c.d`), if it is one.
pub open spec fn spec_ipv4_mapped(s: [u16; 8]) -> Option<[u8; 4]> {
    if s[0] == 0 && s[1] == 0 && s[2] == 0 && s[3] == 0 && s[4] == 0 && s[5] == 0xffff {
        Some([(s[6] >> 8) as u8, (s[6] & 0xff) as u8, (s[7] >> 8) as u8, (s[7] & 0xff) as u8])
    } else {
        None
    }
}

/// An IPv6 address (by its segments) is on the LAN: loopback (`::1`),
/// unique local (fc00::/7), link local (fe80::/10), or an IPv4-mapped
/// address whose IPv4 address is on the LAN.
pub open spec fn spec_ipv6_is_lan(s: [u16; 8]) -> bool {
    ||| (s[0] == 0 && s[1] == 0 && s[2] == 0 && s[3] == 0 && s[4] == 0 && s[5] == 0 && s[6] == 0
        && s[7] == 1)
    ||| (s[0] & 0xfe00) == 0xfc00
    ||| (s[0] & 0xffc0) == 0xfe80
    ||| (spec_ipv4_mapped(s) matches Some(o) && spec_ipv4_is_lan(o))
}

/// Whether an IPv6 address (by its segments) is on the LAN.
pub fn ipv6_is_lan(s: [u16; 8]) -> (b: bool)
    ensures
        b == spec_ipv6_is_lan(s),
{
    let loopback = s[0] == 0 && s[1] == 0 && s[2] == 0 && s[3] == 0 && s[4] == 0 && s[5] == 0 && s[6]
        == 0 && s[7] == 1;
    if loopback || (s[0] & 0xfe00) == 0xfc00 || (s[0] & 0xffc0) == 0xfe80 {
        return true;
    }
    if s[0] == 0 && s[1] == 0 && s[2] == 0 && s[3] == 0 && s[4] == 0 && s[5] == 0xffff {
        let o: [u8; 4] = [(s[6] >> 8) as u8, (s[6] & 0xff) as u8, (s[7] >> 8) as u8, (s[7] & 0xff) as u8];
        ipv4_is_lan(o)
    } else {
        false
    }
}

/// Number of occurrences of `c` in `s`.
pub open spec fn count_char(s: Seq<char>, c: char) -> int
    decreases s.len(),
{
    if s.len() == 0 {
        0
    } else {
        count_char(s.drop_last(), c) + (if s.last() == c {
            1int
        } else {
            0int
        })
    }
}

/// Index of the first `c` in `s`, or `s.len()` when there is none.
pub open spec fn first_index(s: Seq<char>, c: char) -> int
    decreases s.len(),
{
    if s.len() == 0 {
        0
    } else if s[0] == c {
        0
    } else {
        1 + first_index(s.drop_first(), c)
    }
}

/// Index of the last `c` in `s`, or `-1` when there is none.
pub open spec fn last_index(s: Seq<char>, c: char) -> int
    decreases s.len(),
{
    if s.len() == 0 {
        -1
    } else if s.last() == c {
        s.len() - 1
    } else {
        last_index(s.drop_last(), c)
    }
}

/// The name or address part of a (trimmed) `Host` value: a bracketed IPv6
/// literal without its brackets and port (`None` when the bracket is not
/// closed); a value with several colons (a bare IPv6 literal) as is;
/// otherwise the value without a trailing `:port`.
pub open spec fn spec_host_name_part(h: Seq<char>) -> Option<Seq<char>> {
    if h.len() > 0 && h[0] == '[' {
        let rest = h.drop_first();
        let k = first_index(rest, ']');
        if k < rest.len() {
            Some(rest.take(k))
        } else {
            None
        }
    } else if count_char(h, ':') > 1 {
        Some(h)
    } else if last_index(h, ':') >= 0 {
        Some(h.take(last_index(h, ':')))
    } else {
        Some(h)
    }
}

proof fn lemma_first_index_bounds(s: Seq<char>, c: char)
    ensures
        0 <= first_index(s, c) <= s.len(),
        first_index(s, c) < s.len() ==> s[first_index(s, c)] == c,
        forall|j: int| 0 <= j < first_index(s, c) ==> s[j] != c,
    decreases s.len(),
{
    if s.len() > 0 && s[0] != c {
        lemma_first_index_bounds(s.drop_first(), c);
        assert forall|j: int| 0 <= j < first_index(s, c) implies s[j] != c by {
            if j > 0 {
                assert(s[j] == s.drop_first()[j - 1]);
            }
        }
    }
}

pub proof fn lemma_first_index_is(s: Seq<char>, c: char, k: int)
    requires
        0 <= k <= s.len(),
        k < s.len() ==> s[k] == c,
        forall|j: int| 0 <= j < k ==> s[j] != c,
    ensures
        first_index(s, c) == k,
    decreases s.len(),
{
    if s.len() > 0 && k > 0 {
        lemma_first_index_is(s.drop_first(), c, k - 1);
    }
}

proof fn lemma_last_index_bounds(s: Seq<char>, c: char)
    ensures
        -1 <= last_index(s, c) < s.len(),
    decreases s.len(),
{
    if s.len() > 0 && s.last() != c {
        lemma_last_index_bounds(s.drop_last(), c);
    }
}

/// The name or address part of a trimmed `Host` header value (see
/// [`spec_host_name_part`]).
pub fn host_name_part(host: &str) -> (r: Option<String>)
    ensures
        match spec_host_name_part(host@) {
            Some(p) => r is Some && r->0@ == p,
            None => r is None,
        },
{
    let n = host.unicode_len();
    if n > 0 && host.get_char(0) == '[' {
        let mut k: usize = 1;
        while k < n && host.get_char(k) != ']'
            invariant
                n == host@.len(),
                1 <= k <= n,
                forall|j: int| 1 <= j < k ==> host@[j] != ']',
            decreases n - k,
        {
            k = k + 1;
        }
        proof {
            let rest = host@.drop_first();
            lemma_first_index_is(rest, ']', k - 1);
        }
        if k < n {
            let part = host.substring_char(1, k);
            proof {
                assert(part@ =~= host@.drop_first().take(k - 1));
            }
            return Some(String::from_str(part));
        } else {
            return None;
        }
    }
    let mut colons: usize = 0;
    let mut last: usize = 0;
    let mut found = false;
    let mut i: usize = 0;
    while i < n
        invariant
            n == host@.len(),
            i <= n,
            colons as int == count_char(host@.take(i as int), ':'),
            colons <= i,
            found == (last_index(host@.take(i as int), ':') >= 0),
            found ==> last as int == last_index(host@.take(i as int), ':'),
        decreases n - i,
    {
        proof {
            assert(host@.take(i + 1).drop_last() =~= host@.take(i as int));
        }
        if host.get_char(i) == ':' {
            colons = colons + 1;
            last = i;
            found = true;
        }
        i = i + 1;
    }
    proof {
        assert(host@.take(n as int) =~= host@);
        lemma_last_index_bounds(host@, ':');
    }
    if colons > 1 {
        Some(String::from_str(host))
    } else if found {
        let part = host.substring_char(0, last);
        proof {
            assert(part@ =~= host@.take(last as int));
        }
        Some(String::from_str(part))
    } else {
        Some(String::from_str(host))
    }
}

/// Length of `s` once its trailing dots are removed.
pub open spec fn trimmed_dots_len(s: Seq<char>) -> int
    decreases s.len(),
{
    if s.len() > 0 && s.last() == '.' {
        trimmed_dots_len(s.drop_last())
    } else {
        s.len() as int
    }
}

/// `hay` ends with `suffix` (given in lower case), ignoring ASCII case.
pub open spec fn ends_with_ci(hay: Seq<char>, suffix: Seq<char>) -> bool {
    suffix.len() <= hay.len() && matches_ci_at(hay, suffix, hay.len() - suffix.len())
}

/// A host name (not an address) names a LAN machine: once its trailing dots
/// are removed it is a single label (`doser`, `localhost`) or ends in one of
/// the LAN-only suffixes `.local`, `.lan`, `.internal`, `.home.arpa`.
pub open spec fn spec_name_is_lan(name: Seq<char>) -> bool {
    let t = name.take(trimmed_dots_len(name));
    ||| count_char(t, '.') == 0
    ||| ends_with_ci(t, ".local"@)
    ||| ends_with_ci(t, ".lan"@)
    ||| ends_with_ci(t, ".internal"@)
    ||| ends_with_ci(t, ".home.arpa"@)
}

proof fn lemma_trimmed_dots_len_bounds(s: Seq<char>)
    ensures
        0 <= trimmed_dots_len(s) <= s.len(),
    decreases s.len(),
{
    if s.len() > 0 && s.last() == '.' {
        lemma_trimmed_dots_len_bounds(s.drop_last());
    }
}

fn ends_with_ci_exec(t: &str, tl: usize, suffix: &str) -> (b: bool)
    requires
        tl == t@.len(),
    ensures
        b == ends_with_ci(t@, suffix@),
{
    let sl = suffix.unicode_len();
    if sl > tl {
        false
    } else {
        matches_ci_at_exec(t, suffix, tl - sl, tl, sl)
    }
}

/// Whether a host name names a LAN machine (see [`spec_name_is_lan`]).
pub fn name_is_lan(name: &str) -> (b: bool)
    ensures
        b == spec_name_is_lan(name@),
{
    let n = name.unicode_len();
    let mut k: usize = n;
    proof {
        assert(name@.take(n as int) =~= name@);
    }
    while k > 0 && name.get_char(k - 1) == '.'
        invariant
            n == name@.len(),
            k <= n,
            trimmed_dots_len(name@) == trimmed_dots_len(name@.take(k as int)),
        decreases k,
    {
        proof {
            assert(name@.take(k as int).drop_last() =~= name@.take(k - 1));
        }
        k = k - 1;
    }
    proof {
        lemma_trimmed_dots_len_bounds(name@);
        assert(trimmed_dots_len(name@.take(k as int)) == k);
    }
    let t = name.substring_char(0, k);
    proof {
        assert(t@ =~= name@.take(k as int));
    }
    let mut dots: usize = 0;
    let mut i: usize = 0;
    while i < k
        invariant
            k == t@.len(),
            i <= k,
            dots as int == count_char(t@.take(i as int), '.'),
            dots <= i,
        decreases k - i,
    {
        proof {
            assert(t@.take(i + 1).drop_last() =~= t@.take(i as int));
        }
        if t.get_char(i) == '.' {
            dots = dots + 1;
        }
        i = i + 1;
    }
    proof {
        assert(t@.take(k as int) =~= t@);
    }
    dots == 0 || ends_with_ci_exec(t, k, ".local") || ends_with_ci_exec(t, k, ".lan")
        || ends_with_ci_exec(t, k, ".internal") || ends_with_ci_exec(t, k, ".home.arpa")
}

} // verus!

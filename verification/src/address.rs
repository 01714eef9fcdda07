//! Agent addresses of the form `scheme://host[:port]`, as sequences of
//! characters, and the decimal notation of a TCP port.

use vstd::prelude::*;
use vstd::string::StringExecFns;
use crate::text::{chars_of, last_index_of, lemma_last_index_of, lemma_last_index_of_unique};

verus! {

/// The port a Consul agent listens on when none is given.
pub const DEFAULT_PORT: u16 = 8500;

/// Whether `c` is one of the ten ASCII decimal digits.
pub open spec fn is_digit(c: char) -> bool {
    '0' <= c <= '9'
}

/// The value of the decimal digit `c`.
pub open spec fn digit_value(c: char) -> nat
    recommends
        is_digit(c),
{
    (c as u32 - '0' as u32) as nat
}

/// Whether every character of `s` is a decimal digit.
pub open spec fn all_digits(s: Seq<char>) -> bool {
    forall|i: int| 0 <= i < s.len() ==> is_digit(#[trigger] s[i])
}

/// The number that the digits of `s` denote, most significant digit first.
pub open spec fn decimal_value(s: Seq<char>) -> nat
    decreases s.len(),
{
    if s.len() == 0 {
        0
    } else {
        10 * decimal_value(s.drop_last()) + digit_value(s.last())
    }
}

/// `s` without a leading plus sign, if it has one.
pub open spec fn without_plus(s: Seq<char>) -> Seq<char> {
    if s.len() > 0 && s[0] == '+' {
        s.skip(1)
    } else {
        s
    }
}

/// The port that the text `s` denotes: an optional plus sign, then one or
/// more decimal digits whose value fits in sixteen bits. Any other text,
/// the empty one included, denotes no port.
pub open spec fn port_of_text(s: Seq<char>) -> Option<u16> {
    let digits = without_plus(s);
    if digits.len() > 0 && all_digits(digits) && decimal_value(digits) <= u16::MAX {
        Some(decimal_value(digits) as u16)
    } else {
        None
    }
}

/// A number is at least what any prefix of its notation denotes.
pub proof fn lemma_decimal_value_prefix(s: Seq<char>, k: int)
    requires
        0 <= k <= s.len(),
    ensures
        decimal_value(s.take(k)) <= decimal_value(s),
    decreases s.len(),
{
    if k == s.len() {
        assert(s.take(k) == s);
    } else {
        lemma_decimal_value_prefix(s.drop_last(), k);
        assert(s.drop_last().take(k) == s.take(k));
    }
}

/// Reads one character as a decimal digit.
pub fn digit_of(c: char) -> (r: Option<u8>)
    ensures
        r is Some <==> is_digit(c),
        r matches Some(d) ==> d as nat == digit_value(c),
{
    let code: u32 = c as u32;
    if 48 <= code && code <= 57 {
        Some((code - 48) as u8)
    } else {
        None
    }
}

/// Reads `text` as a port: an optional plus sign, then decimal digits
/// whose value fits in sixteen bits.
pub fn parse_port(text: &str) -> (r: Option<u16>)
    ensures
        r == port_of_text(text@),
{
    let cs = chars_of(text);
    let start: usize = if cs.len() > 0 && cs[0] == '+' {
        1
    } else {
        0
    };
    let ghost digits = cs@.skip(start as int);
    if start == cs.len() {
        return None;
    }
    let mut i: usize = start;
    let mut acc: u32 = 0;
    while i < cs.len()
        invariant
            start <= i <= cs.len(),
            cs@ == text@,
            digits == cs@.skip(start as int),
            digits == without_plus(text@),
            all_digits(digits.take(i - start)),
            acc == decimal_value(digits.take(i - start)),
            acc <= u16::MAX,
        decreases cs.len() - i,
    {
        let ghost k = i - start;
        assert(digits.take(k + 1).drop_last() == digits.take(k));
        assert(digits.take(k + 1).last() == cs[i as int]);
        match digit_of(cs[i]) {
            None => {
                assert(!is_digit(digits[k]));
                return None;
            },
            Some(d) => {
                let next: u32 = acc * 10 + d as u32;
                if next > 65535 {
                    proof {
                        lemma_decimal_value_prefix(digits, k + 1);
                    }
                    return None;
                }
                acc = next;
            },
        }
        i = i + 1;
    }
    assert(digits.take(i - start) == digits);
    Some(acc as u16)
}

/// The character that writes the digit `d`.
pub open spec fn digit_char(d: nat) -> char
    recommends
        d < 10,
{
    if d == 0 {
        '0'
    } else if d == 1 {
        '1'
    } else if d == 2 {
        '2'
    } else if d == 3 {
        '3'
    } else if d == 4 {
        '4'
    } else if d == 5 {
        '5'
    } else if d == 6 {
        '6'
    } else if d == 7 {
        '7'
    } else if d == 8 {
        '8'
    } else {
        '9'
    }
}

/// The decimal notation of `n`: no sign, no leading zero, `"0"` for zero.
pub open spec fn decimal_digits(n: nat) -> Seq<char>
    decreases n,
{
    if n < 10 {
        seq![digit_char(n)]
    } else {
        decimal_digits(n / 10).push(digit_char(n % 10))
    }
}

/// The notation of a number is not empty, is made of digits only, begins
/// with a zero only where the number is zero, and denotes that number.
pub proof fn lemma_decimal_digits(n: nat)
    ensures
        decimal_digits(n).len() > 0,
        all_digits(decimal_digits(n)),
        n > 0 ==> decimal_digits(n)[0] != '0',
        decimal_value(decimal_digits(n)) == n,
    decreases n,
{
    let s = decimal_digits(n);
    if n < 10 {
        assert(s.drop_last() == Seq::<char>::empty());
        assert(decimal_value(s.drop_last()) == 0);
        assert(s.last() == digit_char(n));
    } else {
        lemma_decimal_digits(n / 10);
        assert(s.drop_last() == decimal_digits(n / 10));
        assert(s.last() == digit_char(n % 10));
        assert(s[0] == decimal_digits(n / 10)[0]);
    }
}

/// Reading the notation of a port gives that port back.
pub proof fn lemma_port_of_decimal_digits(port: u16)
    ensures
        port_of_text(decimal_digits(port as nat)) == Some(port),
{
    lemma_decimal_digits(port as nat);
}

/// The one-character text that writes the digit `d`.
fn digit_str(d: u8) -> (r: &'static str)
    requires
        d < 10,
    ensures
        r@ == seq![digit_char(d as nat)],
{
    proof {
        reveal_strlit("0");
        reveal_strlit("1");
        reveal_strlit("2");
        reveal_strlit("3");
        reveal_strlit("4");
        reveal_strlit("5");
        reveal_strlit("6");
        reveal_strlit("7");
        reveal_strlit("8");
        reveal_strlit("9");
    }
    let r = if d == 0 {
        "0"
    } else if d == 1 {
        "1"
    } else if d == 2 {
        "2"
    } else if d == 3 {
        "3"
    } else if d == 4 {
        "4"
    } else if d == 5 {
        "5"
    } else if d == 6 {
        "6"
    } else if d == 7 {
        "7"
    } else if d == 8 {
        "8"
    } else {
        "9"
    };
    assert(r@ =~= seq![digit_char(d as nat)]);
    r
}

/// Appends the decimal notation of `n` to `out`.
pub fn push_decimal(out: &mut String, n: u16)
    ensures
        final(out)@ == old(out)@ + decimal_digits(n as nat),
    decreases n,
{
    if n >= 10 {
        push_decimal(out, n / 10);
    }
    out.append(digit_str((n % 10) as u8));
}

/// The parts that an agent address is made of.
pub struct AddressParts {
    pub scheme: Seq<char>,
    pub host: Seq<char>,
    pub port: Option<u16>,
}

/// The scheme that `addr` begins with: `http` or `https`, each followed by
/// `://`. An address that begins with neither has no scheme.
pub open spec fn scheme_of(addr: Seq<char>) -> Option<Seq<char>> {
    if "http://"@.is_prefix_of(addr) {
        Some("http"@)
    } else if "https://"@.is_prefix_of(addr) {
        Some("https"@)
    } else {
        None
    }
}

/// What follows the scheme and its `://` in `addr`.
pub open spec fn authority_of(addr: Seq<char>) -> Seq<char> {
    if "http://"@.is_prefix_of(addr) {
        addr.skip("http://"@.len() as int)
    } else {
        addr.skip("https://"@.len() as int)
    }
}

/// The host of `authority`: what stands before its last colon, or all of it
/// where it has no colon.
pub open spec fn host_of(authority: Seq<char>) -> Seq<char> {
    match last_index_of(authority, ':') {
        Some(i) => authority.take(i),
        None => authority,
    }
}

/// The port of `authority`: what the text after its last colon denotes.
/// There is none where there is no colon or where that text is no port.
pub open spec fn port_of(authority: Seq<char>) -> Option<u16> {
    match last_index_of(authority, ':') {
        Some(i) => port_of_text(authority.skip(i + 1)),
        None => None,
    }
}

/// An authority with a colon is its host, a colon, and a text without a
/// colon that its port is read from. One without a colon is its host, and
/// has no port.
pub proof fn lemma_authority_splits(authority: Seq<char>)
    ensures
        match last_index_of(authority, ':') {
            Some(i) => {
                &&& 0 <= i < authority.len()
                &&& authority == host_of(authority) + ":"@ + authority.skip(i + 1)
                &&& !authority.skip(i + 1).contains(':')
                &&& port_of(authority) == port_of_text(authority.skip(i + 1))
            },
            None => {
                &&& !authority.contains(':')
                &&& host_of(authority) == authority
                &&& port_of(authority) is None
            },
        },
{
    reveal_strlit(":");
    lemma_last_index_of(authority, ':');
    match last_index_of(authority, ':') {
        Some(i) => {
            let rest = authority.skip(i + 1);
            assert(authority =~= authority.take(i) + ":"@ + rest);
            assert forall|j: int| 0 <= j < rest.len() implies rest[j] != ':' by {
                assert(rest[j] == authority[i + 1 + j]);
            }
        },
        None => {},
    }
}

/// The parts of the address `addr`, or `None` where it has no valid scheme.
pub open spec fn parse_address(addr: Seq<char>) -> Option<AddressParts> {
    match scheme_of(addr) {
        Some(scheme) => Some(
            AddressParts {
                scheme,
                host: host_of(authority_of(addr)),
                port: port_of(authority_of(addr)),
            },
        ),
        None => None,
    }
}

/// The address that names `host` and `port` under `scheme`.
pub open spec fn render_address(scheme: Seq<char>, host: Seq<char>, port: u16) -> Seq<char> {
    scheme + "://"@ + host + ":"@ + decimal_digits(port as nat)
}

/// Whether `scheme` is one of the two that an address may begin with.
pub open spec fn is_valid_scheme(scheme: Seq<char>) -> bool {
    scheme == "http"@ || scheme == "https"@
}

/// An address written from a valid scheme, any host and any port reads
/// back as that scheme, that host and that port.
pub proof fn lemma_parse_render_address(scheme: Seq<char>, host: Seq<char>, port: u16)
    requires
        is_valid_scheme(scheme),
    ensures
        parse_address(render_address(scheme, host, port)) == Some(
            AddressParts { scheme, host, port: Some(port) },
        ),
{
    reveal_strlit("http");
    reveal_strlit("https");
    reveal_strlit("http://");
    reveal_strlit("https://");
    reveal_strlit("://");
    reveal_strlit(":");
    let digits = decimal_digits(port as nat);
    let addr = render_address(scheme, host, port);
    let authority = host + ":"@ + digits;
    lemma_decimal_digits(port as nat);
    lemma_port_of_decimal_digits(port);
    if scheme == "http"@ {
        assert("http://"@.is_prefix_of(addr));
        assert(authority_of(addr) =~= authority);
    } else {
        assert(addr[4] == 's');
        assert(!"http://"@.is_prefix_of(addr)) by {
            if "http://"@.is_prefix_of(addr) {
                assert(addr.subrange(0, 7)[4] == "http://"@[4]);
            }
        }
        assert("https://"@.is_prefix_of(addr));
        assert(authority_of(addr) =~= authority);
    }
    assert(scheme_of(addr) == Some(scheme));
    let colon = host.len() as int;
    assert(authority[colon] == ':');
    assert forall|j: int| colon < j < authority.len() implies authority[j] != ':' by {
        assert(authority[j] == digits[j - colon - 1]);
        assert(is_digit(digits[j - colon - 1]));
    }
    lemma_last_index_of_unique(authority, ':', colon);
    assert(authority.take(colon) =~= host);
    assert(authority.skip(colon + 1) =~= digits);
}

} // verus!

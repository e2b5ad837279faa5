//! Dot-decimal IPv4 addresses, as `std::net::Ipv4Addr` reads them from text:
//! four decimal octets separated by `.`, each at most 255, with no leading
//! zero (octal and hexadecimal forms are refused).

use vstd::prelude::*;

verus! {

pub open spec fn is_ascii_digit(c: char) -> bool {
    '0' <= c <= '9'
}

pub open spec fn digit_value(c: char) -> nat {
    ((c as u32) - 48) as nat
}

/// The end of the run of ASCII digits that starts at `i`.
pub open spec fn digits_end(s: Seq<char>, i: int) -> int
    decreases s.len() - i,
{
    if 0 <= i < s.len() && is_ascii_digit(s[i]) {
        digits_end(s, i + 1)
    } else {
        i
    }
}

/// The number that a string of decimal digits denotes.
pub open spec fn decimal_value(s: Seq<char>) -> nat
    decreases s.len(),
{
    if s.len() == 0 {
        0
    } else {
        decimal_value(s.drop_last()) * 10 + digit_value(s.last())
    }
}

/// The octet written at `i`, and the position after it.
pub open spec fn octet_at(s: Seq<char>, i: int) -> Option<(u8, int)> {
    let j = digits_end(s, i);
    if j == i {
        None
    } else if s[i] == '0' && j > i + 1 {
        None
    } else if decimal_value(s.subrange(i, j)) > 255 {
        None
    } else {
        Some((decimal_value(s.subrange(i, j)) as u8, j))
    }
}

/// A `.` at `i` followed by an octet.
pub open spec fn dot_octet_at(s: Seq<char>, i: int) -> Option<(u8, int)> {
    if 0 <= i < s.len() && s[i] == '.' {
        octet_at(s, i + 1)
    } else {
        None
    }
}

/// The four octets of the address written as `s`, if `s` is one.
pub open spec fn ipv4_octets(s: Seq<char>) -> Option<(u8, u8, u8, u8)> {
    match octet_at(s, 0) {
        None => None,
        Some((a, i1)) => match dot_octet_at(s, i1) {
            None => None,
            Some((b, i2)) => match dot_octet_at(s, i2) {
                None => None,
                Some((c, i3)) => match dot_octet_at(s, i3) {
                    None => None,
                    Some((d, i4)) => if i4 == s.len() {
                        Some((a, b, c, d))
                    } else {
                        None
                    },
                },
            },
        },
    }
}

proof fn lemma_digits_end(s: Seq<char>, i: int, j: int)
    requires
        0 <= i <= j <= s.len(),
        forall|k: int| i <= k < j ==> is_ascii_digit(#[trigger] s[k]),
        j == s.len() || !is_ascii_digit(s[j]),
    ensures
        digits_end(s, i) == j,
    decreases j - i,
{
    if i < j {
        lemma_digits_end(s, i + 1, j);
    }
}

pub open spec fn octet_view(r: Option<(u8, usize)>) -> Option<(u8, int)> {
    match r {
        Some((v, j)) => Some((v, j as int)),
        None => None,
    }
}

/// Reads the octet written at `i`.
fn read_octet(s: &Vec<char>, i: usize) -> (r: Option<(u8, usize)>)
    requires
        i <= s@.len(),
    ensures
        octet_view(r) == octet_at(s@, i as int),
        r matches Some((_, j)) ==> j <= s@.len(),
{
    let n = s.len();
    let mut j = i;
    let mut val: u32 = 0;
    while j < n && '0' <= s[j] && s[j] <= '9'
        invariant
            i <= j <= n,
            n == s@.len(),
            forall|k: int| i <= k < j ==> is_ascii_digit(#[trigger] s@[k]),
            val < 2560,
            val <= 255 ==> val == decimal_value(s@.subrange(i as int, j as int)),
            val > 255 ==> decimal_value(s@.subrange(i as int, j as int)) > 255,
        decreases n - j,
    {
        let d: u32 = (s[j] as u32) - 48;
        assert(s@.subrange(i as int, j + 1).drop_last() =~= s@.subrange(i as int, j as int));
        if val <= 255 {
            val = val * 10 + d;
        }
        j = j + 1;
    }
    proof {
        lemma_digits_end(s@, i as int, j as int);
    }
    if j == i {
        None
    } else if s[i] == '0' && j > i + 1 {
        None
    } else if val > 255 {
        None
    } else {
        Some((val as u8, j))
    }
}

fn read_dot_octet(s: &Vec<char>, i: usize) -> (r: Option<(u8, usize)>)
    requires
        i <= s@.len(),
    ensures
        octet_view(r) == dot_octet_at(s@, i as int),
        r matches Some((_, j)) ==> j <= s@.len(),
{
    if i < s.len() && s[i] == '.' {
        read_octet(s, i + 1)
    } else {
        None
    }
}

/// The octets of the dot-decimal IPv4 address written as `s`, if it is one
/// (`str::parse::<Ipv4Addr>`).
pub fn parse_ipv4(s: &Vec<char>) -> (r: Option<(u8, u8, u8, u8)>)
    ensures
        r == ipv4_octets(s@),
{
    let (a, i1) = match read_octet(s, 0) {
        Some(p) => p,
        None => return None,
    };
    let (b, i2) = match read_dot_octet(s, i1) {
        Some(p) => p,
        None => return None,
    };
    let (c, i3) = match read_dot_octet(s, i2) {
        Some(p) => p,
        None => return None,
    };
    let (d, i4) = match read_dot_octet(s, i3) {
        Some(p) => p,
        None => return None,
    };
    if i4 == s.len() {
        Some((a, b, c, d))
    } else {
        None
    }
}

} // verus!

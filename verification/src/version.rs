//! Concrete runtime versions: an immutable numeric triple, totally
//! ordered, with a canonical `vMAJOR.MINOR.PATCH` rendering and a
//! verified parser for exact and partial (`16`, `16.2`) version text.
use vstd::prelude::*;
use vstd::string::*;

verus! {

/// A concrete runtime version: a numeric triple, totally ordered by
/// lexicographic comparison of (major, minor, patch).
#[derive(Clone, Copy, PartialEq, Eq, Structural, Debug)]
pub struct Version {
    pub major: u64,
    pub minor: u64,
    pub patch: u64,
}

impl Version {
    /// Strict numeric ordering on versions.
    pub open spec fn spec_lt(self, other: Version) -> bool {
        ||| self.major < other.major
        ||| (self.major == other.major && self.minor < other.minor)
        ||| (self.major == other.major && self.minor == other.minor && self.patch < other.patch)
    }

    /// Non-strict numeric ordering on versions.
    pub open spec fn spec_le(self, other: Version) -> bool {
        self.spec_lt(other) || self == other
    }

    pub fn new(major: u64, minor: u64, patch: u64) -> (r: Version)
        ensures
            r == (Version { major, minor, patch }),
    {
        Version { major, minor, patch }
    }

    /// Decides the strict numeric order.
    pub fn lt(&self, other: &Version) -> (r: bool)
        ensures
            r == self.spec_lt(*other),
    {
        if self.major != other.major {
            self.major < other.major
        } else if self.minor != other.minor {
            self.minor < other.minor
        } else {
            self.patch < other.patch
        }
    }

    /// Canonical rendering, `vMAJOR.MINOR.PATCH`.
    pub fn v_str(&self) -> (r: String)
        ensures
            r@ == spec_version_chars(*self),
    {
        let mut s = v_prefix_str().to_owned();
        let major = u64_to_string(self.major);
        s.append(major.as_str());
        s.append(dot_str());
        let minor = u64_to_string(self.minor);
        s.append(minor.as_str());
        s.append(dot_str());
        let patch = u64_to_string(self.patch);
        s.append(patch.as_str());
        s
    }
}

/// The order is total: any two versions compare, and mutual
/// non-strict order implies equality.
pub proof fn lemma_version_order_total(a: Version, b: Version)
    ensures
        a.spec_le(b) || b.spec_le(a),
        a.spec_le(b) && b.spec_le(a) ==> a == b,
{
}

/// A decimal digit character.
pub open spec fn is_digit(c: char) -> bool {
    48 <= c as int && c as int <= 57
}

/// The numeric value of a digit character.
pub open spec fn digit_val(c: char) -> int {
    c as int - 48
}

/// The character for a single decimal digit.
pub open spec fn digit_char(d: int) -> char {
    if d == 0 { '0' }
    else if d == 1 { '1' }
    else if d == 2 { '2' }
    else if d == 3 { '3' }
    else if d == 4 { '4' }
    else if d == 5 { '5' }
    else if d == 6 { '6' }
    else if d == 7 { '7' }
    else if d == 8 { '8' }
    else { '9' }
}

/// Value of a run of digit characters, most significant first.
pub open spec fn dec_val(s: Seq<char>) -> int
    decreases s.len(),
{
    if s.len() == 0 {
        0
    } else {
        dec_val(s.drop_last()) * 10 + digit_val(s.last())
    }
}

/// End of the digit run that starts at `i`: the first index at or
/// after `i` holding a non-digit, or the length of `s`.
pub open spec fn digits_end(s: Seq<char>, i: int) -> int
    decreases s.len() - i,
{
    if i < 0 || i >= s.len() || !is_digit(s[i]) {
        i
    } else {
        digits_end(s, i + 1)
    }
}

pub proof fn lemma_digits_end_bounds(s: Seq<char>, i: int)
    requires
        0 <= i <= s.len(),
    ensures
        i <= digits_end(s, i) <= s.len(),
        forall|k: int| i <= k < digits_end(s, i) ==> is_digit(s[k]),
        digits_end(s, i) < s.len() ==> !is_digit(s[digits_end(s, i)]),
    decreases s.len() - i,
{
    if i < s.len() && is_digit(s[i]) {
        lemma_digits_end_bounds(s, i + 1);
    }
}

/// Decimal rendering of a non-negative number, canonical (no leading
/// zeros except for zero itself).
pub open spec fn u64_chars(n: int) -> Seq<char>
    decreases n,
{
    if n < 10 {
        seq![digit_char(n)]
    } else {
        u64_chars(n / 10) + seq![digit_char(n % 10)]
    }
}

/// The string for one digit.
fn digit_str(d: u64) -> (r: &'static str)
    requires
        d < 10,
    ensures
        r@ == seq![digit_char(d as int)],
{
    let r = if d == 0 { "0" }
    else if d == 1 { "1" }
    else if d == 2 { "2" }
    else if d == 3 { "3" }
    else if d == 4 { "4" }
    else if d == 5 { "5" }
    else if d == 6 { "6" }
    else if d == 7 { "7" }
    else if d == 8 { "8" }
    else { "9" };
    proof {
        reveal_strlit("0");
        reveal_strlit("1");
        reveal_strlit("2");
        reveal_strlit("3");
        reveal_strlit("4");
        reveal_strlit("5");
        reveal_strlit("6");
        reveal_strlit("7");
        reveal_strlit("8");
        reveal_strlit("9");
        assert(r@ =~= seq![digit_char(d as int)]);
    }
    r
}

fn dot_str() -> (r: &'static str)
    ensures
        r@ == seq!['.'],
{
    let r = ".";
    proof {
        reveal_strlit(".");
        assert(r@ =~= seq!['.']);
    }
    r
}

fn v_prefix_str() -> (r: &'static str)
    ensures
        r@ == seq!['v'],
{
    let r = "v";
    proof {
        reveal_strlit("v");
        assert(r@ =~= seq!['v']);
    }
    r
}

/// Canonical decimal rendering of a number.
pub fn u64_to_string(n: u64) -> (r: String)
    ensures
        r@ == u64_chars(n as int),
    decreases n,
{
    if n < 10 {
        digit_str(n).to_owned()
    } else {
        assert(n / 10 < n);
        let mut s = u64_to_string(n / 10);
        s.append(digit_str(n % 10));
        s
    }
}

/// Canonical character form of a version, `vMAJOR.MINOR.PATCH`.
pub open spec fn spec_version_chars(v: Version) -> Seq<char> {
    seq!['v'] + u64_chars(v.major as int) + seq!['.'] + u64_chars(v.minor as int) + seq!['.']
        + u64_chars(v.patch as int)
}

/// The numeric part of a version specifier: one, two or three
/// dot-separated components.
#[derive(Clone, Copy, PartialEq, Eq, Debug)]
pub struct NumericPrefix {
    pub major: u64,
    pub minor: Option<u64>,
    pub patch: Option<u64>,
}

/// Scans the digit run of `s` beginning at `i` and yields its value,
/// or `None` past the end of the run or when the value does not fit.
pub fn scan_component(s: &str, i: usize) -> (r: (usize, Option<u64>))
    requires
        i <= s@.len(),
    ensures
        r.0 == digits_end(s@, i as int),
        i <= r.0 <= s@.len(),
        r.1 is Some <==> (i < r.0 && dec_val(s@.subrange(i as int, r.0 as int)) <= u64::MAX),
        r.1 is Some ==> r.1->0 == dec_val(s@.subrange(i as int, r.0 as int)),
{
    let ghost sv = s@;
    proof {
        lemma_digits_end_bounds(sv, i as int);
    }
    let len = s.unicode_len();
    let mut j: usize = i;
    let mut acc: u64 = 0;
    let mut ok: bool = true;
    loop
        invariant
            i <= j <= len,
            len == sv.len(),
            sv == s@,
            forall|k: int| i <= k < j ==> is_digit(sv[k]),
            digits_end(sv, i as int) == digits_end(sv, j as int),
            ok ==> acc == dec_val(sv.subrange(i as int, j as int)),
            !ok ==> dec_val(sv.subrange(i as int, j as int)) > u64::MAX,
        ensures
            i <= j <= len,
            digits_end(sv, i as int) == j,
            ok ==> acc == dec_val(sv.subrange(i as int, j as int)),
            !ok ==> dec_val(sv.subrange(i as int, j as int)) > u64::MAX,
        decreases len - j,
    {
        if j == len {
            proof {
                assert(digits_end(sv, j as int) == j);
            }
            break;
        }
        let c = s.get_char(j);
        let cv = c as u32;
        if cv < 48 || cv > 57 {
            proof {
                assert(!is_digit(sv[j as int]));
                assert(digits_end(sv, j as int) == j);
            }
            break;
        }
        let d = (cv - 48) as u64;
        proof {
            assert(is_digit(sv[j as int]));
            assert(sv.subrange(i as int, j + 1 as int).drop_last() =~= sv.subrange(
                i as int,
                j as int,
            ));
            assert(sv.subrange(i as int, j + 1 as int).last() == sv[j as int]);
            assert(dec_val(sv.subrange(i as int, j + 1 as int)) == dec_val(
                sv.subrange(i as int, j as int),
            ) * 10 + digit_val(sv[j as int]));
        }
        if ok {
            match acc.checked_mul(10) {
                Some(m) => {
                    match m.checked_add(d) {
                        Some(t) => {
                            acc = t;
                        },
                        None => {
                            ok = false;
                        },
                    }
                },
                None => {
                    ok = false;
                },
            }
        }
        j = j + 1;
    }
    proof {
        assert(sv.subrange(i as int, i as int) =~= Seq::<char>::empty());
    }
    if j == i {
        (j, None)
    } else if ok {
        (j, Some(acc))
    } else {
        (j, None)
    }
}

/// The numeric-prefix grammar, starting at index `i`: up to three
/// dot-separated digit runs, each fitting a 64-bit number, ending at
/// the end of the string.
pub open spec fn spec_parse_prefix_at(s: Seq<char>, i: int) -> Option<NumericPrefix> {
    let e1 = digits_end(s, i);
    if e1 == i || dec_val(s.subrange(i, e1)) > u64::MAX {
        None
    } else {
        let v1 = dec_val(s.subrange(i, e1)) as u64;
        if e1 == s.len() {
            Some(NumericPrefix { major: v1, minor: None, patch: None })
        } else if s[e1] != '.' {
            None
        } else {
            let e2 = digits_end(s, e1 + 1);
            if e2 == e1 + 1 || dec_val(s.subrange(e1 + 1, e2)) > u64::MAX {
                None
            } else {
                let v2 = dec_val(s.subrange(e1 + 1, e2)) as u64;
                if e2 == s.len() {
                    Some(NumericPrefix { major: v1, minor: Some(v2), patch: None })
                } else if s[e2] != '.' {
                    None
                } else {
                    let e3 = digits_end(s, e2 + 1);
                    if e3 == e2 + 1 || e3 != s.len() || dec_val(s.subrange(e2 + 1, e3))
                        > u64::MAX {
                        None
                    } else {
                        let v3 = dec_val(s.subrange(e2 + 1, e3)) as u64;
                        Some(NumericPrefix { major: v1, minor: Some(v2), patch: Some(v3) })
                    }
                }
            }
        }
    }
}

/// Parses the numeric-prefix grammar from index `i` to the end of `s`.
pub fn parse_prefix_at(s: &str, i: usize) -> (r: Option<NumericPrefix>)
    requires
        i <= s@.len(),
    ensures
        r == spec_parse_prefix_at(s@, i as int),
{
    let len = s.unicode_len();
    let (e1, c1) = scan_component(s, i);
    let v1 = match c1 {
        Some(v) => v,
        None => {
            return None;
        },
    };
    if e1 == len {
        return Some(NumericPrefix { major: v1, minor: None, patch: None });
    }
    if s.get_char(e1) != '.' {
        return None;
    }
    let (e2, c2) = scan_component(s, e1 + 1);
    let v2 = match c2 {
        Some(v) => v,
        None => {
            return None;
        },
    };
    if e2 == len {
        return Some(NumericPrefix { major: v1, minor: Some(v2), patch: None });
    }
    if s.get_char(e2) != '.' {
        return None;
    }
    let (e3, c3) = scan_component(s, e2 + 1);
    let v3 = match c3 {
        Some(v) => v,
        None => {
            return None;
        },
    };
    if e3 != len {
        return None;
    }
    Some(NumericPrefix { major: v1, minor: Some(v2), patch: Some(v3) })
}

/// The exact-version grammar: an optional leading `v`, then a full
/// three-component numeric prefix.
pub open spec fn spec_parse_version(s: Seq<char>) -> Option<Version> {
    let i: int = if s.len() > 0 && s[0] == 'v' { 1 } else { 0 };
    match spec_parse_prefix_at(s, i) {
        Some(p) => match (p.minor, p.patch) {
            (Some(mn), Some(pt)) => Some(Version { major: p.major, minor: mn, patch: pt }),
            _ => None,
        },
        None => None,
    }
}

/// Parses an exact version, `16.2.0` or `v16.2.0`.
pub fn parse_version(s: &str) -> (r: Option<Version>)
    ensures
        r == spec_parse_version(s@),
{
    let len = s.unicode_len();
    let start: usize = if len > 0 && s.get_char(0) == 'v' { 1 } else { 0 };
    match parse_prefix_at(s, start) {
        Some(p) => match (p.minor, p.patch) {
            (Some(mn), Some(pt)) => Some(Version { major: p.major, minor: mn, patch: pt }),
            _ => None,
        },
        None => None,
    }
}

} // verus!

//! Semver ranges as found in a manifest's engine field: comparator
//! sets joined by `||`, with caret, tilde and x-range shorthand.
//!
//! Supported grammar, after optional spaces: alternatives separated
//! by `||`; each alternative is a space-separated list of
//! comparators; a comparator is one of `^ ~ > >= < <= =` (or no
//! operator) followed by a partial version `N[.N[.N]]` whose
//! components may also be the wildcards `x`, `X` or `*`.
use vstd::prelude::*;
use vstd::string::*;
use crate::version::{Version, is_digit, digits_end, dec_val};

verus! {

/// Comparator operators.
#[derive(Clone, Copy, PartialEq, Eq, Structural, Debug)]
pub enum RangeOp {
    Exactly,
    Greater,
    GreaterEq,
    Less,
    LessEq,
    Caret,
    Tilde,
}

/// One comparator: an operator applied to a partial version, or the
/// match-anything wildcard.
#[derive(Clone, Copy, PartialEq, Eq, Debug)]
pub enum Comparator {
    AnyVersion,
    Bound { op: RangeOp, major: u64, minor: Option<u64>, patch: Option<u64> },
}

/// The version `(major, minor or 0, patch or 0)`: the lower bound a
/// partial version denotes.
pub open spec fn spec_filled(major: u64, minor: Option<u64>, patch: Option<u64>) -> Version {
    Version {
        major,
        minor: match minor {
            Some(mn) => mn,
            None => 0,
        },
        patch: match patch {
            Some(pt) => pt,
            None => 0,
        },
    }
}

/// Whether `v` satisfies one comparator, with the usual semver-range
/// meaning of partial versions: missing or wildcard components make
/// `=` a prefix match, push `>` and `<=` past the whole prefix block,
/// and leave `>=` and `<` at the zero-filled lower bound.
pub open spec fn spec_comparator_matches(c: Comparator, v: Version) -> bool {
    match c {
        Comparator::AnyVersion => true,
        Comparator::Bound { op, major, minor, patch } => {
            let lo = spec_filled(major, minor, patch);
            match op {
                RangeOp::Exactly => v.major == major && (match minor {
                    Some(mn) => v.minor == mn && (match patch {
                        Some(pt) => v.patch == pt,
                        None => true,
                    }),
                    None => true,
                }),
                RangeOp::GreaterEq => lo.spec_le(v),
                RangeOp::Less => v.spec_lt(lo),
                RangeOp::Greater => match (minor, patch) {
                    (Some(mn), Some(pt)) => lo.spec_lt(v),
                    (Some(mn), None) => v.major > major || (v.major == major && v.minor > mn),
                    _ => v.major > major,
                },
                RangeOp::LessEq => match (minor, patch) {
                    (Some(mn), Some(pt)) => v.spec_le(lo),
                    (Some(mn), None) => v.major < major || (v.major == major && v.minor <= mn),
                    _ => v.major <= major,
                },
                RangeOp::Caret => {
                    if major > 0 {
                        v.major == major && lo.spec_le(v)
                    } else {
                        match minor {
                            None => v.major == 0,
                            Some(mn) => {
                                if mn > 0 {
                                    v.major == 0 && v.minor == mn && lo.spec_le(v)
                                } else {
                                    match patch {
                                        Some(pt) => v == lo,
                                        None => v.major == 0 && v.minor == 0,
                                    }
                                }
                            },
                        }
                    }
                },
                RangeOp::Tilde => match minor {
                    None => v.major == major,
                    Some(mn) => v.major == major && v.minor == mn && lo.spec_le(v),
                },
            }
        },
    }
}

/// Whether `v` satisfies every comparator of one alternative.
pub open spec fn spec_alt_matches(comps: Seq<Comparator>, v: Version) -> bool {
    forall|k: int| 0 <= k < comps.len() ==> spec_comparator_matches(comps[k], v)
}

/// Whether `v` satisfies some alternative of the range.
pub open spec fn spec_range_matches(alts: Seq<Seq<Comparator>>, v: Version) -> bool {
    exists|k: int| 0 <= k < alts.len() && spec_alt_matches(alts[k], v)
}

/// A parsed range: the alternatives of the `||` list.
#[derive(Clone, Debug)]
pub struct Range {
    pub alts: Vec<Conjunct>,
}

/// One alternative: a conjunction of comparators.
#[derive(Clone, Debug)]
pub struct Conjunct {
    pub comps: Vec<Comparator>,
}

impl View for Conjunct {
    type V = Seq<Comparator>;

    open spec fn view(&self) -> Seq<Comparator> {
        self.comps@
    }
}

impl View for Range {
    type V = Seq<Seq<Comparator>>;

    open spec fn view(&self) -> Seq<Seq<Comparator>> {
        Seq::new(self.alts@.len(), |k: int| self.alts@[k]@)
    }
}

impl Range {
    /// Whether `v` satisfies this range.
    pub fn matches(&self, v: &Version) -> (r: bool)
        ensures
            r == spec_range_matches(self@, *v),
    {
        let n = self.alts.len();
        let mut k: usize = 0;
        while k < n
            invariant
                k <= n,
                n == self.alts@.len(),
                forall|j: int| 0 <= j < k ==> !spec_alt_matches(self@[j], *v),
            decreases n - k,
        {
            if alt_matches(&self.alts[k].comps, v) {
                proof {
                    assert(self@[k as int] == self.alts@[k as int]@);
                }
                return true;
            }
            proof {
                assert(self@[k as int] == self.alts@[k as int]@);
            }
            k = k + 1;
        }
        proof {
            assert(self@.len() == self.alts@.len());
        }
        false
    }
}

fn alt_matches(comps: &Vec<Comparator>, v: &Version) -> (r: bool)
    ensures
        r == spec_alt_matches(comps@, *v),
{
    let n = comps.len();
    let mut k: usize = 0;
    while k < n
        invariant
            k <= n,
            n == comps@.len(),
            forall|j: int| 0 <= j < k ==> spec_comparator_matches(comps@[j], *v),
        decreases n - k,
    {
        if !comparator_matches(&comps[k], v) {
            return false;
        }
        k = k + 1;
    }
    true
}

fn comparator_matches(c: &Comparator, v: &Version) -> (r: bool)
    ensures
        r == spec_comparator_matches(*c, *v),
{
    match c {
        Comparator::AnyVersion => true,
        Comparator::Bound { op, major, minor, patch } => {
            let lo = Version {
                major: *major,
                minor: match minor {
                    Some(mn) => *mn,
                    None => 0,
                },
                patch: match patch {
                    Some(pt) => *pt,
                    None => 0,
                },
            };
            match op {
                RangeOp::Exactly => v.major == *major && (match minor {
                    Some(mn) => v.minor == *mn && (match patch {
                        Some(pt) => v.patch == *pt,
                        None => true,
                    }),
                    None => true,
                }),
                RangeOp::GreaterEq => !v.lt(&lo),
                RangeOp::Less => v.lt(&lo),
                RangeOp::Greater => match (minor, patch) {
                    (Some(_), Some(_)) => lo.lt(v),
                    (Some(mn), None) => v.major > *major || (v.major == *major && v.minor > *mn),
                    _ => v.major > *major,
                },
                RangeOp::LessEq => match (minor, patch) {
                    (Some(_), Some(_)) => !lo.lt(v),
                    (Some(mn), None) => v.major < *major || (v.major == *major && v.minor <= *mn),
                    _ => v.major <= *major,
                },
                RangeOp::Caret => {
                    if *major > 0 {
                        v.major == *major && !v.lt(&lo)
                    } else {
                        match minor {
                            None => v.major == 0,
                            Some(mn) => {
                                if *mn > 0 {
                                    v.major == 0 && v.minor == *mn && !v.lt(&lo)
                                } else {
                                    match patch {
                                        Some(_) => v.major == lo.major && v.minor == lo.minor
                                            && v.patch == lo.patch,
                                        None => v.major == 0 && v.minor == 0,
                                    }
                                }
                            },
                        }
                    }
                },
                RangeOp::Tilde => match minor {
                    None => v.major == *major,
                    Some(mn) => v.major == *major && v.minor == *mn && !v.lt(&lo),
                },
            }
        },
    }
}

/// First index at or after `i` holding no space.
pub open spec fn spec_skip_ws(s: Seq<char>, i: int) -> int
    decreases s.len() - i,
{
    if i < 0 || i >= s.len() || s[i] != ' ' {
        i
    } else {
        spec_skip_ws(s, i + 1)
    }
}

pub proof fn lemma_skip_ws_bounds(s: Seq<char>, i: int)
    requires
        0 <= i <= s.len(),
    ensures
        i <= spec_skip_ws(s, i) <= s.len(),
    decreases s.len() - i,
{
    if i < s.len() && s[i] == ' ' {
        lemma_skip_ws_bounds(s, i + 1);
    }
}

/// The operator at `i`, and the index just past it; no operator
/// reads as `=` applied to the partial version that follows.
pub open spec fn spec_parse_op(s: Seq<char>, i: int) -> (RangeOp, int) {
    if i < s.len() && s[i] == '^' {
        (RangeOp::Caret, i + 1)
    } else if i < s.len() && s[i] == '~' {
        (RangeOp::Tilde, i + 1)
    } else if i < s.len() && s[i] == '>' {
        if i + 1 < s.len() && s[i + 1] == '=' {
            (RangeOp::GreaterEq, i + 2)
        } else {
            (RangeOp::Greater, i + 1)
        }
    } else if i < s.len() && s[i] == '<' {
        if i + 1 < s.len() && s[i + 1] == '=' {
            (RangeOp::LessEq, i + 2)
        } else {
            (RangeOp::Less, i + 1)
        }
    } else if i < s.len() && s[i] == '=' {
        (RangeOp::Exactly, i + 1)
    } else {
        (RangeOp::Exactly, i)
    }
}

/// One numeric or wildcard component: its value (`None` for a
/// wildcard) and the index just past it.
pub open spec fn spec_parse_numpart(s: Seq<char>, i: int) -> Option<(Option<u64>, int)> {
    if i < s.len() && (s[i] == 'x' || s[i] == 'X' || s[i] == '*') {
        Some((None, i + 1))
    } else {
        let e = digits_end(s, i);
        if e == i || dec_val(s.subrange(i, e)) > u64::MAX {
            None
        } else {
            Some((Some(dec_val(s.subrange(i, e)) as u64), e))
        }
    }
}

/// Builds the comparator once operator and partial version are read:
/// a wildcard or missing major component matches anything.
pub open spec fn spec_build_comparator(
    op: RangeOp,
    major: Option<u64>,
    minor: Option<u64>,
    patch: Option<u64>,
) -> Comparator {
    match major {
        None => Comparator::AnyVersion,
        Some(mj) => Comparator::Bound { op, major: mj, minor, patch },
    }
}

/// One comparator starting at `i` (spaces allowed after the
/// operator), and the index just past it.
pub open spec fn spec_parse_comparator(s: Seq<char>, i: int) -> Option<(Comparator, int)> {
    let (op, j) = spec_parse_op(s, i);
    let j2 = spec_skip_ws(s, j);
    match spec_parse_numpart(s, j2) {
        None => None,
        Some((mj, k)) => {
            if k < s.len() && s[k] == '.' {
                match spec_parse_numpart(s, k + 1) {
                    None => None,
                    Some((mn, k2)) => {
                        if k2 < s.len() && s[k2] == '.' {
                            match spec_parse_numpart(s, k2 + 1) {
                                None => None,
                                Some((pt, k3)) => Some((spec_build_comparator(op, mj, mn, pt), k3)),
                            }
                        } else {
                            Some((spec_build_comparator(op, mj, mn, None), k2))
                        }
                    },
                }
            } else {
                Some((spec_build_comparator(op, mj, None, None), k))
            }
        },
    }
}

/// The comparators of one alternative, from `i` up to the end or a
/// `|`; each comparator must end at a space, a `|` or the end.
pub open spec fn spec_parse_alt(s: Seq<char>, i: int) -> Option<(Seq<Comparator>, int)>
    decreases s.len() - i,
{
    let j = spec_skip_ws(s, i);
    if j >= s.len() || s[j] == '|' {
        Some((Seq::empty(), j))
    } else {
        match spec_parse_comparator(s, j) {
            None => None,
            Some((c, k)) => {
                if !(k == s.len() || s[k] == ' ' || s[k] == '|') {
                    None
                } else if k <= i || k > s.len() {
                    None
                } else {
                    match spec_parse_alt(s, k) {
                        None => None,
                        Some((rest, e)) => Some((seq![c] + rest, e)),
                    }
                }
            },
        }
    }
}

/// The whole `||` list starting at `i`.
pub open spec fn spec_parse_alts(s: Seq<char>, i: int) -> Option<Seq<Seq<Comparator>>>
    decreases s.len() - i,
{
    match spec_parse_alt(s, i) {
        None => None,
        Some((conj, j)) => {
            if j >= s.len() {
                Some(seq![conj])
            } else if s[j] == '|' && j + 1 < s.len() && s[j + 1] == '|' && i <= j {
                match spec_parse_alts(s, j + 2) {
                    None => None,
                    Some(rest) => Some(seq![conj] + rest),
                }
            } else {
                None
            }
        },
    }
}

/// The range grammar over character sequences.
pub open spec fn spec_parse_range(s: Seq<char>) -> Option<Seq<Seq<Comparator>>> {
    spec_parse_alts(s, 0)
}

fn skip_ws(s: &str, i: usize) -> (r: usize)
    requires
        i <= s@.len(),
    ensures
        r == spec_skip_ws(s@, i as int),
        i <= r <= s@.len(),
    decreases s@.len() - i,
{
    let len = s.unicode_len();
    if i < len && s.get_char(i) == ' ' {
        skip_ws(s, i + 1)
    } else {
        i
    }
}

fn parse_op(s: &str, i: usize) -> (r: (RangeOp, usize))
    requires
        i <= s@.len(),
    ensures
        (r.0, r.1 as int) == spec_parse_op(s@, i as int),
        i <= r.1 <= s@.len(),
{
    let len = s.unicode_len();
    if i < len && s.get_char(i) == '^' {
        (RangeOp::Caret, i + 1)
    } else if i < len && s.get_char(i) == '~' {
        (RangeOp::Tilde, i + 1)
    } else if i < len && s.get_char(i) == '>' {
        if i + 1 < len && s.get_char(i + 1) == '=' {
            (RangeOp::GreaterEq, i + 2)
        } else {
            (RangeOp::Greater, i + 1)
        }
    } else if i < len && s.get_char(i) == '<' {
        if i + 1 < len && s.get_char(i + 1) == '=' {
            (RangeOp::LessEq, i + 2)
        } else {
            (RangeOp::Less, i + 1)
        }
    } else if i < len && s.get_char(i) == '=' {
        (RangeOp::Exactly, i + 1)
    } else {
        (RangeOp::Exactly, i)
    }
}

fn parse_numpart(s: &str, i: usize) -> (r: Option<(Option<u64>, usize)>)
    requires
        i <= s@.len(),
    ensures
        r is None ==> spec_parse_numpart(s@, i as int) is None,
        r is Some ==> spec_parse_numpart(s@, i as int) == Some(((r->0).0, (r->0).1 as int)),
        r is Some ==> i <= (r->0).1 <= s@.len(),
{
    let len = s.unicode_len();
    if i < len {
        let c = s.get_char(i);
        if c == 'x' || c == 'X' || c == '*' {
            return Some((None, i + 1));
        }
    }
    let (e, val) = crate::version::scan_component(s, i);
    match val {
        Some(v) => Some((Some(v), e)),
        None => None,
    }
}

fn parse_comparator(s: &str, i: usize) -> (r: Option<(Comparator, usize)>)
    requires
        i <= s@.len(),
    ensures
        r is None ==> spec_parse_comparator(s@, i as int) is None,
        r is Some ==> spec_parse_comparator(s@, i as int) == Some(((r->0).0, (r->0).1 as int)),
        r is Some ==> i <= (r->0).1 <= s@.len(),
{
    let len = s.unicode_len();
    let (op, j) = parse_op(s, i);
    let j2 = skip_ws(s, j);
    let (mj, k) = match parse_numpart(s, j2) {
        None => {
            return None;
        },
        Some(p) => p,
    };
    if k < len && s.get_char(k) == '.' {
        let (mn, k2) = match parse_numpart(s, k + 1) {
            None => {
                return None;
            },
            Some(p) => p,
        };
        if k2 < len && s.get_char(k2) == '.' {
            let (pt, k3) = match parse_numpart(s, k2 + 1) {
                None => {
                    return None;
                },
                Some(p) => p,
            };
            Some((build_comparator(op, mj, mn, pt), k3))
        } else {
            Some((build_comparator(op, mj, mn, None), k2))
        }
    } else {
        Some((build_comparator(op, mj, None, None), k))
    }
}

fn build_comparator(op: RangeOp, major: Option<u64>, minor: Option<u64>, patch: Option<u64>) -> (r:
    Comparator)
    ensures
        r == spec_build_comparator(op, major, minor, patch),
{
    match major {
        None => Comparator::AnyVersion,
        Some(mj) => Comparator::Bound { op, major: mj, minor, patch },
    }
}

fn parse_alt(s: &str, i: usize) -> (r: Option<(Vec<Comparator>, usize)>)
    requires
        i <= s@.len(),
    ensures
        r is None ==> spec_parse_alt(s@, i as int) is None,
        r is Some ==> spec_parse_alt(s@, i as int) == Some(((r->0).0@, (r->0).1 as int)),
        r is Some ==> i <= (r->0).1 <= s@.len(),
    decreases s@.len() - i,
{
    let len = s.unicode_len();
    let j = skip_ws(s, i);
    if j >= len || s.get_char(j) == '|' {
        return Some((Vec::new(), j));
    }
    let (c, k) = match parse_comparator(s, j) {
        None => {
            return None;
        },
        Some(p) => p,
    };
    if !(k == len || s.get_char(k) == ' ' || s.get_char(k) == '|') {
        return None;
    }
    if k <= i || k > len {
        return None;
    }
    match parse_alt(s, k) {
        None => None,
        Some((rest, e)) => {
            let mut out = rest;
            out.insert(0, c);
            proof {
                assert(out@ =~= seq![c] + out@.subrange(1, out@.len() as int));
            }
            Some((out, e))
        },
    }
}

fn parse_alts(s: &str, i: usize) -> (r: Option<Vec<Conjunct>>)
    requires
        i <= s@.len(),
    ensures
        r is None ==> spec_parse_alts(s@, i as int) is None,
        r is Some ==> spec_parse_alts(s@, i as int) == Some(
            Seq::new(r->0@.len(), |k: int| r->0@[k]@),
        ),
    decreases s@.len() - i,
{
    let len = s.unicode_len();
    let (conj, j) = match parse_alt(s, i) {
        None => {
            return None;
        },
        Some(p) => p,
    };
    if j >= len {
        let mut out: Vec<Conjunct> = Vec::new();
        out.push(Conjunct { comps: conj });
        proof {
            assert(Seq::new(out@.len(), |k: int| out@[k]@) =~= seq![out@[0]@]);
        }
        return Some(out);
    }
    if s.get_char(j) == '|' && j + 1 < len && s.get_char(j + 1) == '|' {
        match parse_alts(s, j + 2) {
            None => None,
            Some(rest) => {
                let ghost rest_view = Seq::new(rest@.len(), |k: int| rest@[k]@);
                let mut out = rest;
                out.insert(0, Conjunct { comps: conj });
                proof {
                    assert(Seq::new(out@.len(), |k: int| out@[k]@) =~= seq![out@[0]@]
                        + rest_view);
                }
                Some(out)
            },
        }
    } else {
        None
    }
}

/// Parses a range; `None` exactly on text outside the grammar.
pub fn parse_range(s: &str) -> (r: Option<Range>)
    ensures
        r is None ==> spec_parse_range(s@) is None,
        r is Some ==> spec_parse_range(s@) == Some(r->0@),
{
    match parse_alts(s, 0) {
        None => None,
        Some(alts) => Some(Range { alts }),
    }
}

} // verus!

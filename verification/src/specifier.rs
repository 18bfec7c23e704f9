//! Version specifiers: the tagged variants a user, a version file or
//! an alias name can denote, parsed once and never mutated.
use vstd::prelude::*;
use vstd::string::*;
use crate::version::{Version, is_digit, spec_parse_prefix_at, parse_prefix_at};
use crate::strutil::eq_chars;

verus! {

/// Ghost-level form of a specifier, with names as character
/// sequences; the model that every contract speaks of.
pub enum SpecifierView {
    Exact(Version),
    PartialPrefix { major: u64, minor: Option<u64> },
    LtsCodename(Seq<char>),
    LatestLts,
    Latest,
    Bypass,
    AliasName(Seq<char>),
}

/// A parsed version specifier.
///
/// Grammar accepted by [`parse_specifier`]:
/// - `latest` — the newest known version;
/// - `system` — bypass: leave `PATH` untouched;
/// - `lts-latest`, `lts/latest`, `lts-*`, `lts/*` — the newest LTS;
/// - `lts-NAME` or `lts/NAME` — the newest LTS with that codename;
/// - `16.2.0` or `v16.2.0` — an exact version;
/// - `16`, `16.2`, `v16` — a partial numeric prefix;
/// - any other non-empty text that does not begin like a number — an
///   alias name;
/// - empty text, or number-like text that fails the numeric grammar,
///   is unparseable.
#[derive(Clone, Debug)]
pub enum VersionSpecifier {
    Exact(Version),
    PartialPrefix { major: u64, minor: Option<u64> },
    LtsCodename(String),
    LatestLts,
    Latest,
    Bypass,
    AliasName(String),
}

impl View for VersionSpecifier {
    type V = SpecifierView;

    open spec fn view(&self) -> SpecifierView {
        match self {
            VersionSpecifier::Exact(v) => SpecifierView::Exact(*v),
            VersionSpecifier::PartialPrefix { major, minor } => SpecifierView::PartialPrefix {
                major: *major,
                minor: *minor,
            },
            VersionSpecifier::LtsCodename(n) => SpecifierView::LtsCodename(n@),
            VersionSpecifier::LatestLts => SpecifierView::LatestLts,
            VersionSpecifier::Latest => SpecifierView::Latest,
            VersionSpecifier::Bypass => SpecifierView::Bypass,
            VersionSpecifier::AliasName(n) => SpecifierView::AliasName(n@),
        }
    }
}

/// Number-like text: a digit, or `v` followed by a digit.
pub open spec fn spec_numeric_start(s: Seq<char>) -> bool {
    s.len() > 0 && (is_digit(s[0]) || (s[0] == 'v' && s.len() > 1 && is_digit(s[1])))
}

/// The specifier grammar over character sequences.
pub open spec fn spec_parse_specifier(s: Seq<char>) -> Option<SpecifierView> {
    if s == "latest"@ {
        Some(SpecifierView::Latest)
    } else if s == "system"@ {
        Some(SpecifierView::Bypass)
    } else if s.len() > 4 && s.subrange(0, 3) == "lts"@ && (s[3] == '-' || s[3] == '/') {
        let rest = s.subrange(4, s.len() as int);
        if rest == "latest"@ || rest == "*"@ {
            Some(SpecifierView::LatestLts)
        } else {
            Some(SpecifierView::LtsCodename(rest))
        }
    } else if spec_numeric_start(s) {
        let i: int = if s[0] == 'v' { 1 } else { 0 };
        match spec_parse_prefix_at(s, i) {
            Some(p) => match (p.minor, p.patch) {
                (Some(mn), Some(pt)) => Some(
                    SpecifierView::Exact(Version { major: p.major, minor: mn, patch: pt }),
                ),
                _ => Some(SpecifierView::PartialPrefix { major: p.major, minor: p.minor }),
            },
            None => None,
        }
    } else if s.len() > 0 {
        Some(SpecifierView::AliasName(s))
    } else {
        None
    }
}

/// Parses a specifier; `None` exactly on unparseable input.
pub fn parse_specifier(s: &str) -> (r: Option<VersionSpecifier>)
    ensures
        r is Some <==> spec_parse_specifier(s@) is Some,
        r is Some ==> spec_parse_specifier(s@) == Some(r->0@),
{
    let len = s.unicode_len();
    if eq_chars(s, "latest") {
        return Some(VersionSpecifier::Latest);
    }
    if eq_chars(s, "system") {
        return Some(VersionSpecifier::Bypass);
    }
    if len > 4 && s.get_char(0) == 'l' && s.get_char(1) == 't' && s.get_char(2) == 's' && (
    s.get_char(3) == '-' || s.get_char(3) == '/') {
        proof {
            reveal_strlit("lts");
            assert(s@.subrange(0, 3) =~= "lts"@);
        }
        let rest = s.substring_char(4, len);
        if eq_chars(rest, "latest") || eq_chars(rest, "*") {
            return Some(VersionSpecifier::LatestLts);
        }
        return Some(VersionSpecifier::LtsCodename(rest.to_owned()));
    }
    proof {
        reveal_strlit("lts");
        if s@.len() > 4 && s@.subrange(0, 3) == "lts"@ && (s@[3] == '-' || s@[3] == '/') {
            assert(s@.subrange(0, 3)[0] == 'l');
            assert(s@.subrange(0, 3)[1] == 't');
            assert(s@.subrange(0, 3)[2] == 's');
            assert(s@[0] == 'l' && s@[1] == 't' && s@[2] == 's');
        }
    }
    let numeric_start: bool = if len == 0 {
        false
    } else {
        let c0 = s.get_char(0) as u32;
        if 48 <= c0 && c0 <= 57 {
            true
        } else if s.get_char(0) == 'v' && len > 1 {
            let c1 = s.get_char(1) as u32;
            48 <= c1 && c1 <= 57
        } else {
            false
        }
    };
    if numeric_start {
        let start: usize = if s.get_char(0) == 'v' { 1 } else { 0 };
        return match parse_prefix_at(s, start) {
            Some(p) => match (p.minor, p.patch) {
                (Some(mn), Some(pt)) => Some(
                    VersionSpecifier::Exact(Version { major: p.major, minor: mn, patch: pt }),
                ),
                _ => Some(VersionSpecifier::PartialPrefix { major: p.major, minor: p.minor }),
            },
            None => None,
        };
    }
    if len > 0 {
        return Some(VersionSpecifier::AliasName(s.to_owned()));
    }
    None
}

/// A version matches a partial numeric prefix when the given
/// components agree.
pub open spec fn spec_prefix_matches(major: u64, minor: Option<u64>, v: Version) -> bool {
    v.major == major && (match minor {
        Some(mn) => v.minor == mn,
        None => true,
    })
}

/// Decides prefix matching.
pub fn prefix_matches(major: u64, minor: &Option<u64>, v: &Version) -> (r: bool)
    ensures
        r == spec_prefix_matches(major, *minor, *v),
{
    v.major == major && (match minor {
        Some(mn) => v.minor == *mn,
        None => true,
    })
}

} // verus!

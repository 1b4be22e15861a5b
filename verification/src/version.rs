//! Server software versions: `MAJOR.MINOR.PATCH` with an optional numeric
//! build identifier (written `+<build>`).  The repository identifies Paper
//! artifacts by such versions; the update pipeline compares them.

use crate::text::{
    digits_end, lemma_digits_end_bounds, lemma_digits_end_concat, lemma_u64_string_digits,
    scan_u64, spec_scan_u64, spec_u64_string, u64_string,
};
use vstd::prelude::*;
use vstd::string::*;

verus! {

/// A server software version.  The build identifier is the repository's
/// numeric build counter; a version read from a project index has none.
#[derive(Debug, Clone, Copy, PartialEq, Eq)]
pub struct Version {
    pub major: u64,
    pub minor: u64,
    pub patch: u64,
    pub build: Option<u64>,
}

impl Version {
    pub fn new(major: u64, minor: u64, patch: u64) -> (v: Version)
        ensures
            v == (Version { major, minor, patch, build: None }),
    {
        Version { major, minor, patch, build: None }
    }

    /// With the build identifier replaced.
    pub fn with_build(self, build: u64) -> (v: Version)
        ensures
            v == (Version { build: Some(build), ..self }),
    {
        Version { build: Some(build), ..self }
    }

    /// Lexicographic order on `MAJOR.MINOR.PATCH`; the build identifier does
    /// not participate (as in semantic versioning, where build metadata is
    /// ignored when ordering).
    pub open spec fn spec_core_le(self, other: Version) -> bool {
        self.major < other.major || (self.major == other.major && (self.minor < other.minor || (
        self.minor == other.minor && self.patch <= other.patch)))
    }

    pub fn core_le(&self, other: &Version) -> (r: bool)
        ensures
            r == self.spec_core_le(*other),
    {
        self.major < other.major || (self.major == other.major && (self.minor < other.minor || (
        self.minor == other.minor && self.patch <= other.patch)))
    }
}

/// Order on optional build identifiers: an absent build counts as older than
/// every present one.
pub open spec fn build_le(a: Option<u64>, b: Option<u64>) -> bool {
    match b {
        Option::None => a is None,
        Option::Some(nb) => match a {
            Option::None => true,
            Option::Some(na) => na <= nb,
        },
    }
}

/// The update pipeline's dominance check: the current installation is up to
/// date with respect to a target when its core version is at least the
/// target's and its build identifier is at least the target's (an absent
/// build counts as minus infinity).
pub open spec fn spec_up_to_date(current: Version, target: Version) -> bool {
    target.spec_core_le(current) && build_le(target.build, current.build)
}

pub fn up_to_date(current: &Version, target: &Version) -> (r: bool)
    ensures
        r == spec_up_to_date(*current, *target),
{
    target.core_le(current) && match (target.build, current.build) {
        (Option::None, _) => true,
        (Option::Some(tb), Option::Some(cb)) => tb <= cb,
        (Option::Some(_), Option::None) => false,
    }
}

/// Rendering of the core `MAJOR.MINOR.PATCH` triple.
pub open spec fn spec_core_string(v: Version) -> Seq<char> {
    spec_u64_string(v.major as int) + "."@ + spec_u64_string(v.minor as int) + "."@
        + spec_u64_string(v.patch as int)
}

/// Rendering of a full version: the core triple, then `+<build>` when a
/// build identifier is present.
pub open spec fn spec_version_string(v: Version) -> Seq<char> {
    match v.build {
        Option::None => spec_core_string(v),
        Option::Some(b) => spec_core_string(v) + "+"@ + spec_u64_string(b as int),
    }
}

/// Renders `MAJOR.MINOR.PATCH`.
pub fn core_string(v: &Version) -> (s: String)
    ensures
        s@ == spec_core_string(*v),
{
    let mut s = u64_string(v.major);
    s.append(".");
    let minor = u64_string(v.minor);
    s.append(minor.as_str());
    s.append(".");
    let patch = u64_string(v.patch);
    s.append(patch.as_str());
    s
}

/// Renders the full version, `+<build>` included when present.
pub fn version_string(v: &Version) -> (s: String)
    ensures
        s@ == spec_version_string(*v),
{
    let mut s = core_string(v);
    match v.build {
        Option::None => {},
        Option::Some(b) => {
            s.append("+");
            let bs = u64_string(b);
            s.append(bs.as_str());
        },
    }
    s
}

/// The path component under which the repository lists a version: major and
/// minor only when the patch is zero, the full triple otherwise.
pub open spec fn spec_path_string(v: Version) -> Seq<char> {
    if v.patch == 0 {
        spec_u64_string(v.major as int) + "."@ + spec_u64_string(v.minor as int)
    } else {
        spec_core_string(v)
    }
}

/// Renders the repository path component for a version.
pub fn path_string(v: &Version) -> (s: String)
    ensures
        s@ == spec_path_string(*v),
{
    if v.patch == 0 {
        let mut s = u64_string(v.major);
        s.append(".");
        let minor = u64_string(v.minor);
        s.append(minor.as_str());
        s
    } else {
        core_string(v)
    }
}

/// Strict parse of `MAJOR.MINOR.PATCH[+BUILD]`: each component a digit run
/// that fits in a `u64`, nothing else before or after.
pub open spec fn spec_parse_version(s: Seq<char>) -> Option<Version> {
    let e1 = digits_end(s, 0);
    match spec_scan_u64(s, 0) {
        Option::None => Option::None,
        Option::Some(major) => if e1 < s.len() && s[e1] == '.' {
            let e2 = digits_end(s, e1 + 1);
            match spec_scan_u64(s, e1 + 1) {
                Option::None => Option::None,
                Option::Some(minor) => if e2 < s.len() && s[e2] == '.' {
                    let e3 = digits_end(s, e2 + 1);
                    match spec_scan_u64(s, e2 + 1) {
                        Option::None => Option::None,
                        Option::Some(patch) => if e3 == s.len() {
                            Option::Some(Version { major, minor, patch, build: Option::None })
                        } else if s[e3] == '+' {
                            match spec_scan_u64(s, e3 + 1) {
                                Option::None => Option::None,
                                Option::Some(build) => if digits_end(s, e3 + 1) == s.len() {
                                    Option::Some(
                                        Version { major, minor, patch, build: Option::Some(build) },
                                    )
                                } else {
                                    Option::None
                                },
                            }
                        } else {
                            Option::None
                        },
                    }
                } else {
                    Option::None
                },
            }
        } else {
            Option::None
        },
    }
}

/// Parses `MAJOR.MINOR.PATCH[+BUILD]` exactly.
pub fn parse_version(s: &str) -> (r: Option<Version>)
    ensures
        r == spec_parse_version(s@),
{
    let len = s.unicode_len();
    let (major_opt, e1) = scan_u64(s, 0);
    proof {
        lemma_digits_end_bounds(s@, 0);
    }
    let major = match major_opt {
        Option::None => {
            return Option::None;
        },
        Option::Some(m) => m,
    };
    if !(e1 < len && s.get_char(e1) == '.') {
        return Option::None;
    }
    let (minor_opt, e2) = scan_u64(s, e1 + 1);
    proof {
        lemma_digits_end_bounds(s@, e1 + 1);
    }
    let minor = match minor_opt {
        Option::None => {
            return Option::None;
        },
        Option::Some(m) => m,
    };
    if !(e2 < len && s.get_char(e2) == '.') {
        return Option::None;
    }
    let (patch_opt, e3) = scan_u64(s, e2 + 1);
    proof {
        lemma_digits_end_bounds(s@, e2 + 1);
    }
    let patch = match patch_opt {
        Option::None => {
            return Option::None;
        },
        Option::Some(m) => m,
    };
    if e3 == len {
        return Option::Some(Version { major, minor, patch, build: Option::None });
    }
    if s.get_char(e3) != '+' {
        return Option::None;
    }
    let (build_opt, e4) = scan_u64(s, e3 + 1);
    let build = match build_opt {
        Option::None => {
            return Option::None;
        },
        Option::Some(b) => b,
    };
    if e4 == len {
        Option::Some(Version { major, minor, patch, build: Option::Some(build) })
    } else {
        Option::None
    }
}

/// Lenient parse, as used on the repository's project index: a major digit
/// run, optionally `.MINOR`, optionally `.PATCH`; anything from a `-` or `+`
/// on is ignored (pre-release tags and build metadata are dropped, missing
/// components read as zero).  `None` when the string does not begin with a
/// digit run, a component overflows, or something else follows the parsed
/// components.
pub open spec fn spec_parse_lenient(s: Seq<char>) -> Option<Version> {
    match spec_scan_u64(s, 0) {
        Option::None => Option::None,
        Option::Some(major) => {
            let e1 = digits_end(s, 0);
            if e1 == s.len() || s[e1] == '-' || s[e1] == '+' {
                Option::Some(Version { major, minor: 0, patch: 0, build: Option::None })
            } else if s[e1] == '.' {
                match spec_scan_u64(s, e1 + 1) {
                    Option::None => Option::None,
                    Option::Some(minor) => {
                        let e2 = digits_end(s, e1 + 1);
                        if e2 == s.len() || s[e2] == '-' || s[e2] == '+' {
                            Option::Some(Version { major, minor, patch: 0, build: Option::None })
                        } else if s[e2] == '.' {
                            match spec_scan_u64(s, e2 + 1) {
                                Option::None => Option::None,
                                Option::Some(patch) => {
                                    let e3 = digits_end(s, e2 + 1);
                                    if e3 == s.len() || s[e3] == '-' || s[e3] == '+' {
                                        Option::Some(
                                            Version { major, minor, patch, build: Option::None },
                                        )
                                    } else {
                                        Option::None
                                    }
                                },
                            }
                        } else {
                            Option::None
                        }
                    },
                }
            } else {
                Option::None
            }
        },
    }
}

/// Parses a version string leniently (see `spec_parse_lenient`).
pub fn parse_lenient(s: &str) -> (r: Option<Version>)
    ensures
        r == spec_parse_lenient(s@),
{
    let len = s.unicode_len();
    let (major_opt, e1) = scan_u64(s, 0);
    proof {
        lemma_digits_end_bounds(s@, 0);
    }
    let major = match major_opt {
        Option::None => {
            return Option::None;
        },
        Option::Some(m) => m,
    };
    if e1 == len || s.get_char(e1) == '-' || s.get_char(e1) == '+' {
        return Option::Some(Version { major, minor: 0, patch: 0, build: Option::None });
    }
    if s.get_char(e1) != '.' {
        return Option::None;
    }
    let (minor_opt, e2) = scan_u64(s, e1 + 1);
    proof {
        lemma_digits_end_bounds(s@, e1 + 1);
    }
    let minor = match minor_opt {
        Option::None => {
            return Option::None;
        },
        Option::Some(m) => m,
    };
    if e2 == len || s.get_char(e2) == '-' || s.get_char(e2) == '+' {
        return Option::Some(Version { major, minor, patch: 0, build: Option::None });
    }
    if s.get_char(e2) != '.' {
        return Option::None;
    }
    let (patch_opt, e3) = scan_u64(s, e2 + 1);
    proof {
        lemma_digits_end_bounds(s@, e2 + 1);
    }
    let patch = match patch_opt {
        Option::None => {
            return Option::None;
        },
        Option::Some(m) => m,
    };
    if e3 == len || s.get_char(e3) == '-' || s.get_char(e3) == '+' {
        return Option::Some(Version { major, minor, patch, build: Option::None });
    }
    Option::None
}


/// Law (round trip, one half): the strict parser accepts exactly what the
/// renderer wrote and yields the same version.
pub proof fn lemma_version_round_trip(v: Version)
    ensures
        spec_parse_version(spec_version_string(v)) == Option::Some(v),
{
    reveal_strlit(".");
    reveal_strlit("+");
    let ma = spec_u64_string(v.major as int);
    let mi = spec_u64_string(v.minor as int);
    let pa = spec_u64_string(v.patch as int);
    lemma_u64_string_digits(v.major as int);
    lemma_u64_string_digits(v.minor as int);
    lemma_u64_string_digits(v.patch as int);
    let s = spec_version_string(v);
    let dot = "."@;
    assert(dot.len() == 1 && dot[0] == '.');
    match v.build {
        Option::None => {
            assert(s =~= ma + dot + mi + dot + pa);
            let e1 = ma.len() as int;
            let e2 = e1 + 1 + mi.len() as int;
            let e3 = e2 + 1 + pa.len() as int;
            assert(s.subrange(0, e1) =~= ma);
            assert(s[e1] == '.');
            lemma_digits_end_concat(s, 0, ma);
            assert(s.subrange(e1 + 1, e2) =~= mi);
            assert(s[e2] == '.');
            lemma_digits_end_concat(s, e1 + 1, mi);
            assert(s.subrange(e2 + 1, e3) =~= pa);
            lemma_digits_end_concat(s, e2 + 1, pa);
            assert(e3 == s.len());
        },
        Option::Some(b) => {
            let bu = spec_u64_string(b as int);
            lemma_u64_string_digits(b as int);
            let plus = "+"@;
            assert(plus.len() == 1 && plus[0] == '+');
            assert(s =~= ma + dot + mi + dot + pa + plus + bu);
            let e1 = ma.len() as int;
            let e2 = e1 + 1 + mi.len() as int;
            let e3 = e2 + 1 + pa.len() as int;
            let e4 = e3 + 1 + bu.len() as int;
            assert(s.subrange(0, e1) =~= ma);
            assert(s[e1] == '.');
            lemma_digits_end_concat(s, 0, ma);
            assert(s.subrange(e1 + 1, e2) =~= mi);
            assert(s[e2] == '.');
            lemma_digits_end_concat(s, e1 + 1, mi);
            assert(s.subrange(e2 + 1, e3) =~= pa);
            assert(s[e3] == '+');
            assert(!crate::text::is_digit('+'));
            lemma_digits_end_concat(s, e2 + 1, pa);
            assert(s.subrange(e3 + 1, e4) =~= bu);
            lemma_digits_end_concat(s, e3 + 1, bu);
            assert(e4 == s.len());
        },
    }
}

} // verus!

//! The daemon's on-disk text formats.  A unit file is a fixed TOML shape
//! with a `[unit]` table (id and type) and a `[server]` table (name, path,
//! type, jar, version, memory).  The canonical rendering below — this key
//! order, one `key = value` per line, no comments, no escapes, quote-free
//! values — is the format: the daemon writes exactly it, and the two-stage
//! parse (first only the `[unit]` table, then, for server units, the whole
//! definition) accepts exactly it.  A hand-written unit file must follow
//! the same shape; anything else is skipped with a warning.  The daemon's
//! own configuration file (unit directories, autostart list, socket path)
//! is parsed here as well, under the same canon.

use crate::config::{ServerConfig, ServerUnitConfig, ServerUnitConfigV, SimpleUnitConfig, UnitConfig};
use crate::text::{digits_end, find_from, lit_at, expect_at, find_char, scan_u64, spec_scan_u64, spec_u64_string, u64_string};
use crate::version::{parse_version, spec_parse_version, spec_version_string, version_string, Version};
use vstd::prelude::*;
use vstd::string::*;

verus! {

/// A value may stand between quotes in a unit file when it contains no
/// quote character; rendering such a value parses back unchanged.
pub open spec fn quote_free(s: Seq<char>) -> bool {
    !s.contains('"')
}

/// A unit definition whose text fields can all stand in a unit file.
pub open spec fn writable_config(c: ServerUnitConfigV) -> bool {
    &&& quote_free(c.unit.id)
    &&& quote_free(c.unit.unit_type)
    &&& quote_free(c.server.name)
    &&& quote_free(c.server.path)
    &&& quote_free(c.server.kind)
    &&& quote_free(c.server.jar)
}

/// The canonical text of a unit file.
pub open spec fn spec_render_unit_file(c: ServerUnitConfigV) -> Seq<char> {
    "[unit]\nid = \""@ + c.unit.id + "\"\ntype = \""@ + c.unit.unit_type
        + "\"\n[server]\nname = \""@ + c.server.name + "\"\npath = \""@ + c.server.path
        + "\"\ntype = \""@ + c.server.kind + "\"\njar = \""@ + c.server.jar
        + "\"\nversion = \""@ + spec_version_string(c.server.version) + "\"\nmemory = "@
        + spec_u64_string(c.server.memory as int) + "\n"@
}

/// Renders a unit definition as the canonical unit-file text.
pub fn render_unit_file(c: &ServerUnitConfig) -> (s: String)
    ensures
        s@ == spec_render_unit_file(c@),
{
    let mut s = String::from_str("[unit]\nid = \"");
    s.append(c.unit.id.as_str());
    s.append("\"\ntype = \"");
    s.append(c.unit.unit_type.as_str());
    s.append("\"\n[server]\nname = \"");
    s.append(c.server.name.as_str());
    s.append("\"\npath = \"");
    s.append(c.server.path.as_str());
    s.append("\"\ntype = \"");
    s.append(c.server.kind.as_str());
    s.append("\"\njar = \"");
    s.append(c.server.jar.as_str());
    s.append("\"\nversion = \"");
    let v = version_string(&c.server.version);
    s.append(v.as_str());
    s.append("\"\nmemory = ");
    let m = u64_string(c.server.memory as u64);
    s.append(m.as_str());
    s.append("\n");
    s
}

/// The value between position `i` and the next quote, when a closing quote
/// exists: the value and the position of the closing quote.
pub open spec fn spec_quoted(s: Seq<char>, i: int) -> Option<(Seq<char>, int)> {
    let e = find_from(s, i, '"');
    if e < s.len() {
        Option::Some((s.subrange(i, e), e))
    } else {
        Option::None
    }
}

/// The position after `lit`, when `lit` stands at `i`.
pub open spec fn spec_after_lit(s: Seq<char>, i: int, lit: Seq<char>) -> Option<int> {
    if lit_at(s, i, lit) {
        Option::Some(i + lit.len() as int)
    } else {
        Option::None
    }
}

/// First parse stage: the `[unit]` table alone.  Succeeds on any text that
/// opens with the canonical `[unit]` table, whatever follows it.
pub open spec fn spec_parse_simple(s: Seq<char>) -> Option<crate::config::UnitConfigV> {
    match spec_after_lit(s, 0, "[unit]\nid = \""@) {
        Option::None => Option::None,
        Option::Some(p1) => match spec_quoted(s, p1) {
            Option::None => Option::None,
            Option::Some((id, q1)) => match spec_after_lit(s, q1, "\"\ntype = \""@) {
                Option::None => Option::None,
                Option::Some(p2) => match spec_quoted(s, p2) {
                    Option::None => Option::None,
                    Option::Some((unit_type, q2)) => if lit_at(s, q2, "\"\n"@) {
                        Option::Some(crate::config::UnitConfigV { id, unit_type })
                    } else {
                        Option::None
                    },
                },
            },
        },
    }
}

/// Second parse stage: the whole canonical unit file.
pub open spec fn spec_parse_unit_file(s: Seq<char>) -> Option<ServerUnitConfigV> {
    match spec_after_lit(s, 0, "[unit]\nid = \""@) {
        Option::None => Option::None,
        Option::Some(p1) => match spec_quoted(s, p1) {
            Option::None => Option::None,
            Option::Some((id, q1)) => match spec_after_lit(s, q1, "\"\ntype = \""@) {
                Option::None => Option::None,
                Option::Some(p2) => match spec_quoted(s, p2) {
                    Option::None => Option::None,
                    Option::Some((unit_type, q2)) => match spec_after_lit(
                        s,
                        q2,
                        "\"\n[server]\nname = \""@,
                    ) {
                        Option::None => Option::None,
                        Option::Some(p3) => match spec_quoted(s, p3) {
                            Option::None => Option::None,
                            Option::Some((name, q3)) => match spec_after_lit(
                                s,
                                q3,
                                "\"\npath = \""@,
                            ) {
                                Option::None => Option::None,
                                Option::Some(p4) => match spec_quoted(s, p4) {
                                    Option::None => Option::None,
                                    Option::Some((path, q4)) => match spec_after_lit(
                                        s,
                                        q4,
                                        "\"\ntype = \""@,
                                    ) {
                                        Option::None => Option::None,
                                        Option::Some(p5) => match spec_quoted(s, p5) {
                                            Option::None => Option::None,
                                            Option::Some((kind, q5)) => spec_parse_tail(
                                                s,
                                                id,
                                                unit_type,
                                                name,
                                                path,
                                                kind,
                                                q5,
                                            ),
                                        },
                                    },
                                },
                            },
                        },
                    },
                },
            },
        },
    }
}

/// The tail of the unit-file grammar from the closing quote of the server
/// type on: jar, version, memory.
pub open spec fn spec_parse_tail(
    s: Seq<char>,
    id: Seq<char>,
    unit_type: Seq<char>,
    name: Seq<char>,
    path: Seq<char>,
    kind: Seq<char>,
    q5: int,
) -> Option<ServerUnitConfigV> {
    match spec_after_lit(s, q5, "\"\njar = \""@) {
        Option::None => Option::None,
        Option::Some(p6) => match spec_quoted(s, p6) {
            Option::None => Option::None,
            Option::Some((jar, q6)) => match spec_after_lit(s, q6, "\"\nversion = \""@) {
                Option::None => Option::None,
                Option::Some(p7) => match spec_quoted(s, p7) {
                    Option::None => Option::None,
                    Option::Some((vtext, q7)) => match spec_parse_version(vtext) {
                        Option::None => Option::None,
                        Option::Some(version) => match spec_after_lit(s, q7, "\"\nmemory = "@) {
                            Option::None => Option::None,
                            Option::Some(p8) => match spec_scan_u64(s, p8) {
                                Option::None => Option::None,
                                Option::Some(memory) => if memory <= u32::MAX && digits_end(s, p8)
                                    + 1 == s.len() && s[digits_end(s, p8)] == '\n' {
                                    Option::Some(
                                        ServerUnitConfigV {
                                            unit: crate::config::UnitConfigV { id, unit_type },
                                            server: crate::config::ServerConfigV {
                                                name,
                                                path,
                                                kind,
                                                jar,
                                                version,
                                                memory: memory as u32,
                                            },
                                        },
                                    )
                                } else {
                                    Option::None
                                },
                            },
                        },
                    },
                },
            },
        },
    }
}

/// Reads the quoted value starting at `i`: the value as a fresh string and
/// the position of the closing quote.
fn read_quoted(s: &str, i: usize) -> (r: Option<(String, usize)>)
    requires
        i <= s@.len(),
    ensures
        match r {
            Option::None => spec_quoted(s@, i as int) is None,
            Option::Some(v) => spec_quoted(s@, i as int) matches Option::Some(sv) && v.0@ == sv.0
                && v.1 as int == sv.1 && v.1 <= s@.len(),
        },
{
    let len = s.unicode_len();
    let e = find_char(s, i, '"');
    proof {
        crate::text::lemma_find_from_bounds(s@, i as int, '"');
    }
    if e < len {
        let sub = s.substring_char(i, e);
        Option::Some((String::from_str(sub), e))
    } else {
        proof {
            crate::text::lemma_find_from_bounds(s@, i as int, '"');
        }
        Option::None
    }
}

/// Parses the `[unit]` table of a unit file (the first stage of the
/// two-stage parse).
pub fn parse_simple_unit_config(s: &str) -> (r: Option<SimpleUnitConfig>)
    ensures
        match r {
            Option::None => spec_parse_simple(s@) is None,
            Option::Some(c) => spec_parse_simple(s@) == Option::Some(c@),
        },
{
    let len = s.unicode_len();
    if !expect_at(s, 0, "[unit]\nid = \"") {
        return Option::None;
    }
    let p1 = "[unit]\nid = \"".unicode_len();
    let (id, q1) = match read_quoted(s, p1) {
        Option::None => {
            return Option::None;
        },
        Option::Some(v) => v,
    };
    if !expect_at(s, q1, "\"\ntype = \"") {
        return Option::None;
    }
    let p2 = q1 + "\"\ntype = \"".unicode_len();
    let (unit_type, q2) = match read_quoted(s, p2) {
        Option::None => {
            return Option::None;
        },
        Option::Some(v) => v,
    };
    if !expect_at(s, q2, "\"\n") {
        return Option::None;
    }
    Option::Some(SimpleUnitConfig { unit: UnitConfig { id, unit_type } })
}

/// Parses a whole canonical unit file (the second stage of the two-stage
/// parse).
pub fn parse_unit_file(s: &str) -> (r: Option<ServerUnitConfig>)
    ensures
        match r {
            Option::None => spec_parse_unit_file(s@) is None,
            Option::Some(c) => spec_parse_unit_file(s@) == Option::Some(c@),
        },
{
    let len = s.unicode_len();
    if !expect_at(s, 0, "[unit]\nid = \"") {
        return Option::None;
    }
    let p1 = "[unit]\nid = \"".unicode_len();
    let (id, q1) = match read_quoted(s, p1) {
        Option::None => {
            return Option::None;
        },
        Option::Some(v) => v,
    };
    if !expect_at(s, q1, "\"\ntype = \"") {
        return Option::None;
    }
    let p2 = q1 + "\"\ntype = \"".unicode_len();
    let (unit_type, q2) = match read_quoted(s, p2) {
        Option::None => {
            return Option::None;
        },
        Option::Some(v) => v,
    };
    if !expect_at(s, q2, "\"\n[server]\nname = \"") {
        return Option::None;
    }
    let p3 = q2 + "\"\n[server]\nname = \"".unicode_len();
    let (name, q3) = match read_quoted(s, p3) {
        Option::None => {
            return Option::None;
        },
        Option::Some(v) => v,
    };
    if !expect_at(s, q3, "\"\npath = \"") {
        return Option::None;
    }
    let p4 = q3 + "\"\npath = \"".unicode_len();
    let (path, q4) = match read_quoted(s, p4) {
        Option::None => {
            return Option::None;
        },
        Option::Some(v) => v,
    };
    if !expect_at(s, q4, "\"\ntype = \"") {
        return Option::None;
    }
    let p5 = q4 + "\"\ntype = \"".unicode_len();
    let (kind, q5) = match read_quoted(s, p5) {
        Option::None => {
            return Option::None;
        },
        Option::Some(v) => v,
    };
    if !expect_at(s, q5, "\"\njar = \"") {
        return Option::None;
    }
    let p6 = q5 + "\"\njar = \"".unicode_len();
    let (jar, q6) = match read_quoted(s, p6) {
        Option::None => {
            return Option::None;
        },
        Option::Some(v) => v,
    };
    if !expect_at(s, q6, "\"\nversion = \"") {
        return Option::None;
    }
    let p7 = q6 + "\"\nversion = \"".unicode_len();
    let (vtext, q7) = match read_quoted(s, p7) {
        Option::None => {
            return Option::None;
        },
        Option::Some(v) => v,
    };
    let version = match parse_version(vtext.as_str()) {
        Option::None => {
            return Option::None;
        },
        Option::Some(v) => v,
    };
    if !expect_at(s, q7, "\"\nmemory = ") {
        return Option::None;
    }
    let p8 = q7 + "\"\nmemory = ".unicode_len();
    let (mem_opt, e) = scan_u64(s, p8);
    proof {
        crate::text::lemma_digits_end_bounds(s@, p8 as int);
    }
    let memory = match mem_opt {
        Option::None => {
            return Option::None;
        },
        Option::Some(m) => m,
    };
    if !(memory <= 0xffff_ffff && e < len && len - e == 1 && s.get_char(e) == '\n') {
        return Option::None;
    }
    Option::Some(
        ServerUnitConfig {
            unit: UnitConfig { id, unit_type },
            server: ServerConfig { name, path, kind, jar, version, memory: memory as u32 },
        },
    )
}


/// No quote character occurs in a rendered version string: every character
/// is a digit, a dot, or a plus sign.
pub proof fn lemma_version_string_quote_free(v: Version)
    ensures
        quote_free(spec_version_string(v)),
{
    reveal_strlit(".");
    reveal_strlit("+");
    let vs = spec_version_string(v);
    crate::text::lemma_u64_string_digits(v.major as int);
    crate::text::lemma_u64_string_digits(v.minor as int);
    crate::text::lemma_u64_string_digits(v.patch as int);
    let ma = spec_u64_string(v.major as int);
    let mi = spec_u64_string(v.minor as int);
    let pa = spec_u64_string(v.patch as int);
    match v.build {
        Option::None => {
            assert(vs =~= ma + "."@ + mi + "."@ + pa);
            assert forall|i: int| 0 <= i < vs.len() implies vs[i] != '"' by {
                if i < ma.len() {
                    assert(vs[i] == ma[i]);
                } else if i == ma.len() {
                } else if i < ma.len() + 1 + mi.len() {
                    assert(vs[i] == mi[i - ma.len() - 1]);
                } else if i == ma.len() + 1 + mi.len() {
                } else {
                    assert(vs[i] == pa[i - ma.len() - mi.len() - 2]);
                }
            }
        },
        Option::Some(b) => {
            crate::text::lemma_u64_string_digits(b as int);
            let bu = spec_u64_string(b as int);
            assert(vs =~= ma + "."@ + mi + "."@ + pa + "+"@ + bu);
            assert forall|i: int| 0 <= i < vs.len() implies vs[i] != '"' by {
                if i < ma.len() {
                    assert(vs[i] == ma[i]);
                } else if i == ma.len() {
                } else if i < ma.len() + 1 + mi.len() {
                    assert(vs[i] == mi[i - ma.len() - 1]);
                } else if i == ma.len() + 1 + mi.len() {
                } else if i < ma.len() + mi.len() + 2 + pa.len() {
                    assert(vs[i] == pa[i - ma.len() - mi.len() - 2]);
                } else if i == ma.len() + mi.len() + 2 + pa.len() {
                } else {
                    assert(vs[i] == bu[i - ma.len() - mi.len() - pa.len() - 3]);
                }
            }
        },
    }
    if vs.contains('"') {
        let i = choose|i: int| 0 <= i < vs.len() && vs[i] == '"';
        assert(false);
    }
}

/// Law (round trip): a unit definition written as a unit file and read
/// back through the two-stage parse yields an equal definition.
#[verifier::rlimit(100)]
#[verifier::spinoff_prover]
pub proof fn lemma_unit_file_round_trip(c: ServerUnitConfigV)
    requires
        writable_config(c),
    ensures
        spec_parse_unit_file(spec_render_unit_file(c)) == Option::Some(c),
{
    reveal_strlit("[unit]\nid = \"");
    reveal_strlit("\"\ntype = \"");
    reveal_strlit("\"\n[server]\nname = \"");
    reveal_strlit("\"\npath = \"");
    reveal_strlit("\"\ntype = \"");
    reveal_strlit("\"\njar = \"");
    reveal_strlit("\"\nversion = \"");
    reveal_strlit("\"\nmemory = ");
    reveal_strlit("\n");
    let s = spec_render_unit_file(c);
    let l0 = "[unit]\nid = \""@;
    let l1 = "\"\ntype = \""@;
    let l2 = "\"\n[server]\nname = \""@;
    let l3 = "\"\npath = \""@;
    let l4 = "\"\ntype = \""@;
    let l5 = "\"\njar = \""@;
    let l6 = "\"\nversion = \""@;
    let l7 = "\"\nmemory = "@;
    let nl = "\n"@;
    let vid = c.unit.id;
    let vut = c.unit.unit_type;
    let vnm = c.server.name;
    let vpa = c.server.path;
    let vkd = c.server.kind;
    let vjr = c.server.jar;
    let vvs = spec_version_string(c.server.version);
    let vme = spec_u64_string(c.server.memory as int);
    lemma_version_string_quote_free(c.server.version);
    crate::text::lemma_u64_string_digits(c.server.memory as int);
    crate::version::lemma_version_round_trip(c.server.version);
    assert(s =~= l0 + vid + l1 + vut + l2 + vnm + l3 + vpa + l4 + vkd + l5 + vjr + l6 + vvs + l7 + vme + nl);
    let p0: int = 0;
    assert(s.subrange(p0, p0 + l0.len() as int) =~= l0);
    let p1: int = (l0.len()) as int;
    assert(s.subrange(p1, p1 + vid.len() as int) =~= vid);
    let p2: int = (l0.len() + vid.len()) as int;
    assert(s.subrange(p2, p2 + l1.len() as int) =~= l1);
    let p3: int = (l0.len() + vid.len() + l1.len()) as int;
    assert(s.subrange(p3, p3 + vut.len() as int) =~= vut);
    let p4: int = (l0.len() + vid.len() + l1.len() + vut.len()) as int;
    assert(s.subrange(p4, p4 + l2.len() as int) =~= l2);
    let p5: int = (l0.len() + vid.len() + l1.len() + vut.len() + l2.len()) as int;
    assert(s.subrange(p5, p5 + vnm.len() as int) =~= vnm);
    let p6: int = (l0.len() + vid.len() + l1.len() + vut.len() + l2.len() + vnm.len()) as int;
    assert(s.subrange(p6, p6 + l3.len() as int) =~= l3);
    let p7: int = (l0.len() + vid.len() + l1.len() + vut.len() + l2.len() + vnm.len() + l3.len()) as int;
    assert(s.subrange(p7, p7 + vpa.len() as int) =~= vpa);
    let p8: int = (l0.len() + vid.len() + l1.len() + vut.len() + l2.len() + vnm.len() + l3.len() + vpa.len()) as int;
    assert(s.subrange(p8, p8 + l4.len() as int) =~= l4);
    let p9: int = (l0.len() + vid.len() + l1.len() + vut.len() + l2.len() + vnm.len() + l3.len() + vpa.len() + l4.len()) as int;
    assert(s.subrange(p9, p9 + vkd.len() as int) =~= vkd);
    let p10: int = (l0.len() + vid.len() + l1.len() + vut.len() + l2.len() + vnm.len() + l3.len() + vpa.len() + l4.len() + vkd.len()) as int;
    assert(s.subrange(p10, p10 + l5.len() as int) =~= l5);
    let p11: int = (l0.len() + vid.len() + l1.len() + vut.len() + l2.len() + vnm.len() + l3.len() + vpa.len() + l4.len() + vkd.len() + l5.len()) as int;
    assert(s.subrange(p11, p11 + vjr.len() as int) =~= vjr);
    let p12: int = (l0.len() + vid.len() + l1.len() + vut.len() + l2.len() + vnm.len() + l3.len() + vpa.len() + l4.len() + vkd.len() + l5.len() + vjr.len()) as int;
    assert(s.subrange(p12, p12 + l6.len() as int) =~= l6);
    let p13: int = (l0.len() + vid.len() + l1.len() + vut.len() + l2.len() + vnm.len() + l3.len() + vpa.len() + l4.len() + vkd.len() + l5.len() + vjr.len() + l6.len()) as int;
    assert(s.subrange(p13, p13 + vvs.len() as int) =~= vvs);
    let p14: int = (l0.len() + vid.len() + l1.len() + vut.len() + l2.len() + vnm.len() + l3.len() + vpa.len() + l4.len() + vkd.len() + l5.len() + vjr.len() + l6.len() + vvs.len()) as int;
    assert(s.subrange(p14, p14 + l7.len() as int) =~= l7);
    let p15: int = (l0.len() + vid.len() + l1.len() + vut.len() + l2.len() + vnm.len() + l3.len() + vpa.len() + l4.len() + vkd.len() + l5.len() + vjr.len() + l6.len() + vvs.len() + l7.len()) as int;
    assert(s.subrange(p15, p15 + vme.len() as int) =~= vme);
    let p16: int = (l0.len() + vid.len() + l1.len() + vut.len() + l2.len() + vnm.len() + l3.len() + vpa.len() + l4.len() + vkd.len() + l5.len() + vjr.len() + l6.len() + vvs.len() + l7.len() + vme.len()) as int;
    assert(s.subrange(p16, p16 + nl.len() as int) =~= nl);
    assert(lit_at(s, p0, l0));
    assert(lit_at(s, p2, l1));
    assert(lit_at(s, p4, l2));
    assert(lit_at(s, p6, l3));
    assert(lit_at(s, p8, l4));
    assert(lit_at(s, p10, l5));
    assert(lit_at(s, p12, l6));
    assert(lit_at(s, p14, l7));
    assert(lit_at(s, p16, nl));
    assert(s[p1 + vid.len() as int] == l1[0]);
    assert(s[p1 + vid.len() as int] == '"');
    crate::text::lemma_find_from_concat(s, p1, vid, '"');
    assert(s[p3 + vut.len() as int] == l2[0]);
    assert(s[p3 + vut.len() as int] == '"');
    crate::text::lemma_find_from_concat(s, p3, vut, '"');
    assert(s[p5 + vnm.len() as int] == l3[0]);
    assert(s[p5 + vnm.len() as int] == '"');
    crate::text::lemma_find_from_concat(s, p5, vnm, '"');
    assert(s[p7 + vpa.len() as int] == l4[0]);
    assert(s[p7 + vpa.len() as int] == '"');
    crate::text::lemma_find_from_concat(s, p7, vpa, '"');
    assert(s[p9 + vkd.len() as int] == l5[0]);
    assert(s[p9 + vkd.len() as int] == '"');
    crate::text::lemma_find_from_concat(s, p9, vkd, '"');
    assert(s[p11 + vjr.len() as int] == l6[0]);
    assert(s[p11 + vjr.len() as int] == '"');
    crate::text::lemma_find_from_concat(s, p11, vjr, '"');
    assert(s[p13 + vvs.len() as int] == l7[0]);
    assert(s[p13 + vvs.len() as int] == '"');
    crate::text::lemma_find_from_concat(s, p13, vvs, '"');
    assert(s[p15 + vme.len() as int] == '\n');
    assert(!crate::text::is_digit('\n'));
    crate::text::lemma_digits_end_concat(s, p15, vme);
    assert(digits_end(s, p15) + 1 == s.len());
    assert(spec_parse_unit_file(s) == Option::Some(c));
}


/// The items of a quoted-string list, read from just after the opening
/// bracket: an empty list closes at once; otherwise quoted values follow,
/// separated by `", "`, up to `"]`.  Yields the values and the position
/// just after the closing bracket.
pub open spec fn spec_parse_list_items(s: Seq<char>, i: int) -> Option<(Seq<Seq<char>>, int)>
    decreases s.len() - i,
{
    if lit_at(s, i, "]"@) {
        Option::Some((Seq::<Seq<char>>::empty(), i + 1))
    } else if !(0 <= i < s.len() && s[i] == '"') {
        Option::None
    } else {
        match spec_quoted(s, i + 1) {
            Option::None => Option::None,
            Option::Some((v, q)) => if q < i + 1 {
                Option::None
            } else if lit_at(s, q, "\"]"@) {
                Option::Some((seq![v], q + 2))
            } else if q + 3 <= s.len() && lit_at(s, q, "\", "@) {
                match spec_parse_list_items(s, q + 3) {
                    Option::None => Option::None,
                    Option::Some((rest, end)) => Option::Some((seq![v] + rest, end)),
                }
            } else {
                Option::None
            },
        }
    }
}

/// Reads a quoted-string list from just after the opening bracket.
fn parse_list_items(s: &str, i: usize) -> (r: Option<(Vec<String>, usize)>)
    requires
        i <= s@.len(),
    ensures
        match r {
            Option::None => spec_parse_list_items(s@, i as int) is None,
            Option::Some(v) => spec_parse_list_items(s@, i as int) matches Option::Some(sv)
                && v.0.deep_view() == sv.0 && v.1 as int == sv.1 && v.1 <= s@.len(),
        },
    decreases s@.len() - i,
{
    let len = s.unicode_len();
    if expect_at(s, i, "]") {
        proof {
            reveal_strlit("]");
        }
        let out: Vec<String> = Vec::new();
        proof {
            assert(out.deep_view() =~= Seq::<Seq<char>>::empty());
        }
        return Option::Some((out, i + 1));
    }
    if !(i < len && s.get_char(i) == '"') {
        return Option::None;
    }
    let (v, q) = match read_quoted(s, i + 1) {
        Option::None => {
            return Option::None;
        },
        Option::Some(p) => p,
    };
    proof {
        crate::text::lemma_find_from_bounds(s@, i + 1, '"');
    }
    if expect_at(s, q, "\"]") {
        proof {
            reveal_strlit("\"]");
        }
        let mut out: Vec<String> = Vec::new();
        out.push(v);
        proof {
            assert(out.deep_view() =~= seq![v@]);
        }
        return Option::Some((out, q + 2));
    }
    if expect_at(s, q, "\", ") {
        proof {
            reveal_strlit("\", ");
        }
        match parse_list_items(s, q + 3) {
            Option::None => Option::None,
            Option::Some((rest, end)) => {
                let ghost rest_dv = rest.deep_view();
                let ghost v_dv = v@;
                let mut out: Vec<String> = Vec::new();
                out.push(v);
                let mut tail = rest;
                out.append(&mut tail);
                proof {
                    assert(out.deep_view() =~= seq![v_dv] + rest_dv);
                }
                Option::Some((out, end))
            },
        }
    } else {
        Option::None
    }
}


/// The daemon's own configuration file: the unit directories, the
/// autostart list, and the socket path, in canonical order.  A file with
/// any other shape — an unknown key among them — is rejected.
pub open spec fn spec_parse_daemon_config(s: Seq<char>) -> Option<crate::config::DaemonConfigV> {
    match spec_after_lit(s, 0, "unit_directories = ["@) {
        Option::None => Option::None,
        Option::Some(p1) => match spec_parse_list_items(s, p1) {
            Option::None => Option::None,
            Option::Some((dirs, e1)) => match spec_after_lit(s, e1, "\nautostart = ["@) {
                Option::None => Option::None,
                Option::Some(p2) => match spec_parse_list_items(s, p2) {
                    Option::None => Option::None,
                    Option::Some((auto, e2)) => match spec_after_lit(
                        s,
                        e2,
                        "\nsocket_file = \""@,
                    ) {
                        Option::None => Option::None,
                        Option::Some(p3) => match spec_quoted(s, p3) {
                            Option::None => Option::None,
                            Option::Some((sock, q3)) => if lit_at(s, q3, "\"\n"@) && q3 + 2
                                == s.len() {
                                Option::Some(
                                    crate::config::DaemonConfigV {
                                        unit_directories: dirs,
                                        autostart: auto,
                                        socket_file: sock,
                                    },
                                )
                            } else {
                                Option::None
                            },
                        },
                    },
                },
            },
        },
    }
}

/// Parses the daemon's configuration file.
pub fn parse_daemon_config(s: &str) -> (r: Option<crate::config::DaemonConfig>)
    ensures
        match r {
            Option::None => spec_parse_daemon_config(s@) is None,
            Option::Some(c) => spec_parse_daemon_config(s@) == Option::Some(c@),
        },
{
    let len = s.unicode_len();
    if !expect_at(s, 0, "unit_directories = [") {
        return Option::None;
    }
    let p1 = "unit_directories = [".unicode_len();
    let (dirs, e1) = match parse_list_items(s, p1) {
        Option::None => {
            return Option::None;
        },
        Option::Some(v) => v,
    };
    if !expect_at(s, e1, "\nautostart = [") {
        return Option::None;
    }
    let p2 = e1 + "\nautostart = [".unicode_len();
    let (auto, e2) = match parse_list_items(s, p2) {
        Option::None => {
            return Option::None;
        },
        Option::Some(v) => v,
    };
    if !expect_at(s, e2, "\nsocket_file = \"") {
        return Option::None;
    }
    let p3 = e2 + "\nsocket_file = \"".unicode_len();
    let (sock, q3) = match read_quoted(s, p3) {
        Option::None => {
            return Option::None;
        },
        Option::Some(v) => v,
    };
    if !(expect_at(s, q3, "\"\n") && len - q3 == 2) {
        return Option::None;
    }
    Option::Some(
        crate::config::DaemonConfig {
            unit_directories: dirs,
            autostart: auto,
            socket_file: sock,
        },
    )
}

} // verus!

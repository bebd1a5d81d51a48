//! The tiny-style mapping file format.
//!
//! The mapping file is line-oriented and tab-delimited. Its first line is
//! a header whose first field is the word `tiny`. Every following line is
//! one directive:
//!
//! - `c <stable> <obf>` renames a class;
//! - `m <owner> <descriptor> <stable> <obf>` renames a method;
//! - `f <owner> <descriptor> <stable> <obf>` renames a field;
//! - an empty line, or one starting with `#`, says nothing.
//!
//! (The separators above are single tabs.) Anything else is malformed and
//! fails the load fatally: the rest of the bridge cannot work without its
//! table.

use vstd::prelude::*;
use crate::errors::MappingLoadError;
use crate::remap::{ClassEntry, ClassEntryV, MemberEntry, MemberEntryV, RemapTable, RemapTableV};
use crate::remap::{bytes_eq, copy_bytes};

verus! {

pub const TAB: u8 = 9;

pub const NEWLINE: u8 = 10;

pub const HASH: u8 = 35;

/// Splitting a byte string at a separator, carrying the segment read so
/// far: the tail of `spec_split`.
pub open spec fn split_rec(s: Seq<u8>, sep: u8, cur: Seq<u8>) -> Seq<Seq<u8>>
    decreases s.len(),
{
    if s.len() == 0 {
        seq![cur]
    } else if s[0] == sep {
        seq![cur] + split_rec(s.skip(1), sep, Seq::empty())
    } else {
        split_rec(s.skip(1), sep, cur.push(s[0]))
    }
}

/// The segments of `s` between occurrences of `sep`. Never empty: a
/// string without the separator is one segment.
pub open spec fn spec_split(s: Seq<u8>, sep: u8) -> Seq<Seq<u8>> {
    split_rec(s, sep, Seq::empty())
}

/// A split has at least one segment.
pub proof fn lemma_split_at_least_one(s: Seq<u8>, sep: u8, cur: Seq<u8>)
    ensures
        split_rec(s, sep, cur).len() >= 1,
    decreases s.len(),
{
    if s.len() > 0 {
        if s[0] == sep {
            lemma_split_at_least_one(s.skip(1), sep, Seq::empty());
        } else {
            lemma_split_at_least_one(s.skip(1), sep, cur.push(s[0]));
        }
    }
}

/// The views of a sequence of byte vectors.
pub open spec fn seq_views(s: Seq<Vec<u8>>) -> Seq<Seq<u8>> {
    s.map_values(|v: Vec<u8>| v@)
}

/// Splits a byte string at every occurrence of `sep`.
pub fn split_bytes(s: &[u8], sep: u8) -> (r: Vec<Vec<u8>>)
    ensures
        seq_views(r@) == spec_split(s@, sep),
        r@.len() >= 1,
{
    let mut r: Vec<Vec<u8>> = Vec::new();
    let mut cur: Vec<u8> = Vec::new();
    let mut i: usize = 0;
    assert(s@.skip(0) =~= s@);
    assert(seq_views(r@) =~= Seq::<Seq<u8>>::empty());
    while i < s.len()
        invariant
            0 <= i <= s@.len(),
            spec_split(s@, sep) == seq_views(r@) + split_rec(s@.skip(i as int), sep, cur@),
        decreases s@.len() - i,
    {
        let ghost rest = s@.skip(i as int);
        assert(rest[0] == s@[i as int]);
        assert(rest.skip(1) =~= s@.skip(i + 1));
        if s[i] == sep {
            let ghost done = cur@;
            let ghost views_before = seq_views(r@);
            r.push(cur);
            cur = Vec::new();
            assert(seq_views(r@) =~= views_before.push(done));
            assert(seq_views(r@) + split_rec(s@.skip(i + 1), sep, cur@) =~= views_before + (
            seq![done] + split_rec(s@.skip(i + 1), sep, Seq::empty())));
        } else {
            cur.push(s[i]);
        }
        i = i + 1;
    }
    assert(s@.skip(s@.len() as int) =~= Seq::<u8>::empty());
    let ghost done = cur@;
    let ghost views_before = seq_views(r@);
    r.push(cur);
    assert(seq_views(r@) =~= views_before.push(done));
    assert(views_before + split_rec(Seq::<u8>::empty(), sep, done) =~= views_before.push(done));
    proof {
        lemma_split_at_least_one(s@, sep, Seq::empty());
        assert(r@.len() == seq_views(r@).len());
    }
    r
}

/// The header's leading field: the word `tiny`.
pub open spec fn tiny_tag() -> Seq<u8> {
    seq![116u8, 105u8, 110u8, 121u8]
}

/// Whether a header line is acceptable: its first tab field is `tiny`.
pub open spec fn header_ok(line: Seq<u8>) -> bool {
    spec_split(line, TAB)[0] == tiny_tag()
}

/// One parsed mapping directive.
pub enum Directive {
    /// An empty or comment line.
    Blank,
    Class(ClassEntry),
    Method(MemberEntry),
    Field(MemberEntry),
}

/// The mathematical image of a directive.
pub ghost enum DirectiveV {
    Blank,
    Class(ClassEntryV),
    Method(MemberEntryV),
    Field(MemberEntryV),
}

impl View for Directive {
    type V = DirectiveV;

    open spec fn view(&self) -> DirectiveV {
        match self {
            Directive::Blank => DirectiveV::Blank,
            Directive::Class(e) => DirectiveV::Class(e@),
            Directive::Method(e) => DirectiveV::Method(e@),
            Directive::Field(e) => DirectiveV::Field(e@),
        }
    }
}

/// What one directive line means, or nothing for a malformed line.
pub open spec fn spec_parse_line(line: Seq<u8>) -> Option<DirectiveV> {
    if line.len() == 0 || line[0] == HASH {
        Some(DirectiveV::Blank)
    } else {
        let f = spec_split(line, TAB);
        if f.len() == 3 && f[0] == seq![99u8] {
            Some(DirectiveV::Class(ClassEntryV { stable: f[1], obf: f[2] }))
        } else if f.len() == 5 && f[0] == seq![109u8] {
            Some(
                DirectiveV::Method(
                    MemberEntryV { owner: f[1], desc: f[2], stable: f[3], obf: f[4] },
                ),
            )
        } else if f.len() == 5 && f[0] == seq![102u8] {
            Some(
                DirectiveV::Field(
                    MemberEntryV { owner: f[1], desc: f[2], stable: f[3], obf: f[4] },
                ),
            )
        } else {
            None
        }
    }
}

/// The empty table image.
pub open spec fn empty_table_v() -> RemapTableV {
    RemapTableV {
        classes: Seq::empty(),
        methods: Seq::empty(),
        fields: Seq::empty(),
    }
}

/// A table image extended by one directive.
pub open spec fn spec_extend(acc: RemapTableV, d: DirectiveV) -> RemapTableV {
    match d {
        DirectiveV::Blank => acc,
        DirectiveV::Class(e) => RemapTableV { classes: acc.classes.push(e), ..acc },
        DirectiveV::Method(e) => RemapTableV { methods: acc.methods.push(e), ..acc },
        DirectiveV::Field(e) => RemapTableV { fields: acc.fields.push(e), ..acc },
    }
}

/// The table that a sequence of directive lines builds on top of `acc`,
/// or nothing if some line is malformed.
pub open spec fn spec_parse_rest(lines: Seq<Seq<u8>>, acc: RemapTableV) -> Option<RemapTableV>
    decreases lines.len(),
{
    if lines.len() == 0 {
        Some(acc)
    } else {
        match spec_parse_line(lines[0]) {
            None => None,
            Some(d) => spec_parse_rest(lines.skip(1), spec_extend(acc, d)),
        }
    }
}

/// What a whole mapping file means: the table of its directives, or
/// nothing if the header is missing or any line is malformed.
pub open spec fn spec_parse_table(text: Seq<u8>) -> Option<RemapTableV> {
    let lines = spec_split(text, NEWLINE);
    if !header_ok(lines[0]) {
        None
    } else {
        spec_parse_rest(lines.skip(1), empty_table_v())
    }
}

/// Parses one directive line.
fn parse_line(line: &[u8]) -> (r: Result<Directive, ()>)
    ensures
        r matches Ok(d) ==> spec_parse_line(line@) == Some(d@),
        r is Err ==> spec_parse_line(line@) is None,
{
    if line.len() == 0 {
        return Ok(Directive::Blank);
    }
    if line[0] == HASH {
        return Ok(Directive::Blank);
    }
    let fields = split_bytes(line, TAB);
    let ghost f = spec_split(line@, TAB);
    assert(f.len() == fields@.len());
    assert(forall|k: int| 0 <= k < fields@.len() ==> f[k] == (#[trigger] fields@[k])@);
    let mut tag_c: Vec<u8> = Vec::new();
    tag_c.push(99);
    let mut tag_m: Vec<u8> = Vec::new();
    tag_m.push(109);
    let mut tag_f: Vec<u8> = Vec::new();
    tag_f.push(102);
    assert(tag_c@ =~= seq![99u8]);
    assert(tag_m@ =~= seq![109u8]);
    assert(tag_f@ =~= seq![102u8]);
    if fields.len() == 3 && bytes_eq(fields[0].as_slice(), tag_c.as_slice()) {
        let e = ClassEntry {
            stable: copy_bytes(fields[1].as_slice()),
            obf: copy_bytes(fields[2].as_slice()),
        };
        return Ok(Directive::Class(e));
    }
    if fields.len() == 5 && bytes_eq(fields[0].as_slice(), tag_m.as_slice()) {
        let e = MemberEntry {
            owner: copy_bytes(fields[1].as_slice()),
            desc: copy_bytes(fields[2].as_slice()),
            stable: copy_bytes(fields[3].as_slice()),
            obf: copy_bytes(fields[4].as_slice()),
        };
        return Ok(Directive::Method(e));
    }
    if fields.len() == 5 && bytes_eq(fields[0].as_slice(), tag_f.as_slice()) {
        let e = MemberEntry {
            owner: copy_bytes(fields[1].as_slice()),
            desc: copy_bytes(fields[2].as_slice()),
            stable: copy_bytes(fields[3].as_slice()),
            obf: copy_bytes(fields[4].as_slice()),
        };
        return Ok(Directive::Field(e));
    }
    Err(())
}

/// Loads a remap table from the bytes of a mapping file. Succeeds exactly
/// on well-formed files and returns the table their directives build;
/// fails fatally otherwise, naming the first offending line (1-based).
pub fn parse_tiny(text: &[u8]) -> (r: Result<RemapTable, MappingLoadError>)
    ensures
        r matches Ok(t) ==> spec_parse_table(text@) == Some(t@),
        r is Err ==> spec_parse_table(text@) is None,
{
    let lines = split_bytes(text, NEWLINE);
    let ghost lv = spec_split(text@, NEWLINE);
    assert(lv.len() == lines@.len());
    assert(forall|k: int| 0 <= k < lines@.len() ==> lv[k] == (#[trigger] lines@[k])@);
    let hfields = split_bytes(lines[0].as_slice(), TAB);
    let mut tag_tiny: Vec<u8> = Vec::new();
    tag_tiny.push(116);
    tag_tiny.push(105);
    tag_tiny.push(110);
    tag_tiny.push(121);
    assert(tag_tiny@ =~= tiny_tag());
    proof {
        lemma_split_at_least_one(lv[0], TAB, Seq::empty());
        assert(seq_views(hfields@)[0] == hfields@[0]@);
    }
    if !bytes_eq(hfields[0].as_slice(), tag_tiny.as_slice()) {
        assert(!header_ok(lv[0]));
        return Err(MappingLoadError { line: 1 });
    }
    assert(header_ok(lv[0]));
    let mut table = RemapTable::empty();
    assert(table@ =~= empty_table_v());
    let mut i: usize = 1;
    assert(lv.skip(1) =~= lv.skip(1));
    while i < lines.len()
        invariant
            1 <= i <= lines@.len(),
            lv == spec_split(text@, NEWLINE),
            lv.len() == lines@.len(),
            header_ok(lv[0]),
            forall|k: int| 0 <= k < lines@.len() ==> lv[k] == (#[trigger] lines@[k])@,
            spec_parse_rest(lv.skip(1), empty_table_v()) == spec_parse_rest(
                lv.skip(i as int),
                table@,
            ),
        decreases lines@.len() - i,
    {
        let ghost rest = lv.skip(i as int);
        assert(rest[0] == lv[i as int]);
        assert(rest.skip(1) =~= lv.skip(i + 1));
        match parse_line(lines[i].as_slice()) {
            Err(_) => {
                assert(spec_parse_rest(rest, table@) is None);
                return Err(MappingLoadError { line: i + 1 });
            },
            Ok(d) => {
                let ghost before = table@;
                match d {
                    Directive::Blank => {},
                    Directive::Class(e) => {
                        table.classes.push(e);
                    },
                    Directive::Method(e) => {
                        table.methods.push(e);
                    },
                    Directive::Field(e) => {
                        table.fields.push(e);
                    },
                }
                assert(table@ =~= spec_extend(before, d@));
            },
        }
        i = i + 1;
    }
    assert(lv.skip(lines@.len() as int) =~= Seq::<Seq<u8>>::empty());
    Ok(table)
}

} // verus!

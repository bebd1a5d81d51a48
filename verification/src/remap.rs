//! The symbol remap table.
//!
//! The table translates stable class, method and field names into the
//! possibly-obfuscated names the running client actually uses. Every
//! lookup falls back to the identity when no directive matches — a policy
//! decision, not an error, since many target symbols are never obfuscated.
//! Names travel as byte strings, exactly as they stand in the mapping
//! file and as the foreign-call layer expects them.

use vstd::prelude::*;
use crate::errors::MappingLoadError;

verus! {

/// One class rename directive.
#[derive(Debug)]
pub struct ClassEntry {
    pub stable: Vec<u8>,
    pub obf: Vec<u8>,
}

/// One member (method or field) rename directive: the owning class, the
/// member's type descriptor, and the two names.
#[derive(Debug)]
pub struct MemberEntry {
    pub owner: Vec<u8>,
    pub desc: Vec<u8>,
    pub stable: Vec<u8>,
    pub obf: Vec<u8>,
}

/// The mathematical image of a class directive.
#[verifier::ext_equal]
pub ghost struct ClassEntryV {
    pub stable: Seq<u8>,
    pub obf: Seq<u8>,
}

/// The mathematical image of a member directive.
#[verifier::ext_equal]
pub ghost struct MemberEntryV {
    pub owner: Seq<u8>,
    pub desc: Seq<u8>,
    pub stable: Seq<u8>,
    pub obf: Seq<u8>,
}

impl View for ClassEntry {
    type V = ClassEntryV;

    open spec fn view(&self) -> ClassEntryV {
        ClassEntryV { stable: self.stable@, obf: self.obf@ }
    }
}

impl View for MemberEntry {
    type V = MemberEntryV;

    open spec fn view(&self) -> MemberEntryV {
        MemberEntryV {
            owner: self.owner@,
            desc: self.desc@,
            stable: self.stable@,
            obf: self.obf@,
        }
    }
}

/// The mathematical image of the whole table: the directive sequences in
/// file order.
#[verifier::ext_equal]
pub ghost struct RemapTableV {
    pub classes: Seq<ClassEntryV>,
    pub methods: Seq<MemberEntryV>,
    pub fields: Seq<MemberEntryV>,
}

/// The remap table: class, method and field directives in file order.
/// Loaded once and never mutated afterwards.
#[derive(Debug)]
pub struct RemapTable {
    pub classes: Vec<ClassEntry>,
    pub methods: Vec<MemberEntry>,
    pub fields: Vec<MemberEntry>,
}

impl View for RemapTable {
    type V = RemapTableV;

    open spec fn view(&self) -> RemapTableV {
        RemapTableV {
            classes: self.classes@.map_values(|e: ClassEntry| e@),
            methods: self.methods@.map_values(|e: MemberEntry| e@),
            fields: self.fields@.map_values(|e: MemberEntry| e@),
        }
    }
}

/// The obfuscated name of the first class directive for `name`, if any.
pub open spec fn class_lookup(classes: Seq<ClassEntryV>, name: Seq<u8>) -> Option<Seq<u8>>
    decreases classes.len(),
{
    if classes.len() == 0 {
        None
    } else if classes[0].stable == name {
        Some(classes[0].obf)
    } else {
        class_lookup(classes.skip(1), name)
    }
}

/// The stable name of the first class directive whose obfuscated name is
/// `obf`, if any: the inverse lookup.
pub open spec fn class_lookup_back(classes: Seq<ClassEntryV>, obf: Seq<u8>) -> Option<Seq<u8>>
    decreases classes.len(),
{
    if classes.len() == 0 {
        None
    } else if classes[0].obf == obf {
        Some(classes[0].stable)
    } else {
        class_lookup_back(classes.skip(1), obf)
    }
}

/// The obfuscated name of the first member directive matching the owner,
/// name and descriptor, if any.
pub open spec fn member_lookup(
    members: Seq<MemberEntryV>,
    owner: Seq<u8>,
    name: Seq<u8>,
    desc: Seq<u8>,
) -> Option<Seq<u8>>
    decreases members.len(),
{
    if members.len() == 0 {
        None
    } else if members[0].owner == owner && members[0].stable == name && members[0].desc
        == desc {
        Some(members[0].obf)
    } else {
        member_lookup(members.skip(1), owner, name, desc)
    }
}

/// What a class lookup returns: the mapped name, or the input unchanged
/// when no directive matches.
pub open spec fn spec_remap_class(classes: Seq<ClassEntryV>, name: Seq<u8>) -> Seq<u8> {
    match class_lookup(classes, name) {
        Some(obf) => obf,
        None => name,
    }
}

/// The inverse of `spec_remap_class`, with the same identity fallback.
pub open spec fn spec_unmap_class(classes: Seq<ClassEntryV>, obf: Seq<u8>) -> Seq<u8> {
    match class_lookup_back(classes, obf) {
        Some(stable) => stable,
        None => obf,
    }
}

/// What a member lookup returns: the mapped name, or the member name
/// unchanged when no directive matches.
pub open spec fn spec_remap_member(
    members: Seq<MemberEntryV>,
    owner: Seq<u8>,
    name: Seq<u8>,
    desc: Seq<u8>,
) -> Seq<u8> {
    match member_lookup(members, owner, name, desc) {
        Some(obf) => obf,
        None => name,
    }
}

pub const OBJECT_MARK: u8 = 76;  // 'L', opening an object type in a descriptor

pub const OBJECT_END: u8 = 59;  // ';', closing an object type in a descriptor

/// Rewriting the tail `d` of a type descriptor. `collecting` says whether
/// the scan stands inside an `L...;` object type, and `buf` holds the
/// class-name bytes read since the `L`. Every class name between `L` and
/// `;` goes through the class lookup; all other bytes are copied; an
/// unterminated object type is copied as it stands.
pub open spec fn desc_rec(
    classes: Seq<ClassEntryV>,
    d: Seq<u8>,
    collecting: bool,
    buf: Seq<u8>,
) -> Seq<u8>
    decreases d.len(),
{
    if d.len() == 0 {
        if collecting {
            seq![OBJECT_MARK] + buf
        } else {
            Seq::empty()
        }
    } else if !collecting {
        if d[0] == OBJECT_MARK {
            desc_rec(classes, d.skip(1), true, Seq::empty())
        } else {
            seq![d[0]] + desc_rec(classes, d.skip(1), false, Seq::empty())
        }
    } else {
        if d[0] == OBJECT_END {
            seq![OBJECT_MARK] + spec_remap_class(classes, buf) + seq![OBJECT_END] + desc_rec(
                classes,
                d.skip(1),
                false,
                Seq::empty(),
            )
        } else {
            desc_rec(classes, d.skip(1), true, buf.push(d[0]))
        }
    }
}

/// What the descriptor lookup returns: the descriptor with every embedded
/// class name translated (with the identity fallback of the class lookup).
pub open spec fn spec_remap_descriptor(classes: Seq<ClassEntryV>, d: Seq<u8>) -> Seq<u8> {
    desc_rec(classes, d, false, Seq::empty())
}

/// Byte-string equality.
pub fn bytes_eq(a: &[u8], b: &[u8]) -> (r: bool)
    ensures
        r == (a@ == b@),
{
    if a.len() != b.len() {
        assert(a@ != b@) by {
            assert(a@.len() != b@.len());
        }
        return false;
    }
    let mut i: usize = 0;
    while i < a.len()
        invariant
            0 <= i <= a@.len(),
            a@.len() == b@.len(),
            forall|k: int| 0 <= k < i ==> a@[k] == b@[k],
        decreases a@.len() - i,
    {
        if a[i] != b[i] {
            assert(a@ != b@) by {
                assert(a@[i as int] != b@[i as int]);
            }
            return false;
        }
        i = i + 1;
    }
    assert(a@ =~= b@);
    true
}

/// An owned copy of a byte string.
pub fn copy_bytes(src: &[u8]) -> (r: Vec<u8>)
    ensures
        r@ == src@,
{
    let mut r: Vec<u8> = Vec::new();
    let mut i: usize = 0;
    while i < src.len()
        invariant
            0 <= i <= src@.len(),
            r@ == src@.subrange(0, i as int),
        decreases src@.len() - i,
    {
        r.push(src[i]);
        assert(r@ =~= src@.subrange(0, i + 1));
        i = i + 1;
    }
    assert(r@ =~= src@);
    r
}

impl RemapTable {
    /// A table with no directives: every lookup falls back to the identity.
    pub fn empty() -> (r: RemapTable)
        ensures
            r@.classes =~= Seq::<ClassEntryV>::empty(),
            r@.methods =~= Seq::<MemberEntryV>::empty(),
            r@.fields =~= Seq::<MemberEntryV>::empty(),
    {
        let r = RemapTable { classes: Vec::new(), methods: Vec::new(), fields: Vec::new() };
        assert(r@.classes =~= Seq::<ClassEntryV>::empty());
        assert(r@.methods =~= Seq::<MemberEntryV>::empty());
        assert(r@.fields =~= Seq::<MemberEntryV>::empty());
        r
    }

    /// Translates a class name, falling back to the input when no
    /// directive matches.
    pub fn remap_class(&self, name: &[u8]) -> (r: Vec<u8>)
        ensures
            r@ == spec_remap_class(self@.classes, name@),
    {
        let mut i: usize = 0;
        assert(self@.classes.skip(0) =~= self@.classes);
        while i < self.classes.len()
            invariant
                0 <= i <= self.classes@.len(),
                self@.classes.len() == self.classes@.len(),
                class_lookup(self@.classes, name@) == class_lookup(
                    self@.classes.skip(i as int),
                    name@,
                ),
            decreases self.classes@.len() - i,
        {
            let ghost rest = self@.classes.skip(i as int);
            assert(rest[0] == self@.classes[i as int]);
            if bytes_eq(self.classes[i].stable.as_slice(), name) {
                return copy_bytes(self.classes[i].obf.as_slice());
            }
            assert(rest.skip(1) =~= self@.classes.skip(i + 1));
            i = i + 1;
        }
        assert(self@.classes.skip(self.classes@.len() as int) =~= Seq::<ClassEntryV>::empty());
        copy_bytes(name)
    }

    /// Translates an obfuscated class name back to its stable name, with
    /// the same identity fallback: the inverse lookup.
    pub fn unmap_class(&self, obf: &[u8]) -> (r: Vec<u8>)
        ensures
            r@ == spec_unmap_class(self@.classes, obf@),
    {
        let mut i: usize = 0;
        assert(self@.classes.skip(0) =~= self@.classes);
        while i < self.classes.len()
            invariant
                0 <= i <= self.classes@.len(),
                self@.classes.len() == self.classes@.len(),
                class_lookup_back(self@.classes, obf@) == class_lookup_back(
                    self@.classes.skip(i as int),
                    obf@,
                ),
            decreases self.classes@.len() - i,
        {
            let ghost rest = self@.classes.skip(i as int);
            assert(rest[0] == self@.classes[i as int]);
            if bytes_eq(self.classes[i].obf.as_slice(), obf) {
                return copy_bytes(self.classes[i].stable.as_slice());
            }
            assert(rest.skip(1) =~= self@.classes.skip(i + 1));
            i = i + 1;
        }
        assert(self@.classes.skip(self.classes@.len() as int) =~= Seq::<ClassEntryV>::empty());
        copy_bytes(obf)
    }

    /// Translates a whole type descriptor: every class name embedded in
    /// an `L...;` object type goes through the class lookup, and all
    /// other bytes are copied unchanged.
    pub fn remap_descriptor(&self, desc: &[u8]) -> (r: Vec<u8>)
        ensures
            r@ == spec_remap_descriptor(self@.classes, desc@),
    {
        let mut out: Vec<u8> = Vec::new();
        let mut buf: Vec<u8> = Vec::new();
        let mut collecting = false;
        let mut i: usize = 0;
        assert(desc@.skip(0) =~= desc@);
        assert(out@ =~= Seq::<u8>::empty());
        while i < desc.len()
            invariant
                0 <= i <= desc@.len(),
                !collecting ==> buf@ == Seq::<u8>::empty(),
                spec_remap_descriptor(self@.classes, desc@) == out@ + desc_rec(
                    self@.classes,
                    desc@.skip(i as int),
                    collecting,
                    buf@,
                ),
            decreases desc@.len() - i,
        {
            let ghost rest = desc@.skip(i as int);
            assert(rest[0] == desc@[i as int]);
            assert(rest.skip(1) =~= desc@.skip(i + 1));
            let ghost out_before = out@;
            let ghost buf_before = buf@;
            let b = desc[i];
            if !collecting {
                if b == OBJECT_MARK {
                    collecting = true;
                } else {
                    out.push(b);
                    assert(out@ + desc_rec(self@.classes, rest.skip(1), false, buf@)
                        =~= out_before + (seq![b] + desc_rec(
                        self@.classes,
                        rest.skip(1),
                        false,
                        Seq::empty(),
                    )));
                }
            } else {
                if b == OBJECT_END {
                    let mut mapped = self.remap_class(buf.as_slice());
                    out.push(OBJECT_MARK);
                    out.append(&mut mapped);
                    out.push(OBJECT_END);
                    buf = Vec::new();
                    collecting = false;
                    assert(out@ + desc_rec(self@.classes, rest.skip(1), false, buf@)
                        =~= out_before + (seq![OBJECT_MARK] + spec_remap_class(
                        self@.classes,
                        buf_before,
                    ) + seq![OBJECT_END] + desc_rec(
                        self@.classes,
                        rest.skip(1),
                        false,
                        Seq::empty(),
                    )));
                } else {
                    buf.push(b);
                }
            }
            i = i + 1;
        }
        assert(desc@.skip(desc@.len() as int) =~= Seq::<u8>::empty());
        if collecting {
            let ghost out_before = out@;
            let ghost buf_before = buf@;
            out.push(OBJECT_MARK);
            out.append(&mut buf);
            assert(out@ =~= out_before + (seq![OBJECT_MARK] + buf_before));
        } else {
            assert(out@ =~= out@ + Seq::<u8>::empty());
        }
        out
    }

    /// Translates a method name, falling back to the input when no
    /// directive matches the owner, name and descriptor together.
    pub fn remap_method(&self, owner: &[u8], name: &[u8], desc: &[u8]) -> (r: Vec<u8>)
        ensures
            r@ == spec_remap_member(self@.methods, owner@, name@, desc@),
    {
        member_scan(&self.methods, Ghost(self@.methods), owner, name, desc)
    }

    /// Translates a field name, falling back to the input when no
    /// directive matches the owner, name and descriptor together.
    pub fn remap_field(&self, owner: &[u8], name: &[u8], desc: &[u8]) -> (r: Vec<u8>)
        ensures
            r@ == spec_remap_member(self@.fields, owner@, name@, desc@),
    {
        member_scan(&self.fields, Ghost(self@.fields), owner, name, desc)
    }
}

/// A member reference ready for a managed call: the translated member
/// name and the translated descriptor.
#[derive(Debug)]
pub struct MemberRef {
    pub name: Vec<u8>,
    pub desc: Vec<u8>,
}

impl RemapTable {
    /// Resolves one method call: the method name goes through the method
    /// lookup and the descriptor through the descriptor lookup, exactly
    /// as every managed-call site needs them.
    pub fn resolve_method_call(&self, owner: &[u8], name: &[u8], desc: &[u8]) -> (r: MemberRef)
        ensures
            r.name@ == spec_remap_member(self@.methods, owner@, name@, desc@),
            r.desc@ == spec_remap_descriptor(self@.classes, desc@),
    {
        MemberRef { name: self.remap_method(owner, name, desc), desc: self.remap_descriptor(desc) }
    }

    /// Resolves one field access, like `resolve_method_call` but over the
    /// field directives.
    pub fn resolve_field_access(&self, owner: &[u8], name: &[u8], desc: &[u8]) -> (r: MemberRef)
        ensures
            r.name@ == spec_remap_member(self@.fields, owner@, name@, desc@),
            r.desc@ == spec_remap_descriptor(self@.classes, desc@),
    {
        MemberRef { name: self.remap_field(owner, name, desc), desc: self.remap_descriptor(desc) }
    }
}

/// The shared scan behind method and field lookups.
fn member_scan(
    members: &Vec<MemberEntry>,
    Ghost(mv): Ghost<Seq<MemberEntryV>>,
    owner: &[u8],
    name: &[u8],
    desc: &[u8],
) -> (r: Vec<u8>)
    requires
        mv == members@.map_values(|e: MemberEntry| e@),
    ensures
        r@ == spec_remap_member(mv, owner@, name@, desc@),
{
    let mut i: usize = 0;
    assert(mv.skip(0) =~= mv);
    while i < members.len()
        invariant
            0 <= i <= members@.len(),
            mv == members@.map_values(|e: MemberEntry| e@),
            mv.len() == members@.len(),
            member_lookup(mv, owner@, name@, desc@) == member_lookup(
                mv.skip(i as int),
                owner@,
                name@,
                desc@,
            ),
        decreases members@.len() - i,
    {
        let ghost rest = mv.skip(i as int);
        assert(rest[0] == mv[i as int]);
        if bytes_eq(members[i].owner.as_slice(), owner) && bytes_eq(
            members[i].stable.as_slice(),
            name,
        ) && bytes_eq(members[i].desc.as_slice(), desc) {
            return copy_bytes(members[i].obf.as_slice());
        }
        assert(rest.skip(1) =~= mv.skip(i + 1));
        i = i + 1;
    }
    assert(mv.skip(members@.len() as int) =~= Seq::<MemberEntryV>::empty());
    copy_bytes(name)
}

/// Identity fallback: a name that no class directive mentions comes back
/// unchanged from the class lookup.
pub proof fn lemma_class_identity_fallback(classes: Seq<ClassEntryV>, name: Seq<u8>)
    requires
        forall|k: int| 0 <= k < classes.len() ==> (#[trigger] classes[k]).stable != name,
    ensures
        spec_remap_class(classes, name) == name,
    decreases classes.len(),
{
    if classes.len() > 0 {
        assert(classes[0].stable != name);
        assert forall|k: int| 0 <= k < classes.skip(1).len() implies (#[trigger] classes.skip(
            1,
        )[k]).stable != name by {
            assert(classes.skip(1)[k] == classes[k + 1]);
        }
        lemma_class_identity_fallback(classes.skip(1), name);
    }
}

/// Identity fallback for members: a member that no directive matches
/// keeps its name.
pub proof fn lemma_member_identity_fallback(
    members: Seq<MemberEntryV>,
    owner: Seq<u8>,
    name: Seq<u8>,
    desc: Seq<u8>,
)
    requires
        forall|k: int|
            0 <= k < members.len() ==> !((#[trigger] members[k]).owner == owner
                && members[k].stable == name && members[k].desc == desc),
    ensures
        spec_remap_member(members, owner, name, desc) == name,
    decreases members.len(),
{
    if members.len() > 0 {
        assert forall|k: int| 0 <= k < members.skip(1).len() implies !((#[trigger] members.skip(
            1,
        )[k]).owner == owner && members.skip(1)[k].stable == name && members.skip(1)[k].desc
            == desc) by {
            assert(members.skip(1)[k] == members[k + 1]);
        }
        lemma_member_identity_fallback(members.skip(1), owner, name, desc);
    }
}

/// A table whose class directives pair the two namespaces one to one:
/// no stable name and no obfuscated name is given out twice.
pub open spec fn classes_bidirectional(classes: Seq<ClassEntryV>) -> bool {
    forall|i: int, j: int|
        0 <= i < classes.len() && 0 <= j < classes.len() && i != j ==> (#[trigger] classes[i]).stable
            != (#[trigger] classes[j]).stable && classes[i].obf != classes[j].obf
}

/// A class name that some directive mentions is found by the lookup.
pub proof fn lemma_class_lookup_finds(classes: Seq<ClassEntryV>, name: Seq<u8>, i: int)
    requires
        0 <= i < classes.len(),
        classes[i].stable == name,
    ensures
        class_lookup(classes, name).is_some(),
    decreases i,
{
    if classes[0].stable != name {
        assert(classes.skip(1)[i - 1] == classes[i]);
        lemma_class_lookup_finds(classes.skip(1), name, i - 1);
    }
}

/// Mapping law: a class name the table mentions comes back as the first
/// matching directive's obfuscated name, never as the input.
pub proof fn lemma_class_mapped(classes: Seq<ClassEntryV>, name: Seq<u8>)
    requires
        class_lookup(classes, name).is_some(),
    ensures
        spec_remap_class(classes, name) == class_lookup(classes, name).unwrap(),
{
}

/// Mapping law for members: a member the table mentions comes back as
/// the first matching directive's obfuscated name, never as the input.
pub proof fn lemma_member_mapped(
    members: Seq<MemberEntryV>,
    owner: Seq<u8>,
    name: Seq<u8>,
    desc: Seq<u8>,
)
    requires
        member_lookup(members, owner, name, desc).is_some(),
    ensures
        spec_remap_member(members, owner, name, desc) == member_lookup(
            members,
            owner,
            name,
            desc,
        ).unwrap(),
{
}

/// Round trip: in a bidirectional table, mapping a stable name that the
/// table mentions and then applying the inverse lookup recovers the
/// original name.
pub proof fn lemma_class_round_trip(classes: Seq<ClassEntryV>, name: Seq<u8>)
    requires
        classes_bidirectional(classes),
        class_lookup(classes, name).is_some(),
    ensures
        spec_unmap_class(classes, spec_remap_class(classes, name)) == name,
    decreases classes.len(),
{
    if classes.len() > 0 {
        if classes[0].stable == name {
            assert(spec_remap_class(classes, name) == classes[0].obf);
            assert(class_lookup_back(classes, classes[0].obf) == Some(classes[0].stable));
        } else {
            let rest = classes.skip(1);
            assert forall|i: int, j: int|
                0 <= i < rest.len() && 0 <= j < rest.len() && i != j implies (
            #[trigger] rest[i]).stable != (#[trigger] rest[j]).stable && rest[i].obf
                != rest[j].obf by {
                assert(rest[i] == classes[i + 1]);
                assert(rest[j] == classes[j + 1]);
            }
            lemma_class_round_trip(rest, name);
            let obf = spec_remap_class(rest, name);
            assert(spec_remap_class(classes, name) == obf);
            // the head's obfuscated name cannot shadow the mapped one
            assert(classes[0].obf != obf) by {
                lemma_class_lookup_some_is_obf(rest, name);
                let i = lemma_class_lookup_witness(rest, name);
                assert(rest[i] == classes[i + 1]);
            }
        }
    }
}

/// A successful lookup returns the obfuscated name of some directive for
/// `name`; this returns the index of one such directive.
proof fn lemma_class_lookup_witness(classes: Seq<ClassEntryV>, name: Seq<u8>) -> (i: int)
    requires
        class_lookup(classes, name).is_some(),
    ensures
        0 <= i < classes.len(),
        classes[i].stable == name,
        classes[i].obf == class_lookup(classes, name).unwrap(),
    decreases classes.len(),
{
    if classes[0].stable == name {
        0
    } else {
        let j = lemma_class_lookup_witness(classes.skip(1), name);
        assert(classes.skip(1)[j] == classes[j + 1]);
        j + 1
    }
}

proof fn lemma_class_lookup_some_is_obf(classes: Seq<ClassEntryV>, name: Seq<u8>)
    requires
        class_lookup(classes, name).is_some(),
    ensures
        exists|i: int|
            0 <= i < classes.len() && (#[trigger] classes[i]).stable == name && classes[i].obf
                == class_lookup(classes, name).unwrap(),
{
    let i = lemma_class_lookup_witness(classes, name);
    assert(0 <= i < classes.len() && classes[i].stable == name && classes[i].obf == class_lookup(
        classes,
        name,
    ).unwrap());
}

} // verus!

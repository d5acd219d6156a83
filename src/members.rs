use vstd::prelude::*;
use crate::error::Error;

verus! {

/// The kinds of archive member a zipped shapefile is made of.
#[derive(Clone, Copy, Debug, PartialEq, Eq, Structural)]
pub enum MemberKind {
    /// The geometry file (`.shp`).
    Shp,
    /// The spatial index (`.shx`).
    Shx,
    /// The attribute table (`.dbf`).
    Dbf,
    /// The projection text (`.prj`).
    Prj,
}

/// `s` ends with `suffix`, compared character by character.
pub open spec fn has_suffix(s: Seq<char>, suffix: Seq<char>) -> bool {
    suffix.len() <= s.len() && s.subrange(s.len() - suffix.len(), s.len() as int) == suffix
}

/// The file extension that marks a member of the given kind.
pub open spec fn extension_of(kind: MemberKind) -> Seq<char> {
    match kind {
        MemberKind::Shp => seq!['.', 's', 'h', 'p'],
        MemberKind::Shx => seq!['.', 's', 'h', 'x'],
        MemberKind::Dbf => seq!['.', 'd', 'b', 'f'],
        MemberKind::Prj => seq!['.', 'p', 'r', 'j'],
    }
}

/// The kind a member name falls under: the first extension, in the order
/// `.shp`, `.shx`, `.dbf`, `.prj`, that ends the name; none if no such one.
pub open spec fn kind_of(name: Seq<char>) -> Option<MemberKind> {
    if has_suffix(name, extension_of(MemberKind::Shp)) {
        Some(MemberKind::Shp)
    } else if has_suffix(name, extension_of(MemberKind::Shx)) {
        Some(MemberKind::Shx)
    } else if has_suffix(name, extension_of(MemberKind::Dbf)) {
        Some(MemberKind::Dbf)
    } else if has_suffix(name, extension_of(MemberKind::Prj)) {
        Some(MemberKind::Prj)
    } else {
        None
    }
}

/// Whether `s` ends with `suffix` (exact, case-sensitive).
pub fn ends_with(s: &str, suffix: &str) -> (r: bool)
    ensures
        r == has_suffix(s@, suffix@),
{
    let n = s.unicode_len();
    let m = suffix.unicode_len();
    if m > n {
        return false;
    }
    let off = n - m;
    let mut i: usize = 0;
    while i < m
        invariant
            n == s@.len(),
            m == suffix@.len(),
            m <= n,
            off == n - m,
            i <= m,
            forall|j: int| 0 <= j < i ==> s@[off + j] == suffix@[j],
        decreases m - i,
    {
        if s.get_char(off + i) != suffix.get_char(i) {
            assert(s@.subrange(off as int, n as int)[i as int] != suffix@[i as int]);
            return false;
        }
        i = i + 1;
    }
    assert(s@.subrange(off as int, n as int) =~= suffix@);
    true
}

/// The extension that marks a member of the given kind, as text.
pub fn extension(kind: MemberKind) -> (r: &'static str)
    ensures
        r@ == extension_of(kind),
{
    proof {
        reveal_strlit(".shp");
        reveal_strlit(".shx");
        reveal_strlit(".dbf");
        reveal_strlit(".prj");
    }
    match kind {
        MemberKind::Shp => {
            let e = ".shp";
            assert(e@ =~= extension_of(kind));
            e
        },
        MemberKind::Shx => {
            let e = ".shx";
            assert(e@ =~= extension_of(kind));
            e
        },
        MemberKind::Dbf => {
            let e = ".dbf";
            assert(e@ =~= extension_of(kind));
            e
        },
        MemberKind::Prj => {
            let e = ".prj";
            assert(e@ =~= extension_of(kind));
            e
        },
    }
}

/// Classifies a member name by its extension.
pub fn classify(name: &str) -> (r: Option<MemberKind>)
    ensures
        r == kind_of(name@),
{
    if ends_with(name, extension(MemberKind::Shp)) {
        Some(MemberKind::Shp)
    } else if ends_with(name, extension(MemberKind::Shx)) {
        Some(MemberKind::Shx)
    } else if ends_with(name, extension(MemberKind::Dbf)) {
        Some(MemberKind::Dbf)
    } else if ends_with(name, extension(MemberKind::Prj)) {
        Some(MemberKind::Prj)
    } else {
        None
    }
}

} // verus!

verus! {

/// Member `j` is the second (or later) one of its kind.
pub open spec fn duplicate_at(names: Seq<String>, j: int) -> bool {
    &&& 0 <= j < names.len()
    &&& kind_of(names[j]@) is Some
    &&& exists|i: int| 0 <= i < j && kind_of(names[i]@) == kind_of(names[j]@)
}

/// Member `j` is where a listing first repeats a kind.
pub open spec fn first_duplicate(names: Seq<String>, j: int) -> bool {
    duplicate_at(names, j) && forall|i: int| 0 <= i < j ==> !duplicate_at(names, i)
}

/// Some kind occurs more than once in the listing.
pub open spec fn has_duplicate(names: Seq<String>) -> bool {
    exists|j: int| duplicate_at(names, j)
}

/// The name held by an optional member slot.
pub open spec fn opt_view(slot: Option<String>) -> Option<Seq<char>> {
    match slot {
        Some(s) => Some(s@),
        None => None,
    }
}

/// `slot` records the member of the given kind among the first `n` names:
/// none if there is no such member, else the name of one.
pub open spec fn slot_holds(names: Seq<String>, n: int, kind: MemberKind, slot: Option<Seq<char>>) -> bool {
    match slot {
        None => forall|i: int| 0 <= i < n ==> kind_of(#[trigger] names[i]@) != Some(kind),
        Some(s) => exists|i: int| 0 <= i < n && kind_of(#[trigger] names[i]@) == Some(kind) && names[i]@ == s,
    }
}

/// The names of the members a zipped shapefile is made of.
pub struct ShapefileMembers {
    /// The geometry member.
    pub shp: String,
    /// The spatial index member, if any.
    pub shx: Option<String>,
    /// The attribute table member, if any.
    pub dbf: Option<String>,
    /// The projection member, if any.
    pub prj: Option<String>,
}

impl ShapefileMembers {
    /// The member of the given kind.
    pub open spec fn slot(&self, kind: MemberKind) -> Option<Seq<char>> {
        match kind {
            MemberKind::Shp => Some(self.shp@),
            MemberKind::Shx => opt_view(self.shx),
            MemberKind::Dbf => opt_view(self.dbf),
            MemberKind::Prj => opt_view(self.prj),
        }
    }

    /// Each kind's slot records the member of that kind in `names`.
    pub open spec fn resolves(&self, names: Seq<String>) -> bool {
        &&& slot_holds(names, names.len() as int, MemberKind::Shp, self.slot(MemberKind::Shp))
        &&& slot_holds(names, names.len() as int, MemberKind::Shx, self.slot(MemberKind::Shx))
        &&& slot_holds(names, names.len() as int, MemberKind::Dbf, self.slot(MemberKind::Dbf))
        &&& slot_holds(names, names.len() as int, MemberKind::Prj, self.slot(MemberKind::Prj))
    }
}

/// What resolving a listing of member names gives: the duplicate found
/// first, else the missing geometry, else each kind's member.
pub open spec fn resolution_ok(names: Seq<String>, r: Result<ShapefileMembers, Error>) -> bool {
    match r {
        Ok(m) => !has_duplicate(names) && m.resolves(names),
        Err(Error::MultipleFilesFound(ext)) => exists|j: int|
            first_duplicate(names, j) && ext@ == extension_of(kind_of(names[j]@)->Some_0),
        Err(Error::NoShpFound) => !has_duplicate(names) && slot_holds(
            names,
            names.len() as int,
            MemberKind::Shp,
            None,
        ),
        Err(_) => false,
    }
}

/// Places `name` in an empty slot; reports `false`, and leaves the slot
/// alone, if it is taken.
fn place(slot: &mut Option<String>, name: &String) -> (r: bool)
    ensures
        r == (*old(slot) is None),
        r ==> (*final(slot) matches Some(s) && s@ == name@),
        !r ==> *final(slot) == *old(slot),
{
    if slot.is_some() {
        false
    } else {
        *slot = Some(name.clone());
        true
    }
}

/// Resolves a listing of member names, in the order given, into the members
/// of a shapefile: each `.shp`, `.shx`, `.dbf` and `.prj` member must be
/// unique, and a `.shp` member must be there.
pub fn resolve_members(names: &Vec<String>) -> (r: Result<ShapefileMembers, Error>)
    ensures
        resolution_ok(names@, r),
{
    let mut shp: Option<String> = None;
    let mut shx: Option<String> = None;
    let mut dbf: Option<String> = None;
    let mut prj: Option<String> = None;
    let mut i: usize = 0;
    while i < names.len()
        invariant
            i <= names.len(),
            forall|j: int| 0 <= j < i ==> !duplicate_at(names@, j),
            slot_holds(names@, i as int, MemberKind::Shp, opt_view(shp)),
            slot_holds(names@, i as int, MemberKind::Shx, opt_view(shx)),
            slot_holds(names@, i as int, MemberKind::Dbf, opt_view(dbf)),
            slot_holds(names@, i as int, MemberKind::Prj, opt_view(prj)),
        decreases names.len() - i,
    {
        let name = &names[i];
        let kind = classify(name.as_str());
        let ghost g_shp = shp;
        let ghost g_shx = shx;
        let ghost g_dbf = dbf;
        let ghost g_prj = prj;
        let placed = match kind {
            Some(MemberKind::Shp) => place(&mut shp, name),
            Some(MemberKind::Shx) => place(&mut shx, name),
            Some(MemberKind::Dbf) => place(&mut dbf, name),
            Some(MemberKind::Prj) => place(&mut prj, name),
            None => true,
        };
        if !placed {
            let k = kind.unwrap();
            proof {
                let slot = match k {
                    MemberKind::Shp => opt_view(g_shp),
                    MemberKind::Shx => opt_view(g_shx),
                    MemberKind::Dbf => opt_view(g_dbf),
                    MemberKind::Prj => opt_view(g_prj),
                };
                assert(slot_holds(names@, i as int, k, slot));
                assert(duplicate_at(names@, i as int));
                assert(first_duplicate(names@, i as int));
            }
            return Err(Error::MultipleFilesFound(extension(k)));
        }
        proof {
            assert(!duplicate_at(names@, i as int));
        }
        i = i + 1;
    }
    match shp {
        Some(shp) => Ok(ShapefileMembers { shp, shx, dbf, prj }),
        None => Err(Error::NoShpFound),
    }
}

/// A listing in which no kind repeats and a `.shp` member is present
/// resolves, and each kind's slot holds that kind's member (or none).
pub proof fn lemma_unique_members_resolve(names: Seq<String>)
    requires
        !has_duplicate(names),
        exists|i: int| 0 <= i < names.len() && kind_of(#[trigger] names[i]@) == Some(MemberKind::Shp),
    ensures
        forall|r: Result<ShapefileMembers, Error>| #[trigger] resolution_ok(names, r)
            ==> (r matches Ok(m) && m.resolves(names)),
{
}

/// A listing in which some kind repeats fails to resolve, naming the
/// extension of a kind that repeats.
pub proof fn lemma_duplicate_fails(names: Seq<String>)
    requires
        has_duplicate(names),
    ensures
        forall|r: Result<ShapefileMembers, Error>| #[trigger] resolution_ok(names, r)
            ==> (r matches Err(Error::MultipleFilesFound(ext)) && exists|j: int|
            duplicate_at(names, j) && ext@ == extension_of(kind_of(names[j]@)->Some_0)),
{
}

/// A listing without a `.shp` member, and in which no other kind repeats,
/// fails to resolve for want of geometry, whatever else it holds.
pub proof fn lemma_missing_geometry_fails(names: Seq<String>)
    requires
        !has_duplicate(names),
        forall|i: int| 0 <= i < names.len() ==> kind_of(#[trigger] names[i]@) != Some(MemberKind::Shp),
    ensures
        forall|r: Result<ShapefileMembers, Error>| #[trigger] resolution_ok(names, r)
            ==> (r matches Err(Error::NoShpFound)),
{
}

} // verus!

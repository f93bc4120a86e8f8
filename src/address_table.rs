use vstd::prelude::*;

use crate::error::CoreError;

verus! {

/// The identifier of the one build whose offsets this library knows.
pub const STEAM_BUILD: &'static str = "ff7_en-steam-1.02";

/// Name of the world map message buffer.
pub const WORLD_MES_DATA: &'static str = "world_mes_data";

/// Name of the story progress counter.
pub const GAME_MOMENT: &'static str = "game_moment";

/// Name of the current field (location) identifier.
pub const FIELD_ID: &'static str = "field_id";

/// Name of the in-memory save map.
pub const SAVEMAP: &'static str = "savemap";

/// How a field's bytes are to be read.
#[derive(Clone, Copy, Debug, PartialEq, Eq, Structural)]
pub enum FieldKind {
    Scalar,
    Buffer,
    Struct,
}

/// One named place in the target's address space.
#[derive(Debug)]
pub struct AddressTableEntry {
    pub name: String,
    pub offset: u64,
    pub size: u64,
    pub kind: FieldKind,
}

/// The mathematical value of an entry.
pub ghost struct EntryView {
    pub name: Seq<char>,
    pub offset: u64,
    pub size: u64,
    pub kind: FieldKind,
}

impl View for AddressTableEntry {
    type V = EntryView;

    open spec fn view(&self) -> EntryView {
        EntryView { name: self.name@, offset: self.offset, size: self.size, kind: self.kind }
    }
}

/// An entry is usable when it covers at least one byte and its end fits the
/// address space.
pub open spec fn entry_ok(e: EntryView) -> bool {
    &&& e.size > 0
    &&& e.offset + e.size <= u64::MAX
}

/// Entries are usable and no two carry the same name.
pub open spec fn entries_ok(es: Seq<EntryView>) -> bool {
    &&& forall|i: int| 0 <= i < es.len() ==> entry_ok(#[trigger] es[i])
    &&& forall|i: int, j: int|
        0 <= i < es.len() && 0 <= j < es.len() && i != j ==> es[i].name != es[j].name
}

/// The entries of the known build, in table order.
pub open spec fn steam_entries() -> Seq<EntryView> {
    seq![
        EntryView { name: SAVEMAP@, offset: 0xDBFD38, size: 0x10F4, kind: FieldKind::Struct },
        EntryView { name: GAME_MOMENT@, offset: 0xDC08DC, size: 2, kind: FieldKind::Scalar },
        EntryView { name: FIELD_ID@, offset: 0xCC15D0, size: 2, kind: FieldKind::Scalar },
        EntryView { name: WORLD_MES_DATA@, offset: 0xE2A0C0, size: 0x1000, kind: FieldKind::Buffer },
    ]
}

/// The entries a build identifier stands for, if it is a known build.
pub open spec fn build_entries(build: Seq<char>) -> Option<Seq<EntryView>> {
    if build == STEAM_BUILD@ {
        Some(steam_entries())
    } else {
        None
    }
}

/// What a lookup of `name` gives over `es`: the index of the entry so named.
pub open spec fn index_of(es: Seq<EntryView>, name: Seq<char>) -> Option<int> {
    if exists|i: int| 0 <= i < es.len() && es[i].name == name {
        Some(choose|i: int| 0 <= i < es.len() && es[i].name == name)
    } else {
        None
    }
}

/// The immutable map from field names to places for one build.
#[derive(Debug)]
pub struct AddressTable {
    build: String,
    entries: Vec<AddressTableEntry>,
}

impl AddressTable {
    /// The entries, in table order.
    pub closed spec fn spec_entries(&self) -> Seq<EntryView> {
        self.entries@.map_values(|e: AddressTableEntry| e@)
    }

    /// The build identifier the table was made for.
    pub closed spec fn spec_build(&self) -> Seq<char> {
        self.build@
    }

    pub open spec fn wf(&self) -> bool {
        &&& entries_ok(self.spec_entries())
        &&& build_entries(self.spec_build()) == Some(self.spec_entries())
    }

    /// The table of a build, or `UnsupportedBuildError` for a build whose
    /// offsets are not known.
    pub fn for_build(build: &str) -> (r: Result<AddressTable, CoreError>)
        ensures
            build_entries(build@) is None ==> r == Err::<AddressTable, CoreError>(
                CoreError::UnsupportedBuildError,
            ),
            build_entries(build@) is Some ==> r is Ok && r->Ok_0.wf() && Some(
                r->Ok_0.spec_entries(),
            ) == build_entries(build@) && r->Ok_0.spec_build() == build@,
    {
        let wanted = build.to_owned();
        let known = STEAM_BUILD.to_owned();
        if wanted != known {
            return Err(CoreError::UnsupportedBuildError);
        }
        let entries = vec![
            AddressTableEntry {
                name: SAVEMAP.to_owned(),
                offset: 0xDBFD38,
                size: 0x10F4,
                kind: FieldKind::Struct,
            },
            AddressTableEntry {
                name: GAME_MOMENT.to_owned(),
                offset: 0xDC08DC,
                size: 2,
                kind: FieldKind::Scalar,
            },
            AddressTableEntry {
                name: FIELD_ID.to_owned(),
                offset: 0xCC15D0,
                size: 2,
                kind: FieldKind::Scalar,
            },
            AddressTableEntry {
                name: WORLD_MES_DATA.to_owned(),
                offset: 0xE2A0C0,
                size: 0x1000,
                kind: FieldKind::Buffer,
            },
        ];
        let table = AddressTable { build: wanted, entries };
        proof {
            reveal_strlit("savemap");
            reveal_strlit("game_moment");
            reveal_strlit("field_id");
            reveal_strlit("world_mes_data");
            assert(table.spec_entries() =~= steam_entries());
            lemma_steam_entries_ok();
        }
        Ok(table)
    }

    /// The number of entries.
    pub fn len(&self) -> (n: usize)
        ensures
            n == self.spec_entries().len(),
    {
        self.entries.len()
    }

    /// The entry at position `i` of the table order.
    pub fn entry_at(&self, i: usize) -> (e: &AddressTableEntry)
        requires
            i < self.spec_entries().len(),
        ensures
            e@ == self.spec_entries()[i as int],
    {
        &self.entries[i]
    }

    /// The entry named `name`, or `UnknownField`.
    pub fn lookup(&self, name: &str) -> (r: Result<&AddressTableEntry, CoreError>)
        requires
            self.wf(),
        ensures
            index_of(self.spec_entries(), name@) is None ==> r == Err::<
                &AddressTableEntry,
                CoreError,
            >(CoreError::UnknownField),
            index_of(self.spec_entries(), name@) is Some ==> r is Ok && r->Ok_0@
                == self.spec_entries()[index_of(self.spec_entries(), name@)->Some_0],
    {
        let wanted = name.to_owned();
        let mut i: usize = 0;
        while i < self.entries.len()
            invariant
                i <= self.entries.len(),
                self.wf(),
                wanted@ == name@,
                forall|k: int| 0 <= k < i ==> self.spec_entries()[k].name != name@,
            decreases self.entries.len() - i,
        {
            if self.entries[i].name == wanted {
                proof {
                    law_lookup_finds_each_entry(self.spec_entries(), name@, i as int);
                }
                return Ok(&self.entries[i]);
            }
            i += 1;
        }
        proof {
            assert(!exists|k: int|
                0 <= k < self.spec_entries().len() && self.spec_entries()[k].name == name@);
        }
        Err(CoreError::UnknownField)
    }
}

/// The known build's table is well formed: its names have distinct lengths.
proof fn lemma_steam_entries_ok()
    ensures
        entries_ok(steam_entries()),
{
    reveal_strlit("savemap");
    reveal_strlit("game_moment");
    reveal_strlit("field_id");
    reveal_strlit("world_mes_data");
    let es = steam_entries();
    assert(es[0].name.len() == 7);
    assert(es[1].name.len() == 11);
    assert(es[2].name.len() == 8);
    assert(es[3].name.len() == 14);
}

/// Every name in a well-formed table is found, and always at the entry that
/// carries it: `lookup` of an entry's name gives that entry, on every call.
pub proof fn law_lookup_finds_each_entry(es: Seq<EntryView>, name: Seq<char>, i: int)
    requires
        entries_ok(es),
        0 <= i < es.len(),
        es[i].name == name,
    ensures
        index_of(es, name) == Some(i),
{
}

/// A name that no entry carries is unknown: `lookup` of it fails with
/// `UnknownField` and hands out no entry.
pub proof fn law_lookup_rejects_other_names(es: Seq<EntryView>, name: Seq<char>)
    requires
        forall|i: int| 0 <= i < es.len() ==> es[i].name != name,
    ensures
        index_of(es, name) is None,
{
}

/// The known build's table holds each of its field names.
pub proof fn law_known_build_names()
    ensures
        index_of(steam_entries(), SAVEMAP@) == Some(0int),
        index_of(steam_entries(), GAME_MOMENT@) == Some(1int),
        index_of(steam_entries(), FIELD_ID@) == Some(2int),
        index_of(steam_entries(), WORLD_MES_DATA@) == Some(3int),
{
    lemma_steam_entries_ok();
    law_lookup_finds_each_entry(steam_entries(), SAVEMAP@, 0);
    law_lookup_finds_each_entry(steam_entries(), GAME_MOMENT@, 1);
    law_lookup_finds_each_entry(steam_entries(), FIELD_ID@, 2);
    law_lookup_finds_each_entry(steam_entries(), WORLD_MES_DATA@, 3);
}

} // verus!

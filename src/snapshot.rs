use vstd::prelude::*;

use crate::address_table::{AddressTable, EntryView, index_of};
use crate::error::CoreError;
use crate::memory::{MemoryRegion, entry_region};

verus! {

/// The views of a list of byte buffers.
pub open spec fn values_view(v: Seq<Vec<u8>>) -> Seq<Seq<u8>> {
    v.map_values(|b: Vec<u8>| b@)
}

/// The first `values.len()` fields of `schema` are read, each in full.
pub open spec fn prefix_read(values: Seq<Seq<u8>>, schema: Seq<EntryView>) -> bool {
    &&& values.len() <= schema.len()
    &&& forall|i: int| 0 <= i < values.len() ==> (#[trigger] values[i]).len() == schema[i].size
}

/// Every field of `schema` is read, each in full.
pub open spec fn all_read(values: Seq<Seq<u8>>, schema: Seq<EntryView>) -> bool {
    prefix_read(values, schema) && values.len() == schema.len()
}

/// What accepting the answer to the next field's read gives: the longer
/// prefix, or the failure that ends the whole snapshot.
pub open spec fn accept_result(
    values: Seq<Seq<u8>>,
    schema: Seq<EntryView>,
    read: Result<Seq<u8>, CoreError>,
) -> Result<Seq<Seq<u8>>, CoreError> {
    match read {
        Err(e) => Err(e),
        Ok(b) => if b.len() == schema[values.len() as int].size {
            Ok(values.push(b))
        } else {
            Err(CoreError::PartialRead)
        },
    }
}

/// The view of a read answer.
pub open spec fn read_view(r: Result<Vec<u8>, CoreError>) -> Result<Seq<u8>, CoreError> {
    match r {
        Ok(b) => Ok(b@),
        Err(e) => Err(e),
    }
}

/// A point-in-time copy of every field of an address table, in table order.
/// No snapshot exists with a field missing or short.
pub struct GameDataSnapshot {
    values: Vec<Vec<u8>>,
    schema: Ghost<Seq<EntryView>>,
}

impl GameDataSnapshot {
    #[verifier::type_invariant]
    spec fn inv(&self) -> bool {
        all_read(values_view(self.values@), self.schema@)
    }

    /// The bytes of each field, in table order.
    pub closed spec fn spec_values(&self) -> Seq<Seq<u8>> {
        values_view(self.values@)
    }

    /// The entries the snapshot was read against.
    pub closed spec fn spec_schema(&self) -> Seq<EntryView> {
        self.schema@
    }

    /// The number of fields. Whoever holds a snapshot learns from it that
    /// every field of its table is there in full: none is partly populated.
    pub fn len(&self) -> (n: usize)
        ensures
            n == self.spec_values().len(),
            all_read(self.spec_values(), self.spec_schema()),
    {
        proof {
            use_type_invariant(self);
        }
        self.values.len()
    }

    /// The bytes of the field at position `i` of the table order.
    pub fn value_at(&self, i: usize) -> (r: &Vec<u8>)
        requires
            i < self.spec_values().len(),
        ensures
            r@ == self.spec_values()[i as int],
    {
        &self.values[i]
    }

    /// The bytes of the field named `name`, or `UnknownField`.
    pub fn value_of(&self, table: &AddressTable, name: &str) -> (r: Result<&Vec<u8>, CoreError>)
        requires
            table.wf(),
            table.spec_entries() == self.spec_schema(),
        ensures
            index_of(self.spec_schema(), name@) is None ==> r == Err::<&Vec<u8>, CoreError>(
                CoreError::UnknownField,
            ),
            index_of(self.spec_schema(), name@) is Some ==> r is Ok && r->Ok_0@
                == self.spec_values()[index_of(self.spec_schema(), name@)->Some_0],
    {
        proof {
            use_type_invariant(self);
        }
        let wanted = name.to_owned();
        let mut i: usize = 0;
        while i < table.len()
            invariant
                i <= self.spec_schema().len(),
                table.wf(),
                table.spec_entries() == self.spec_schema(),
                self.spec_values().len() == self.spec_schema().len(),
                wanted@ == name@,
                forall|k: int| 0 <= k < i ==> self.spec_schema()[k].name != name@,
            decreases self.spec_schema().len() - i,
        {
            if table.entry_at(i).name == wanted {
                proof {
                    crate::address_table::law_lookup_finds_each_entry(
                        self.spec_schema(),
                        name@,
                        i as int,
                    );
                }
                return Ok(&self.values[i]);
            }
            i += 1;
        }
        Err(CoreError::UnknownField)
    }
}

/// Collects the fields of a table one read at a time, in table order.
pub struct SnapshotBuilder {
    values: Vec<Vec<u8>>,
}

impl SnapshotBuilder {
    /// The fields read so far.
    pub closed spec fn spec_values(&self) -> Seq<Seq<u8>> {
        values_view(self.values@)
    }

    /// A builder with nothing read.
    pub fn new() -> (b: SnapshotBuilder)
        ensures
            b.spec_values() == Seq::<Seq<u8>>::empty(),
    {
        let b = SnapshotBuilder { values: Vec::new() };
        proof {
            assert(b.spec_values() =~= Seq::<Seq<u8>>::empty());
        }
        b
    }

    /// The region to read next, or `None` once every field is read.
    pub fn next_region(&self, table: &AddressTable) -> (r: Option<MemoryRegion>)
        requires
            prefix_read(self.spec_values(), table.spec_entries()),
        ensures
            r is None <==> self.spec_values().len() == table.spec_entries().len(),
            r is Some ==> r->Some_0 == entry_region(
                table.spec_entries()[self.spec_values().len() as int],
            ),
    {
        let n = self.values.len();
        if n < table.len() {
            let e = table.entry_at(n);
            Some(MemoryRegion { address: e.offset, length: e.size })
        } else {
            None
        }
    }

    /// Takes the answer to the read of the next field. A failed or short
    /// read ends the whole snapshot with that failure.
    pub fn accept(self, table: &AddressTable, read: Result<Vec<u8>, CoreError>) -> (r: Result<
        SnapshotBuilder,
        CoreError,
    >)
        requires
            prefix_read(self.spec_values(), table.spec_entries()),
            self.spec_values().len() < table.spec_entries().len(),
        ensures
            r is Ok <==> accept_result(
                self.spec_values(),
                table.spec_entries(),
                read_view(read),
            ) is Ok,
            r is Ok ==> r->Ok_0.spec_values() == accept_result(
                self.spec_values(),
                table.spec_entries(),
                read_view(read),
            )->Ok_0,
            r is Ok ==> prefix_read(r->Ok_0.spec_values(), table.spec_entries()),
            r is Err ==> r->Err_0 == accept_result(
                self.spec_values(),
                table.spec_entries(),
                read_view(read),
            )->Err_0,
    {
        match read {
            Err(e) => Err(e),
            Ok(bytes) => {
                let n = self.values.len();
                if bytes.len() as u128 == table.entry_at(n).size as u128 {
                    let mut values = self.values;
                    let ghost before = values_view(values@);
                    values.push(bytes);
                    let b = SnapshotBuilder { values };
                    proof {
                        assert(b.spec_values() =~= before.push(bytes@));
                    }
                    Ok(b)
                } else {
                    Err(CoreError::PartialRead)
                }
            },
        }
    }

    /// The snapshot, once every field is read.
    pub fn finish(self, table: &AddressTable) -> (s: GameDataSnapshot)
        requires
            all_read(self.spec_values(), table.spec_entries()),
        ensures
            s.spec_values() == self.spec_values(),
            s.spec_schema() == table.spec_entries(),
            all_read(s.spec_values(), s.spec_schema()),
    {
        GameDataSnapshot { values: self.values, schema: Ghost(table.spec_entries()) }
    }
}

} // verus!

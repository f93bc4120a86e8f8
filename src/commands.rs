use vstd::prelude::*;

use crate::address_table::{AddressTable, WORLD_MES_DATA, index_of};
use crate::error::CoreError;
use crate::memory::{
    MemoryRegion,
    ReadReply,
    WriteOutcome,
    WriteTransfer,
    begin_write,
    read_result,
    transfer_check,
    write_region_of,
    write_result,
};
use crate::process::{
    ProcessEntry,
    ProcessEntryView,
    ProcessHandle,
    TARGET_PROCESS,
    alive_in,
    find,
    handle_of,
    has_name,
    is_first_match,
    listing_view,
};

verus! {

/// Whether the game process is in the listing.
pub fn is_ff7_running(listing: &Vec<ProcessEntry>) -> (r: bool)
    ensures
        r == has_name(listing_view(listing@), TARGET_PROCESS@),
{
    find(listing, TARGET_PROCESS).is_ok()
}

/// Prepares the write of `data` to the world map message buffer of the game
/// process found in `listing`, a listing taken immediately before: the
/// process to write to, and the transfer that the caller performs and ends
/// with `finish_write`.
///
/// Fails with `ProcessNotFound` where the game is not running,
/// `UnknownField` where the table has no message buffer, and `WriteRejected`
/// where `data` is longer than the buffer.
pub fn update_mes_data(table: &AddressTable, listing: &Vec<ProcessEntry>, data: Vec<u8>) -> (r:
    Result<(ProcessHandle, WriteTransfer), CoreError>)
    requires
        table.wf(),
    ensures
        !has_name(listing_view(listing@), TARGET_PROCESS@) ==> r == Err::<
            (ProcessHandle, WriteTransfer),
            CoreError,
        >(CoreError::ProcessNotFound),
        has_name(listing_view(listing@), TARGET_PROCESS@) && index_of(
            table.spec_entries(),
            WORLD_MES_DATA@,
        ) is None ==> r == Err::<(ProcessHandle, WriteTransfer), CoreError>(
            CoreError::UnknownField,
        ),
        has_name(listing_view(listing@), TARGET_PROCESS@) && index_of(
            table.spec_entries(),
            WORLD_MES_DATA@,
        ) is Some ==> {
            let e = table.spec_entries()[index_of(table.spec_entries(), WORLD_MES_DATA@)->Some_0];
            &&& data@.len() > e.size ==> r == Err::<(ProcessHandle, WriteTransfer), CoreError>(
                CoreError::WriteRejected,
            )
            &&& data@.len() <= e.size ==> r is Ok && (exists|i: int|
                is_first_match(listing_view(listing@), TARGET_PROCESS@, i) && r->Ok_0.0
                    == handle_of(listing_view(listing@)[i])) && r->Ok_0.1.spec_region() == (
            MemoryRegion { address: e.offset, length: data@.len() as u64 }) && r->Ok_0.1.spec_bytes()
                == data@
        },
{
    let handle = match find(listing, TARGET_PROCESS) {
        Ok(h) => h,
        Err(e) => return Err(e),
    };
    let entry = match table.lookup(WORLD_MES_DATA) {
        Ok(e) => e,
        Err(e) => return Err(e),
    };
    let region = match write_region_of(entry, data.len()) {
        Ok(r) => r,
        Err(e) => return Err(e),
    };
    proof {
        let es = table.spec_entries();
        let k = index_of(es, WORLD_MES_DATA@)->Some_0;
        assert(crate::address_table::entry_ok(es[k]));
    }
    match begin_write(true, region, data) {
        Ok(t) => Ok((handle, t)),
        Err(e) => Err(e),
    }
}

/// Where the run a handle refers to is no longer in the listing, it is not
/// alive, no read or write over any region starts through it, and a transfer
/// that the system answers with `Gone` yields no data: each fails with
/// `ProcessGone`.
pub proof fn law_stale_handle_transfers_nothing(
    ls: Seq<ProcessEntryView>,
    h: ProcessHandle,
    region: MemoryRegion,
    length: u64,
)
    requires
        forall|i: int| 0 <= i < ls.len() ==> handle_of(#[trigger] ls[i]) != h,
    ensures
        !alive_in(ls, h),
        transfer_check(alive_in(ls, h), region) == Err::<(), CoreError>(CoreError::ProcessGone),
        read_result(length, ReadReply::Gone) == Err::<Seq<u8>, CoreError>(CoreError::ProcessGone),
        write_result(length, WriteOutcome::Gone) == Err::<(), CoreError>(CoreError::ProcessGone),
{
}

} // verus!

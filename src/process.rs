use vstd::prelude::*;

use crate::error::CoreError;

verus! {

/// The executable name of the game process.
pub const TARGET_PROCESS: &'static str = "ff7_en.exe";

/// A reference to one run of a process: its id and when it started, so that
/// a restarted process, or another one given the same id, is not taken for it.
#[derive(Clone, Copy, Debug, PartialEq, Eq, Structural)]
pub struct ProcessHandle {
    pub pid: u32,
    pub start_time: u64,
}

/// One line of the operating system's process listing.
#[derive(Debug)]
pub struct ProcessEntry {
    pub pid: u32,
    pub start_time: u64,
    pub name: String,
}

/// The mathematical value of a listing line.
pub ghost struct ProcessEntryView {
    pub pid: u32,
    pub start_time: u64,
    pub name: Seq<char>,
}

impl View for ProcessEntry {
    type V = ProcessEntryView;

    open spec fn view(&self) -> ProcessEntryView {
        ProcessEntryView { pid: self.pid, start_time: self.start_time, name: self.name@ }
    }
}

/// The views of a listing.
pub open spec fn listing_view(ls: Seq<ProcessEntry>) -> Seq<ProcessEntryView> {
    ls.map_values(|e: ProcessEntry| e@)
}

/// The handle of a listing line.
pub open spec fn handle_of(e: ProcessEntryView) -> ProcessHandle {
    ProcessHandle { pid: e.pid, start_time: e.start_time }
}

/// Some line of the listing carries `name`.
pub open spec fn has_name(ls: Seq<ProcessEntryView>, name: Seq<char>) -> bool {
    exists|i: int| 0 <= i < ls.len() && ls[i].name == name
}

/// Line `i` is the first to carry `name`.
pub open spec fn is_first_match(ls: Seq<ProcessEntryView>, name: Seq<char>, i: int) -> bool {
    &&& 0 <= i < ls.len()
    &&& ls[i].name == name
    &&& forall|k: int| 0 <= k < i ==> ls[k].name != name
}

/// The run that `h` refers to is still in the listing.
pub open spec fn alive_in(ls: Seq<ProcessEntryView>, h: ProcessHandle) -> bool {
    exists|i: int| 0 <= i < ls.len() && handle_of(#[trigger] ls[i]) == h
}

/// The handle of the first process in the listing named `name`, or
/// `ProcessNotFound`.
pub fn find(listing: &Vec<ProcessEntry>, name: &str) -> (r: Result<ProcessHandle, CoreError>)
    ensures
        r is Ok <==> has_name(listing_view(listing@), name@),
        r is Err ==> r->Err_0 == CoreError::ProcessNotFound,
        r is Ok ==> exists|i: int|
            is_first_match(listing_view(listing@), name@, i) && r->Ok_0 == handle_of(
                listing_view(listing@)[i],
            ),
{
    let wanted = name.to_owned();
    let ghost ls = listing_view(listing@);
    let mut i: usize = 0;
    while i < listing.len()
        invariant
            i <= listing@.len(),
            ls == listing_view(listing@),
            wanted@ == name@,
            forall|k: int| 0 <= k < i ==> ls[k].name != name@,
        decreases listing.len() - i,
    {
        if listing[i].name == wanted {
            let h = ProcessHandle { pid: listing[i].pid, start_time: listing[i].start_time };
            proof {
                assert(is_first_match(ls, name@, i as int));
            }
            return Ok(h);
        }
        i += 1;
    }
    Err(CoreError::ProcessNotFound)
}

/// Whether the run that `handle` refers to is still in the listing. Never
/// fails: a stale handle gives `false`.
pub fn is_alive(handle: &ProcessHandle, listing: &Vec<ProcessEntry>) -> (r: bool)
    ensures
        r == alive_in(listing_view(listing@), *handle),
{
    let ghost ls = listing_view(listing@);
    let mut i: usize = 0;
    while i < listing.len()
        invariant
            i <= listing@.len(),
            ls == listing_view(listing@),
            forall|k: int| 0 <= k < i ==> handle_of(#[trigger] ls[k]) != *handle,
        decreases listing.len() - i,
    {
        if listing[i].pid == handle.pid && listing[i].start_time == handle.start_time {
            proof {
                assert(handle_of(ls[i as int]) == *handle);
            }
            return true;
        }
        i += 1;
    }
    false
}

} // verus!

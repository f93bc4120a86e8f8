use vstd::prelude::*;

use crate::address_table::{AddressTableEntry, EntryView};
use crate::error::CoreError;

verus! {

/// A span of the target's address space, for the length of one call.
#[derive(Clone, Copy, Debug, PartialEq, Eq, Structural)]
pub struct MemoryRegion {
    pub address: u64,
    pub length: u64,
}

/// The region ends inside the address space.
pub open spec fn region_fits(r: MemoryRegion) -> bool {
    r.address + r.length <= u64::MAX
}

/// What the operating system reported for a read.
#[derive(Debug)]
pub enum ReadOutcome {
    /// The bytes it delivered.
    Bytes(Vec<u8>),
    /// It refused the read (privilege, protected page).
    Denied,
    /// The process was gone.
    Gone,
}

/// The mathematical value of a read outcome.
pub ghost enum ReadReply {
    Bytes(Seq<u8>),
    Denied,
    Gone,
}

impl View for ReadOutcome {
    type V = ReadReply;

    open spec fn view(&self) -> ReadReply {
        match self {
            ReadOutcome::Bytes(b) => ReadReply::Bytes(b@),
            ReadOutcome::Denied => ReadReply::Denied,
            ReadOutcome::Gone => ReadReply::Gone,
        }
    }
}

/// What the operating system reported for a write.
#[derive(Clone, Copy, Debug, PartialEq, Eq, Structural)]
pub enum WriteOutcome {
    /// The number of bytes it wrote.
    Written(u64),
    /// It refused the write (privilege).
    Denied,
    /// The page is not writable.
    NotWritable,
    /// The process was gone.
    Gone,
}

/// Whether a transfer over `region` may start, given the liveness check made
/// just before it.
pub open spec fn transfer_check(alive: bool, region: MemoryRegion) -> Result<(), CoreError> {
    if !alive {
        Err(CoreError::ProcessGone)
    } else if !region_fits(region) {
        Err(CoreError::AccessDenied)
    } else {
        Ok(())
    }
}

/// What a read of `length` bytes gives, from what the system reported.
pub open spec fn read_result(length: u64, reply: ReadReply) -> Result<Seq<u8>, CoreError> {
    match reply {
        ReadReply::Bytes(b) => if b.len() == length {
            Ok(b)
        } else {
            Err(CoreError::PartialRead)
        },
        ReadReply::Denied => Err(CoreError::AccessDenied),
        ReadReply::Gone => Err(CoreError::ProcessGone),
    }
}

/// What a write of `length` bytes gives, from what the system reported. A
/// write that stopped short is rejected, never retried.
pub open spec fn write_result(length: u64, outcome: WriteOutcome) -> Result<(), CoreError> {
    match outcome {
        WriteOutcome::Written(n) => if n == length {
            Ok(())
        } else {
            Err(CoreError::WriteRejected)
        },
        WriteOutcome::Denied => Err(CoreError::AccessDenied),
        WriteOutcome::NotWritable => Err(CoreError::WriteRejected),
        WriteOutcome::Gone => Err(CoreError::ProcessGone),
    }
}

/// The region a field occupies.
pub open spec fn entry_region(e: EntryView) -> MemoryRegion {
    MemoryRegion { address: e.offset, length: e.size }
}

/// The region that a write of `len` bytes to a field covers: the field's
/// start, for `len` bytes, if they fit the field.
pub open spec fn entry_write_region(e: EntryView, len: nat) -> Result<MemoryRegion, CoreError> {
    if len > e.size {
        Err(CoreError::WriteRejected)
    } else {
        Ok(MemoryRegion { address: e.offset, length: len as u64 })
    }
}

/// The region a field occupies.
pub fn region_of(entry: &AddressTableEntry) -> (r: MemoryRegion)
    ensures
        r == entry_region(entry@),
{
    MemoryRegion { address: entry.offset, length: entry.size }
}

/// The region that writing `len` bytes to a field covers, or
/// `WriteRejected` where they do not fit the field.
pub fn write_region_of(entry: &AddressTableEntry, len: usize) -> (r: Result<
    MemoryRegion,
    CoreError,
>)
    ensures
        r == entry_write_region(entry@, len as nat),
{
    if len as u128 > entry.size as u128 {
        Err(CoreError::WriteRejected)
    } else {
        Ok(MemoryRegion { address: entry.offset, length: len as u64 })
    }
}

/// Permission for one read, granted only right after a liveness check.
pub struct ReadTransfer {
    region: MemoryRegion,
}

impl ReadTransfer {
    pub closed spec fn spec_region(&self) -> MemoryRegion {
        self.region
    }

    /// The region to read.
    pub fn region(&self) -> (r: MemoryRegion)
        ensures
            r == self.spec_region(),
    {
        self.region
    }
}

/// Permission for one write, granted only right after a liveness check.
pub struct WriteTransfer {
    region: MemoryRegion,
    bytes: Vec<u8>,
}

impl WriteTransfer {
    pub closed spec fn spec_region(&self) -> MemoryRegion {
        self.region
    }

    pub closed spec fn spec_bytes(&self) -> Seq<u8> {
        self.bytes@
    }

    /// The region to write.
    pub fn region(&self) -> (r: MemoryRegion)
        ensures
            r == self.spec_region(),
    {
        self.region
    }

    /// The bytes to write, exactly as many as the region is long.
    pub fn bytes(&self) -> (r: &Vec<u8>)
        ensures
            r@ == self.spec_bytes(),
    {
        &self.bytes
    }
}

/// Starts a read of `region`, where `alive` is the answer of a liveness
/// check made immediately before.
pub fn begin_read(alive: bool, region: MemoryRegion) -> (r: Result<ReadTransfer, CoreError>)
    ensures
        r is Ok <==> transfer_check(alive, region) is Ok,
        r is Err ==> r->Err_0 == transfer_check(alive, region)->Err_0,
        r is Ok ==> r->Ok_0.spec_region() == region,
{
    if !alive {
        Err(CoreError::ProcessGone)
    } else if region.length > u64::MAX - region.address {
        Err(CoreError::AccessDenied)
    } else {
        Ok(ReadTransfer { region })
    }
}

/// Ends a read with what the system reported: exactly the bytes asked for,
/// or the failure.
pub fn finish_read(t: ReadTransfer, outcome: ReadOutcome) -> (r: Result<Vec<u8>, CoreError>)
    ensures
        r is Ok <==> read_result(t.spec_region().length, outcome@) is Ok,
        r is Ok ==> r->Ok_0@ == read_result(t.spec_region().length, outcome@)->Ok_0,
        r is Err ==> r->Err_0 == read_result(t.spec_region().length, outcome@)->Err_0,
{
    match outcome {
        ReadOutcome::Bytes(b) => {
            if b.len() as u128 == t.region.length as u128 {
                Ok(b)
            } else {
                Err(CoreError::PartialRead)
            }
        },
        ReadOutcome::Denied => Err(CoreError::AccessDenied),
        ReadOutcome::Gone => Err(CoreError::ProcessGone),
    }
}

/// Starts a write of `data` over `region`, where `alive` is the answer of a
/// liveness check made immediately before. `data` must fill the region.
pub fn begin_write(alive: bool, region: MemoryRegion, data: Vec<u8>) -> (r: Result<
    WriteTransfer,
    CoreError,
>)
    ensures
        r is Ok <==> transfer_check(alive, region) is Ok && data@.len() == region.length,
        r is Err && transfer_check(alive, region) is Err ==> r->Err_0 == transfer_check(
            alive,
            region,
        )->Err_0,
        r is Err && transfer_check(alive, region) is Ok ==> r->Err_0 == CoreError::WriteRejected,
        r is Ok ==> r->Ok_0.spec_region() == region && r->Ok_0.spec_bytes() == data@,
{
    if !alive {
        Err(CoreError::ProcessGone)
    } else if region.length > u64::MAX - region.address {
        Err(CoreError::AccessDenied)
    } else if data.len() as u128 != region.length as u128 {
        Err(CoreError::WriteRejected)
    } else {
        Ok(WriteTransfer { region, bytes: data })
    }
}

/// Ends a write with what the system reported.
pub fn finish_write(t: WriteTransfer, outcome: WriteOutcome) -> (r: Result<(), CoreError>)
    ensures
        r == write_result(t.spec_region().length, outcome),
{
    match outcome {
        WriteOutcome::Written(n) => {
            if n == t.region.length {
                Ok(())
            } else {
                Err(CoreError::WriteRejected)
            }
        },
        WriteOutcome::Denied => Err(CoreError::AccessDenied),
        WriteOutcome::NotWritable => Err(CoreError::WriteRejected),
        WriteOutcome::Gone => Err(CoreError::ProcessGone),
    }
}

/// The bytes of `region` in an address space whose contents are `mem`.
pub open spec fn bytes_in(mem: spec_fn(int) -> u8, region: MemoryRegion) -> Seq<u8> {
    Seq::new(region.length as nat, |k: int| mem(region.address + k))
}

/// The address space `mem` after `data` is stored over `region`.
pub open spec fn stored(mem: spec_fn(int) -> u8, region: MemoryRegion, data: Seq<u8>) -> spec_fn(
    int,
) -> u8 {
    |a: int|
        if region.address <= a < region.address + data.len() {
            data[a - region.address]
        } else {
            mem(a)
        }
}

/// Round trip over a live process whose memory behaves as memory: a read of
/// a region gives its bytes; writing those same bytes back is accepted; once
/// the system has written them all, a second read gives the bytes first read.
pub proof fn law_read_write_read(mem: spec_fn(int) -> u8, region: MemoryRegion)
    requires
        region_fits(region),
    ensures
        transfer_check(true, region) is Ok,
        read_result(region.length, ReadReply::Bytes(bytes_in(mem, region))) == Ok::<
            Seq<u8>,
            CoreError,
        >(bytes_in(mem, region)),
        bytes_in(mem, region).len() == region.length,
        write_result(region.length, WriteOutcome::Written(region.length)) is Ok,
        read_result(
            region.length,
            ReadReply::Bytes(bytes_in(stored(mem, region, bytes_in(mem, region)), region)),
        ) == Ok::<Seq<u8>, CoreError>(bytes_in(mem, region)),
{
    assert(bytes_in(stored(mem, region, bytes_in(mem, region)), region) =~= bytes_in(
        mem,
        region,
    ));
}

/// Data written to a region is what a later read of it gives, once the
/// system has written it all.
pub proof fn law_write_then_read(mem: spec_fn(int) -> u8, region: MemoryRegion, data: Seq<u8>)
    requires
        region_fits(region),
        data.len() == region.length,
    ensures
        read_result(region.length, ReadReply::Bytes(bytes_in(stored(mem, region, data), region)))
            == Ok::<Seq<u8>, CoreError>(data),
{
    assert(bytes_in(stored(mem, region, data), region) =~= data);
}

} // verus!

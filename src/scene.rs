use vstd::prelude::*;
use vstd::slice::{slice_subrange, slice_to_vec};

use crate::error::CoreError;

verus! {

/// Bytes of the file header; the record count is its first four bytes.
pub const HEADER_LEN: usize = 16;

/// Bytes of a record's fixed part.
pub const RECORD_LEN: usize = 32;

/// Where in a record's fixed part its block length is kept.
pub const BLOCK_LEN_AT: usize = 4;

/// Where the fixed fields without a meaning of their own begin.
pub const FIELDS_AT: usize = 6;

/// The largest block length a record may declare.
pub const MAX_BLOCK_LEN: u16 = 0x4000;

/// A little-endian 16-bit value at `pos`.
pub open spec fn le16(buf: Seq<u8>, pos: int) -> int {
    buf[pos] as int + 256 * (buf[pos + 1] as int)
}

/// A little-endian 32-bit value at `pos`.
pub open spec fn le32(buf: Seq<u8>, pos: int) -> int {
    le16(buf, pos) + 65536 * le16(buf, pos + 2)
}

/// The mathematical value of a decoded scene.
pub ghost struct SceneView {
    pub index: u16,
    pub flags: u16,
    pub fields: Seq<u8>,
    pub block: Seq<u8>,
}

/// The block length that the record starting at `pos` declares.
pub open spec fn block_len_at(buf: Seq<u8>, pos: int) -> int {
    le16(buf, pos + BLOCK_LEN_AT)
}

/// Where the record starting at `pos` ends: its fixed part, then its block.
pub open spec fn record_end(buf: Seq<u8>, pos: int) -> int {
    pos + RECORD_LEN + block_len_at(buf, pos)
}

/// The scene held by the record starting at `pos`.
pub open spec fn scene_at(buf: Seq<u8>, pos: int) -> SceneView {
    SceneView {
        index: le16(buf, pos) as u16,
        flags: le16(buf, pos + 2) as u16,
        fields: buf.subrange(pos + FIELDS_AT, pos + RECORD_LEN),
        block: buf.subrange(pos + RECORD_LEN, record_end(buf, pos)),
    }
}

/// `count` records decoded from `pos` on, each starting where the last ended.
pub open spec fn decode_records(buf: Seq<u8>, pos: int, count: nat) -> Result<
    Seq<SceneView>,
    CoreError,
>
    decreases count,
{
    if count == 0 {
        Ok(seq![])
    } else if pos + RECORD_LEN > buf.len() {
        Err(CoreError::TruncatedFile)
    } else if block_len_at(buf, pos) > MAX_BLOCK_LEN {
        Err(CoreError::MalformedRecord)
    } else if record_end(buf, pos) > buf.len() {
        Err(CoreError::TruncatedFile)
    } else {
        match decode_records(buf, record_end(buf, pos), (count - 1) as nat) {
            Ok(rest) => Ok(seq![scene_at(buf, pos)] + rest),
            Err(e) => Err(e),
        }
    }
}

/// What a scene file decodes to: the records that its header counts.
pub open spec fn decode_file(buf: Seq<u8>) -> Result<Seq<SceneView>, CoreError> {
    if buf.len() < HEADER_LEN {
        Err(CoreError::TruncatedFile)
    } else {
        decode_records(buf, HEADER_LEN as int, le32(buf, 0) as nat)
    }
}

/// Where the last of `count` records from `pos` on ends, in a buffer where
/// they all decode.
pub open spec fn records_end(buf: Seq<u8>, pos: int, count: nat) -> int
    decreases count,
{
    if count == 0 {
        pos
    } else {
        records_end(buf, record_end(buf, pos), (count - 1) as nat)
    }
}

/// `acc` followed by what `r` holds, or the error of `r`.
pub open spec fn after(acc: Seq<SceneView>, r: Result<Seq<SceneView>, CoreError>) -> Result<
    Seq<SceneView>,
    CoreError,
> {
    match r {
        Ok(rest) => Ok(acc + rest),
        Err(e) => Err(e),
    }
}

/// One battle scene, owning all of its bytes.
#[derive(Debug)]
pub struct Scene {
    index: u16,
    flags: u16,
    fields: Vec<u8>,
    block: Vec<u8>,
}

impl View for Scene {
    type V = SceneView;

    closed spec fn view(&self) -> SceneView {
        SceneView {
            index: self.index,
            flags: self.flags,
            fields: self.fields@,
            block: self.block@,
        }
    }
}

impl Scene {
    /// The scene's index.
    pub fn index(&self) -> (r: u16)
        ensures
            r == self@.index,
    {
        self.index
    }

    /// The scene's flag bits.
    pub fn flags(&self) -> (r: u16)
        ensures
            r == self@.flags,
    {
        self.flags
    }

    /// The fixed fields that follow the block length, as stored.
    pub fn fields(&self) -> (r: &Vec<u8>)
        ensures
            r@ == self@.fields,
    {
        &self.fields
    }

    /// The variable-length block (the scene's script bytes).
    pub fn block(&self) -> (r: &Vec<u8>)
        ensures
            r@ == self@.block,
    {
        &self.block
    }
}

/// The views of a sequence of scenes.
pub open spec fn scenes_view(v: Seq<Scene>) -> Seq<SceneView> {
    v.map_values(|s: Scene| s@)
}

/// The little-endian 16-bit value at `pos`.
fn read_le16(buf: &[u8], pos: usize) -> (r: u16)
    requires
        pos + 2 <= buf.len(),
    ensures
        r == le16(buf@, pos as int),
{
    buf[pos] as u16 + (buf[pos + 1] as u16) * 256
}

/// The little-endian 32-bit value at `pos`.
fn read_le32(buf: &[u8], pos: usize) -> (r: u32)
    requires
        pos + 4 <= buf.len(),
    ensures
        r == le32(buf@, pos as int),
{
    let lo = read_le16(buf, pos) as u32;
    let hi = read_le16(buf, pos + 2) as u32;
    assert(hi * 65536 <= 65535 * 65536) by (nonlinear_arith)
        requires
            hi <= 65535,
    ;
    lo + hi * 65536
}

/// Decodes a battle scene file into its scenes, in file order.
///
/// Fails with `TruncatedFile` where the buffer ends before the header, a
/// record or a block that it declares, and with `MalformedRecord` where a
/// record declares a block longer than `MAX_BLOCK_LEN`. Bytes after the last
/// record are not read.
pub fn decode_scenes(buf: &[u8]) -> (r: Result<Vec<Scene>, CoreError>)
    ensures
        r is Ok <==> decode_file(buf@) is Ok,
        r is Ok ==> scenes_view(r->Ok_0@) == decode_file(buf@)->Ok_0,
        r is Err ==> r->Err_0 == decode_file(buf@)->Err_0,
{
    if buf.len() < HEADER_LEN {
        return Err(CoreError::TruncatedFile);
    }
    let count = read_le32(buf, 0);
    let mut out: Vec<Scene> = Vec::new();
    let mut pos: usize = HEADER_LEN;
    let mut i: u32 = 0;
    while i < count
        invariant
            HEADER_LEN <= pos <= buf@.len(),
            i <= count,
            count == le32(buf@, 0),
            buf@.len() >= HEADER_LEN,
            decode_file(buf@) == after(
                scenes_view(out@),
                decode_records(buf@, pos as int, (count - i) as nat),
            ),
        decreases count - i,
    {
        let ghost rest = (count - i) as nat;
        if buf.len() - pos < RECORD_LEN {
            return Err(CoreError::TruncatedFile);
        }
        let len = read_le16(buf, pos + BLOCK_LEN_AT);
        if len > MAX_BLOCK_LEN {
            return Err(CoreError::MalformedRecord);
        }
        if buf.len() - pos - RECORD_LEN < len as usize {
            return Err(CoreError::TruncatedFile);
        }
        let end = pos + RECORD_LEN + len as usize;
        let scene = Scene {
            index: read_le16(buf, pos),
            flags: read_le16(buf, pos + 2),
            fields: slice_to_vec(slice_subrange(buf, pos + FIELDS_AT, pos + RECORD_LEN)),
            block: slice_to_vec(slice_subrange(buf, pos + RECORD_LEN, end)),
        };
        let ghost before = scenes_view(out@);
        out.push(scene);
        proof {
            assert(scene@ == scene_at(buf@, pos as int));
            assert(scenes_view(out@) =~= before.push(scene_at(buf@, pos as int)));
            let tail = decode_records(buf@, end as int, (rest - 1) as nat);
            assert(decode_records(buf@, pos as int, rest) == match tail {
                Ok(t) => Ok(seq![scene_at(buf@, pos as int)] + t),
                Err(e) => Err(e),
            });
            match tail {
                Ok(t) => {
                    assert(before + (seq![scene_at(buf@, pos as int)] + t) =~= scenes_view(
                        out@,
                    ) + t);
                },
                Err(e) => {},
            }
        }
        pos = end;
        i += 1;
    }
    proof {
        assert(scenes_view(out@) + seq![] =~= scenes_view(out@));
    }
    Ok(out)
}

/// A file whose header counts no records decodes to no scenes, whatever
/// follows the header.
pub proof fn law_empty_file_decodes_empty(buf: Seq<u8>)
    requires
        buf.len() >= HEADER_LEN,
        le32(buf, 0) == 0,
    ensures
        decode_file(buf) == Ok::<Seq<SceneView>, CoreError>(seq![]),
{
}

/// Cutting a decodable file anywhere before the end of its last record makes
/// it fail with `TruncatedFile`, wherever the cut falls in a record.
pub proof fn law_truncated_file_fails(buf: Seq<u8>, cut: int)
    requires
        decode_file(buf) is Ok,
        0 <= cut < records_end(buf, HEADER_LEN as int, le32(buf, 0) as nat),
    ensures
        decode_file(buf.take(cut)) == Err::<Seq<SceneView>, CoreError>(CoreError::TruncatedFile),
{
    if cut >= HEADER_LEN {
        lemma_records_end_bounded(buf, HEADER_LEN as int, le32(buf, 0) as nat);
        let t = buf.take(cut);
        assert(le32(t, 0) == le32(buf, 0));
        lemma_truncated_records(buf, HEADER_LEN as int, le32(buf, 0) as nat, cut);
    }
}

/// The records of a decodable run end inside the buffer.
proof fn lemma_records_end_bounded(buf: Seq<u8>, pos: int, count: nat)
    requires
        decode_records(buf, pos, count) is Ok,
        0 <= pos <= buf.len(),
    ensures
        pos <= records_end(buf, pos, count) <= buf.len(),
    decreases count,
{
    if count > 0 {
        lemma_records_end_bounded(buf, record_end(buf, pos), (count - 1) as nat);
    }
}

/// A cut inside a decodable run of records leaves a record or block short.
proof fn lemma_truncated_records(buf: Seq<u8>, pos: int, count: nat, cut: int)
    requires
        decode_records(buf, pos, count) is Ok,
        0 <= pos <= cut < records_end(buf, pos, count),
        cut <= buf.len(),
    ensures
        decode_records(buf.take(cut), pos, count) == Err::<Seq<SceneView>, CoreError>(
            CoreError::TruncatedFile,
        ),
    decreases count,
{
    let t = buf.take(cut);
    if pos + RECORD_LEN <= cut {
        assert(block_len_at(t, pos) == block_len_at(buf, pos));
        if record_end(buf, pos) <= cut {
            lemma_truncated_records(buf, record_end(buf, pos), (count - 1) as nat, cut);
        }
    }
}

} // verus!

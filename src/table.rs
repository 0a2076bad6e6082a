//! Locating a table's bytes in the file buffer and checking its checksum.
use crate::codec::slice_range;
use crate::error::Error;
use crate::table_record::{
    TableRecord,
    compute_checksum,
    compute_checksum_for_head,
    spec_checksum,
    spec_checksum_for_head,
};
use crate::types::TableTag;
use vstd::prelude::*;

verus! {

/// The tag `head` of the font header table.
pub const HEAD_TAG: u32 = 0x68656164;

/// End of the padded slice of a table: its length rounded as the directory
/// prescribes (`offset + length + length % 4`).
pub open spec fn spec_offset_limit(offset: int, length: int) -> int {
    offset + length + length % 4
}

/// The logical bytes of the table at `offset` with `length` bytes, or
/// `OutOfBounds` when its padded slice does not fit in `buf`.
pub open spec fn spec_resolve(buf: Seq<u8>, offset: int, length: int) -> Result<Seq<u8>, Error> {
    if spec_offset_limit(offset, length) > buf.len() {
        Err(Error::OutOfBounds)
    } else {
        Ok(buf.subrange(offset, offset + length))
    }
}

/// Whether the padded slice of the table fits in `buf` and sums to
/// `checksum`; a `head` table's checksum adjustment counts as zero.
pub open spec fn spec_checksum_ok(buf: Seq<u8>, head: bool, offset: int, length: int, checksum: u32) -> bool {
    let limit = spec_offset_limit(offset, length);
    if limit > buf.len() {
        false
    } else if head {
        spec_checksum_for_head(buf.subrange(offset, limit)) == checksum
    } else {
        spec_checksum(buf.subrange(offset, limit)) == checksum
    }
}

/// End of the padded slice when it fits in a buffer of `len` bytes.
fn padded_end(len: usize, offset: usize, length: usize) -> (r: Option<usize>)
    ensures
        r is None <==> spec_offset_limit(offset as int, length as int) > len,
        r matches Some(e) ==> e == spec_offset_limit(offset as int, length as int),
{
    if offset > len {
        return None;
    }
    if length > len - offset {
        return None;
    }
    if length % 4 > len - offset - length {
        return None;
    }
    Some(offset + length + length % 4)
}

/// A known table of a font, located in the file buffer.
#[derive(Debug, Clone, Copy, PartialEq, Eq)]
pub struct Table<'a> {
    pub buf: &'a [u8],
    pub tag: TableTag,
    pub check_sum: u32,
    pub offset: usize,
    pub length: usize,
}

impl<'a> Table<'a> {
    /// The table `tag` at `offset` with `length` bytes in `buf`, whose
    /// directory records `check_sum`.
    pub fn new(buf: &'a [u8], tag: TableTag, check_sum: u32, offset: usize, length: usize) -> (r: Table<'a>)
        ensures
            r.buf@ == buf@,
            r.tag == tag,
            r.check_sum == check_sum,
            r.offset == offset,
            r.length == length,
    {
        Table { buf, tag, check_sum, offset, length }
    }

    /// Table tag.
    pub fn tag(&self) -> (r: TableTag)
        ensures
            r == self.tag,
    {
        self.tag
    }

    /// The logical (unpadded) bytes of the table described by `record`.
    ///
    /// Fails with `OutOfBounds` when `offset + length + length % 4` passes
    /// the end of `buf`; a record of length zero inside the buffer gives an
    /// empty slice.
    pub fn resolve(buf: &'a [u8], record: &TableRecord) -> (r: Result<&'a [u8], Error>)
        ensures
            match (r, spec_resolve(buf@, record.offset as int, record.length as int)) {
                (Ok(s), Ok(t)) => s@ == t,
                (Err(e), Err(f)) => e == f,
                _ => false,
            },
    {
        let offset = record.offset as usize;
        let length = record.length as usize;
        match padded_end(buf.len(), offset, length) {
            None => Err(Error::OutOfBounds),
            Some(_) => Ok(slice_range(buf, offset, offset + length)),
        }
    }

    /// Whether the padded bytes of the table described by `record` lie in
    /// `buf` and sum to its recorded checksum. For the `head` table the
    /// checksum adjustment field (bytes 8 to 11) counts as zero.
    pub fn validate_checksum(buf: &[u8], record: &TableRecord) -> (r: bool)
        ensures
            r == spec_checksum_ok(
                buf@,
                record.table_tag.0 == HEAD_TAG,
                record.offset as int,
                record.length as int,
                record.checksum,
            ),
    {
        checksum_ok(
            buf,
            record.table_tag.0 == HEAD_TAG,
            record.offset as usize,
            record.length as usize,
            record.checksum,
        )
    }

    /// Whether this table lies in the buffer and sums to its recorded
    /// checksum.
    pub fn is_checksum_valid(&self) -> (r: bool)
        ensures
            r == spec_checksum_ok(
                self.buf@,
                self.tag == TableTag::Head,
                self.offset as int,
                self.length as int,
                self.check_sum,
            ),
    {
        checksum_ok(self.buf, self.tag == TableTag::Head, self.offset, self.length, self.check_sum)
    }

    /// The logical bytes of this table, when they lie in the buffer and its
    /// checksum holds.
    pub fn get_table_as_slice(&self) -> (r: Result<&'a [u8], Error>)
        ensures
            spec_offset_limit(self.offset as int, self.length as int) > self.buf@.len() ==> r
                == Err::<&[u8], Error>(Error::OutOfBounds),
            spec_offset_limit(self.offset as int, self.length as int) <= self.buf@.len() ==> {
                &&& !spec_checksum_ok(
                    self.buf@,
                    self.tag == TableTag::Head,
                    self.offset as int,
                    self.length as int,
                    self.check_sum,
                ) ==> r == Err::<&[u8], Error>(Error::ChecksumMismatch)
                &&& spec_checksum_ok(
                    self.buf@,
                    self.tag == TableTag::Head,
                    self.offset as int,
                    self.length as int,
                    self.check_sum,
                ) ==> (r matches Ok(s) && s@ == self.buf@.subrange(
                    self.offset as int,
                    self.offset + self.length,
                ))
            },
    {
        match padded_end(self.buf.len(), self.offset, self.length) {
            None => Err(Error::OutOfBounds),
            Some(_) => {
                if self.is_checksum_valid() {
                    Ok(slice_range(self.buf, self.offset, self.offset + self.length))
                } else {
                    Err(Error::ChecksumMismatch)
                }
            },
        }
    }
}

fn checksum_ok(buf: &[u8], head: bool, offset: usize, length: usize, checksum: u32) -> (r: bool)
    ensures
        r == spec_checksum_ok(buf@, head, offset as int, length as int, checksum),
{
    match padded_end(buf.len(), offset, length) {
        None => false,
        Some(end) => {
            let padded = slice_range(buf, offset, end);
            if head {
                compute_checksum_for_head(padded) == checksum
            } else {
                compute_checksum(padded) == checksum
            }
        },
    }
}

/// A table whose padded slice passes the end of the buffer is refused with
/// `OutOfBounds`, whatever its offset and length, and one that fits resolves
/// to exactly its logical bytes; in particular the empty table at offset zero
/// always resolves.
pub proof fn lemma_resolve_bounds(buf: Seq<u8>, offset: u32, length: u32)
    ensures
        spec_offset_limit(offset as int, length as int) > buf.len() ==> spec_resolve(
            buf,
            offset as int,
            length as int,
        ) == Err::<Seq<u8>, Error>(Error::OutOfBounds),
        spec_offset_limit(offset as int, length as int) <= buf.len() ==> spec_resolve(
            buf,
            offset as int,
            length as int,
        ) == Ok::<Seq<u8>, Error>(buf.subrange(offset as int, offset + length)),
        spec_resolve(buf, 0, 0) == Ok::<Seq<u8>, Error>(Seq::<u8>::empty()),
        buf.len() < 0x1_0000_0002 ==> spec_resolve(buf, offset as int, 0xFFFF_FFFF) is Err,
{
    assert(buf.subrange(0, 0) =~= Seq::<u8>::empty());
}

} // verus!

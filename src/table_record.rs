//! Table records of the font directory and table checksums.
use crate::codec::{parsed, slice_range, spec_u32, u32_at};
use crate::error::Error;
use crate::types::{Offset32, Tag};
use vstd::prelude::*;

verus! {

/// One entry of the table directory: where a table lies and its checksum.
///
/// Entries of a directory are sorted in ascending order by tag; offsets are
/// measured from the start of the font file, and `length` is the unpadded
/// length of the table.
#[derive(Debug, Clone, Copy, PartialEq, Eq, Structural)]
pub struct TableRecord {
    pub table_tag: Tag,
    pub checksum: u32,
    pub offset: Offset32,
    pub length: u32,
}

impl TableRecord {
    /// A record with the given fields.
    pub fn new(table_tag: Tag, checksum: u32, offset: Offset32, length: u32) -> (r: TableRecord)
        ensures
            r == (TableRecord { table_tag, checksum, offset, length }),
    {
        TableRecord { table_tag, checksum, offset, length }
    }

    /// Table identifier.
    pub fn table_tag(&self) -> (r: Tag)
        ensures
            r == self.table_tag,
    {
        self.table_tag
    }

    /// Checksum of the table.
    pub fn checksum(&self) -> (r: u32)
        ensures
            r == self.checksum,
    {
        self.checksum
    }

    /// Checksum of the table.
    pub fn check_sum(&self) -> (r: u32)
        ensures
            r == self.checksum,
    {
        self.checksum
    }

    /// Offset of the table from the beginning of the font file.
    pub fn offset(&self) -> (r: Offset32)
        ensures
            r == self.offset,
    {
        self.offset
    }

    /// Unpadded length of the table.
    pub fn length(&self) -> (r: u32)
        ensures
            r == self.length,
    {
        self.length
    }
}

/// Size in bytes of one table record.
pub const TABLE_RECORD_SIZE: usize = 16;

/// The table record stored at `b[i..i + 16]`.
pub open spec fn spec_record_at(b: Seq<u8>, i: int) -> TableRecord {
    TableRecord {
        table_tag: Tag(spec_u32(b, i)),
        checksum: spec_u32(b, i + 4),
        offset: spec_u32(b, i + 8),
        length: spec_u32(b, i + 12),
    }
}

/// The `n` table records at the front of `b`.
pub open spec fn spec_records(b: Seq<u8>, n: int) -> Seq<TableRecord> {
    Seq::new(n as nat, |k: int| spec_record_at(b, 16 * k))
}

/// Wire format of one table record.
pub open spec fn spec_table_record(b: Seq<u8>) -> Result<(TableRecord, int), Error> {
    if b.len() < 16 {
        Err(Error::Truncated)
    } else {
        Ok((spec_record_at(b, 0), 16))
    }
}

/// Wire format of an array of `n` table records.
pub open spec fn spec_table_records(b: Seq<u8>, n: int) -> Result<(Seq<TableRecord>, int), Error> {
    if b.len() < 16 * n {
        Err(Error::Truncated)
    } else {
        Ok((spec_records(b, n), 16 * n))
    }
}

/// Decodes one table record from the front of `input`.
pub fn parse_table_record(input: &[u8]) -> (r: Result<(&[u8], TableRecord), Error>)
    ensures
        parsed(r, spec_table_record(input@), input@),
{
    if input.len() < TABLE_RECORD_SIZE {
        return Err(Error::Truncated);
    }
    let record = TableRecord {
        table_tag: Tag(u32_at(input, 0)),
        checksum: u32_at(input, 4),
        offset: u32_at(input, 8),
        length: u32_at(input, 12),
    };
    Ok((slice_range(input, TABLE_RECORD_SIZE, input.len()), record))
}

/// Decodes `num_tables` consecutive table records from the front of `input`.
pub fn parse_table_records(input: &[u8], num_tables: u16) -> (r: Result<
    (&[u8], Vec<TableRecord>),
    Error,
>)
    ensures
        match (r, spec_table_records(input@, num_tables as int)) {
            (Ok((rest, v)), Ok((w, n))) => v@ == w && rest@ == input@.subrange(
                n,
                input@.len() as int,
            ),
            (Err(e), Err(f)) => e == f,
            _ => false,
        },
{
    let n = num_tables as usize;
    if input.len() < TABLE_RECORD_SIZE * n {
        return Err(Error::Truncated);
    }
    let mut records: Vec<TableRecord> = Vec::new();
    let mut k: usize = 0;
    while k < n
        invariant
            k <= n,
            n == num_tables,
            TABLE_RECORD_SIZE * n <= input@.len(),
            records@ == spec_records(input@, k as int),
        decreases n - k,
    {
        let i = TABLE_RECORD_SIZE * k;
        let record = TableRecord {
            table_tag: Tag(u32_at(input, i)),
            checksum: u32_at(input, i + 4),
            offset: u32_at(input, i + 8),
            length: u32_at(input, i + 12),
        };
        records.push(record);
        k = k + 1;
        assert(records@ =~= spec_records(input@, k as int));
    }
    Ok((slice_range(input, TABLE_RECORD_SIZE * n, input.len()), records))
}

/// The `k`-th 32-bit word of `b`, read as zero in the checksum of a `head`
/// table when `k` is the word of its checksum adjustment field (bytes 8 to 11).
pub open spec fn spec_word(b: Seq<u8>, k: int, head: bool) -> u32 {
    if head && k == 2 {
        0
    } else {
        spec_u32(b, 4 * k)
    }
}

/// Wrapping sum of the first `n` words of `b`.
pub open spec fn spec_word_sum(b: Seq<u8>, n: int, head: bool) -> u32
    decreases n,
{
    if n <= 0 {
        0
    } else {
        spec_word_sum(b, n - 1, head).wrapping_add(spec_word(b, n - 1, head))
    }
}

/// The checksum of `b`: the wrapping sum of its complete big-endian words.
/// Trailing bytes that do not fill a word are not summed.
pub open spec fn spec_checksum(b: Seq<u8>) -> u32 {
    spec_word_sum(b, b.len() as int / 4, false)
}

/// The checksum of a `head` table `b`: as `spec_checksum`, with the checksum
/// adjustment field counted as zero.
pub open spec fn spec_checksum_for_head(b: Seq<u8>) -> u32 {
    spec_word_sum(b, b.len() as int / 4, true)
}

fn word_sum(input: &[u8], head: bool) -> (r: u32)
    ensures
        r == spec_word_sum(input@, input@.len() as int / 4, head),
{
    let n = input.len() / 4;
    let mut acc: u32 = 0;
    let mut k: usize = 0;
    while k < n
        invariant
            k <= n,
            n == input@.len() / 4,
            4 * n <= input@.len() <= usize::MAX,
            acc == spec_word_sum(input@, k as int, head),
        decreases n - k,
    {
        let w = if head && k == 2 {
            0
        } else {
            u32_at(input, 4 * k)
        };
        acc = acc.wrapping_add(w);
        k = k + 1;
    }
    acc
}

/// Computes the checksum of a table: the wrapping sum of its big-endian
/// 32-bit words.
pub fn compute_checksum(input: &[u8]) -> (r: u32)
    ensures
        r == spec_checksum(input@),
{
    word_sum(input, false)
}

/// Computes the checksum of a `head` table, whose checksum adjustment field
/// (bytes 8 to 11) is counted as zero.
pub fn compute_checksum_for_head(input: &[u8]) -> (r: u32)
    ensures
        r == spec_checksum_for_head(input@),
{
    word_sum(input, true)
}

/// `b` with its checksum adjustment field (bytes 8 to 11) set to zero.
pub open spec fn spec_zero_adjustment(b: Seq<u8>) -> Seq<u8> {
    b.update(8, 0).update(9, 0).update(10, 0).update(11, 0)
}

proof fn lemma_word_sum_zeroed(b: Seq<u8>, n: int)
    requires
        b.len() >= 12,
        0 <= n <= b.len() / 4,
    ensures
        spec_word_sum(b, n, true) == spec_word_sum(spec_zero_adjustment(b), n, false),
    decreases n,
{
    let z = spec_zero_adjustment(b);
    if n > 0 {
        lemma_word_sum_zeroed(b, n - 1);
        let k = n - 1;
        if k != 2 {
            assert(z[4 * k] == b[4 * k] && z[4 * k + 1] == b[4 * k + 1] && z[4 * k + 2] == b[4
                * k + 2] && z[4 * k + 3] == b[4 * k + 3]);
        } else {
            assert(z[8] == 0 && z[9] == 0 && z[10] == 0 && z[11] == 0);
        }
    }
}

/// The checksum of a `head` table equals the plain checksum of the same bytes
/// with the checksum adjustment field (bytes 8 to 11) zeroed.
pub proof fn lemma_head_checksum_zeroes_adjustment(b: Seq<u8>)
    requires
        b.len() >= 12,
    ensures
        spec_checksum_for_head(b) == spec_checksum(spec_zero_adjustment(b)),
{
    lemma_word_sum_zeroed(b, b.len() as int / 4);
}

} // verus!

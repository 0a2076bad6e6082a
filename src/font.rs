//! One font of a file: its offset table and its sorted table records.
use crate::codec::slice_range;
use crate::error::Error;
use crate::offset_table::{OffsetTable, SfntVersion, parse_offset_table, spec_offset_table};
use crate::table::{HEAD_TAG, Table, spec_checksum_ok, spec_resolve};
use crate::table_record::{TableRecord, parse_table_records, spec_table_records};
use crate::tables::{FontTable, parse_table, spec_table_decoded};
use crate::types::{TableTag, Tag, spec_parse_table_tag, spec_table_tag_value};
use vstd::prelude::*;

verus! {

/// The records are in strictly ascending order of tag.
pub open spec fn spec_sorted(s: Seq<TableRecord>) -> bool {
    forall|i: int, j: int| 0 <= i < j < s.len() ==> s[i].table_tag.0 < s[j].table_tag.0
}

/// The first record, scanning from index `i` on, whose tag is `v`.
pub open spec fn spec_linear_find(s: Seq<TableRecord>, v: u32, i: int) -> Option<TableRecord>
    decreases s.len() - i,
{
    if i < 0 || i >= s.len() {
        None
    } else if s[i].table_tag.0 == v {
        Some(s[i])
    } else {
        spec_linear_find(s, v, i + 1)
    }
}

proof fn lemma_linear_find_absent(s: Seq<TableRecord>, v: u32, i: int)
    requires
        0 <= i,
        forall|j: int| i <= j < s.len() ==> s[j].table_tag.0 != v,
    ensures
        spec_linear_find(s, v, i) is None,
    decreases s.len() - i,
{
    if i < s.len() {
        lemma_linear_find_absent(s, v, i + 1);
    }
}

proof fn lemma_linear_find_at(s: Seq<TableRecord>, v: u32, i: int, m: int)
    requires
        0 <= i <= m < s.len(),
        s[m].table_tag.0 == v,
        forall|j: int| i <= j < m ==> s[j].table_tag.0 != v,
    ensures
        spec_linear_find(s, v, i) == Some(s[m]),
    decreases m - i,
{
    if i < m {
        lemma_linear_find_at(s, v, i + 1, m);
    }
}

/// Index of the first record at or after `i` whose tag is a known table.
pub open spec fn spec_next_known(s: Seq<TableRecord>, i: int) -> Option<int>
    decreases s.len() - i,
{
    if i < 0 || i >= s.len() {
        None
    } else if spec_parse_table_tag(s[i].table_tag.0) is Some {
        Some(i)
    } else {
        spec_next_known(s, i + 1)
    }
}

proof fn lemma_next_known_bounds(s: Seq<TableRecord>, i: int)
    requires
        0 <= i,
    ensures
        spec_next_known(s, i) matches Some(k) ==> i <= k < s.len() && spec_parse_table_tag(
            s[k].table_tag.0,
        ) is Some,
    decreases s.len() - i,
{
    if i < s.len() {
        lemma_next_known_bounds(s, i + 1);
    }
}

/// `r` is the font whose offset table starts at `offset` in `buf`: its
/// offset table, then as many table records as it announces, which must be
/// in strictly ascending order of tag.
pub open spec fn spec_font_parsed(r: Result<Font, Error>, buf: Seq<u8>, offset: int) -> bool {
    if offset > buf.len() {
        r == Err::<Font, Error>(Error::OutOfBounds)
    } else {
        let input = buf.subrange(offset, buf.len() as int);
        match spec_offset_table(input) {
            Err(e) => r == Err::<Font, Error>(e),
            Ok((t, n)) => match spec_table_records(input.subrange(n, input.len() as int), t.num_tables as int) {
                Err(e) => r == Err::<Font, Error>(e),
                Ok((records, _)) => if spec_sorted(records) {
                    r matches Ok(f) && f.buf@ == buf && f.offset_table == t && f.records@ == records
                } else {
                    r == Err::<Font, Error>(Error::MalformedInvariant)
                },
            },
        }
    }
}

/// One font of a font file: the file buffer, the font's offset table and its
/// table records, sorted by tag.
#[derive(Debug, Clone)]
pub struct Font<'a> {
    pub buf: &'a [u8],
    pub offset_table: OffsetTable,
    pub records: Vec<TableRecord>,
}

impl<'a> Font<'a> {
    /// Records sorted strictly by tag, as the directory requires.
    pub open spec fn wf(&self) -> bool {
        spec_sorted(self.records@)
    }

    /// A font over `buf` with the given directory; its records must be in
    /// strictly ascending order of tag, or `MalformedInvariant` results.
    pub fn new(buf: &'a [u8], offset_table: OffsetTable, records: Vec<TableRecord>) -> (r: Result<
        Font<'a>,
        Error,
    >)
        ensures
            spec_sorted(records@) ==> (r matches Ok(f) && f.buf@ == buf@ && f.offset_table
                == offset_table && f.records@ == records@),
            !spec_sorted(records@) ==> r == Err::<Font, Error>(Error::MalformedInvariant),
            r matches Ok(f) ==> f.wf(),
    {
        let mut k: usize = 1;
        while k < records.len()
            invariant
                1 <= k,
                forall|i: int, j: int|
                    0 <= i < j < k && j < records@.len() ==> records@[i].table_tag.0
                        < records@[j].table_tag.0,
            decreases records@.len() - k,
        {
            if records[k - 1].table_tag.0 >= records[k].table_tag.0 {
                return Err(Error::MalformedInvariant);
            }
            k = k + 1;
        }
        Ok(Font { buf, offset_table, records })
    }

    /// Decodes the directory of the font whose offset table starts at
    /// `offset` in `buf`.
    pub fn parse(buf: &'a [u8], offset: usize) -> (r: Result<Font<'a>, Error>)
        ensures
            spec_font_parsed(r, buf@, offset as int),
            r matches Ok(f) ==> f.wf(),
    {
        if offset > buf.len() {
            return Err(Error::OutOfBounds);
        }
        let input = slice_range(buf, offset, buf.len());
        let (rest, offset_table) = parse_offset_table(input)?;
        let (_, records) = parse_table_records(rest, offset_table.num_tables)?;
        Font::new(buf, offset_table, records)
    }

    /// The font's offset table.
    pub fn offset_table(&self) -> (r: OffsetTable)
        ensures
            r == self.offset_table,
    {
        self.offset_table
    }

    /// Outline flavour of the font.
    pub fn sfnt_version(&self) -> (r: SfntVersion)
        ensures
            r == self.offset_table.sfnt_version,
    {
        self.offset_table.sfnt_version
    }

    /// Number of tables of the font.
    pub fn num_tables(&self) -> (r: u16)
        ensures
            r == self.offset_table.num_tables,
    {
        self.offset_table.num_tables
    }

    /// The table records, in ascending order of tag.
    pub fn records(&self) -> (r: &[TableRecord])
        ensures
            r@ == self.records@,
    {
        self.records.as_slice()
    }

    /// The record of the table `tag`, found by binary search; `None` when the
    /// font has no such table. The answer is the one a linear scan gives.
    pub fn table(&self, tag: Tag) -> (r: Option<TableRecord>)
        requires
            self.wf(),
        ensures
            r == spec_linear_find(self.records@, tag.0, 0),
    {
        let s = &self.records;
        let mut lo: usize = 0;
        let mut hi: usize = s.len();
        while lo < hi
            invariant
                0 <= lo <= hi <= s@.len(),
                s@ == self.records@,
                spec_sorted(s@),
                forall|j: int| 0 <= j < lo ==> s@[j].table_tag.0 < tag.0,
                forall|j: int| hi <= j < s@.len() ==> s@[j].table_tag.0 > tag.0,
            decreases hi - lo,
        {
            let mid = lo + (hi - lo) / 2;
            let v = s[mid].table_tag.0;
            if v == tag.0 {
                proof {
                    assert forall|j: int| 0 <= j < mid implies s@[j].table_tag.0 != tag.0 by {
                        assert(s@[j].table_tag.0 < s@[mid as int].table_tag.0);
                    }
                    lemma_linear_find_at(s@, tag.0, 0, mid as int);
                }
                return Some(s[mid]);
            } else if v < tag.0 {
                lo = mid + 1;
            } else {
                hi = mid;
            }
        }
        proof {
            lemma_linear_find_absent(s@, tag.0, 0);
        }
        None
    }

    /// Decodes the table `tag` of the font, if the font has it: its bytes
    /// must lie in the buffer, and then its decoder decides.
    pub fn decode(&self, tag: TableTag) -> (r: Option<Result<FontTable<'a>, Error>>)
        requires
            self.wf(),
        ensures
            match spec_linear_find(self.records@, spec_table_tag_value(tag), 0) {
                None => r is None,
                Some(record) => match spec_resolve(self.buf@, record.offset as int, record.length as int) {
                    Err(e) => r == Some(Err::<FontTable, Error>(e)),
                    Ok(data) => r matches Some(x) && spec_table_decoded(tag, data, x),
                },
            },
    {
        match self.table(tag.tag()) {
            None => None,
            Some(record) => match Table::resolve(self.buf, &record) {
                Err(e) => Some(Err(e)),
                Ok(data) => Some(parse_table(tag, data)),
            },
        }
    }

    /// Each record's tag with whether that table's checksum holds, in
    /// directory order.
    pub fn checksums(&self) -> (r: Vec<(Tag, bool)>)
        ensures
            r@.len() == self.records@.len(),
            forall|i: int|
                0 <= i < r@.len() ==> r@[i] == (
                    self.records@[i].table_tag,
                    spec_checksum_ok(
                        self.buf@,
                        self.records@[i].table_tag.0 == HEAD_TAG,
                        self.records@[i].offset as int,
                        self.records@[i].length as int,
                        self.records@[i].checksum,
                    ),
                ),
    {
        let mut out: Vec<(Tag, bool)> = Vec::new();
        let mut i: usize = 0;
        while i < self.records.len()
            invariant
                i <= self.records@.len(),
                out@.len() == i,
                forall|k: int|
                    0 <= k < i ==> out@[k] == (
                        self.records@[k].table_tag,
                        spec_checksum_ok(
                            self.buf@,
                            self.records@[k].table_tag.0 == HEAD_TAG,
                            self.records@[k].offset as int,
                            self.records@[k].length as int,
                            self.records@[k].checksum,
                        ),
                    ),
            decreases self.records@.len() - i,
        {
            let record = &self.records[i];
            out.push((record.table_tag, Table::validate_checksum(self.buf, record)));
            i = i + 1;
        }
        out
    }

    /// Walks the known tables of the font in directory order; records with
    /// an unknown tag are skipped.
    pub fn iter(&self) -> (r: FontIterator<'a>)
        ensures
            r.buf@ == self.buf@,
            r.records@ == self.records@,
            r.pos == 0,
    {
        FontIterator { buf: self.buf, records: self.records.clone(), pos: 0 }
    }
}

/// A walk over the known tables of a font.
#[derive(Debug, Clone)]
pub struct FontIterator<'a> {
    pub buf: &'a [u8],
    pub records: Vec<TableRecord>,
    pub pos: usize,
}

impl<'a> FontIterator<'a> {
    /// The next record with a known tag, as a table; `None` once no such
    /// record is left.
    pub fn next(&mut self) -> (r: Option<Table<'a>>)
        requires
            old(self).pos <= old(self).records@.len(),
        ensures
            final(self).buf@ == old(self).buf@,
            final(self).records@ == old(self).records@,
            final(self).pos <= final(self).records@.len(),
            match spec_next_known(old(self).records@, old(self).pos as int) {
                None => r is None && final(self).pos == old(self).records@.len(),
                Some(k) => final(self).pos == k + 1 && (r matches Some(t) && t.buf@
                    == old(self).buf@ && Some(t.tag) == spec_parse_table_tag(
                    old(self).records@[k].table_tag.0,
                ) && t.check_sum == old(self).records@[k].checksum && t.offset
                    == old(self).records@[k].offset && t.length
                    == old(self).records@[k].length),
            },
    {
        proof {
            lemma_next_known_bounds(self.records@, self.pos as int);
        }
        while self.pos < self.records.len()
            invariant
                self.pos <= self.records@.len(),
                self.buf@ == old(self).buf@,
                self.records@ == old(self).records@,
                old(self).pos <= self.pos,
                spec_next_known(self.records@, self.pos as int) == spec_next_known(
                    old(self).records@,
                    old(self).pos as int,
                ),
            decreases self.records@.len() - self.pos,
        {
            let record = self.records[self.pos];
            self.pos = self.pos + 1;
            if let Some(tag) = TableTag::parse(record.table_tag) {
                return Some(
                    Table::new(
                        self.buf,
                        tag,
                        record.checksum,
                        record.offset as usize,
                        record.length as usize,
                    ),
                );
            }
        }
        None
    }
}

} // verus!

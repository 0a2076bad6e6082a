//! The character to glyph index mapping table (`cmap`): its encoding records
//! and subtable formats 0, 2, 4, 6, 8, 10, 12, 13 and 14.
//!
//! Subtables borrow their glyph arrays from the table's bytes and resolve a
//! character code on demand. Format 2 is decoded as far as its sub-header
//! keys, and format 14 as far as its variation selector records; neither
//! resolves character codes.
use crate::codec::{i16_at, slice_range, spec_i16, spec_u16, spec_u24, spec_u32, u16_at, u24_at, u32_at};
use crate::error::Error;
use crate::tables::name::{Platform, spec_platform};
use std::collections::HashMap;
use vstd::prelude::*;

verus! {

/// A glyph index.
pub type GlyphId = u16;

/// Size in bytes of the glyph array of a format 0 subtable.
pub const FORMAT0_ARRAY_SIZE: usize = 256;

/// Size in bytes of the `is32` bitmap of a format 8 subtable.
pub const IS32_SIZE: usize = 8192;

/// Format 0: one byte-sized glyph index for each of the 256 byte codes.
#[derive(Debug, Clone, PartialEq, Eq)]
pub struct CharacterGlyphIndexMappingSubtable0<'a> {
    pub language: u16,
    pub glyph_id_array: &'a [u8],
}

impl<'a> CharacterGlyphIndexMappingSubtable0<'a> {
    /// The glyph array holds 256 entries.
    pub open spec fn wf(&self) -> bool {
        self.glyph_id_array@.len() == 256
    }

    /// Language of the subtable.
    pub fn language(&self) -> (r: u16)
        ensures
            r == self.language,
    {
        self.language
    }

    /// The 256 glyph indexes.
    pub fn glyph_id_array(&self) -> (r: &'a [u8])
        ensures
            r@ == self.glyph_id_array@,
    {
        self.glyph_id_array
    }

    /// The glyph of the byte code `character_code`.
    pub fn get_glyph_id(&self, character_code: u8) -> (r: GlyphId)
        requires
            self.wf(),
        ensures
            r == self.glyph_id_array@[character_code as int] as u16,
    {
        self.glyph_id_array[character_code as usize] as u16
    }
}

/// Format 2: high-byte mapping through sub-header keys, for mixed 8 and 16
/// bit encodings. Only the keys are decoded.
#[derive(Debug, Clone, PartialEq, Eq)]
pub struct CharacterGlyphIndexMappingSubtable2 {
    pub language: u16,
    pub sub_header_keys: Vec<u16>,
    pub sub_headers: Vec<CharacterGlyphIndexMappingSubtable2SubHeaderRecord>,
}

/// A sub-header of a format 2 subtable: the range of low bytes it maps and
/// how.
#[derive(Debug, Clone, Copy, PartialEq, Eq, Structural)]
pub struct CharacterGlyphIndexMappingSubtable2SubHeaderRecord {
    pub first_code: u16,
    pub entry_count: u16,
    pub id_delta: i16,
    pub id_range_offset: u16,
}

impl CharacterGlyphIndexMappingSubtable2SubHeaderRecord {
    /// First valid low byte.
    pub fn first_code(&self) -> (r: u16)
        ensures
            r == self.first_code,
    {
        self.first_code
    }

    /// Number of valid low bytes.
    pub fn entry_count(&self) -> (r: u16)
        ensures
            r == self.entry_count,
    {
        self.entry_count
    }

    /// Delta added to nonzero glyph array entries.
    pub fn id_delta(&self) -> (r: i16)
        ensures
            r == self.id_delta,
    {
        self.id_delta
    }

    /// Offset of the first glyph array entry of the range.
    pub fn id_range_offset(&self) -> (r: u16)
        ensures
            r == self.id_range_offset,
    {
        self.id_range_offset
    }
}

/// The largest of the first `n` values of `s`, or zero.
pub open spec fn spec_max_key(s: Seq<u16>, n: int) -> int
    decreases n,
{
    if n <= 0 {
        0
    } else if spec_max_key(s, n - 1) >= s[n - 1] {
        spec_max_key(s, n - 1)
    } else {
        s[n - 1] as int
    }
}

/// Number of sub-headers of the format 2 subtable `b`: one past the largest
/// index that its keys (eight times an index) give.
pub open spec fn spec_sub_header_count(b: Seq<u8>) -> int {
    spec_max_key(spec_u16s(b, 6, 256), 256) / 8 + 1
}

/// The `n` sub-headers that start at `b[i]`.
pub open spec fn spec_sub_headers(b: Seq<u8>, i: int, n: int) -> Seq<CharacterGlyphIndexMappingSubtable2SubHeaderRecord> {
    Seq::new(
        n as nat,
        |k: int|
            CharacterGlyphIndexMappingSubtable2SubHeaderRecord {
                first_code: spec_u16(b, i + 8 * k),
                entry_count: spec_u16(b, i + 8 * k + 2),
                id_delta: spec_i16(b, i + 8 * k + 4),
                id_range_offset: spec_u16(b, i + 8 * k + 6),
            },
    )
}

impl CharacterGlyphIndexMappingSubtable2 {
    /// Language of the subtable.
    pub fn language(&self) -> (r: u16)
        ensures
            r == self.language,
    {
        self.language
    }

    /// For each high byte, eight times the index of its sub-header.
    pub fn sub_header_keys(&self) -> (r: &[u16])
        ensures
            r@ == self.sub_header_keys@,
    {
        self.sub_header_keys.as_slice()
    }

    /// The sub-headers.
    pub fn sub_headers(&self) -> (r: &[CharacterGlyphIndexMappingSubtable2SubHeaderRecord])
        ensures
            r@ == self.sub_headers@,
    {
        self.sub_headers.as_slice()
    }
}

/// Format 4: segments of 16-bit codes, each mapped by a delta or through the
/// glyph array.
#[derive(Debug, Clone, PartialEq, Eq)]
pub struct CharacterGlyphIndexMappingSubtable4<'a> {
    pub language: u16,
    pub seg_count: u16,
    pub search_range: u16,
    pub entry_selector: u16,
    pub range_shift: u16,
    pub end_code: Vec<u16>,
    pub start_code: Vec<u16>,
    pub id_delta: Vec<i16>,
    pub id_range_offset: Vec<u16>,
    pub glyph_id_array: &'a [u8],
}

/// Index in the glyph array that segment `i` of `seg_count` segments gives
/// to the code `c`.
pub open spec fn spec_glyph_index(id_range_offset: u16, start_code: u16, seg_count: int, i: int, c: int) -> int {
    id_range_offset / 2 + (c - start_code) - (seg_count - i)
}

/// One past the largest glyph array index that segment `i` can reach; zero
/// for a segment mapped by delta or with no code.
pub open spec fn spec_seg_reach(start: Seq<u16>, end: Seq<u16>, ro: Seq<u16>, seg_count: int, i: int) -> int {
    if ro[i] != 0 && start[i] <= end[i] {
        spec_glyph_index(ro[i], start[i], seg_count, i, end[i] as int) + 1
    } else {
        0
    }
}

/// The number of glyph array entries that the first `n` segments can reach.
pub open spec fn spec_max_reach(start: Seq<u16>, end: Seq<u16>, ro: Seq<u16>, seg_count: int, n: int) -> int
    decreases n,
{
    if n <= 0 {
        0
    } else {
        let a = spec_max_reach(start, end, ro, seg_count, n - 1);
        let b = spec_seg_reach(start, end, ro, seg_count, n - 1);
        if a >= b {
            a
        } else {
            b
        }
    }
}

/// Segment `i` never reaches before the start of the glyph array.
pub open spec fn spec_seg_ok(start: Seq<u16>, end: Seq<u16>, ro: Seq<u16>, seg_count: int, i: int) -> bool {
    ro[i] == 0 || start[i] > end[i] || spec_glyph_index(ro[i], start[i], seg_count, i, start[i] as int) >= 0
}

proof fn lemma_max_reach(start: Seq<u16>, end: Seq<u16>, ro: Seq<u16>, seg_count: int, n: int, j: int)
    requires
        0 <= j < n,
    ensures
        spec_seg_reach(start, end, ro, seg_count, j) <= spec_max_reach(start, end, ro, seg_count, n),
        spec_max_reach(start, end, ro, seg_count, n) >= 0,
    decreases n,
{
    if j < n - 1 {
        lemma_max_reach(start, end, ro, seg_count, n - 1, j);
    }
    lemma_max_reach_nonneg(start, end, ro, seg_count, n);
}

proof fn lemma_max_reach_nonneg(start: Seq<u16>, end: Seq<u16>, ro: Seq<u16>, seg_count: int, n: int)
    ensures
        spec_max_reach(start, end, ro, seg_count, n) >= 0,
    decreases n,
{
    if n > 0 {
        lemma_max_reach_nonneg(start, end, ro, seg_count, n - 1);
    }
}

/// The first segment, from index `i` on, whose end code is at least `c`.
pub open spec fn spec_first_seg(end: Seq<u16>, c: u16, i: int) -> Option<int>
    decreases end.len() - i,
{
    if i < 0 || i >= end.len() {
        None
    } else if end[i] >= c {
        Some(i)
    } else {
        spec_first_seg(end, c, i + 1)
    }
}

proof fn lemma_first_seg(end: Seq<u16>, c: u16, i: int)
    requires
        0 <= i <= end.len(),
        end.len() > 0,
        end.last() == 0xFFFF,
    ensures
        i < end.len() ==> (spec_first_seg(end, c, i) matches Some(j) && i <= j < end.len() && end[j] >= c),
    decreases end.len() - i,
{
    if i < end.len() && end[i] < c {
        lemma_first_seg(end, c, i + 1);
    }
}

impl<'a> CharacterGlyphIndexMappingSubtable4<'a> {
    /// The arrays hold `seg_count` segments, the last ends and starts at
    /// `0xFFFF`, and the glyph array holds every entry the segments reach.
    pub open spec fn wf(&self) -> bool {
        let n = self.seg_count as int;
        &&& n > 0
        &&& self.end_code@.len() == n
        &&& self.start_code@.len() == n
        &&& self.id_delta@.len() == n
        &&& self.id_range_offset@.len() == n
        &&& self.end_code@[n - 1] == 0xFFFF
        &&& self.start_code@[n - 1] == 0xFFFF
        &&& forall|i: int|
            0 <= i < n ==> spec_seg_ok(self.start_code@, self.end_code@, self.id_range_offset@, n, i)
        &&& self.glyph_id_array@.len() == 2 * spec_max_reach(
            self.start_code@,
            self.end_code@,
            self.id_range_offset@,
            n,
            n,
        )
    }

    /// The glyph of `c`: the first segment whose end is at least `c` maps it
    /// when it starts at or before `c`, by adding its delta modulo 65536, or
    /// through the glyph array, where a zero entry means no glyph and another
    /// entry gets the delta added.
    pub open spec fn spec_glyph(&self, c: u16) -> Option<GlyphId> {
        match spec_first_seg(self.end_code@, c, 0) {
            None => None,
            Some(i) => if self.start_code@[i] > c {
                None
            } else if self.id_range_offset@[i] == 0 {
                Some((self.id_delta@[i] as u16).wrapping_add(c))
            } else {
                let k = spec_glyph_index(self.id_range_offset@[i], self.start_code@[i], self.seg_count as int, i, c as int);
                let g = spec_u16(self.glyph_id_array@, 2 * k);
                if g == 0 {
                    None
                } else {
                    Some(g.wrapping_add(self.id_delta@[i] as u16))
                }
            },
        }
    }

    /// Language of the subtable.
    pub fn language(&self) -> (r: u16)
        ensures
            r == self.language,
    {
        self.language
    }

    /// Number of segments.
    pub fn seg_count(&self) -> (r: u16)
        ensures
            r == self.seg_count,
    {
        self.seg_count
    }

    /// Largest power of two not above `seg_count`, times 2.
    pub fn search_range(&self) -> (r: u16)
        ensures
            r == self.search_range,
    {
        self.search_range
    }

    /// Base-2 logarithm of `search_range / 2`.
    pub fn entry_selector(&self) -> (r: u16)
        ensures
            r == self.entry_selector,
    {
        self.entry_selector
    }

    /// Twice `seg_count`, minus `search_range`.
    pub fn range_shift(&self) -> (r: u16)
        ensures
            r == self.range_shift,
    {
        self.range_shift
    }

    /// Last code of each segment.
    pub fn end_code(&self) -> (r: &[u16])
        ensures
            r@ == self.end_code@,
    {
        self.end_code.as_slice()
    }

    /// First code of each segment.
    pub fn start_code(&self) -> (r: &[u16])
        ensures
            r@ == self.start_code@,
    {
        self.start_code.as_slice()
    }

    /// Delta of each segment.
    pub fn id_delta(&self) -> (r: &[i16])
        ensures
            r@ == self.id_delta@,
    {
        self.id_delta.as_slice()
    }

    /// Offset of each segment into the glyph array, or zero.
    pub fn id_range_offset(&self) -> (r: &[u16])
        ensures
            r@ == self.id_range_offset@,
    {
        self.id_range_offset.as_slice()
    }

    /// The glyph array, as big-endian 16-bit entries.
    pub fn glyph_id_array(&self) -> (r: &'a [u8])
        ensures
            r@ == self.glyph_id_array@,
    {
        self.glyph_id_array
    }

    /// The glyph of `character_code`, if it has one.
    pub fn get_glyph_id(&self, character_code: u16) -> (r: Option<GlyphId>)
        requires
            self.wf(),
        ensures
            r == self.spec_glyph(character_code),
    {
        let c = character_code;
        let n = self.seg_count as usize;
        proof {
            lemma_first_seg(self.end_code@, c, 0);
        }
        let mut i: usize = 0;
        while self.end_code[i] < c
            invariant
                self.wf(),
                n == self.seg_count,
                0 <= i < n,
                spec_first_seg(self.end_code@, c, i as int) == spec_first_seg(self.end_code@, c, 0),
                spec_first_seg(self.end_code@, c, i as int) matches Some(j) && i <= j < n,
            decreases n - i,
        {
            proof {
                lemma_first_seg(self.end_code@, c, i as int + 1);
            }
            i = i + 1;
        }
        let start = self.start_code[i];
        if start > c {
            return None;
        }
        let ro = self.id_range_offset[i];
        let delta = self.id_delta[i] as u16;
        if ro == 0 {
            return Some(delta.wrapping_add(c));
        }
        proof {
            lemma_max_reach(self.start_code@, self.end_code@, self.id_range_offset@, n as int, n as int, i as int);
            assert(spec_seg_ok(self.start_code@, self.end_code@, self.id_range_offset@, n as int, i as int));
        }
        let k = (ro / 2) as usize + (c - start) as usize - (n - i);
        let g = u16_at(self.glyph_id_array, 2 * k);
        if g == 0 {
            None
        } else {
            Some(g.wrapping_add(delta))
        }
    }
}

/// Format 6: one contiguous range of 16-bit codes, `entry_count` codes
/// from `first_code` on.
#[derive(Debug, Clone, PartialEq, Eq)]
pub struct CharacterGlyphIndexMappingSubtable6<'a> {
    pub language: u16,
    pub first_code: u16,
    pub entry_count: u16,
    pub glyph_id_array: &'a [u8],
}

impl<'a> CharacterGlyphIndexMappingSubtable6<'a> {
    /// The glyph array holds `entry_count` entries.
    pub open spec fn wf(&self) -> bool {
        self.glyph_id_array@.len() == 2 * self.entry_count
    }

    /// The glyph of `c`: the entry of `c` when it lies in the range.
    pub open spec fn spec_glyph(&self, c: u16) -> Option<GlyphId> {
        if self.first_code <= c < self.first_code + self.entry_count {
            Some(spec_u16(self.glyph_id_array@, 2 * (c - self.first_code)))
        } else {
            None
        }
    }

    /// Language of the subtable.
    pub fn language(&self) -> (r: u16)
        ensures
            r == self.language,
    {
        self.language
    }

    /// First code of the range.
    pub fn first_code(&self) -> (r: u16)
        ensures
            r == self.first_code,
    {
        self.first_code
    }

    /// Number of codes in the range.
    pub fn entry_count(&self) -> (r: u16)
        ensures
            r == self.entry_count,
    {
        self.entry_count
    }

    /// The glyph array, as big-endian 16-bit entries.
    pub fn glyph_id_array(&self) -> (r: &'a [u8])
        ensures
            r@ == self.glyph_id_array@,
    {
        self.glyph_id_array
    }

    /// The glyph of `character_code`; `None` outside the range.
    pub fn get_glyph_id(&self, character_code: u16) -> (r: Option<GlyphId>)
        requires
            self.wf(),
        ensures
            r == self.spec_glyph(character_code),
    {
        if character_code < self.first_code || (character_code - self.first_code) >= self.entry_count {
            return None;
        }
        Some(u16_at(self.glyph_id_array, 2 * (character_code - self.first_code) as usize))
    }
}

/// A range of codes mapped to consecutive glyphs.
#[derive(Debug, Clone, Copy, PartialEq, Eq, Structural)]
pub struct SequentialMapGroup {
    pub start_char_code: u32,
    pub end_char_code: u32,
    pub start_glyph_id: u32,
}

impl SequentialMapGroup {
    /// First code of the group.
    pub fn start_char_code(&self) -> (r: u32)
        ensures
            r == self.start_char_code,
    {
        self.start_char_code
    }

    /// Last code of the group.
    pub fn end_char_code(&self) -> (r: u32)
        ensures
            r == self.end_char_code,
    {
        self.end_char_code
    }

    /// Glyph of the first code; the following codes get the following glyphs.
    pub fn start_glyph_id(&self) -> (r: u32)
        ensures
            r == self.start_glyph_id,
    {
        self.start_glyph_id
    }
}

/// A range of codes all mapped to one glyph.
#[derive(Debug, Clone, Copy, PartialEq, Eq, Structural)]
pub struct ConstantMapGroup {
    pub start_char_code: u32,
    pub end_char_code: u32,
    pub glyph_id: u32,
}

impl ConstantMapGroup {
    /// First code of the group.
    pub fn start_char_code(&self) -> (r: u32)
        ensures
            r == self.start_char_code,
    {
        self.start_char_code
    }

    /// Last code of the group.
    pub fn end_char_code(&self) -> (r: u32)
        ensures
            r == self.end_char_code,
    {
        self.end_char_code
    }

    /// The glyph of every code of the group.
    pub fn glyph_id(&self) -> (r: u32)
        ensures
            r == self.glyph_id,
    {
        self.glyph_id
    }
}

/// The groups are each a non-empty range, in ascending order, and do not
/// overlap.
pub open spec fn spec_seq_sorted(g: Seq<SequentialMapGroup>) -> bool {
    forall|i: int|
        0 <= i < g.len() ==> g[i].start_char_code <= g[i].end_char_code && (i + 1 < g.len() ==> g[i].end_char_code
            < g[i + 1].start_char_code)
}

/// The groups are each a non-empty range, in ascending order, and do not
/// overlap.
pub open spec fn spec_const_sorted(g: Seq<ConstantMapGroup>) -> bool {
    forall|i: int|
        0 <= i < g.len() ==> g[i].start_char_code <= g[i].end_char_code && (i + 1 < g.len() ==> g[i].end_char_code
            < g[i + 1].start_char_code)
}

/// The first group, from index `i` on, that ends at or after `c`.
pub open spec fn spec_seq_find(g: Seq<SequentialMapGroup>, c: u32, i: int) -> Option<int>
    decreases g.len() - i,
{
    if i < 0 || i >= g.len() {
        None
    } else if g[i].end_char_code >= c {
        Some(i)
    } else {
        spec_seq_find(g, c, i + 1)
    }
}

/// The first group, from index `i` on, that ends at or after `c`.
pub open spec fn spec_const_find(g: Seq<ConstantMapGroup>, c: u32, i: int) -> Option<int>
    decreases g.len() - i,
{
    if i < 0 || i >= g.len() {
        None
    } else if g[i].end_char_code >= c {
        Some(i)
    } else {
        spec_const_find(g, c, i + 1)
    }
}

/// The glyph of `c` in sequential groups: the first group ending at or after
/// `c` maps it when it starts at or before `c`, counting glyphs on from its
/// start glyph (modulo 2^32).
pub open spec fn spec_seq_glyph(g: Seq<SequentialMapGroup>, c: u32) -> Option<u32> {
    match spec_seq_find(g, c, 0) {
        Some(i) => if g[i].start_char_code <= c {
            Some(g[i].start_glyph_id.wrapping_add((c - g[i].start_char_code) as u32))
        } else {
            None
        },
        None => None,
    }
}

/// The glyph of `c` in constant groups: the first group ending at or after
/// `c` maps it, when it starts at or before `c`, to the group's glyph.
pub open spec fn spec_const_glyph(g: Seq<ConstantMapGroup>, c: u32) -> Option<u32> {
    match spec_const_find(g, c, 0) {
        Some(i) => if g[i].start_char_code <= c {
            Some(g[i].glyph_id)
        } else {
            None
        },
        None => None,
    }
}

fn seq_glyph(g: &Vec<SequentialMapGroup>, c: u32) -> (r: Option<u32>)
    ensures
        r == spec_seq_glyph(g@, c),
{
    let mut i: usize = 0;
    while i < g.len()
        invariant
            i <= g@.len(),
            spec_seq_find(g@, c, i as int) == spec_seq_find(g@, c, 0),
        decreases g@.len() - i,
    {
        if g[i].end_char_code >= c {
            if g[i].start_char_code <= c {
                return Some(g[i].start_glyph_id.wrapping_add(c - g[i].start_char_code));
            }
            return None;
        }
        i = i + 1;
    }
    None
}

fn const_glyph(g: &Vec<ConstantMapGroup>, c: u32) -> (r: Option<u32>)
    ensures
        r == spec_const_glyph(g@, c),
{
    let mut i: usize = 0;
    while i < g.len()
        invariant
            i <= g@.len(),
            spec_const_find(g@, c, i as int) == spec_const_find(g@, c, 0),
        decreases g@.len() - i,
    {
        if g[i].end_char_code >= c {
            if g[i].start_char_code <= c {
                return Some(g[i].glyph_id);
            }
            return None;
        }
        i = i + 1;
    }
    None
}

/// Format 8: mixed 16 and 32 bit codes, with a bitmap of the 16-bit values
/// that start a 32-bit code, and sequential groups.
#[derive(Debug, Clone, PartialEq, Eq)]
pub struct CharacterGlyphIndexMappingSubtable8<'a> {
    pub language: u32,
    pub is32: &'a [u8],
    pub groups: Vec<SequentialMapGroup>,
}

impl<'a> CharacterGlyphIndexMappingSubtable8<'a> {
    /// Language of the subtable.
    pub fn language(&self) -> (r: u32)
        ensures
            r == self.language,
    {
        self.language
    }

    /// Byte `index` of the bitmap of 16-bit values that start a 32-bit code.
    pub fn is32(&self, index: usize) -> (r: u8)
        requires
            index < self.is32@.len(),
        ensures
            r == self.is32@[index as int],
    {
        self.is32[index]
    }

    /// The sequential groups.
    pub fn groups(&self) -> (r: &Vec<SequentialMapGroup>)
        ensures
            r@ == self.groups@,
    {
        &self.groups
    }

    /// The glyph of the 32-bit code `character_code`, if a group maps it.
    pub fn get_glyph_id(&self, character_code: u32) -> (r: Option<u32>)
        ensures
            r == spec_seq_glyph(self.groups@, character_code),
    {
        seq_glyph(&self.groups, character_code)
    }
}

/// Format 10: one contiguous range of 32-bit codes.
#[derive(Debug, Clone, PartialEq, Eq)]
pub struct CharacterGlyphIndexMappingSubtable10<'a> {
    pub language: u32,
    pub start_char_code: u32,
    pub num_chars: u32,
    pub glyphs: &'a [u8],
}

impl<'a> CharacterGlyphIndexMappingSubtable10<'a> {
    /// The glyph array holds `num_chars` entries.
    pub open spec fn wf(&self) -> bool {
        self.glyphs@.len() == 2 * self.num_chars
    }

    /// The glyph of `c`: the entry of `c` when it lies in the range.
    pub open spec fn spec_glyph(&self, c: u32) -> Option<GlyphId> {
        if self.start_char_code <= c < self.start_char_code + self.num_chars {
            Some(spec_u16(self.glyphs@, 2 * (c - self.start_char_code)))
        } else {
            None
        }
    }

    /// Language of the subtable.
    pub fn language(&self) -> (r: u32)
        ensures
            r == self.language,
    {
        self.language
    }

    /// First code of the range.
    pub fn start_char_code(&self) -> (r: u32)
        ensures
            r == self.start_char_code,
    {
        self.start_char_code
    }

    /// The glyph array, as big-endian 16-bit entries.
    pub fn glyphs(&self) -> (r: &'a [u8])
        ensures
            r@ == self.glyphs@,
    {
        self.glyphs
    }

    /// The glyph of `character_code`; `None` outside the range.
    pub fn get_glyph_id(&self, character_code: u32) -> (r: Option<GlyphId>)
        requires
            self.wf(),
        ensures
            r == self.spec_glyph(character_code),
    {
        let _len = self.glyphs.len();
        if character_code < self.start_char_code || character_code - self.start_char_code >= self.num_chars {
            return None;
        }
        Some(u16_at(self.glyphs, 2 * (character_code - self.start_char_code) as usize))
    }
}

/// Format 12: sequential groups over 32-bit codes.
#[derive(Debug, Clone, PartialEq, Eq)]
pub struct CharacterGlyphIndexMappingSubtable12 {
    pub language: u32,
    pub groups: Vec<SequentialMapGroup>,
}

impl CharacterGlyphIndexMappingSubtable12 {
    /// Language of the subtable.
    pub fn language(&self) -> (r: u32)
        ensures
            r == self.language,
    {
        self.language
    }

    /// The sequential groups, ascending and disjoint.
    pub fn groups(&self) -> (r: &Vec<SequentialMapGroup>)
        ensures
            r@ == self.groups@,
    {
        &self.groups
    }

    /// The glyph of `character_code`, if a group maps it.
    pub fn get_glyph_id(&self, character_code: u32) -> (r: Option<u32>)
        ensures
            r == spec_seq_glyph(self.groups@, character_code),
    {
        seq_glyph(&self.groups, character_code)
    }
}

/// Format 13: constant groups over 32-bit codes, every code of a group
/// mapped to one glyph.
#[derive(Debug, Clone, PartialEq, Eq)]
pub struct CharacterGlyphIndexMappingSubtable13 {
    pub language: u32,
    pub groups: Vec<ConstantMapGroup>,
}

impl CharacterGlyphIndexMappingSubtable13 {
    /// Language of the subtable.
    pub fn language(&self) -> (r: u32)
        ensures
            r == self.language,
    {
        self.language
    }

    /// The constant groups, ascending and disjoint.
    pub fn groups(&self) -> (r: &Vec<ConstantMapGroup>)
        ensures
            r@ == self.groups@,
    {
        &self.groups
    }

    /// The glyph of `character_code`, if a group holds it.
    pub fn get_glyph_id(&self, character_code: u32) -> (r: Option<u32>)
        ensures
            r == spec_const_glyph(self.groups@, character_code),
    {
        const_glyph(&self.groups, character_code)
    }
}

/// A variation selector and where its default and non-default tables lie
/// (offsets from the start of the subtable, zero when absent).
#[derive(Debug, Clone, Copy, PartialEq, Eq, Structural)]
pub struct VariationSelectorRecord {
    pub var_selector: u32,
    pub default_uvs_offset: u32,
    pub non_default_uvs_offset: u32,
}

impl VariationSelectorRecord {
    /// The variation selector.
    pub fn var_selector(&self) -> (r: u32)
        ensures
            r == self.var_selector,
    {
        self.var_selector
    }

    /// Offset of the default variation table, or zero.
    pub fn default_uvs_offset(&self) -> (r: u32)
        ensures
            r == self.default_uvs_offset,
    {
        self.default_uvs_offset
    }

    /// Offset of the non-default variation table, or zero.
    pub fn non_default_uvs_offset(&self) -> (r: u32)
        ensures
            r == self.non_default_uvs_offset,
    {
        self.non_default_uvs_offset
    }
}

/// Format 14: Unicode variation sequences. Only the selector records are
/// decoded here; `parse_default_uvs_table` and `parse_non_default_uvs_table`
/// decode the tables they point to.
#[derive(Debug, Clone, PartialEq, Eq)]
pub struct CharacterGlyphIndexMappingSubtable14 {
    pub var_selector: Vec<VariationSelectorRecord>,
}

impl CharacterGlyphIndexMappingSubtable14 {
    /// The variation selector records.
    pub fn var_selector(&self) -> (r: &Vec<VariationSelectorRecord>)
        ensures
            r@ == self.var_selector@,
    {
        &self.var_selector
    }
}

/// A range of base characters whose default glyph serves the sequence.
#[derive(Debug, Clone, Copy, PartialEq, Eq, Structural)]
pub struct UnicodeRangeRecord {
    pub start_unicode_value: u32,
    pub additional_count: u8,
}

impl UnicodeRangeRecord {
    /// First character of the range.
    pub fn start_unicode_value(&self) -> (r: u32)
        ensures
            r == self.start_unicode_value,
    {
        self.start_unicode_value
    }

    /// Number of characters in the range after the first.
    pub fn additional_count(&self) -> (r: u8)
        ensures
            r == self.additional_count,
    {
        self.additional_count
    }
}

/// The ranges of base characters that keep their default glyph.
#[derive(Debug, Clone, PartialEq, Eq)]
pub struct DefaultUVSTable {
    pub ranges: Vec<UnicodeRangeRecord>,
}

impl DefaultUVSTable {
    /// The ranges.
    pub fn ranges(&self) -> (r: &Vec<UnicodeRangeRecord>)
        ensures
            r@ == self.ranges@,
    {
        &self.ranges
    }
}

/// A base character and the glyph of its variation sequence.
#[derive(Debug, Clone, Copy, PartialEq, Eq, Structural)]
pub struct UVSMappingRecord {
    pub unicode_value: u32,
    pub glyph_id: u16,
}

impl UVSMappingRecord {
    /// The base character.
    pub fn unicode_value(&self) -> (r: u32)
        ensures
            r == self.unicode_value,
    {
        self.unicode_value
    }

    /// The glyph of the sequence.
    pub fn glyph_id(&self) -> (r: u16)
        ensures
            r == self.glyph_id,
    {
        self.glyph_id
    }
}

/// The variation sequences that have a glyph of their own.
#[derive(Debug, Clone, PartialEq, Eq)]
pub struct NonDefaultUVSTable {
    pub uvs_mappings: Vec<UVSMappingRecord>,
}

impl NonDefaultUVSTable {
    /// The mappings.
    pub fn uvs_mappings(&self) -> (r: &Vec<UVSMappingRecord>)
        ensures
            r@ == self.uvs_mappings@,
    {
        &self.uvs_mappings
    }
}

/// The `n` 16-bit values that start at `b[i]`.
pub open spec fn spec_u16s(b: Seq<u8>, i: int, n: int) -> Seq<u16> {
    Seq::new(n as nat, |k: int| spec_u16(b, i + 2 * k))
}

/// The `n` signed 16-bit values that start at `b[i]`.
pub open spec fn spec_i16s(b: Seq<u8>, i: int, n: int) -> Seq<i16> {
    Seq::new(n as nat, |k: int| spec_i16(b, i + 2 * k))
}

/// The `n` sequential groups that start at `b[i]`.
pub open spec fn spec_seq_groups(b: Seq<u8>, i: int, n: int) -> Seq<SequentialMapGroup> {
    Seq::new(
        n as nat,
        |k: int|
            SequentialMapGroup {
                start_char_code: spec_u32(b, i + 12 * k),
                end_char_code: spec_u32(b, i + 12 * k + 4),
                start_glyph_id: spec_u32(b, i + 12 * k + 8),
            },
    )
}

/// The `n` constant groups that start at `b[i]`.
pub open spec fn spec_const_groups(b: Seq<u8>, i: int, n: int) -> Seq<ConstantMapGroup> {
    Seq::new(
        n as nat,
        |k: int|
            ConstantMapGroup {
                start_char_code: spec_u32(b, i + 12 * k),
                end_char_code: spec_u32(b, i + 12 * k + 4),
                glyph_id: spec_u32(b, i + 12 * k + 8),
            },
    )
}

fn read_u16s(b: &[u8], i: usize, n: usize) -> (r: Vec<u16>)
    requires
        i + 2 * n <= b@.len(),
    ensures
        r@ == spec_u16s(b@, i as int, n as int),
{
    let _len = b.len();
    let mut v: Vec<u16> = Vec::new();
    let mut k: usize = 0;
    while k < n
        invariant
            k <= n,
            i + 2 * n <= b@.len() <= usize::MAX,
            v@ == spec_u16s(b@, i as int, k as int),
        decreases n - k,
    {
        v.push(u16_at(b, i + 2 * k));
        k = k + 1;
        assert(v@ =~= spec_u16s(b@, i as int, k as int));
    }
    v
}

fn read_i16s(b: &[u8], i: usize, n: usize) -> (r: Vec<i16>)
    requires
        i + 2 * n <= b@.len(),
    ensures
        r@ == spec_i16s(b@, i as int, n as int),
{
    let _len = b.len();
    let mut v: Vec<i16> = Vec::new();
    let mut k: usize = 0;
    while k < n
        invariant
            k <= n,
            i + 2 * n <= b@.len() <= usize::MAX,
            v@ == spec_i16s(b@, i as int, k as int),
        decreases n - k,
    {
        v.push(i16_at(b, i + 2 * k));
        k = k + 1;
        assert(v@ =~= spec_i16s(b@, i as int, k as int));
    }
    v
}

fn read_seq_groups(b: &[u8], i: usize, n: usize) -> (r: Result<Vec<SequentialMapGroup>, Error>)
    requires
        i + 12 * n <= b@.len(),
    ensures
        spec_seq_sorted(spec_seq_groups(b@, i as int, n as int)) ==> (r matches Ok(v) && v@ == spec_seq_groups(
            b@,
            i as int,
            n as int,
        )),
        !spec_seq_sorted(spec_seq_groups(b@, i as int, n as int)) ==> r == Err::<
            Vec<SequentialMapGroup>,
            Error,
        >(Error::MalformedInvariant),
{
    let ghost g = spec_seq_groups(b@, i as int, n as int);
    let _len = b.len();
    let mut v: Vec<SequentialMapGroup> = Vec::new();
    let mut k: usize = 0;
    while k < n
        invariant
            k <= n,
            i + 12 * n <= b@.len() <= usize::MAX,
            g == spec_seq_groups(b@, i as int, n as int),
            v@ == g.subrange(0, k as int),
            forall|j: int|
                0 <= j < k ==> g[j].start_char_code <= g[j].end_char_code && (j + 1 < k ==> g[j].end_char_code
                    < g[j + 1].start_char_code),
        decreases n - k,
    {
        let p = i + 12 * k;
        let group = SequentialMapGroup {
            start_char_code: u32_at(b, p),
            end_char_code: u32_at(b, p + 4),
            start_glyph_id: u32_at(b, p + 8),
        };
        assert(group == g[k as int]);
        if group.start_char_code > group.end_char_code {
            return Err(Error::MalformedInvariant);
        }
        if k > 0 && v[k - 1].end_char_code >= group.start_char_code {
            assert(g[k - 1].end_char_code >= g[k as int].start_char_code);
            assert(!spec_seq_sorted(g));
            return Err(Error::MalformedInvariant);
        }
        v.push(group);
        k = k + 1;
        assert(v@ =~= g.subrange(0, k as int));
    }
    assert(g.subrange(0, n as int) =~= g);
    Ok(v)
}

fn read_const_groups(b: &[u8], i: usize, n: usize) -> (r: Result<Vec<ConstantMapGroup>, Error>)
    requires
        i + 12 * n <= b@.len(),
    ensures
        spec_const_sorted(spec_const_groups(b@, i as int, n as int)) ==> (r matches Ok(v) && v@
            == spec_const_groups(b@, i as int, n as int)),
        !spec_const_sorted(spec_const_groups(b@, i as int, n as int)) ==> r == Err::<
            Vec<ConstantMapGroup>,
            Error,
        >(Error::MalformedInvariant),
{
    let ghost g = spec_const_groups(b@, i as int, n as int);
    let _len = b.len();
    let mut v: Vec<ConstantMapGroup> = Vec::new();
    let mut k: usize = 0;
    while k < n
        invariant
            k <= n,
            i + 12 * n <= b@.len() <= usize::MAX,
            g == spec_const_groups(b@, i as int, n as int),
            v@ == g.subrange(0, k as int),
            forall|j: int|
                0 <= j < k ==> g[j].start_char_code <= g[j].end_char_code && (j + 1 < k ==> g[j].end_char_code
                    < g[j + 1].start_char_code),
        decreases n - k,
    {
        let p = i + 12 * k;
        let group = ConstantMapGroup {
            start_char_code: u32_at(b, p),
            end_char_code: u32_at(b, p + 4),
            glyph_id: u32_at(b, p + 8),
        };
        assert(group == g[k as int]);
        if group.start_char_code > group.end_char_code {
            return Err(Error::MalformedInvariant);
        }
        if k > 0 && v[k - 1].end_char_code >= group.start_char_code {
            assert(g[k - 1].end_char_code >= g[k as int].start_char_code);
            assert(!spec_const_sorted(g));
            return Err(Error::MalformedInvariant);
        }
        v.push(group);
        k = k + 1;
        assert(v@ =~= g.subrange(0, k as int));
    }
    assert(g.subrange(0, n as int) =~= g);
    Ok(v)
}


/// A decoded subtable, in its format.
#[allow(non_camel_case_types)]
#[derive(Debug, Clone, PartialEq, Eq)]
pub enum CharacterGlyphIndexMappingSubtable<'a> {
    Format_0(CharacterGlyphIndexMappingSubtable0<'a>),
    Format_2(CharacterGlyphIndexMappingSubtable2),
    Format_4(CharacterGlyphIndexMappingSubtable4<'a>),
    Format_6(CharacterGlyphIndexMappingSubtable6<'a>),
    Format_8(CharacterGlyphIndexMappingSubtable8<'a>),
    Format_10(CharacterGlyphIndexMappingSubtable10<'a>),
    Format_12(CharacterGlyphIndexMappingSubtable12),
    Format_13(CharacterGlyphIndexMappingSubtable13),
    Format_14(CharacterGlyphIndexMappingSubtable14),
}

/// Why the subtable `b` cannot be decoded, if it can't.
pub open spec fn spec_subtable_error(b: Seq<u8>) -> Option<Error> {
    if b.len() < 2 {
        Some(Error::Truncated)
    } else {
        let f = spec_u16(b, 0);
        if f == 0 {
            if b.len() < 262 {
                Some(Error::Truncated)
            } else {
                None
            }
        } else if f == 2 {
            if b.len() < 518 || b.len() < 518 + 8 * spec_sub_header_count(b) {
                Some(Error::Truncated)
            } else {
                None
            }
        } else if f == 4 {
            spec_format4_error(b)
        } else if f == 6 {
            if b.len() < 10 || b.len() < 10 + 2 * spec_u16(b, 8) {
                Some(Error::Truncated)
            } else {
                None
            }
        } else if f == 8 {
            if b.len() < 8208 || b.len() < 8208 + 12 * spec_u32(b, 8204) {
                Some(Error::Truncated)
            } else if !spec_seq_sorted(spec_seq_groups(b, 8208, spec_u32(b, 8204) as int)) {
                Some(Error::MalformedInvariant)
            } else {
                None
            }
        } else if f == 10 {
            if b.len() < 20 || b.len() < 20 + 2 * spec_u32(b, 16) {
                Some(Error::Truncated)
            } else {
                None
            }
        } else if f == 12 {
            if b.len() < 16 || b.len() < 16 + 12 * spec_u32(b, 12) {
                Some(Error::Truncated)
            } else if !spec_seq_sorted(spec_seq_groups(b, 16, spec_u32(b, 12) as int)) {
                Some(Error::MalformedInvariant)
            } else {
                None
            }
        } else if f == 13 {
            if b.len() < 16 || b.len() < 16 + 12 * spec_u32(b, 12) {
                Some(Error::Truncated)
            } else if !spec_const_sorted(spec_const_groups(b, 16, spec_u32(b, 12) as int)) {
                Some(Error::MalformedInvariant)
            } else {
                None
            }
        } else if f == 14 {
            if b.len() < 10 || b.len() < 10 + 11 * spec_u32(b, 6) {
                Some(Error::Truncated)
            } else {
                None
            }
        } else {
            Some(Error::InvalidDiscriminant(0))
        }
    }
}

/// Number of segments that a format 4 subtable `b` announces.
pub open spec fn spec_seg_count(b: Seq<u8>) -> int {
    spec_u16(b, 6) as int / 2
}

/// The four segment arrays of a format 4 subtable `b`.
pub open spec fn spec_f4_end(b: Seq<u8>) -> Seq<u16> {
    spec_u16s(b, 14, spec_seg_count(b))
}

/// Start codes of a format 4 subtable `b`.
pub open spec fn spec_f4_start(b: Seq<u8>) -> Seq<u16> {
    spec_u16s(b, 16 + 2 * spec_seg_count(b), spec_seg_count(b))
}

/// Deltas of a format 4 subtable `b`.
pub open spec fn spec_f4_delta(b: Seq<u8>) -> Seq<i16> {
    spec_i16s(b, 16 + 4 * spec_seg_count(b), spec_seg_count(b))
}

/// Range offsets of a format 4 subtable `b`.
pub open spec fn spec_f4_offset(b: Seq<u8>) -> Seq<u16> {
    spec_u16s(b, 16 + 6 * spec_seg_count(b), spec_seg_count(b))
}

/// Number of glyph array entries that the segments of a format 4 subtable
/// `b` reach.
pub open spec fn spec_f4_reach(b: Seq<u8>) -> int {
    spec_max_reach(spec_f4_start(b), spec_f4_end(b), spec_f4_offset(b), spec_seg_count(b), spec_seg_count(b))
}

/// Why the format 4 subtable `b` cannot be decoded, if it can't: a segment
/// count that is zero or odd (stored doubled), a last segment that is not
/// `0xFFFF`, a segment that reaches before the glyph array, or too few bytes.
pub open spec fn spec_format4_error(b: Seq<u8>) -> Option<Error> {
    let n = spec_seg_count(b);
    if b.len() < 14 {
        Some(Error::Truncated)
    } else if spec_u16(b, 6) == 0 || spec_u16(b, 6) % 2 != 0 {
        Some(Error::MalformedInvariant)
    } else if b.len() < 16 + 8 * n {
        Some(Error::Truncated)
    } else if spec_f4_end(b)[n - 1] != 0xFFFF || spec_f4_start(b)[n - 1] != 0xFFFF {
        Some(Error::MalformedInvariant)
    } else if exists|i: int| 0 <= i < n && !spec_seg_ok(spec_f4_start(b), spec_f4_end(b), spec_f4_offset(b), n, i) {
        Some(Error::MalformedInvariant)
    } else if b.len() < 16 + 8 * n + 2 * spec_f4_reach(b) {
        Some(Error::Truncated)
    } else {
        None
    }
}

/// `t` is the subtable stored in `b`.
pub open spec fn subtable_at(b: Seq<u8>, t: CharacterGlyphIndexMappingSubtable) -> bool {
    match t {
        CharacterGlyphIndexMappingSubtable::Format_0(s) => spec_u16(b, 0) == 0 && s.language == spec_u16(b, 4)
            && s.glyph_id_array@ == b.subrange(6, 262),
        CharacterGlyphIndexMappingSubtable::Format_2(s) => spec_u16(b, 0) == 2 && s.language == spec_u16(b, 4)
            && s.sub_header_keys@ == spec_u16s(b, 6, 256) && s.sub_headers@ == spec_sub_headers(
            b,
            518,
            spec_sub_header_count(b),
        ),
        CharacterGlyphIndexMappingSubtable::Format_4(s) => {
            let n = spec_seg_count(b);
            &&& spec_u16(b, 0) == 4
            &&& s.language == spec_u16(b, 4)
            &&& s.seg_count == n
            &&& s.search_range == spec_u16(b, 8)
            &&& s.entry_selector == spec_u16(b, 10)
            &&& s.range_shift == spec_u16(b, 12)
            &&& s.end_code@ == spec_f4_end(b)
            &&& s.start_code@ == spec_f4_start(b)
            &&& s.id_delta@ == spec_f4_delta(b)
            &&& s.id_range_offset@ == spec_f4_offset(b)
            &&& s.glyph_id_array@ == b.subrange(16 + 8 * n, 16 + 8 * n + 2 * spec_f4_reach(b))
        },
        CharacterGlyphIndexMappingSubtable::Format_6(s) => spec_u16(b, 0) == 6 && s.language == spec_u16(b, 4)
            && s.first_code == spec_u16(b, 6) && s.entry_count == spec_u16(b, 8) && s.glyph_id_array@
            == b.subrange(10, 10 + 2 * spec_u16(b, 8)),
        CharacterGlyphIndexMappingSubtable::Format_8(s) => spec_u16(b, 0) == 8 && s.language == spec_u32(b, 8)
            && s.is32@ == b.subrange(12, 8204) && s.groups@ == spec_seq_groups(b, 8208, spec_u32(b, 8204) as int),
        CharacterGlyphIndexMappingSubtable::Format_10(s) => spec_u16(b, 0) == 10 && s.language == spec_u32(b, 8)
            && s.start_char_code == spec_u32(b, 12) && s.num_chars == spec_u32(b, 16) && s.glyphs@ == b.subrange(
            20,
            20 + 2 * spec_u32(b, 16),
        ),
        CharacterGlyphIndexMappingSubtable::Format_12(s) => spec_u16(b, 0) == 12 && s.language == spec_u32(b, 8)
            && s.groups@ == spec_seq_groups(b, 16, spec_u32(b, 12) as int),
        CharacterGlyphIndexMappingSubtable::Format_13(s) => spec_u16(b, 0) == 13 && s.language == spec_u32(b, 8)
            && s.groups@ == spec_const_groups(b, 16, spec_u32(b, 12) as int),
        CharacterGlyphIndexMappingSubtable::Format_14(s) => spec_u16(b, 0) == 14 && s.var_selector@ == Seq::new(
            spec_u32(b, 6) as nat,
            |k: int|
                VariationSelectorRecord {
                    var_selector: spec_u24(b, 10 + 11 * k),
                    default_uvs_offset: spec_u32(b, 13 + 11 * k),
                    non_default_uvs_offset: spec_u32(b, 17 + 11 * k),
                },
        ),
    }
}

fn parse_format4<'a>(input: &'a [u8]) -> (r: Result<CharacterGlyphIndexMappingSubtable<'a>, Error>)
    requires
        input@.len() >= 2,
        spec_u16(input@, 0) == 4,
    ensures
        match r {
            Ok(t) => spec_format4_error(input@) is None && subtable_at(input@, t) && (t matches
                CharacterGlyphIndexMappingSubtable::Format_4(s) && s.wf()),
            Err(e) => spec_format4_error(input@) == Some(e),
        },
{
    let len = input.len();
    if len < 14 {
        return Err(Error::Truncated);
    }
    let x2 = u16_at(input, 6);
    if x2 == 0 || x2 % 2 != 0 {
        return Err(Error::MalformedInvariant);
    }
    let n = (x2 / 2) as usize;
    if len < 16 + 8 * n {
        return Err(Error::Truncated);
    }
    let end_code = read_u16s(input, 14, n);
    let start_code = read_u16s(input, 16 + 2 * n, n);
    let id_delta = read_i16s(input, 16 + 4 * n, n);
    let id_range_offset = read_u16s(input, 16 + 6 * n, n);
    if end_code[n - 1] != 0xFFFF || start_code[n - 1] != 0xFFFF {
        return Err(Error::MalformedInvariant);
    }
    let ghost st = start_code@;
    let ghost en = end_code@;
    let ghost ro = id_range_offset@;
    let mut reach: usize = 0;
    let mut i: usize = 0;
    while i < n
        invariant
            i <= n,
            n == spec_seg_count(input@),
            st == start_code@ && en == end_code@ && ro == id_range_offset@,
            st.len() == n && en.len() == n && ro.len() == n,
            st == spec_f4_start(input@) && en == spec_f4_end(input@) && ro == spec_f4_offset(input@),
            en[n - 1] == 0xFFFF && st[n - 1] == 0xFFFF,
            spec_u16(input@, 6) != 0 && spec_u16(input@, 6) % 2 == 0,
            len == input@.len() && 16 + 8 * n <= len,
            forall|j: int| 0 <= j < i ==> spec_seg_ok(st, en, ro, n as int, j),
            reach == spec_max_reach(st, en, ro, n as int, i as int),
            reach <= 0x30000,
        decreases n - i,
    {
        let s = start_code[i];
        let e = end_code[i];
        let o = id_range_offset[i];
        if o != 0 && s <= e {
            if ((o / 2) as usize) < n - i {
                assert(!spec_seg_ok(st, en, ro, n as int, i as int));
                return Err(Error::MalformedInvariant);
            }
            let seg = (o / 2) as usize - (n - i) + (e - s) as usize + 1;
            if seg > reach {
                reach = seg;
            }
        }
        i = i + 1;
    }
    assert(spec_f4_reach(input@) == reach);
    if len < 16 + 8 * n || len - (16 + 8 * n) < 2 * reach {
        return Err(Error::Truncated);
    }
    let glyph_id_array = slice_range(input, 16 + 8 * n, 16 + 8 * n + 2 * reach);
    let table = CharacterGlyphIndexMappingSubtable4 {
        language: u16_at(input, 4),
        seg_count: n as u16,
        search_range: u16_at(input, 8),
        entry_selector: u16_at(input, 10),
        range_shift: u16_at(input, 12),
        end_code,
        start_code,
        id_delta,
        id_range_offset,
        glyph_id_array,
    };
    Ok(CharacterGlyphIndexMappingSubtable::Format_4(table))
}

/// Decodes a subtable of any of the nine formats from the front of `input`;
/// an unknown format is refused at byte 0.
pub fn parse_character_to_glyph_index_mapping_subtable<'a>(input: &'a [u8]) -> (r: Result<
    CharacterGlyphIndexMappingSubtable<'a>,
    Error,
>)
    ensures
        match r {
            Ok(t) => spec_subtable_error(input@) is None && subtable_at(input@, t) && t.wf(),
            Err(e) => spec_subtable_error(input@) == Some(e),
        },
{
    let len = input.len();
    if len < 2 {
        return Err(Error::Truncated);
    }
    let format = u16_at(input, 0);
    if format == 0 {
        if len < 262 {
            return Err(Error::Truncated);
        }
        let t = CharacterGlyphIndexMappingSubtable0 {
            language: u16_at(input, 4),
            glyph_id_array: slice_range(input, 6, 262),
        };
        Ok(CharacterGlyphIndexMappingSubtable::Format_0(t))
    } else if format == 2 {
        if len < 518 {
            return Err(Error::Truncated);
        }
        let sub_header_keys = read_u16s(input, 6, 256);
        let mut max_key: u16 = 0;
        let mut k: usize = 0;
        while k < 256
            invariant
                k <= 256,
                sub_header_keys@.len() == 256,
                max_key == spec_max_key(sub_header_keys@, k as int),
            decreases 256 - k,
        {
            if sub_header_keys[k] > max_key {
                max_key = sub_header_keys[k];
            }
            k = k + 1;
        }
        let count = (max_key / 8) as usize + 1;
        if len - 518 < 8 * count {
            return Err(Error::Truncated);
        }
        let mut sub_headers: Vec<CharacterGlyphIndexMappingSubtable2SubHeaderRecord> = Vec::new();
        let mut k: usize = 0;
        while k < count
            invariant
                k <= count,
                518 + 8 * count <= len == input@.len(),
                sub_headers@ == spec_sub_headers(input@, 518, k as int),
            decreases count - k,
        {
            let p = 518 + 8 * k;
            sub_headers.push(
                CharacterGlyphIndexMappingSubtable2SubHeaderRecord {
                    first_code: u16_at(input, p),
                    entry_count: u16_at(input, p + 2),
                    id_delta: i16_at(input, p + 4),
                    id_range_offset: u16_at(input, p + 6),
                },
            );
            k = k + 1;
            assert(sub_headers@ =~= spec_sub_headers(input@, 518, k as int));
        }
        let t = CharacterGlyphIndexMappingSubtable2 { language: u16_at(input, 4), sub_header_keys, sub_headers };
        Ok(CharacterGlyphIndexMappingSubtable::Format_2(t))
    } else if format == 4 {
        parse_format4(input)
    } else if format == 6 {
        if len < 10 {
            return Err(Error::Truncated);
        }
        let count = u16_at(input, 8) as usize;
        if len < 10 + 2 * count {
            return Err(Error::Truncated);
        }
        let t = CharacterGlyphIndexMappingSubtable6 {
            language: u16_at(input, 4),
            first_code: u16_at(input, 6),
            entry_count: count as u16,
            glyph_id_array: slice_range(input, 10, 10 + 2 * count),
        };
        Ok(CharacterGlyphIndexMappingSubtable::Format_6(t))
    } else if format == 8 {
        if len < 8208 {
            return Err(Error::Truncated);
        }
        let n = u32_at(input, 8204) as usize;
        if (len - 8208) / 12 < n {
            return Err(Error::Truncated);
        }
        let groups = read_seq_groups(input, 8208, n)?;
        let t = CharacterGlyphIndexMappingSubtable8 {
            language: u32_at(input, 8),
            is32: slice_range(input, 12, 8204),
            groups,
        };
        Ok(CharacterGlyphIndexMappingSubtable::Format_8(t))
    } else if format == 10 {
        if len < 20 {
            return Err(Error::Truncated);
        }
        let n = u32_at(input, 16);
        if (len - 20) / 2 < n as usize {
            return Err(Error::Truncated);
        }
        let t = CharacterGlyphIndexMappingSubtable10 {
            language: u32_at(input, 8),
            start_char_code: u32_at(input, 12),
            num_chars: n,
            glyphs: slice_range(input, 20, 20 + 2 * n as usize),
        };
        Ok(CharacterGlyphIndexMappingSubtable::Format_10(t))
    } else if format == 12 || format == 13 {
        if len < 16 {
            return Err(Error::Truncated);
        }
        let n = u32_at(input, 12) as usize;
        if (len - 16) / 12 < n {
            return Err(Error::Truncated);
        }
        if format == 12 {
            let groups = read_seq_groups(input, 16, n)?;
            Ok(
                CharacterGlyphIndexMappingSubtable::Format_12(
                    CharacterGlyphIndexMappingSubtable12 { language: u32_at(input, 8), groups },
                ),
            )
        } else {
            let groups = read_const_groups(input, 16, n)?;
            Ok(
                CharacterGlyphIndexMappingSubtable::Format_13(
                    CharacterGlyphIndexMappingSubtable13 { language: u32_at(input, 8), groups },
                ),
            )
        }
    } else if format == 14 {
        if len < 10 {
            return Err(Error::Truncated);
        }
        let n = u32_at(input, 6) as usize;
        if (len - 10) / 11 < n {
            return Err(Error::Truncated);
        }
        let ghost want = Seq::new(
            n as nat,
            |k: int|
                VariationSelectorRecord {
                    var_selector: spec_u24(input@, 10 + 11 * k),
                    default_uvs_offset: spec_u32(input@, 13 + 11 * k),
                    non_default_uvs_offset: spec_u32(input@, 17 + 11 * k),
                },
        );
        let mut v: Vec<VariationSelectorRecord> = Vec::new();
        let mut k: usize = 0;
        while k < n
            invariant
                k <= n,
                10 + 11 * n <= len == input@.len(),
                v@ == want.subrange(0, k as int),
                want.len() == n,
                forall|j: int|
                    0 <= j < n ==> #[trigger] want[j] == (VariationSelectorRecord {
                        var_selector: spec_u24(input@, 10 + 11 * j),
                        default_uvs_offset: spec_u32(input@, 13 + 11 * j),
                        non_default_uvs_offset: spec_u32(input@, 17 + 11 * j),
                    }),
            decreases n - k,
        {
            let p = 10 + 11 * k;
            v.push(
                VariationSelectorRecord {
                    var_selector: u24_at(input, p),
                    default_uvs_offset: u32_at(input, p + 3),
                    non_default_uvs_offset: u32_at(input, p + 7),
                },
            );
            k = k + 1;
            assert(v@ =~= want.subrange(0, k as int));
        }
        assert(want.subrange(0, n as int) =~= want);
        Ok(CharacterGlyphIndexMappingSubtable::Format_14(CharacterGlyphIndexMappingSubtable14 { var_selector: v }))
    } else {
        Err(Error::InvalidDiscriminant(0))
    }
}

impl<'a> CharacterGlyphIndexMappingSubtable<'a> {
    /// The subtable's own invariants hold.
    pub open spec fn wf(&self) -> bool {
        match self {
            CharacterGlyphIndexMappingSubtable::Format_0(s) => s.wf(),
            CharacterGlyphIndexMappingSubtable::Format_4(s) => s.wf(),
            CharacterGlyphIndexMappingSubtable::Format_6(s) => s.wf(),
            CharacterGlyphIndexMappingSubtable::Format_10(s) => s.wf(),
            _ => true,
        }
    }

    /// The glyph of `c`, for the formats that resolve codes; formats 2 and
    /// 14 resolve none.
    pub open spec fn spec_glyph(&self, c: u32) -> Option<u32> {
        match self {
            CharacterGlyphIndexMappingSubtable::Format_0(s) => if c < 256 {
                Some(s.glyph_id_array@[c as int] as u32)
            } else {
                None
            },
            CharacterGlyphIndexMappingSubtable::Format_4(s) => if c <= 0xFFFF {
                match s.spec_glyph(c as u16) {
                    Some(g) => Some(g as u32),
                    None => None,
                }
            } else {
                None
            },
            CharacterGlyphIndexMappingSubtable::Format_6(s) => if c <= 0xFFFF {
                match s.spec_glyph(c as u16) {
                    Some(g) => Some(g as u32),
                    None => None,
                }
            } else {
                None
            },
            CharacterGlyphIndexMappingSubtable::Format_8(s) => spec_seq_glyph(s.groups@, c),
            CharacterGlyphIndexMappingSubtable::Format_10(s) => match s.spec_glyph(c) {
                Some(g) => Some(g as u32),
                None => None,
            },
            CharacterGlyphIndexMappingSubtable::Format_12(s) => spec_seq_glyph(s.groups@, c),
            CharacterGlyphIndexMappingSubtable::Format_13(s) => spec_const_glyph(s.groups@, c),
            _ => None,
        }
    }

    /// Language field of the subtable; format 14 has none and gives 0.
    pub open spec fn spec_language(&self) -> u32 {
        match self {
            CharacterGlyphIndexMappingSubtable::Format_0(s) => s.language as u32,
            CharacterGlyphIndexMappingSubtable::Format_2(s) => s.language as u32,
            CharacterGlyphIndexMappingSubtable::Format_4(s) => s.language as u32,
            CharacterGlyphIndexMappingSubtable::Format_6(s) => s.language as u32,
            CharacterGlyphIndexMappingSubtable::Format_8(s) => s.language,
            CharacterGlyphIndexMappingSubtable::Format_10(s) => s.language,
            CharacterGlyphIndexMappingSubtable::Format_12(s) => s.language,
            CharacterGlyphIndexMappingSubtable::Format_13(s) => s.language,
            CharacterGlyphIndexMappingSubtable::Format_14(_) => 0,
        }
    }

    /// Language field of the subtable; format 14 has none and gives 0.
    pub fn language(&self) -> (r: u32)
        ensures
            r == self.spec_language(),
    {
        match self {
            CharacterGlyphIndexMappingSubtable::Format_0(s) => s.language as u32,
            CharacterGlyphIndexMappingSubtable::Format_2(s) => s.language as u32,
            CharacterGlyphIndexMappingSubtable::Format_4(s) => s.language as u32,
            CharacterGlyphIndexMappingSubtable::Format_6(s) => s.language as u32,
            CharacterGlyphIndexMappingSubtable::Format_8(s) => s.language,
            CharacterGlyphIndexMappingSubtable::Format_10(s) => s.language,
            CharacterGlyphIndexMappingSubtable::Format_12(s) => s.language,
            CharacterGlyphIndexMappingSubtable::Format_13(s) => s.language,
            CharacterGlyphIndexMappingSubtable::Format_14(_) => 0,
        }
    }

    /// The glyph of `character_code`, if the subtable maps it.
    pub fn get_glyph_id(&self, character_code: u32) -> (r: Option<u32>)
        requires
            self.wf(),
        ensures
            r == self.spec_glyph(character_code),
    {
        let c = character_code;
        match self {
            CharacterGlyphIndexMappingSubtable::Format_0(s) => if c < 256 {
                Some(s.get_glyph_id(c as u8) as u32)
            } else {
                None
            },
            CharacterGlyphIndexMappingSubtable::Format_4(s) => if c <= 0xFFFF {
                match s.get_glyph_id(c as u16) {
                    Some(g) => Some(g as u32),
                    None => None,
                }
            } else {
                None
            },
            CharacterGlyphIndexMappingSubtable::Format_6(s) => if c <= 0xFFFF {
                match s.get_glyph_id(c as u16) {
                    Some(g) => Some(g as u32),
                    None => None,
                }
            } else {
                None
            },
            CharacterGlyphIndexMappingSubtable::Format_8(s) => s.get_glyph_id(c),
            CharacterGlyphIndexMappingSubtable::Format_10(s) => match s.get_glyph_id(c) {
                Some(g) => Some(g as u32),
                None => None,
            },
            CharacterGlyphIndexMappingSubtable::Format_12(s) => s.get_glyph_id(c),
            CharacterGlyphIndexMappingSubtable::Format_13(s) => s.get_glyph_id(c),
            _ => None,
        }
    }
}


/// One encoding of the character map: its platform and its subtable.
#[derive(Debug, Clone, PartialEq, Eq)]
pub struct EncodingRecord<'a> {
    pub platform: Platform,
    pub character_to_glyph_index_mapping_subtable: CharacterGlyphIndexMappingSubtable<'a>,
}

impl<'a> EncodingRecord<'a> {
    /// Platform, encoding and language of the subtable.
    pub fn platform(&self) -> (r: Platform)
        ensures
            r == self.platform,
    {
        self.platform
    }

    /// The subtable.
    pub fn character_to_glyph_index_mapping_subtable(&self) -> (r: &CharacterGlyphIndexMappingSubtable<'a>)
        ensures
            *r == self.character_to_glyph_index_mapping_subtable,
    {
        &self.character_to_glyph_index_mapping_subtable
    }
}

/// The language that a subtable's raw language field `language` gives on
/// platform `platform_id`: on the Macintosh platform a nonzero field is the
/// language id plus one; other platforms carry no language here.
pub open spec fn spec_record_language(platform_id: u16, language: u32) -> Option<u16> {
    if platform_id == 1 && language > 0 {
        Some((language - 1) as u16)
    } else {
        None
    }
}

/// The header of the character map: its version (0) and number of encoding
/// records.
#[derive(Debug, Clone, Copy, PartialEq, Eq, Structural)]
pub struct CharacterGlyphIndexMappingTable {
    pub num_tables: u16,
}

impl CharacterGlyphIndexMappingTable {
    /// Number of encoding records.
    pub fn num_tables(&self) -> (r: u16)
        ensures
            r == self.num_tables,
    {
        self.num_tables
    }

    /// Decodes the header of the character map `buf`, whose encoding records
    /// are then read one by one.
    pub fn parse<'a>(buf: &'a [u8]) -> (r: Result<EncodingRecords<'a>, Error>)
        ensures
            buf@.len() < 4 ==> r == Err::<EncodingRecords, Error>(Error::Truncated),
            buf@.len() >= 4 && spec_u16(buf@, 0) != 0 ==> r == Err::<EncodingRecords, Error>(
                Error::InvalidDiscriminant(0),
            ),
            buf@.len() >= 4 && spec_u16(buf@, 0) == 0 ==> (r matches Ok(e) && e.buf@ == buf@ && e.table.num_tables
                == spec_u16(buf@, 2)),
    {
        let (_, table) = parse_character_glyph_index_mapping_table(buf)?;
        Ok(EncodingRecords { buf, table })
    }
}

/// Decodes the header of a character map: version 0, then the number of
/// encoding records.
pub fn parse_character_glyph_index_mapping_table(input: &[u8]) -> (r: Result<
    (&[u8], CharacterGlyphIndexMappingTable),
    Error,
>)
    ensures
        input@.len() < 4 ==> r == Err::<(&[u8], CharacterGlyphIndexMappingTable), Error>(Error::Truncated),
        input@.len() >= 4 && spec_u16(input@, 0) != 0 ==> r == Err::<
            (&[u8], CharacterGlyphIndexMappingTable),
            Error,
        >(Error::InvalidDiscriminant(0)),
        input@.len() >= 4 && spec_u16(input@, 0) == 0 ==> (r matches Ok((rest, t)) && t.num_tables == spec_u16(
            input@,
            2,
        ) && rest@ == input@.subrange(4, input@.len() as int)),
{
    if input.len() < 4 {
        return Err(Error::Truncated);
    }
    if u16_at(input, 0) != 0 {
        return Err(Error::InvalidDiscriminant(0));
    }
    let table = CharacterGlyphIndexMappingTable { num_tables: u16_at(input, 2) };
    Ok((slice_range(input, 4, input.len()), table))
}

/// A character map and its header, from which encoding records are read.
#[derive(Debug, Clone, PartialEq, Eq)]
pub struct EncodingRecords<'a> {
    pub buf: &'a [u8],
    pub table: CharacterGlyphIndexMappingTable,
}

/// `r` is the `index`-th encoding record of the character map `b`: the
/// record lies in `b`, its subtable (at an offset from the start of `b`)
/// decodes, and its platform is known once the Macintosh language
/// adjustment is made. An unknown platform is refused at the record's
/// offset.
pub open spec fn spec_encoding_record_agrees(r: Result<EncodingRecord, Error>, b: Seq<u8>, index: int) -> bool {
    let p = 4 + 8 * index;
    let pid = spec_u16(b, p);
    let eid = spec_u16(b, p + 2);
    let off = spec_u32(b, p + 4) as int;
    if b.len() < p + 8 {
        r == Err::<EncodingRecord, Error>(Error::Truncated)
    } else if off > b.len() {
        r == Err::<EncodingRecord, Error>(Error::OutOfBounds)
    } else if spec_subtable_error(b.subrange(off, b.len() as int)) is Some {
        r == Err::<EncodingRecord, Error>(spec_subtable_error(b.subrange(off, b.len() as int))->Some_0)
    } else {
        match r {
            Ok(e) => subtable_at(b.subrange(off, b.len() as int), e.character_to_glyph_index_mapping_subtable)
                && e.character_to_glyph_index_mapping_subtable.wf() && Some(e.platform) == spec_platform(
                pid,
                eid,
                spec_record_language(pid, e.character_to_glyph_index_mapping_subtable.spec_language()),
            ),
            Err(e) => e == Error::InvalidDiscriminant(p as usize) && (forall|t: CharacterGlyphIndexMappingSubtable|
                subtable_at(b.subrange(off, b.len() as int), t) ==> spec_platform(
                    pid,
                    eid,
                    spec_record_language(pid, t.spec_language()),
                ) is None),
        }
    }
}

impl<'a> EncodingRecords<'a> {
    /// The encoding record at `index`; `None` past the last record.
    pub fn record(&self, index: u16) -> (r: Option<Result<EncodingRecord<'a>, Error>>)
        ensures
            index >= self.table.num_tables <==> r is None,
            r matches Some(x) ==> spec_encoding_record_agrees(x, self.buf@, index as int),
    {
        if index >= self.table.num_tables {
            return None;
        }
        Some(parse_encoding_record(self.buf, index))
    }

    /// A walk over the encoding records, in order.
    pub fn iter(&self) -> (r: EncodingRecordsIterator<'a>)
        ensures
            r.records.buf@ == self.buf@,
            r.records.table == self.table,
            r.pos == 0,
    {
        EncodingRecordsIterator { records: EncodingRecords { buf: self.buf, table: self.table }, pos: 0 }
    }
}

/// Decodes the `index`-th encoding record of the character map `buf`.
pub fn parse_encoding_record<'a>(buf: &'a [u8], index: u16) -> (r: Result<EncodingRecord<'a>, Error>)
    ensures
        spec_encoding_record_agrees(r, buf@, index as int),
{
    let p = 4 + 8 * index as usize;
    if buf.len() < p + 8 {
        return Err(Error::Truncated);
    }
    let pid = u16_at(buf, p);
    let eid = u16_at(buf, p + 2);
    let off = u32_at(buf, p + 4) as usize;
    if off > buf.len() {
        return Err(Error::OutOfBounds);
    }
    let subtable = parse_character_to_glyph_index_mapping_subtable(slice_range(buf, off, buf.len()))?;
    let language = subtable.language();
    let language_opt = if pid == 1 && language > 0 {
        Some((language - 1) as u16)
    } else {
        None
    };
    match Platform::new(pid, eid, language_opt) {
        Some(platform) => Ok(EncodingRecord { platform, character_to_glyph_index_mapping_subtable: subtable }),
        None => {
            proof {
                assert forall|t: CharacterGlyphIndexMappingSubtable|
                    subtable_at(buf@.subrange(off as int, buf@.len() as int), t) implies spec_platform(
                    pid,
                    eid,
                    spec_record_language(pid, t.spec_language()),
                ) is None by {
                    lemma_subtable_language_unique(buf@.subrange(off as int, buf@.len() as int), t, subtable);
                }
            }
            Err(Error::InvalidDiscriminant(p))
        },
    }
}

proof fn lemma_subtable_language_unique(
    b: Seq<u8>,
    s: CharacterGlyphIndexMappingSubtable,
    t: CharacterGlyphIndexMappingSubtable,
)
    requires
        subtable_at(b, s),
        subtable_at(b, t),
    ensures
        s.spec_language() == t.spec_language(),
{
}

/// A walk over the encoding records of a character map.
#[derive(Debug, Clone)]
pub struct EncodingRecordsIterator<'a> {
    pub records: EncodingRecords<'a>,
    pub pos: u16,
}

impl<'a> EncodingRecordsIterator<'a> {
    /// The next encoding record; the walk ends after the last record or at
    /// the first record that cannot be decoded.
    pub fn next(&mut self) -> (r: Option<EncodingRecord<'a>>)
        ensures
            final(self).records == old(self).records,
            old(self).pos >= old(self).records.table.num_tables ==> r is None && final(self).pos == old(self).pos,
            old(self).pos < old(self).records.table.num_tables ==> (match r {
                Some(e) => spec_encoding_record_agrees(Ok(e), old(self).records.buf@, old(self).pos as int)
                    && final(self).pos == old(self).pos + 1,
                None => exists|e: Error|
                    spec_encoding_record_agrees(Err(e), old(self).records.buf@, old(self).pos as int)
                        && final(self).pos == old(self).records.table.num_tables,
            }),
    {
        if self.pos >= self.records.table.num_tables {
            return None;
        }
        match parse_encoding_record(self.records.buf, self.pos) {
            Ok(e) => {
                self.pos = self.pos + 1;
                Some(e)
            },
            Err(_) => {
                self.pos = self.records.table.num_tables;
                None
            },
        }
    }
}

/// Decodes a default variation table: a 32-bit count, then ranges of a
/// 24-bit first character and an 8-bit count.
pub fn parse_default_uvs_table(input: &[u8]) -> (r: Result<DefaultUVSTable, Error>)
    ensures
        input@.len() < 4 || input@.len() < 4 + 4 * spec_u32(input@, 0) <==> r is Err,
        r is Err ==> r == Err::<DefaultUVSTable, Error>(Error::Truncated),
        r matches Ok(t) ==> t.ranges@ == Seq::new(
            spec_u32(input@, 0) as nat,
            |k: int|
                UnicodeRangeRecord {
                    start_unicode_value: spec_u24(input@, 4 + 4 * k),
                    additional_count: input@[4 + 4 * k + 3],
                },
        ),
{
    let len = input.len();
    if len < 4 {
        return Err(Error::Truncated);
    }
    let n = u32_at(input, 0) as usize;
    if (len - 4) / 4 < n {
        return Err(Error::Truncated);
    }
    let ghost want = Seq::new(
        n as nat,
        |k: int|
            UnicodeRangeRecord {
                start_unicode_value: spec_u24(input@, 4 + 4 * k),
                additional_count: input@[4 + 4 * k + 3],
            },
    );
    let mut v: Vec<UnicodeRangeRecord> = Vec::new();
    let mut k: usize = 0;
    while k < n
        invariant
            k <= n,
            4 + 4 * n <= len == input@.len(),
            want.len() == n,
            forall|j: int|
                0 <= j < n ==> #[trigger] want[j] == (UnicodeRangeRecord {
                    start_unicode_value: spec_u24(input@, 4 + 4 * j),
                    additional_count: input@[4 + 4 * j + 3],
                }),
            v@ == want.subrange(0, k as int),
        decreases n - k,
    {
        v.push(UnicodeRangeRecord { start_unicode_value: u24_at(input, 4 + 4 * k), additional_count: input[4 + 4 * k + 3] });
        k = k + 1;
        assert(v@ =~= want.subrange(0, k as int));
    }
    assert(want.subrange(0, n as int) =~= want);
    Ok(DefaultUVSTable { ranges: v })
}

/// Decodes a non-default variation table: a 32-bit count, then mappings of
/// a 24-bit character to a 16-bit glyph.
pub fn parse_non_default_uvs_table(input: &[u8]) -> (r: Result<NonDefaultUVSTable, Error>)
    ensures
        input@.len() < 4 || input@.len() < 4 + 5 * spec_u32(input@, 0) <==> r is Err,
        r is Err ==> r == Err::<NonDefaultUVSTable, Error>(Error::Truncated),
        r matches Ok(t) ==> t.uvs_mappings@ == Seq::new(
            spec_u32(input@, 0) as nat,
            |k: int|
                UVSMappingRecord { unicode_value: spec_u24(input@, 4 + 5 * k), glyph_id: spec_u16(input@, 4 + 5 * k + 3) },
        ),
{
    let len = input.len();
    if len < 4 {
        return Err(Error::Truncated);
    }
    let n = u32_at(input, 0) as usize;
    if (len - 4) / 5 < n {
        return Err(Error::Truncated);
    }
    let ghost want = Seq::new(
        n as nat,
        |k: int|
            UVSMappingRecord { unicode_value: spec_u24(input@, 4 + 5 * k), glyph_id: spec_u16(input@, 4 + 5 * k + 3) },
    );
    let mut v: Vec<UVSMappingRecord> = Vec::new();
    let mut k: usize = 0;
    while k < n
        invariant
            k <= n,
            4 + 5 * n <= len == input@.len(),
            want.len() == n,
            forall|j: int|
                0 <= j < n ==> #[trigger] want[j] == (UVSMappingRecord {
                    unicode_value: spec_u24(input@, 4 + 5 * j),
                    glyph_id: spec_u16(input@, 4 + 5 * j + 3),
                }),
            v@ == want.subrange(0, k as int),
        decreases n - k,
    {
        v.push(UVSMappingRecord { unicode_value: u24_at(input, 4 + 5 * k), glyph_id: u16_at(input, 4 + 5 * k + 3) });
        k = k + 1;
        assert(v@ =~= want.subrange(0, k as int));
    }
    assert(want.subrange(0, n as int) =~= want);
    Ok(NonDefaultUVSTable { uvs_mappings: v })
}

/// A format 4 subtable whose last segment does not both start and end at
/// `0xFFFF` is refused as malformed, whatever else it holds, once its fixed
/// header and segment arrays are present and its segment count is valid.
pub proof fn lemma_format4_requires_terminal_segment(b: Seq<u8>)
    requires
        b.len() >= 16 + 8 * spec_seg_count(b),
        b.len() >= 14,
        spec_u16(b, 0) == 4,
        spec_u16(b, 6) != 0 && spec_u16(b, 6) % 2 == 0,
        spec_f4_end(b)[spec_seg_count(b) - 1] != 0xFFFF || spec_f4_start(b)[spec_seg_count(b) - 1] != 0xFFFF,
    ensures
        spec_subtable_error(b) == Some(Error::MalformedInvariant),
{
}


proof fn lemma_seq_find_bounds(g: Seq<SequentialMapGroup>, c: u32, i: int)
    requires
        0 <= i,
    ensures
        spec_seq_find(g, c, i) matches Some(k) ==> i <= k < g.len() && g[k].end_char_code >= c,
    decreases g.len() - i,
{
    if i < g.len() {
        lemma_seq_find_bounds(g, c, i + 1);
    }
}

proof fn lemma_const_find_bounds(g: Seq<ConstantMapGroup>, c: u32, i: int)
    requires
        0 <= i,
    ensures
        spec_const_find(g, c, i) matches Some(k) ==> i <= k < g.len() && g[k].end_char_code >= c,
    decreases g.len() - i,
{
    if i < g.len() {
        lemma_const_find_bounds(g, c, i + 1);
    }
}

/// Resolution of character codes to glyphs, by a subtable of any format.
pub trait CodeLookup {
    /// The glyph that the subtable gives the code `c`, if any.
    spec fn spec_lookup(&self, c: u32) -> Option<u32>;

    /// The subtable's own invariants hold, so that it can resolve codes.
    spec fn lookup_ready(&self) -> bool;

    /// The glyph of the code `c`, if the subtable maps it.
    fn lookup(&self, c: u32) -> (r: Option<u32>)
        requires
            self.lookup_ready(),
        ensures
            r == self.spec_lookup(c),
    ;
}

/// The map from each code that `t` maps, among those from `lo` up to `hi`,
/// to its glyph.
pub open spec fn spec_range_map<T: CodeLookup>(t: &T, lo: int, hi: int) -> Map<u32, u32> {
    Map::new(|c: u32| lo <= c < hi && t.spec_lookup(c) is Some, |c: u32| t.spec_lookup(c)->Some_0)
}

/// The map from each code that `t` maps to its glyph.
pub open spec fn spec_full_map<T: CodeLookup>(t: &T) -> Map<u32, u32> {
    Map::new(|c: u32| t.spec_lookup(c) is Some, |c: u32| t.spec_lookup(c)->Some_0)
}

/// Adds to `m` the glyph of every code from `lo` up to `hi` that `t` maps.
fn add_codes<T: CodeLookup>(t: &T, m: &mut HashMap<u32, u32>, lo: u64, hi: u64)
    requires
        t.lookup_ready(),
        hi <= 0x1_0000_0000,
    ensures
        final(m)@ == old(m)@.union_prefer_right(spec_range_map(t, lo as int, hi as int)),
{
    let ghost start = old(m)@;
    let mut x: u64 = lo;
    proof {
        assert(m@ =~= start.union_prefer_right(spec_range_map(t, lo as int, x as int)));
    }
    while x < hi
        invariant
            t.lookup_ready(),
            hi <= 0x1_0000_0000,
            lo <= x,
            x <= hi || x == lo,
            m@ == start.union_prefer_right(spec_range_map(t, lo as int, x as int)),
        decreases hi - x,
    {
        let c = x as u32;
        match t.lookup(c) {
            Some(g) => {
                m.insert(c, g);
            },
            None => {},
        }
        x = x + 1;
        proof {
            assert(m@ =~= start.union_prefer_right(spec_range_map(t, lo as int, x as int)));
        }
    }
    proof {
        assert(m@ =~= start.union_prefer_right(spec_range_map(t, lo as int, hi as int)));
    }
}

/// The map of a subtable whose codes all lie from `lo` up to `hi`.
fn range_mapping<T: CodeLookup>(t: &T, lo: u64, hi: u64) -> (r: HashMap<u32, u32>)
    requires
        t.lookup_ready(),
        hi <= 0x1_0000_0000,
        forall|c: u32| t.spec_lookup(c) is Some ==> lo <= c < hi,
    ensures
        r@ == spec_full_map(t),
{
    let mut m: HashMap<u32, u32> = HashMap::new();
    add_codes(t, &mut m, lo, hi);
    proof {
        assert(m@ =~= spec_full_map(t));
    }
    m
}

/// The code `c` lies from `r.0` to `r.1`.
pub open spec fn spec_in_range(r: (u32, u32), c: u32) -> bool {
    r.0 <= c <= r.1
}

/// The map of a subtable whose codes are those of the groups `ranges`
/// (first and last code of each).
fn groups_mapping<T: CodeLookup>(t: &T, ranges: &Vec<(u32, u32)>) -> (r: HashMap<u32, u32>)
    requires
        t.lookup_ready(),
        forall|c: u32|
            t.spec_lookup(c) is Some ==> exists|i: int| 0 <= i < ranges@.len() && spec_in_range(ranges@[i], c),
    ensures
        r@ == spec_full_map(t),
{
    let mut m: HashMap<u32, u32> = HashMap::new();
    let mut k: usize = 0;
    proof {
        assert(m@ =~= Map::new(
            |c: u32| (exists|i: int| 0 <= i < k && spec_in_range(ranges@[i], c)) && t.spec_lookup(c) is Some,
            |c: u32| t.spec_lookup(c)->Some_0,
        ));
    }
    while k < ranges.len()
        invariant
            t.lookup_ready(),
            k <= ranges@.len(),
            m@ == Map::new(
                |c: u32| (exists|i: int| 0 <= i < k && spec_in_range(ranges@[i], c)) && t.spec_lookup(c) is Some,
                |c: u32| t.spec_lookup(c)->Some_0,
            ),
        decreases ranges@.len() - k,
    {
        let (lo, hi) = ranges[k];
        add_codes(t, &mut m, lo as u64, hi as u64 + 1);
        proof {
            let want = Map::new(
                |c: u32| (exists|i: int| 0 <= i < k + 1 && spec_in_range(ranges@[i], c)) && t.spec_lookup(c) is Some,
                |c: u32| t.spec_lookup(c)->Some_0,
            );
            assert forall|c: u32| #[trigger] m@.contains_key(c) <==> want.contains_key(c) by {
                if lo <= c <= hi {
                    assert(spec_in_range(ranges@[k as int], c));
                }
                if exists|i: int| 0 <= i < k + 1 && spec_in_range(ranges@[i], c) {
                    let i = choose|i: int| 0 <= i < k + 1 && spec_in_range(ranges@[i], c);
                    if i < k {
                        assert(exists|i: int| 0 <= i < k && spec_in_range(ranges@[i], c));
                    }
                }
            }
            assert(m@ =~= want);
        }
        k = k + 1;
    }
    proof {
        assert(m@ =~= spec_full_map(t));
    }
    m
}

fn seq_ranges(g: &Vec<SequentialMapGroup>) -> (r: Vec<(u32, u32)>)
    ensures
        r@.len() == g@.len(),
        forall|i: int| 0 <= i < g@.len() ==> r@[i] == (g@[i].start_char_code, g@[i].end_char_code),
{
    let mut r: Vec<(u32, u32)> = Vec::new();
    let mut k: usize = 0;
    while k < g.len()
        invariant
            k <= g@.len(),
            r@.len() == k,
            forall|i: int| 0 <= i < k ==> r@[i] == (g@[i].start_char_code, g@[i].end_char_code),
        decreases g@.len() - k,
    {
        r.push((g[k].start_char_code, g[k].end_char_code));
        k = k + 1;
    }
    r
}

fn const_ranges(g: &Vec<ConstantMapGroup>) -> (r: Vec<(u32, u32)>)
    ensures
        r@.len() == g@.len(),
        forall|i: int| 0 <= i < g@.len() ==> r@[i] == (g@[i].start_char_code, g@[i].end_char_code),
{
    let mut r: Vec<(u32, u32)> = Vec::new();
    let mut k: usize = 0;
    while k < g.len()
        invariant
            k <= g@.len(),
            r@.len() == k,
            forall|i: int| 0 <= i < k ==> r@[i] == (g@[i].start_char_code, g@[i].end_char_code),
        decreases g@.len() - k,
    {
        r.push((g[k].start_char_code, g[k].end_char_code));
        k = k + 1;
    }
    r
}

/// A code that sequential groups map lies in one of them.
proof fn lemma_seq_glyph_in_group(g: Seq<SequentialMapGroup>, c: u32)
    requires
        spec_seq_glyph(g, c) is Some,
    ensures
        spec_seq_find(g, c, 0) matches Some(i) && 0 <= i < g.len() && g[i].start_char_code <= c
            <= g[i].end_char_code,
{
    lemma_seq_find_bounds(g, c, 0);
}

/// A code that constant groups map lies in one of them.
proof fn lemma_const_glyph_in_group(g: Seq<ConstantMapGroup>, c: u32)
    requires
        spec_const_glyph(g, c) is Some,
    ensures
        spec_const_find(g, c, 0) matches Some(i) && 0 <= i < g.len() && g[i].start_char_code <= c
            <= g[i].end_char_code,
{
    lemma_const_find_bounds(g, c, 0);
}

impl<'a> CodeLookup for CharacterGlyphIndexMappingSubtable0<'a> {
    open spec fn spec_lookup(&self, c: u32) -> Option<u32> {
        if c < 256 {
            Some(self.glyph_id_array@[c as int] as u32)
        } else {
            None
        }
    }

    open spec fn lookup_ready(&self) -> bool {
        self.wf()
    }

    fn lookup(&self, c: u32) -> (r: Option<u32>) {
        if c < 256 {
            Some(self.get_glyph_id(c as u8) as u32)
        } else {
            None
        }
    }
}

impl<'a> CodeLookup for CharacterGlyphIndexMappingSubtable4<'a> {
    open spec fn spec_lookup(&self, c: u32) -> Option<u32> {
        if c <= 0xFFFF {
            match self.spec_glyph(c as u16) {
                Some(g) => Some(g as u32),
                None => None,
            }
        } else {
            None
        }
    }

    open spec fn lookup_ready(&self) -> bool {
        self.wf()
    }

    fn lookup(&self, c: u32) -> (r: Option<u32>) {
        if c <= 0xFFFF {
            match self.get_glyph_id(c as u16) {
                Some(g) => Some(g as u32),
                None => None,
            }
        } else {
            None
        }
    }
}

impl<'a> CodeLookup for CharacterGlyphIndexMappingSubtable6<'a> {
    open spec fn spec_lookup(&self, c: u32) -> Option<u32> {
        if c <= 0xFFFF {
            match self.spec_glyph(c as u16) {
                Some(g) => Some(g as u32),
                None => None,
            }
        } else {
            None
        }
    }

    open spec fn lookup_ready(&self) -> bool {
        self.wf()
    }

    fn lookup(&self, c: u32) -> (r: Option<u32>) {
        if c <= 0xFFFF {
            match self.get_glyph_id(c as u16) {
                Some(g) => Some(g as u32),
                None => None,
            }
        } else {
            None
        }
    }
}

impl<'a> CodeLookup for CharacterGlyphIndexMappingSubtable8<'a> {
    open spec fn spec_lookup(&self, c: u32) -> Option<u32> {
        spec_seq_glyph(self.groups@, c)
    }

    open spec fn lookup_ready(&self) -> bool {
        true
    }

    fn lookup(&self, c: u32) -> (r: Option<u32>) {
        self.get_glyph_id(c)
    }
}

impl<'a> CodeLookup for CharacterGlyphIndexMappingSubtable10<'a> {
    open spec fn spec_lookup(&self, c: u32) -> Option<u32> {
        match self.spec_glyph(c) {
            Some(g) => Some(g as u32),
            None => None,
        }
    }

    open spec fn lookup_ready(&self) -> bool {
        self.wf()
    }

    fn lookup(&self, c: u32) -> (r: Option<u32>) {
        match self.get_glyph_id(c) {
            Some(g) => Some(g as u32),
            None => None,
        }
    }
}

impl CodeLookup for CharacterGlyphIndexMappingSubtable12 {
    open spec fn spec_lookup(&self, c: u32) -> Option<u32> {
        spec_seq_glyph(self.groups@, c)
    }

    open spec fn lookup_ready(&self) -> bool {
        true
    }

    fn lookup(&self, c: u32) -> (r: Option<u32>) {
        self.get_glyph_id(c)
    }
}

impl CodeLookup for CharacterGlyphIndexMappingSubtable13 {
    open spec fn spec_lookup(&self, c: u32) -> Option<u32> {
        spec_const_glyph(self.groups@, c)
    }

    open spec fn lookup_ready(&self) -> bool {
        true
    }

    fn lookup(&self, c: u32) -> (r: Option<u32>) {
        self.get_glyph_id(c)
    }
}

impl<'a> CharacterGlyphIndexMappingSubtable0<'a> {
    /// Every byte code with its glyph.
    pub fn mapping(&self) -> (r: HashMap<u32, u32>)
        requires
            self.wf(),
        ensures
            r@ == spec_full_map(self),
    {
        range_mapping(self, 0, 256)
    }
}

impl<'a> CharacterGlyphIndexMappingSubtable4<'a> {
    /// Every code that a segment maps, with its glyph.
    pub fn mapping(&self) -> (r: HashMap<u32, u32>)
        requires
            self.wf(),
        ensures
            r@ == spec_full_map(self),
    {
        range_mapping(self, 0, 0x10000)
    }
}

impl<'a> CharacterGlyphIndexMappingSubtable6<'a> {
    /// Every code of the range, with its glyph.
    pub fn mapping(&self) -> (r: HashMap<u32, u32>)
        requires
            self.wf(),
        ensures
            r@ == spec_full_map(self),
    {
        range_mapping(self, 0, 0x10000)
    }
}

impl<'a> CharacterGlyphIndexMappingSubtable8<'a> {
    /// Every code of the groups, with its glyph.
    pub fn mapping(&self) -> (r: HashMap<u32, u32>)
        ensures
            r@ == spec_full_map(self),
    {
        let ranges = seq_ranges(&self.groups);
        proof {
            assert forall|c: u32| self.spec_lookup(c) is Some implies exists|i: int|
                0 <= i < ranges@.len() && spec_in_range(ranges@[i], c) by {
                lemma_seq_glyph_in_group(self.groups@, c);
                let i = spec_seq_find(self.groups@, c, 0)->Some_0;
                assert(spec_in_range(ranges@[i], c));
            }
        }
        groups_mapping(self, &ranges)
    }
}

impl<'a> CharacterGlyphIndexMappingSubtable10<'a> {
    /// Every code of the range, with its glyph.
    pub fn mapping(&self) -> (r: HashMap<u32, u32>)
        requires
            self.wf(),
        ensures
            r@ == spec_full_map(self),
    {
        let lo = self.start_char_code as u64;
        let hi = lo + self.num_chars as u64;
        range_mapping(self, lo, if hi > 0x1_0000_0000 {
            0x1_0000_0000
        } else {
            hi
        })
    }
}

impl CharacterGlyphIndexMappingSubtable12 {
    /// Every code of the groups, with its glyph.
    pub fn mapping(&self) -> (r: HashMap<u32, u32>)
        ensures
            r@ == spec_full_map(self),
    {
        let ranges = seq_ranges(&self.groups);
        proof {
            assert forall|c: u32| self.spec_lookup(c) is Some implies exists|i: int|
                0 <= i < ranges@.len() && spec_in_range(ranges@[i], c) by {
                lemma_seq_glyph_in_group(self.groups@, c);
                let i = spec_seq_find(self.groups@, c, 0)->Some_0;
                assert(spec_in_range(ranges@[i], c));
            }
        }
        groups_mapping(self, &ranges)
    }
}

impl CharacterGlyphIndexMappingSubtable13 {
    /// Every code of the groups, with the group's glyph.
    pub fn mapping(&self) -> (r: HashMap<u32, u32>)
        ensures
            r@ == spec_full_map(self),
    {
        let ranges = const_ranges(&self.groups);
        proof {
            assert forall|c: u32| self.spec_lookup(c) is Some implies exists|i: int|
                0 <= i < ranges@.len() && spec_in_range(ranges@[i], c) by {
                lemma_const_glyph_in_group(self.groups@, c);
                let i = spec_const_find(self.groups@, c, 0)->Some_0;
                assert(spec_in_range(ranges@[i], c));
            }
        }
        groups_mapping(self, &ranges)
    }
}

impl<'a> CharacterGlyphIndexMappingSubtable<'a> {
    /// Every code that the subtable maps, with its glyph. Formats 2 and 14,
    /// which resolve no code here, give an empty map.
    pub fn mapping(&self) -> (r: HashMap<u32, u32>)
        requires
            self.wf(),
        ensures
            r@ == Map::new(|c: u32| self.spec_glyph(c) is Some, |c: u32| self.spec_glyph(c)->Some_0),
    {
        let r = match self {
            CharacterGlyphIndexMappingSubtable::Format_0(s) => s.mapping(),
            CharacterGlyphIndexMappingSubtable::Format_4(s) => s.mapping(),
            CharacterGlyphIndexMappingSubtable::Format_6(s) => s.mapping(),
            CharacterGlyphIndexMappingSubtable::Format_8(s) => s.mapping(),
            CharacterGlyphIndexMappingSubtable::Format_10(s) => s.mapping(),
            CharacterGlyphIndexMappingSubtable::Format_12(s) => s.mapping(),
            CharacterGlyphIndexMappingSubtable::Format_13(s) => s.mapping(),
            CharacterGlyphIndexMappingSubtable::Format_2(s) => s.mapping(),
            CharacterGlyphIndexMappingSubtable::Format_14(s) => s.mapping(),
        };
        proof {
            assert(r@ =~= Map::new(|c: u32| self.spec_glyph(c) is Some, |c: u32| self.spec_glyph(c)->Some_0));
        }
        r
    }
}

impl CharacterGlyphIndexMappingSubtable2 {
    /// The codes that this format maps: none, since it is decoded only as
    /// far as its sub-headers.
    pub fn mapping(&self) -> (r: HashMap<u32, u32>)
        ensures
            r@ == Map::<u32, u32>::empty(),
    {
        HashMap::new()
    }
}

impl CharacterGlyphIndexMappingSubtable14 {
    /// The codes that this format maps: none, since variation sequences
    /// resolve through another subtable.
    pub fn mapping(&self) -> (r: HashMap<u32, u32>)
        ensures
            r@ == Map::<u32, u32>::empty(),
    {
        HashMap::new()
    }
}

} // verus!

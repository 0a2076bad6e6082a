//! The index-to-location table (`loca`).
use crate::codec::{slice_range, spec_u16, spec_u32, u16_at, u32_at};
use crate::error::Error;
use crate::types::{Offset16, Offset32};
use vstd::prelude::*;

verus! {

/// Offsets of the glyphs in the `glyf` table, one more than there are glyphs.
#[derive(Debug, Clone, PartialEq, Eq)]
pub enum IndexToLocationTable {
    /// Offsets stored as 16-bit values (`index_to_loc_format` 0).
    Short(Vec<Offset16>),
    /// Offsets stored as 32-bit values (`index_to_loc_format` 1).
    Long(Vec<Offset32>),
}

/// The `n` 16-bit values at the front of `b`.
pub open spec fn spec_shorts(b: Seq<u8>, n: int) -> Seq<u16> {
    Seq::new(n as nat, |k: int| spec_u16(b, 2 * k))
}

/// The `n` 32-bit values at the front of `b`.
pub open spec fn spec_longs(b: Seq<u8>, n: int) -> Seq<u32> {
    Seq::new(n as nat, |k: int| spec_u32(b, 4 * k))
}

/// `r` is the decoding of the table `b` in the given format for `num_glyphs`
/// glyphs.
pub open spec fn spec_loca_agrees(
    r: Result<(&[u8], IndexToLocationTable), Error>,
    b: Seq<u8>,
    index_to_loc_format: i16,
    num_glyphs: u16,
) -> bool {
    let n = num_glyphs + 1;
    if index_to_loc_format == 0 {
        if b.len() < 2 * n {
            r == Err::<(&[u8], IndexToLocationTable), Error>(Error::Truncated)
        } else {
            r matches Ok((rest, IndexToLocationTable::Short(v))) && v@ == spec_shorts(b, n) && rest@
                == b.subrange(2 * n, b.len() as int)
        }
    } else if index_to_loc_format == 1 {
        if b.len() < 4 * n {
            r == Err::<(&[u8], IndexToLocationTable), Error>(Error::Truncated)
        } else {
            r matches Ok((rest, IndexToLocationTable::Long(v))) && v@ == spec_longs(b, n) && rest@
                == b.subrange(4 * n, b.len() as int)
        }
    } else {
        r == Err::<(&[u8], IndexToLocationTable), Error>(Error::InvalidDiscriminant(0))
    }
}

/// Decodes the table, given `index_to_loc_format` from `head` and the glyph
/// count from `maxp`. A format other than 0 or 1 is refused with
/// `InvalidDiscriminant`.
pub fn parse_index_to_location_table(input: &[u8], index_to_loc_format: i16, num_glyphs: u16) -> (r:
    Result<(&[u8], IndexToLocationTable), Error>)
    ensures
        spec_loca_agrees(r, input@, index_to_loc_format, num_glyphs),
{
    let n = num_glyphs as usize + 1;
    if index_to_loc_format == 0 {
        if input.len() < 2 * n {
            return Err(Error::Truncated);
        }
        let mut v: Vec<u16> = Vec::new();
        let mut k: usize = 0;
        while k < n
            invariant
                k <= n,
                n == num_glyphs + 1,
                2 * n <= input@.len(),
                v@ == spec_shorts(input@, k as int),
            decreases n - k,
        {
            v.push(u16_at(input, 2 * k));
            k = k + 1;
            assert(v@ =~= spec_shorts(input@, k as int));
        }
        Ok((slice_range(input, 2 * n, input.len()), IndexToLocationTable::Short(v)))
    } else if index_to_loc_format == 1 {
        if input.len() / 4 < n {
            return Err(Error::Truncated);
        }
        let mut v: Vec<u32> = Vec::new();
        let mut k: usize = 0;
        while k < n
            invariant
                k <= n,
                n == num_glyphs + 1,
                4 * n <= input@.len(),
                v@ == spec_longs(input@, k as int),
            decreases n - k,
        {
            v.push(u32_at(input, 4 * k));
            k = k + 1;
            assert(v@ =~= spec_longs(input@, k as int));
        }
        Ok((slice_range(input, 4 * n, input.len()), IndexToLocationTable::Long(v)))
    } else {
        Err(Error::InvalidDiscriminant(0))
    }
}

impl IndexToLocationTable {
    /// The offset stored for glyph `glyph_index`, if the table has one.
    pub fn get_glyf_offset(&self, glyph_index: u32) -> (r: Option<u32>)
        ensures
            r == match self {
                IndexToLocationTable::Short(v) => if glyph_index < v@.len() {
                    Some(v@[glyph_index as int] as u32)
                } else {
                    None
                },
                IndexToLocationTable::Long(v) => if glyph_index < v@.len() {
                    Some(v@[glyph_index as int])
                } else {
                    None
                },
            },
    {
        let i = glyph_index as usize;
        match self {
            IndexToLocationTable::Short(v) => if i < v.len() {
                Some(v[i] as u32)
            } else {
                None
            },
            IndexToLocationTable::Long(v) => if i < v.len() {
                Some(v[i])
            } else {
                None
            },
        }
    }

    /// Decodes the table, as `parse_index_to_location_table`, dropping the
    /// bytes left over.
    pub fn parse(buf: &[u8], index_to_loc_format: i16, num_glyphs: u16) -> (r: Result<
        IndexToLocationTable,
        Error,
    >)
        ensures
            exists|p: Result<(&[u8], IndexToLocationTable), Error>|
                spec_loca_agrees(p, buf@, index_to_loc_format, num_glyphs) && match (p, r) {
                    (Ok((_, t)), Ok(u)) => t == u,
                    (Err(e), Err(f)) => e == f,
                    _ => false,
                },
    {
        let p = parse_index_to_location_table(buf, index_to_loc_format, num_glyphs);
        match p {
            Ok((_, t)) => Ok(t),
            Err(e) => Err(e),
        }
    }
}

} // verus!

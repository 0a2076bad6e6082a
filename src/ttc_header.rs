//! The header of a font collection file.
use crate::codec::{slice_range, spec_u16, spec_u32, u16_at, u32_at};
use crate::error::Error;
use crate::types::Offset32;
use vstd::prelude::*;

verus! {

/// The tag `ttcf` that starts a font collection.
pub const TTC_TAG: u32 = 0x74746366;

/// The tag `DSIG` of a digital signature table.
pub const DSIG_TAG: u32 = 0x44534947;

/// Location of the digital signature table of a collection.
#[derive(Debug, Clone, Copy, PartialEq, Eq, Structural)]
pub struct TTCDigitalSignature {
    pub dsig_length: u32,
    pub dsig_offset: u32,
}

impl TTCDigitalSignature {
    /// Length in bytes of the signature table.
    pub fn dsig_length(&self) -> (r: u32)
        ensures
            r == self.dsig_length,
    {
        self.dsig_length
    }

    /// Offset in bytes of the signature table from the start of the file.
    pub fn dsig_offset(&self) -> (r: u32)
        ensures
            r == self.dsig_offset,
    {
        self.dsig_offset
    }
}

/// The header of a collection: where the offset table of each font lies.
#[derive(Debug, Clone, PartialEq, Eq)]
pub struct TTCHeader {
    pub offset_table: Vec<Offset32>,
    pub dsig: Option<TTCDigitalSignature>,
}

impl TTCHeader {
    /// Offsets of each font's offset table from the start of the file.
    pub fn offset_table(&self) -> (r: &[u32])
        ensures
            r@ == self.offset_table@,
    {
        self.offset_table.as_slice()
    }

    /// Number of fonts in the collection.
    pub fn num_fonts(&self) -> (r: usize)
        ensures
            r == self.offset_table@.len(),
    {
        self.offset_table.len()
    }

    /// The digital signature, present only in a version 2.0 header whose
    /// signature tag is `DSIG`.
    pub fn dsig(&self) -> (r: Option<TTCDigitalSignature>)
        ensures
            r == self.dsig,
    {
        self.dsig
    }
}

/// The `n` big-endian offsets that start at `b[i]`.
pub open spec fn spec_offsets(b: Seq<u8>, i: int, n: int) -> Seq<u32> {
    Seq::new(n as nat, |k: int| spec_u32(b, i + 4 * k))
}

/// Wire format of a collection header: its offsets, its signature and the
/// number of bytes it takes.
pub open spec fn spec_ttc_header(b: Seq<u8>) -> Result<(Seq<u32>, Option<TTCDigitalSignature>, int), Error> {
    if b.len() < 4 {
        Err(Error::Truncated)
    } else if spec_u32(b, 0) != TTC_TAG {
        Err(Error::UnsupportedFormat)
    } else if b.len() < 8 {
        Err(Error::Truncated)
    } else if !((spec_u16(b, 4) == 1 || spec_u16(b, 4) == 2) && spec_u16(b, 6) == 0) {
        Err(Error::InvalidDiscriminant(4))
    } else if b.len() < 12 {
        Err(Error::Truncated)
    } else {
        let n = spec_u32(b, 8) as int;
        if b.len() < 12 + 4 * n {
            Err(Error::Truncated)
        } else if spec_u16(b, 4) == 1 {
            Ok((spec_offsets(b, 12, n), None, 12 + 4 * n))
        } else if b.len() < 24 + 4 * n {
            Err(Error::Truncated)
        } else {
            let p = 12 + 4 * n;
            let dsig = if spec_u32(b, p) == DSIG_TAG {
                Some(
                    TTCDigitalSignature {
                        dsig_length: spec_u32(b, p + 4),
                        dsig_offset: spec_u32(b, p + 8),
                    },
                )
            } else {
                None
            };
            Ok((spec_offsets(b, 12, n), dsig, p + 12))
        }
    }
}

/// Decodes a collection header from the front of `input`.
pub fn parse_ttc_header(input: &[u8]) -> (r: Result<(&[u8], TTCHeader), Error>)
    ensures
        match (r, spec_ttc_header(input@)) {
            (Ok((rest, h)), Ok((offsets, dsig, n))) => h.offset_table@ == offsets && h.dsig == dsig
                && rest@ == input@.subrange(n, input@.len() as int),
            (Err(e), Err(f)) => e == f,
            _ => false,
        },
{
    let len = input.len();
    if len < 4 {
        return Err(Error::Truncated);
    }
    if u32_at(input, 0) != TTC_TAG {
        return Err(Error::UnsupportedFormat);
    }
    if len < 8 {
        return Err(Error::Truncated);
    }
    let major = u16_at(input, 4);
    let minor = u16_at(input, 6);
    if !((major == 1 || major == 2) && minor == 0) {
        return Err(Error::InvalidDiscriminant(4));
    }
    if len < 12 {
        return Err(Error::Truncated);
    }
    let num_fonts = u32_at(input, 8) as usize;
    if (len - 12) / 4 < num_fonts {
        return Err(Error::Truncated);
    }
    let mut offsets: Vec<u32> = Vec::new();
    let mut k: usize = 0;
    while k < num_fonts
        invariant
            k <= num_fonts,
            num_fonts == spec_u32(input@, 8),
            len == input@.len(),
            12 + 4 * num_fonts <= len,
            offsets@ == spec_offsets(input@, 12, k as int),
        decreases num_fonts - k,
    {
        offsets.push(u32_at(input, 12 + 4 * k));
        k = k + 1;
        assert(offsets@ =~= spec_offsets(input@, 12, k as int));
    }
    let p = 12 + 4 * num_fonts;
    if major == 1 {
        return Ok((slice_range(input, p, len), TTCHeader { offset_table: offsets, dsig: None }));
    }
    if len - p < 12 {
        return Err(Error::Truncated);
    }
    let dsig = if u32_at(input, p) == DSIG_TAG {
        Some(TTCDigitalSignature { dsig_length: u32_at(input, p + 4), dsig_offset: u32_at(input, p + 8) })
    } else {
        None
    };
    Ok((slice_range(input, p + 12, len), TTCHeader { offset_table: offsets, dsig }))
}

} // verus!

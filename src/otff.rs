//! The font file: a single font or a collection of fonts.
use crate::codec::{spec_u32, u32_at};
use crate::error::Error;
use crate::font::{Font, spec_font_parsed};
use crate::offset_table::{OffsetTable, parse_offset_table, spec_offset_table};
use crate::ttc_header::{TTC_TAG, TTCHeader, parse_ttc_header, spec_ttc_header};
use vstd::prelude::*;

verus! {

/// What a font file holds: one font, or a collection of fonts.
#[derive(Debug, Clone, PartialEq, Eq)]
pub enum OpenTypeFontKind {
    Font(OffsetTable),
    FontCollection(TTCHeader),
}

/// `r` is the decoding of a font file header `b`: a collection when `b`
/// starts with `ttcf`, else a single font's offset table.
pub open spec fn spec_otff_agrees(r: Result<(&[u8], OpenTypeFontKind), Error>, b: Seq<u8>) -> bool {
    if b.len() < 4 {
        r == Err::<(&[u8], OpenTypeFontKind), Error>(Error::Truncated)
    } else if spec_u32(b, 0) == TTC_TAG {
        match (r, spec_ttc_header(b)) {
            (Ok((rest, OpenTypeFontKind::FontCollection(h))), Ok((offsets, dsig, n))) => h.offset_table@
                == offsets && h.dsig == dsig && rest@ == b.subrange(n, b.len() as int),
            (Err(e), Err(f)) => e == f,
            _ => false,
        }
    } else {
        match (r, spec_offset_table(b)) {
            (Ok((rest, OpenTypeFontKind::Font(t))), Ok((u, n))) => t == u && rest@ == b.subrange(
                n,
                b.len() as int,
            ),
            (Err(e), Err(f)) => e == f,
            _ => false,
        }
    }
}

/// Decodes the header of a font file: a collection header when the file
/// starts with `ttcf`, else the offset table of a single font.
pub fn parse_otff(input: &[u8]) -> (r: Result<(&[u8], OpenTypeFontKind), Error>)
    ensures
        spec_otff_agrees(r, input@),
{
    if input.len() < 4 {
        return Err(Error::Truncated);
    }
    if u32_at(input, 0) == TTC_TAG {
        let (rest, header) = parse_ttc_header(input)?;
        Ok((rest, OpenTypeFontKind::FontCollection(header)))
    } else {
        let (rest, table) = parse_offset_table(input)?;
        Ok((rest, OpenTypeFontKind::Font(table)))
    }
}

/// Decodes the header of a font file, as `parse_otff`, keeping only its kind.
pub fn parse_font_file(buf: &[u8]) -> (r: Result<OpenTypeFontKind, Error>)
    ensures
        exists|p: Result<(&[u8], OpenTypeFontKind), Error>|
            spec_otff_agrees(p, buf@) && match (p, r) {
                (Ok((_, k)), Ok(l)) => k == l,
                (Err(e), Err(f)) => e == f,
                _ => false,
            },
{
    let p = parse_otff(buf);
    match p {
        Ok((_, kind)) => Ok(kind),
        Err(e) => Err(e),
    }
}

/// A font file: its buffer and what its header says it holds.
#[derive(Debug, Clone)]
pub struct OpenTypeFontFile<'a> {
    pub buf: &'a [u8],
    pub kind: OpenTypeFontKind,
}

impl<'a> OpenTypeFontFile<'a> {
    /// Decodes the header of the font file `buf`.
    pub fn parse(buf: &'a [u8]) -> (r: Result<OpenTypeFontFile<'a>, Error>)
        ensures
            exists|p: Result<(&[u8], OpenTypeFontKind), Error>|
                spec_otff_agrees(p, buf@) && match (p, r) {
                    (Ok((_, k)), Ok(f)) => k == f.kind && f.buf@ == buf@,
                    (Err(e), Err(f)) => e == f,
                    _ => false,
                },
    {
        let p = parse_otff(buf);
        match p {
            Ok((_, kind)) => Ok(OpenTypeFontFile { buf, kind }),
            Err(e) => Err(e),
        }
    }

    /// What the file holds.
    pub fn kind(&self) -> (r: &OpenTypeFontKind)
        ensures
            *r == self.kind,
    {
        &self.kind
    }

    /// Number of fonts in the file.
    pub fn num_fonts(&self) -> (r: usize)
        ensures
            r == match self.kind {
                OpenTypeFontKind::Font(_) => 1,
                OpenTypeFontKind::FontCollection(h) => h.offset_table@.len(),
            },
    {
        match &self.kind {
            OpenTypeFontKind::Font(_) => 1,
            OpenTypeFontKind::FontCollection(h) => h.offset_table.len(),
        }
    }

    /// The byte offset of the `index`-th font's offset table (zero past the
    /// last font).
    pub open spec fn spec_font_offset(&self, index: usize) -> usize {
        match self.kind {
            OpenTypeFontKind::Font(_) => 0,
            OpenTypeFontKind::FontCollection(h) => if index < h.offset_table@.len() {
                h.offset_table@[index as int] as usize
            } else {
                0
            },
        }
    }

    /// The byte offset of the `index`-th font's offset table, if there is
    /// such a font.
    pub fn font_offset(&self, index: usize) -> (r: Option<usize>)
        ensures
            r matches Some(o) ==> o == self.spec_font_offset(index),
            r == match self.kind {
                OpenTypeFontKind::Font(_) => if index == 0 {
                    Some(0usize)
                } else {
                    None
                },
                OpenTypeFontKind::FontCollection(h) => if index < h.offset_table@.len() {
                    Some(h.offset_table@[index as int] as usize)
                } else {
                    None
                },
            },
    {
        match &self.kind {
            OpenTypeFontKind::Font(_) => if index == 0 {
                Some(0)
            } else {
                None
            },
            OpenTypeFontKind::FontCollection(h) => if index < h.offset_table.len() {
                Some(h.offset_table[index] as usize)
            } else {
                None
            },
        }
    }

    /// The `index`-th font of the file, decoded on its own: a bad font of a
    /// collection does not keep the others from being read.
    pub fn font(&self, index: usize) -> (r: Option<Result<Font<'a>, Error>>)
        ensures
            r is None <==> index >= match self.kind {
                OpenTypeFontKind::Font(_) => 1,
                OpenTypeFontKind::FontCollection(h) => h.offset_table@.len(),
            },
            r matches Some(x) ==> spec_font_parsed(x, self.buf@, self.spec_font_offset(index) as int),
            r matches Some(Ok(f)) ==> f.wf() && f.buf@ == self.buf@,
    {
        match self.font_offset(index) {
            None => None,
            Some(offset) => Some(Font::parse(self.buf, offset)),
        }
    }
}

/// A walk over the fonts of a file, each decoded on its own.
#[derive(Debug, Clone)]
pub struct OpenTypeFontFileIterator<'a> {
    pub otff: OpenTypeFontFile<'a>,
    pub pos: usize,
}

impl<'a> OpenTypeFontFile<'a> {
    /// A walk over the fonts of the file, from the first.
    pub fn fonts(self) -> (r: OpenTypeFontFileIterator<'a>)
        ensures
            r.otff.buf@ == self.buf@,
            r.otff.kind == self.kind,
            r.pos == 0,
    {
        OpenTypeFontFileIterator { otff: self, pos: 0 }
    }
}

impl<'a> OpenTypeFontFileIterator<'a> {
    /// The next font of the file, or the error that decoding it gave; `None`
    /// once every font has been visited.
    pub fn next(&mut self) -> (r: Option<Result<Font<'a>, Error>>)
        ensures
            final(self).otff.buf@ == old(self).otff.buf@,
            final(self).otff.kind == old(self).otff.kind,
            r is None <==> old(self).pos >= match old(self).otff.kind {
                OpenTypeFontKind::Font(_) => 1,
                OpenTypeFontKind::FontCollection(h) => h.offset_table@.len(),
            },
            r is Some ==> final(self).pos == old(self).pos + 1,
            r is None ==> final(self).pos == old(self).pos,
            r matches Some(Ok(f)) ==> f.wf() && f.buf@ == old(self).otff.buf@,
            r matches Some(x) ==> spec_font_parsed(x, old(self).otff.buf@, old(self).otff.spec_font_offset(old(self).pos) as int),
    {
        let n = self.otff.num_fonts();
        let r = self.otff.font(self.pos);
        if self.pos < n {
            self.pos = self.pos + 1;
        }
        r
    }
}

} // verus!

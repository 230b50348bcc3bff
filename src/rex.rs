//! Recognition of the register-extension (REX) prefix at the start of an
//! instruction's bytes.

use vstd::prelude::*;

verus! {

/// The four extension bits of a REX prefix byte (0x40..=0x4f).
#[derive(Debug, Clone, Copy)]
pub struct Rex {
    /// Operand width is widened to 64 bits (bit 3).
    pub w: bool,
    /// Extends the ModRM reg field (bit 2).
    pub r: bool,
    /// Extends the SIB index field (bit 1).
    pub x: bool,
    /// Extends the ModRM r/m, SIB base or opcode register field (bit 0).
    pub b: bool,
}

/// Whether `b` lies in the sixteen-value range of REX prefix bytes.
pub open spec fn is_rex_byte(b: u8) -> bool {
    0x40 <= b <= 0x4f
}

/// The extension that byte `b` decodes to, or `None` where it is no REX prefix.
pub open spec fn rex_of(b: u8) -> Option<Rex> {
    if is_rex_byte(b) {
        Some(Rex { w: b & 0x08 != 0, r: b & 0x04 != 0, x: b & 0x02 != 0, b: b & 0x01 != 0 })
    } else {
        None
    }
}

/// What a scan of `stream` reports: the extension of its first byte with one
/// byte consumed, or no extension and nothing consumed.
pub open spec fn scan_of(stream: Seq<u8>) -> (Option<Rex>, usize) {
    if stream.len() > 0 && is_rex_byte(stream[0]) {
        (rex_of(stream[0]), 1)
    } else {
        (None, 0)
    }
}

impl Rex {
    /// Decodes a REX prefix byte; any byte outside 0x40..=0x4f gives `None`.
    pub fn from_byte(b: u8) -> (r: Option<Self>)
        ensures
            r == rex_of(b),
    {
        if 0x40 <= b && b <= 0x4f {
            Some(Rex { w: (b & 0x08) != 0, r: (b & 0x04) != 0, x: (b & 0x02) != 0, b: (b & 0x01) != 0 })
        } else {
            None
        }
    }
}

/// Looks for a REX prefix in the first byte of `stream` and reports it with
/// the number of bytes consumed.
pub fn parse_prefixes(stream: &[u8]) -> (r: (Option<Rex>, usize))
    ensures
        r == scan_of(stream@),
{
    let mut pos: usize = 0;
    let mut rex: Option<Rex> = None;
    if pos < stream.len() {
        if let Some(x) = Rex::from_byte(stream[pos]) {
            rex = Some(x);
            pos += 1;
        }
    }
    (rex, pos)
}

} // verus!

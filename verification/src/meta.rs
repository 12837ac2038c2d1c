//! Small metadata records shared across the toolkit.

use vstd::prelude::*;

verus! {

/// Key for identifying a font in various internal caches.
#[derive(Copy, Clone, PartialEq, Eq, Structural, Hash, Debug)]
pub struct FontKey {
    /// Unique identifier for the data blob containing the content of a
    /// font file.
    pub data_id: u64,
    /// Index of a font in a font collection file.
    pub index: u32,
}

/// Indices of selected character-mapping subtables.
#[derive(Copy, Clone, Debug)]
pub struct SelectedMaps {
    /// Index of the Unicode or symbol mapping subtable.
    pub mapping: Option<u16>,
    /// True if the above is a symbol mapping.
    pub is_symbol: bool,
    /// Index of the Unicode variation selector subtable.
    pub variants: Option<u16>,
}

/// Identifier for an entry in a font's naming table.
#[derive(Copy, Clone, PartialEq, Eq, Structural, Debug)]
pub struct LocalizedStringId(pub u16);

} // verus!

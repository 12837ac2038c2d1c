//! Font library entries: sources, generic families, registration results.

use vstd::prelude::*;

verus! {

/// Identifier for a font family in a library.
#[derive(Copy, Clone, PartialEq, Eq, Structural, Hash, Debug)]
pub struct FontFamilyId(pub u32);

/// Identifier for a font in a library.
#[derive(Copy, Clone, PartialEq, Eq, Structural, Hash, Debug)]
pub struct FontId(pub u32);

/// Identifier for a font source in a library.
#[derive(Copy, Clone, PartialEq, Eq, Structural, Hash, Debug)]
pub struct FontSourceId(pub u32);

/// Describes a generic font family.
#[derive(Copy, Clone, PartialEq, Eq, Structural, Debug)]
pub enum GenericFontFamily {
    Serif,
    SansSerif,
    Monospace,
    SystemUI,
    Cursive,
    Emoji,
}

/// The kind of a font source.
#[derive(Clone, Debug)]
pub enum FontSourceKind {
    /// File name of the source, to pair with a search path.
    FileName(&'static str),
    /// Full path to a font file.
    Path(String),
    /// Owned buffer containing font data.
    Data(Vec<u8>),
}

/// Entry for a font source in a font library.
#[derive(Clone, Debug)]
pub struct FontSource {
    id: FontSourceId,
    kind: FontSourceKind,
}

impl FontSource {
    /// The identifier of the source.
    pub closed spec fn id_spec(&self) -> FontSourceId {
        self.id
    }

    /// The kind of the source.
    pub closed spec fn kind_spec(&self) -> FontSourceKind {
        self.kind
    }

    /// Creates a source entry.
    pub fn new(id: FontSourceId, kind: FontSourceKind) -> (r: FontSource)
        ensures
            r.id_spec() == id,
            r.kind_spec() == kind,
    {
        FontSource { id, kind }
    }

    /// Returns the identifier for the font source.
    pub fn id(&self) -> (r: FontSourceId)
        ensures
            r == self.id_spec(),
    {
        self.id
    }

    /// Returns the kind of the font source.
    pub fn kind(&self) -> (r: &FontSourceKind)
        ensures
            *r == self.kind_spec(),
    {
        &self.kind
    }
}

/// Context that describes the result of font registration.
#[derive(Clone, Default, Debug)]
pub struct Registration {
    /// List of font families that were registered.
    pub families: Vec<FontFamilyId>,
    /// List of fonts that were registered.
    pub fonts: Vec<FontId>,
}

} // verus!

//! Collection data for font fallback.

use vstd::prelude::*;
use crate::library::FontFamilyId;
use vstd::string::StringSliceAdditionalSpecFns;
use crate::library::GenericFontFamily;

verus! {

/// Where a font's bytes come from.
#[derive(Clone, Debug)]
pub enum SourceData {
    /// A path to load lazily.
    Path(String),
    /// An owned buffer.
    Data(Vec<u8>),
}

/// A statically known font source: a file name under a search path.
#[derive(Copy, Clone, Debug)]
pub struct StaticSourceData {
    pub file_name: &'static str,
}

/// Statically known fallback families for one script tag.
#[derive(Copy, Clone, Debug)]
pub struct StaticScriptFallbacks {
    pub script: [u8; 4],
    pub families: &'static [FontFamilyId],
}

/// Fallback families for one script tag in a scanned collection.
#[derive(Clone, Debug)]
pub struct ScriptFallbacks {
    pub script: [u8; 4],
    pub families: Vec<FontFamilyId>,
}

/// The index a generic family selects in the generic-family table.
pub open spec fn generic_index_spec(family: GenericFontFamily) -> int {
    match family {
        GenericFontFamily::Serif => 0,
        GenericFontFamily::SansSerif => 1,
        GenericFontFamily::Monospace => 2,
        GenericFontFamily::SystemUI => 3,
        GenericFontFamily::Cursive => 4,
        GenericFontFamily::Emoji => 5,
    }
}

/// Fallback data for a font collection: the default family list, per-script
/// fallbacks, and the per-generic-family and CJK family tables.
#[derive(Clone, Default, Debug)]
pub struct FallbackData {
    pub default_families: Vec<FontFamilyId>,
    pub script_fallbacks: Vec<ScriptFallbacks>,
    pub generic_families: [Vec<FontFamilyId>; 6],
    pub cjk_families: [Vec<FontFamilyId>; 5],
}

impl FallbackData {
    /// The list of default fallback families.
    pub fn default_families(&self) -> (r: &[FontFamilyId])
        ensures
            r@ == self.default_families@,
    {
        self.default_families.as_slice()
    }

    /// The fallback families registered for a generic family.
    pub fn generic_families(&self, family: GenericFontFamily) -> (r: &[FontFamilyId])
        ensures
            r@ == self.generic_families@[generic_index_spec(family)]@,
    {
        match family {
            GenericFontFamily::Serif => self.generic_families[0].as_slice(),
            GenericFontFamily::SansSerif => self.generic_families[1].as_slice(),
            GenericFontFamily::Monospace => self.generic_families[2].as_slice(),
            GenericFontFamily::SystemUI => self.generic_families[3].as_slice(),
            GenericFontFamily::Cursive => self.generic_families[4].as_slice(),
            GenericFontFamily::Emoji => self.generic_families[5].as_slice(),
        }
    }
}

/// Iterator-like cursor over the file system paths that contain fonts.
#[derive(Copy, Clone)]
pub struct SourcePaths<'a> {
    pub(crate) inner: SourcePathsInner<'a>,
    pub(crate) pos: usize,
}

#[derive(Copy, Clone)]
pub(crate) enum SourcePathsInner<'a> {
    Static(&'static [&'static str]),
    Dynamic(&'a Vec<String>),
}

impl<'a> SourcePaths<'a> {
    /// The position of the cursor.
    pub closed spec fn pos_spec(&self) -> int {
        self.pos as int
    }

    /// A cursor over a static list of search paths.
    pub fn from_static(paths: &'static [&'static str]) -> (r: SourcePaths<'a>)
        ensures
            r.pos_spec() == 0,
    {
        SourcePaths { inner: SourcePathsInner::Static(paths), pos: 0 }
    }

    /// The next search path, advancing the cursor; the cursor stands still
    /// only once the paths are exhausted.
    pub fn next(&mut self) -> (r: Option<&'a str>)
        ensures
            r is Some ==> final(self).pos_spec() == old(self).pos_spec() + 1,
            r is None ==> *final(self) == *old(self),
    {
        match self.inner {
            SourcePathsInner::Static(paths) => {
                if self.pos >= paths.len() {
                    Option::None
                } else {
                    let pos = self.pos;
                    self.pos = self.pos + 1;
                    Option::Some(paths[pos])
                }
            },
            SourcePathsInner::Dynamic(paths) => {
                if self.pos >= paths.len() {
                    Option::None
                } else {
                    let pos = self.pos;
                    self.pos = self.pos + 1;
                    Option::Some(paths[pos].as_str())
                }
            },
        }
    }
}

/// The ASCII-lowercased form of a byte.
pub open spec fn lower_byte_spec(b: u8) -> u8 {
    if 65 <= b <= 90 {
        (b + 32) as u8
    } else {
        b
    }
}

/// The ASCII-lowercased form of a byte sequence.
pub open spec fn lower_bytes_spec(s: Seq<u8>) -> Seq<u8> {
    s.map_values(|b: u8| lower_byte_spec(b))
}

/// Scratch space for lowercasing family names before lookup.
pub struct LowercaseString {
    buf: Vec<u8>,
}

impl LowercaseString {
    /// The number of bytes held in the scratch buffer.
    pub closed spec fn len_spec(&self) -> int {
        self.buf@.len() as int
    }

    /// Creates an empty scratch buffer.
    pub fn new() -> (r: LowercaseString)
        ensures
            r.len_spec() == 0,
    {
        LowercaseString { buf: Vec::new() }
    }

    /// Lowercases an ASCII name into the scratch buffer and returns the
    /// lowercased bytes; a name that is not ASCII is rejected.
    pub fn get(&mut self, name: &str) -> (r: Option<&[u8]>)
        ensures
            match r {
                Option::Some(bytes) => name.is_ascii() && bytes@ == lower_bytes_spec(
                    name.spec_bytes(),
                ),
                Option::None => !name.is_ascii(),
            },
    {
        if !name.is_ascii() {
            return Option::None;
        }
        let bytes = name.as_bytes();
        self.buf.clear();
        let n = bytes.len();
        let mut i: usize = 0;
        while i < n
            invariant
                0 <= i <= n,
                n == bytes@.len(),
                self.buf@ == lower_bytes_spec(bytes@.take(i as int)),
            decreases n - i,
        {
            proof {
                assert(lower_bytes_spec(bytes@.take(i as int + 1)) =~= lower_bytes_spec(
                    bytes@.take(i as int),
                ).push(lower_byte_spec(bytes@[i as int])));
            }
            let b = bytes[i];
            let lb: u8 = if b >= 65 && b <= 90 {
                b + 32
            } else {
                b
            };
            self.buf.push(lb);
            i = i + 1;
        }
        proof {
            assert(bytes@.take(n as int) =~= bytes@);
        }
        Option::Some(self.buf.as_slice())
    }
}

} // verus!

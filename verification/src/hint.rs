//! Configuration for the hinting engine.

use vstd::prelude::*;
use crate::hint_state::Hinting;

verus! {

/// Slot for the hinting cache.
#[derive(Copy, Clone, Debug)]
pub enum Slot {
    /// Uncached font.
    Uncached,
    /// Font and size cache indices.
    Cached { font_index: usize, size_index: usize },
}

/// Tracks whether hinting is requested and still usable, with the cache
/// slot assigned to the font once one is found.
#[derive(Copy, Clone, Debug)]
pub struct HintConfig {
    pub hinting: Option<Hinting>,
    pub is_enabled: bool,
    pub slot: Option<Slot>,
}

impl HintConfig {
    /// Creates a configuration: hinting is enabled exactly when a mode was
    /// requested, and no cache slot is assigned yet.
    pub fn new(hinting: Option<Hinting>) -> (r: HintConfig)
        ensures
            r.hinting == hinting,
            r.is_enabled == hinting is Some,
            r.slot is None,
    {
        HintConfig { hinting, is_enabled: hinting.is_some(), slot: Option::None }
    }

    /// Whether hinting is currently enabled.
    pub fn is_enabled(&self) -> (r: bool)
        ensures
            r == self.is_enabled,
    {
        self.is_enabled
    }

    /// Re-enables hinting if a mode was requested, after a font disabled
    /// it.
    pub fn reset(&mut self)
        ensures
            final(self).hinting == old(self).hinting,
            final(self).slot == old(self).slot,
            final(self).is_enabled == old(self).hinting is Some,
    {
        self.is_enabled = self.hinting.is_some();
    }
}

} // verus!

//! Placeholders for the outline-loading surface.
//!
//! These types reserve the names of the outline API; the color pipeline in
//! [`crate::colr`] does not depend on them.

use vstd::prelude::*;

verus! {

/// Placeholder for the outline scaling configuration.
pub struct Scale {}

/// Placeholder for an owned variation location.
pub struct Location {}

/// Placeholder for a borrowed variation location.
pub struct LocationRef {}

/// Placeholder for a four-byte table tag.
pub struct Tag {}

/// Placeholder for a cache key.
pub struct Key {}

} // verus!

//! Selector for the two internal glyph caches.

use vstd::prelude::*;

verus! {

/// Allows referencing one of the internal caches.
#[derive(Debug, Clone, Copy, PartialEq, Eq, Structural)]
pub enum CacheType {
    /// The cache that handles non-indexed meshes.
    Normal,
    /// The cache that handles indexed meshes.
    Indexed,
}

impl Default for CacheType {
    /// The non-indexed cache.
    fn default() -> (r: Self)
        ensures
            r is Normal,
    {
        CacheType::Normal
    }
}

} // verus!

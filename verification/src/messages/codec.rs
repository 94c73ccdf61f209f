//! Wire codecs: the placeholder that refuses every message and the postcard codec.

use vstd::prelude::*;

verus! {

/// Placeholder codec that refuses every message; wire a real serializer before going
/// on-air.
#[derive(Debug, Default, Clone, Copy)]
pub struct PlaceholderCodec;

/// Marker for the postcard wire codec (a compact serde-based format) used on the
/// Rust-to-Rust bridge between the two machines.
#[derive(Debug, Default, Clone, Copy)]
pub struct PostcardCodec;

} // verus!

//! How hard a job compresses its archive.

use vstd::prelude::*;

verus! {

/// The compression a job asks for: `fast` or `best`.
#[derive(PartialEq, Eq, Structural, Clone, Copy, Debug)]
pub enum CompressionLevel {
    Fast,
    Best,
}

/// `flate2::Compression::best`, taken by its `level()`: flate2 defines
/// `best()` as `Compression(9)` and `level()` as the number it holds.
#[verifier::external_body]
fn best_gzip_level() -> (l: u32)
    ensures
        l == 9,
{
    flate2::Compression::best().level()
}

/// `flate2::Compression::fast`, taken by its `level()`: flate2 defines
/// `fast()` as `Compression(1)` and `level()` as the number it holds.
#[verifier::external_body]
fn fast_gzip_level() -> (l: u32)
    ensures
        l == 1,
{
    flate2::Compression::fast().level()
}

/// The gzip level of each compression choice.
pub open spec fn spec_gzip_level(c: CompressionLevel) -> u32 {
    match c {
        CompressionLevel::Fast => 1,
        CompressionLevel::Best => 9,
    }
}

/// The choice that a configuration value names, if any.
pub open spec fn compression_named(v: Seq<char>) -> Option<CompressionLevel> {
    if v == "fast"@ {
        Some(CompressionLevel::Fast)
    } else if v == "best"@ {
        Some(CompressionLevel::Best)
    } else {
        None
    }
}

impl CompressionLevel {
    /// Reads `"fast"` or `"best"`; any other text names no level.
    pub fn from_name(v: &str) -> (r: Option<CompressionLevel>)
        ensures
            r == compression_named(v@),
    {
        if crate::text::same_text(v, "fast") {
            Some(CompressionLevel::Fast)
        } else if crate::text::same_text(v, "best") {
            Some(CompressionLevel::Best)
        } else {
            None
        }
    }

    /// The gzip level used for this choice: flate2's fastest (1) or best (9).
    pub fn gzip_level(&self) -> (l: u32)
        ensures
            l == spec_gzip_level(*self),
    {
        match self {
            CompressionLevel::Fast => fast_gzip_level(),
            CompressionLevel::Best => best_gzip_level(),
        }
    }
}

} // verus!

use vstd::prelude::*;

verus! {

/// The closed set of failures of the pipeline.
#[derive(Debug, Clone, Copy, PartialEq, Eq, Structural)]
pub enum RainError {
    /// A candidate timestamp could not be turned into a frame descriptor.
    DescriptorParse,
    /// The remote source answered with a status that is not a success.
    Acquire { status: u16 },
    /// Fewer usable frames than an animation needs.
    InsufficientFrames { found: usize },
    /// A cached snapshot or the base map could not be decoded as a raster.
    Decode,
    /// The animation could not be encoded.
    Encode,
}

} // verus!

use vstd::prelude::*;

verus! {

/// A required field of the translator builder.
#[derive(Clone, Copy, Debug, PartialEq, Eq, Structural)]
pub enum BuilderField {
    InputStream,
    OutputStream,
}

/// Everything that can make a translation fail.
#[derive(Debug, PartialEq, Eq)]
pub enum MorseError {
    /// A character (encoding) or a Morse token (decoding) that has no table entry;
    /// it holds the offending bytes.
    UnsupportedSymbol(Vec<u8>),
    /// The builder was asked for a translator before this field was given.
    MissingBuilderField(BuilderField),
    /// The audio payload does not fit the container's 32-bit size fields.
    ContainerOverflow,
    /// The destination's write position would pass the largest `usize`.
    PositionOverflow,
}

/// `e` reports the unsupported input `t`.
pub open spec fn is_unsupported(e: &MorseError, t: Seq<u8>) -> bool {
    match e {
        MorseError::UnsupportedSymbol(v) => v@ == t,
        _ => false,
    }
}

} // verus!

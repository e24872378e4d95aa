use vstd::prelude::*;

verus! {

/// Everything that can go wrong while encoding or decoding a delete request.
///
/// An unknown wire label is reported as `UnknownType`, carrying the offending
/// label so the caller can diagnose version skew or corruption. The other
/// variants are failures of the underlying string and key codecs and are
/// propagated unchanged from the step that raised them.
#[derive(Debug)]
pub enum CodecError {
    /// The decoded wire label matches no known resource type; carries the label.
    UnknownType(String),
    /// The custom-SPU key's variant marker byte is not a known variant.
    UnknownKeyVariant(u8),
    /// The buffer ended before the value was complete.
    UnexpectedEnd,
    /// The bytes of a decoded string were not valid UTF-8.
    InvalidUtf8,
    /// A string is longer than its length prefix can carry, so it cannot be encoded.
    StringTooLong,
}

/// The mathematical shape of a [`CodecError`]: the carried string as a
/// sequence of characters, everything else as plain values.
pub enum CodecErrorView {
    UnknownType(Seq<char>),
    UnknownKeyVariant(u8),
    UnexpectedEnd,
    InvalidUtf8,
    StringTooLong,
}

impl View for CodecError {
    type V = CodecErrorView;

    open spec fn view(&self) -> CodecErrorView {
        match self {
            CodecError::UnknownType(s) => CodecErrorView::UnknownType(s@),
            CodecError::UnknownKeyVariant(b) => CodecErrorView::UnknownKeyVariant(*b),
            CodecError::UnexpectedEnd => CodecErrorView::UnexpectedEnd,
            CodecError::InvalidUtf8 => CodecErrorView::InvalidUtf8,
            CodecError::StringTooLong => CodecErrorView::StringTooLong,
        }
    }
}

impl PartialEq for CodecError {
    fn eq(&self, other: &Self) -> (r: bool) {
        match (self, other) {
            (CodecError::UnknownType(a), CodecError::UnknownType(b)) => *a == *b,
            (CodecError::UnknownKeyVariant(a), CodecError::UnknownKeyVariant(b)) => *a == *b,
            (CodecError::UnexpectedEnd, CodecError::UnexpectedEnd) => true,
            (CodecError::InvalidUtf8, CodecError::InvalidUtf8) => true,
            (CodecError::StringTooLong, CodecError::StringTooLong) => true,
            _ => false,
        }
    }
}

impl vstd::std_specs::cmp::PartialEqSpecImpl for CodecError {
    open spec fn obeys_eq_spec() -> bool {
        true
    }

    open spec fn eq_spec(&self, other: &Self) -> bool {
        self@ == other@
    }
}

} // verus!

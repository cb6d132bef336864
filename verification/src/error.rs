//! What can go wrong while using the editor.

use luminance::tess::TessError;
use vstd::prelude::*;

verus! {

#[verifier::external_type_specification]
#[verifier::external_body]
pub struct ExTessError(TessError);

/// Possible errors that might occur while using the editor.
#[derive(Debug, PartialEq, Eq)]
pub enum EditorError {
    /// Unknown key index (i.e. likely out of bounds).
    UnknownKey(usize),
    /// Error while rebuilding tessellation.
    TessError(TessError),
    /// Wrong interpolation assumed (typical for Bézier).
    WrongInterpolationAssumed(usize),
}

} // verus!

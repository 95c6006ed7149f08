use vstd::prelude::*;

verus! {

/// Failure of an overlay operation.
#[derive(Clone, Copy, Debug, PartialEq, Eq, Structural)]
pub enum Error {
    /// A percentage outside the accepted range was supplied.
    InvalidOpacity,
    /// The palette holds no colors, so no bands can be sized.
    EmptyPalette,
    /// Two buffers that must share dimensions do not.
    DimensionMismatch,
}

} // verus!

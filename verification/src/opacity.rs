use vstd::prelude::*;

use crate::error::Error;

verus! {

/// The opacity of a pixel (0-255)
#[derive(Clone, Copy, Debug, PartialEq, Eq, Structural)]
pub struct Opacity(pub u8);

impl Opacity {
    /// Wrap a byte as an opacity; every byte is a valid alpha value.
    pub fn new(opacity: u8) -> (r: Opacity)
        ensures
            r.0 == opacity,
    {
        Opacity(opacity)
    }

    /// Alpha for a whole-number percentage: `floor(2.55 * p)`, which for an
    /// integer percentage is `255 * p / 100`. Percentages above 100 are
    /// rejected.
    pub fn from_percentage(percentage: u8) -> (r: Result<Opacity, Error>)
        ensures
            percentage <= 100 ==> r == Ok::<Opacity, Error>(
                Opacity((255 * percentage as int / 100) as u8),
            ),
            percentage > 100 ==> r == Err::<Opacity, Error>(Error::InvalidOpacity),
    {
        if percentage <= 100 {
            Ok(Opacity(((255u32 * percentage as u32) / 100) as u8))
        } else {
            Err(Error::InvalidOpacity)
        }
    }
}

} // verus!

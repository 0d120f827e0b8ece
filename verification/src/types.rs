//! Colours as they cross the bridge.

use vstd::prelude::*;

verus! {

/// A colour as callers hand it in: a list whose first three bytes are the red,
/// green and blue channels.
pub type PythonColor = Vec<u8>;

/// A colour as callers get it back: `(red, green, blue)`.
pub type PythonReturnColor = (u8, u8, u8);

/// One light's colour.
#[derive(Clone, Copy, Debug, PartialEq, Eq, Structural)]
pub struct Color {
    pub red: u8,
    pub green: u8,
    pub blue: u8,
}

impl Color {
    /// The colour as the triple that goes back to the caller.
    pub fn to_tuple(&self) -> (triple: PythonReturnColor)
        ensures
            triple == (self.red, self.green, self.blue),
    {
        (self.red, self.green, self.blue)
    }
}

} // verus!

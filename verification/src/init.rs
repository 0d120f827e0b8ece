//! The checks on the arguments with which an arrangement is set up.

use vstd::prelude::*;
use vstd::string::*;
use crate::errors::{result_view, BridgeError, BridgeErrorView};
use crate::text::{append_decimal, decimal};

verus! {

/// The number of components of a location: one to four.
#[derive(Clone, Copy, Debug, PartialEq, Eq, Structural)]
pub enum Dimension {
    One,
    Two,
    Three,
    Four,
}

/// The order in which a strip takes the three channels of a colour.
#[derive(Clone, Copy, Debug, PartialEq, Eq, Structural)]
pub enum ColorOrder {
    Rgb,
    Rbg,
    Grb,
    Gbr,
    Brg,
    Bgr,
}

/// The message for a number of dimensions that no arrangement has.
pub open spec fn dimension_unmatched_text(number_dimensions: nat) -> Seq<char> {
    "Dimension number could not be matched; no branch to handle dimension "@ + decimal(
        number_dimensions,
    )
}

/// The message for a name that stands for no order of channels.
pub open spec fn color_order_text(pixel_order: Seq<char>) -> Seq<char> {
    "Format string \""@ + pixel_order
        + "\" doesn't correspond to a color order; should be\na 3 character string, like \"rgb\" or \"brg\""@
}

/// The dimension that a number stands for.
pub open spec fn dimension_of(number_dimensions: nat) -> Result<Dimension, BridgeErrorView> {
    if number_dimensions == 1 {
        Ok(Dimension::One)
    } else if number_dimensions == 2 {
        Ok(Dimension::Two)
    } else if number_dimensions == 3 {
        Ok(Dimension::Three)
    } else if number_dimensions == 4 {
        Ok(Dimension::Four)
    } else {
        Err(BridgeErrorView::DomainError(dimension_unmatched_text(number_dimensions)))
    }
}

/// The order of channels that a name stands for: the three letters `r`, `g`
/// and `b`, each once, in lower case.
pub open spec fn color_order_of(pixel_order: Seq<char>) -> Result<ColorOrder, BridgeErrorView> {
    if pixel_order == "rgb"@ {
        Ok(ColorOrder::Rgb)
    } else if pixel_order == "rbg"@ {
        Ok(ColorOrder::Rbg)
    } else if pixel_order == "grb"@ {
        Ok(ColorOrder::Grb)
    } else if pixel_order == "gbr"@ {
        Ok(ColorOrder::Gbr)
    } else if pixel_order == "brg"@ {
        Ok(ColorOrder::Brg)
    } else if pixel_order == "bgr"@ {
        Ok(ColorOrder::Bgr)
    } else {
        Err(BridgeErrorView::DomainError(color_order_text(pixel_order)))
    }
}

impl Dimension {
    /// The number of components.
    pub open spec fn number_spec(self) -> nat {
        match self {
            Dimension::One => 1,
            Dimension::Two => 2,
            Dimension::Three => 3,
            Dimension::Four => 4,
        }
    }

    /// The number of components.
    pub fn number(self) -> (count: usize)
        ensures
            count == self.number_spec(),
    {
        match self {
            Dimension::One => 1,
            Dimension::Two => 2,
            Dimension::Three => 3,
            Dimension::Four => 4,
        }
    }

    /// The dimension for `number_dimensions`; an error unless it is 1, 2, 3
    /// or 4.
    pub fn from_number(number_dimensions: usize) -> (result: Result<Dimension, BridgeError>)
        ensures
            result_view(result) == dimension_of(number_dimensions as nat),
    {
        if number_dimensions == 1 {
            Ok(Dimension::One)
        } else if number_dimensions == 2 {
            Ok(Dimension::Two)
        } else if number_dimensions == 3 {
            Ok(Dimension::Three)
        } else if number_dimensions == 4 {
            Ok(Dimension::Four)
        } else {
            let mut text = String::from_str(
                "Dimension number could not be matched; no branch to handle dimension ",
            );
            append_decimal(&mut text, number_dimensions);
            Err(BridgeError::DomainError(text))
        }
    }
}

/// Whether `name` is the text `literal`.
fn is_text(name: &String, literal: &str) -> (same: bool)
    ensures
        same == (name@ == literal@),
{
    let other = String::from_str(literal);
    name.eq(&other)
}

impl ColorOrder {
    /// The order of channels named by `pixel_order`; an error unless it is one
    /// of the six orders of `r`, `g` and `b`.
    pub fn parse(pixel_order: &str) -> (result: Result<ColorOrder, BridgeError>)
        ensures
            result_view(result) == color_order_of(pixel_order@),
    {
        let name = String::from_str(pixel_order);
        if is_text(&name, "rgb") {
            Ok(ColorOrder::Rgb)
        } else if is_text(&name, "rbg") {
            Ok(ColorOrder::Rbg)
        } else if is_text(&name, "grb") {
            Ok(ColorOrder::Grb)
        } else if is_text(&name, "gbr") {
            Ok(ColorOrder::Gbr)
        } else if is_text(&name, "brg") {
            Ok(ColorOrder::Brg)
        } else if is_text(&name, "bgr") {
            Ok(ColorOrder::Bgr)
        } else {
            let mut text = String::from_str("Format string \"");
            text.append(pixel_order);
            text.append(
                "\" doesn't correspond to a color order; should be\na 3 character string, like \"rgb\" or \"brg\"",
            );
            Err(BridgeError::DomainError(text))
        }
    }
}

} // verus!

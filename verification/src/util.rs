//! Checked conversions of the plain lists that callers hand in.

use vstd::prelude::*;
use vstd::string::*;
use crate::errors::{BridgeError, BridgeErrorView};
use crate::text::{append_decimal, decimal, two_number_text};
use crate::types::{Color, PythonColor};

verus! {

/// The message for a list of `found` components where `expected` are needed.
pub open spec fn dimension_text(expected: nat, found: nat) -> Seq<char> {
    "Expected input of dimension "@ + decimal(expected) + " but was "@ + decimal(found)
}

/// The message for a colour list with fewer than three channels.
pub open spec fn channels_text(found: nat) -> Seq<char> {
    "Expected a color of 3 channels but was "@ + decimal(found)
}

/// `TryFrom<Vec<T>>` for `[T; N]`: the whole contents of the vector as an
/// array, in the same order, exactly when the vector holds `N` items.
#[verifier::external_body]
fn vec_into_array<S, const N: usize>(vec: Vec<S>) -> (array: Option<[S; N]>)
    ensures
        array is Some <==> vec@.len() == N,
        array matches Some(items) ==> items@ == vec@,
{
    vec.try_into().ok()
}

/// Converts a vector to an array of `N` components, refusing any other length.
pub fn vec_to_array<S, const N: usize>(vec: Vec<S>) -> (result: Result<[S; N], BridgeError>)
    ensures
        vec@.len() == N ==> (result matches Ok(array) && array@ == vec@),
        vec@.len() != N ==> (result matches Err(error) && error@ == BridgeErrorView::DomainError(
            dimension_text(N as nat, vec@.len()),
        )),
{
    proof {
        reveal_strlit("");
    }
    let found = vec.len();
    match vec_into_array(vec) {
        Some(array) => Ok(array),
        None => Err(
            BridgeError::DomainError(
                two_number_text("Expected input of dimension ", N, " but was ", found, ""),
            ),
        ),
    }
}

/// Converts the first 3 elements of a vector to a Color.
pub fn vec_to_color(vec: &PythonColor) -> (color: Color)
    requires
        vec@.len() >= 3,
    ensures
        color == (Color { red: vec@[0], green: vec@[1], blue: vec@[2] }),
{
    Color { red: vec[0], green: vec[1], blue: vec[2] }
}

/// The colour that a list of channels stands for, as a result of its own.
pub open spec fn color_of(vec: Seq<u8>) -> Result<Color, Seq<char>> {
    if vec.len() >= 3 {
        Ok(Color { red: vec[0], green: vec[1], blue: vec[2] })
    } else {
        Err(channels_text(vec.len()))
    }
}

/// Converts the first 3 elements of a vector to a Color, refusing a vector
/// that holds fewer.
pub fn checked_color(vec: &PythonColor) -> (result: Result<Color, BridgeError>)
    ensures
        match color_of(vec@) {
            Ok(color) => result == Ok::<Color, BridgeError>(color),
            Err(reason) => result matches Err(error) && error@ == BridgeErrorView::DomainError(
                reason,
            ),
        },
{
    if vec.len() >= 3 {
        Ok(vec_to_color(vec))
    } else {
        let mut text = String::from_str("Expected a color of 3 channels but was ");
        append_decimal(&mut text, vec.len());
        Err(BridgeError::DomainError(text))
    }
}

} // verus!

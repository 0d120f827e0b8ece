//! What a handle asks of its worker.

use vstd::prelude::*;
use crate::coordinate::Coordinate;
use crate::errors::{result_view, BridgeError, BridgeErrorView};
use crate::types::{Color, PythonColor};
use crate::util::{checked_color, color_of};

verus! {

/// Data sent between the threads to request information. Every request but
/// `Quit` is answered by exactly one response.
#[derive(Copy, Debug, PartialEq)]
pub enum Requests<S, const N: usize> {
    /// The colour of the light closest to a point, within a distance.
    GetClosest(Coordinate<S, N>, S),
    /// Colour the light closest to a point, within a distance.
    SetClosest(Coordinate<S, N>, S, Color),
    /// Colour the lights round a point, dimmer the further away.
    SetDecreasingIntensity(Coordinate<S, N>, S, Color),
    /// As `SetDecreasingIntensity`, merged with the colours already there.
    SetDecreasingIntensityMerge(Coordinate<S, N>, S, Color),
    /// Colour every light in the box between two corners.
    SetBox(Coordinate<S, N>, Coordinate<S, N>, Color),
    /// Colour every light within a radius of a point.
    SetRadius(Coordinate<S, N>, S, Color),
    /// The colour of the light at an index of the strip.
    GetByIndex(usize),
    /// Colour the light at an index of the strip.
    SetByIndex(usize, Color),
    /// Colour every light.
    Fill(Color),
    /// Put the colours set so far on the strip.
    Show,
    /// Leave the loop. No response follows.
    Quit,
}

impl<S: Copy, const N: usize> Clone for Requests<S, N> {
    fn clone(&self) -> (copy: Self)
        ensures
            copy == *self,
    {
        *self
    }
}

impl<S, const N: usize> Requests<S, N> {
    /// Whether the worker owes a response to this request.
    pub open spec fn expects_response(&self) -> bool {
        !(self is Quit)
    }

    /// The request to put the colours set so far on the strip.
    pub fn show() -> (request: Self)
        ensures
            request == Requests::<S, N>::Show,
    {
        Requests::Show
    }

    /// The request to leave the loop.
    pub fn quit() -> (request: Self)
        ensures
            request == Requests::<S, N>::Quit,
        opens_invariants none
        no_unwind
    {
        Requests::Quit
    }

    /// The request for the colour of the light at `index`. Whether the strip
    /// has that index is for the worker to say.
    pub fn get_by_index(index: usize) -> (request: Self)
        ensures
            request == Requests::<S, N>::GetByIndex(index),
    {
        Requests::GetByIndex(index)
    }
}

/// The request that carries the colour which `channels` stands for, where
/// `build` makes the request from the colour; the error of a list that stands
/// for no colour.
pub open spec fn colored_request<S, const N: usize>(
    channels: Seq<u8>,
    build: spec_fn(Color) -> Requests<S, N>,
) -> Result<Requests<S, N>, BridgeErrorView> {
    match color_of(channels) {
        Ok(color) => Ok(build(color)),
        Err(reason) => Err(BridgeErrorView::DomainError(reason)),
    }
}

impl<S: Copy, const N: usize> Requests<S, N> {
    /// The request for the colour of the light closest to `loc`, within
    /// `max_search_distance` of it.
    pub fn get_closest(loc: &Coordinate<S, N>, max_search_distance: S) -> (request: Self)
        ensures
            request == Requests::GetClosest(*loc, max_search_distance),
    {
        Requests::GetClosest(*loc, max_search_distance)
    }

    /// The request to colour the light closest to `loc`; an error if `color`
    /// has fewer than three channels.
    pub fn set_closest(loc: &Coordinate<S, N>, max_search_distance: S, color: &PythonColor) -> (result:
        Result<Self, BridgeError>)
        ensures
            result_view(result) == colored_request(
                color@,
                |c: Color| Requests::SetClosest(*loc, max_search_distance, c),
            ),
    {
        match checked_color(color) {
            Ok(c) => Ok(Requests::SetClosest(*loc, max_search_distance, c)),
            Err(error) => Err(error),
        }
    }

    /// The request to colour the lights round `loc` with falling intensity; an
    /// error if `color` has fewer than three channels.
    pub fn set_decreasing_intensity(loc: &Coordinate<S, N>, set_distance: S, color: &PythonColor) -> (result:
        Result<Self, BridgeError>)
        ensures
            result_view(result) == colored_request(
                color@,
                |c: Color| Requests::SetDecreasingIntensity(*loc, set_distance, c),
            ),
    {
        match checked_color(color) {
            Ok(c) => Ok(Requests::SetDecreasingIntensity(*loc, set_distance, c)),
            Err(error) => Err(error),
        }
    }

    /// As `set_decreasing_intensity`, for the merging variant.
    pub fn set_decreasing_intensity_merge(
        loc: &Coordinate<S, N>,
        set_distance: S,
        color: &PythonColor,
    ) -> (result: Result<Self, BridgeError>)
        ensures
            result_view(result) == colored_request(
                color@,
                |c: Color| Requests::SetDecreasingIntensityMerge(*loc, set_distance, c),
            ),
    {
        match checked_color(color) {
            Ok(c) => Ok(Requests::SetDecreasingIntensityMerge(*loc, set_distance, c)),
            Err(error) => Err(error),
        }
    }

    /// The request to colour the box between `loc1` and `loc2`; an error if
    /// `color` has fewer than three channels.
    pub fn set_all_in_box(loc1: Coordinate<S, N>, loc2: Coordinate<S, N>, color: &PythonColor) -> (result:
        Result<Self, BridgeError>)
        ensures
            result_view(result) == colored_request(
                color@,
                |c: Color| Requests::SetBox(loc1, loc2, c),
            ),
    {
        match checked_color(color) {
            Ok(c) => Ok(Requests::SetBox(loc1, loc2, c)),
            Err(error) => Err(error),
        }
    }

    /// The request to colour the lights within `radius` of `loc`; an error if
    /// `color` has fewer than three channels.
    pub fn set_all_in_radius(loc: Coordinate<S, N>, radius: S, color: &PythonColor) -> (result: Result<
        Self,
        BridgeError,
    >)
        ensures
            result_view(result) == colored_request(
                color@,
                |c: Color| Requests::SetRadius(loc, radius, c),
            ),
    {
        match checked_color(color) {
            Ok(c) => Ok(Requests::SetRadius(loc, radius, c)),
            Err(error) => Err(error),
        }
    }

    /// The request to colour the light at `index`; an error if `color` has
    /// fewer than three channels. Whether the strip has that index is for the
    /// worker to say.
    pub fn set_by_index(index: usize, color: &PythonColor) -> (result: Result<Self, BridgeError>)
        ensures
            result_view(result) == colored_request(
                color@,
                |c: Color| Requests::<S, N>::SetByIndex(index, c),
            ),
    {
        match checked_color(color) {
            Ok(c) => Ok(Requests::SetByIndex(index, c)),
            Err(error) => Err(error),
        }
    }

    /// The request to colour every light; an error if `color` has fewer than
    /// three channels.
    pub fn fill(color: &PythonColor) -> (result: Result<Self, BridgeError>)
        ensures
            result_view(result) == colored_request(color@, |c: Color| Requests::<S, N>::Fill(c)),
    {
        match checked_color(color) {
            Ok(c) => Ok(Requests::Fill(c)),
            Err(error) => Err(error),
        }
    }
}

} // verus!

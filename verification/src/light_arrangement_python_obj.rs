//! One object over the handles of every dimension and backing.
//!
//! Callers that pick the dimension at run time hold a `PyLightArrangement`. It
//! takes each location as a plain list of cartesian components, refuses a list
//! whose length is not the arrangement's dimension before anything is sent,
//! and passes the operation on to the handle of that dimension.

use vstd::prelude::*;
use crate::coordinate::Coordinate;
use crate::errors::{result_view, BridgeError, BridgeErrorView};
use crate::light_arrangement_thread::{
    colored_round_trip, lookup_round_trip, no_response_text, search_round_trip, unit_round_trip,
    wrong_response_text, LightArrangementThread,
};
use crate::types::{PythonColor, PythonReturnColor};
use crate::util::dimension_text;

verus! {

/// A handle of one of the four dimensions, on a simulated strip or on a strip
/// of WS281x lights.
#[verifier::reject_recursive_types(S)]
pub enum LightArrangementTypes<S> {
    Test1D(LightArrangementThread<S, 1>),
    Test2D(LightArrangementThread<S, 2>),
    Test3D(LightArrangementThread<S, 3>),
    Test4D(LightArrangementThread<S, 4>),
    Ws281x1D(LightArrangementThread<S, 1>),
    Ws281x2D(LightArrangementThread<S, 2>),
    Ws281x3D(LightArrangementThread<S, 3>),
    Ws281x4D(LightArrangementThread<S, 4>),
}

/// The object that callers hold when the dimension is chosen at run time.
#[verifier::reject_recursive_types(S)]
pub struct PyLightArrangement<S> {
    light_arr_enum: LightArrangementTypes<S>,
}

/// What an operation at a location can give: the error of a list of `found`
/// components where `dimension` are needed, in which case nothing is sent, or
/// else `otherwise`.
pub open spec fn located<T>(
    dimension: nat,
    found: nat,
    result: Result<T, BridgeErrorView>,
    otherwise: bool,
) -> bool {
    if found == dimension {
        otherwise
    } else {
        result == Err::<T, BridgeErrorView>(
            BridgeErrorView::DomainError(dimension_text(dimension, found)),
        )
    }
}

impl<S: Copy> LightArrangementTypes<S> {
    /// The number of lights that the handle was made for.
    pub open spec fn lights(&self) -> i32 {
        match self {
            LightArrangementTypes::Test1D(arr) | LightArrangementTypes::Ws281x1D(arr) => arr.lights(),
            LightArrangementTypes::Test2D(arr) | LightArrangementTypes::Ws281x2D(arr) => arr.lights(),
            LightArrangementTypes::Test3D(arr) | LightArrangementTypes::Ws281x3D(arr) => arr.lights(),
            LightArrangementTypes::Test4D(arr) | LightArrangementTypes::Ws281x4D(arr) => arr.lights(),
        }
    }
}

impl<S> LightArrangementTypes<S> {
    /// The number of components of a location in this arrangement.
    pub open spec fn dimension(&self) -> nat {
        match self {
            LightArrangementTypes::Test1D(_) | LightArrangementTypes::Ws281x1D(_) => 1,
            LightArrangementTypes::Test2D(_) | LightArrangementTypes::Ws281x2D(_) => 2,
            LightArrangementTypes::Test3D(_) | LightArrangementTypes::Ws281x3D(_) => 3,
            LightArrangementTypes::Test4D(_) | LightArrangementTypes::Ws281x4D(_) => 4,
        }
    }
}

fn get_closest_at<S: Copy, const N: usize>(
    arr: &LightArrangementThread<S, N>,
    coordinate: Vec<S>,
    max_search_distance: S,
) -> (result: Result<Option<PythonReturnColor>, BridgeError>)
    ensures
        located(
            N as nat,
            coordinate@.len(),
            result_view(result),
            search_round_trip(result_view(result)),
        ),
{
    match Coordinate::<S, N>::cartesian(coordinate) {
        Ok(loc) => arr.get_closest(&loc, max_search_distance),
        Err(error) => Err(error),
    }
}


/// Which lights an operation at a point colours.
#[derive(Clone, Copy, Debug, PartialEq, Eq, Structural)]
enum Placement {
    Closest,
    DecreasingIntensity,
    DecreasingIntensityMerge,
    Radius,
}

fn set_at<S: Copy, const N: usize>(
    arr: &LightArrangementThread<S, N>,
    kind: Placement,
    coordinate: Vec<S>,
    distance: S,
    color: PythonColor,
) -> (result: Result<(), BridgeError>)
    ensures
        located(
            N as nat,
            coordinate@.len(),
            result_view(result),
            colored_round_trip(color@, result_view(result), no_response_text()),
        ),
{
    match Coordinate::<S, N>::cartesian(coordinate) {
        Ok(loc) => match kind {
            Placement::Closest => arr.set_closest(&loc, distance, color),
            Placement::DecreasingIntensity => arr.set_decreasing_intensity(&loc, distance, color),
            Placement::DecreasingIntensityMerge => arr.set_decreasing_intensity_merge(
                &loc,
                distance,
                color,
            ),
            Placement::Radius => arr.set_all_in_radius(loc, distance, color),
        },
        Err(error) => Err(error),
    }
}

fn set_box_at<S: Copy, const N: usize>(
    arr: &LightArrangementThread<S, N>,
    loc1: Vec<S>,
    loc2: Vec<S>,
    color: PythonColor,
) -> (result: Result<(), BridgeError>)
    ensures
        located(
            N as nat,
            loc1@.len(),
            result_view(result),
            located(
                N as nat,
                loc2@.len(),
                result_view(result),
                colored_round_trip(color@, result_view(result), no_response_text()),
            ),
        ),
{
    match Coordinate::<S, N>::cartesian(loc1) {
        Ok(loc1) => match Coordinate::<S, N>::cartesian(loc2) {
            Ok(loc2) => arr.set_all_in_box(loc1, loc2, color),
            Err(error) => Err(error),
        },
        Err(error) => Err(error),
    }
}

impl<S: Copy> PyLightArrangement<S> {
    /// The object over the handle `light_arr_enum`.
    pub fn new(light_arr_enum: LightArrangementTypes<S>) -> (object: Self)
        ensures
            object.dimension() == light_arr_enum.dimension(),
            object.lights() == light_arr_enum.lights(),
    {
        PyLightArrangement { light_arr_enum }
    }

    /// The number of components of a location in this arrangement.
    pub closed spec fn dimension(&self) -> nat {
        self.light_arr_enum.dimension()
    }

    /// The number of lights that the handle was made for.
    pub closed spec fn lights(&self) -> i32 {
        self.light_arr_enum.lights()
    }

    /// The number of components of a location in this arrangement.
    pub fn number_dimensions(&self) -> (count: usize)
        ensures
            count == self.dimension(),
            1 <= count <= 4,
    {
        match &self.light_arr_enum {
            LightArrangementTypes::Test1D(_) | LightArrangementTypes::Ws281x1D(_) => 1,
            LightArrangementTypes::Test2D(_) | LightArrangementTypes::Ws281x2D(_) => 2,
            LightArrangementTypes::Test3D(_) | LightArrangementTypes::Ws281x3D(_) => 3,
            LightArrangementTypes::Test4D(_) | LightArrangementTypes::Ws281x4D(_) => 4,
        }
    }

    /// The colour of the light closest to the point with the given cartesian
    /// components, if one lies within `max_search_distance` of it.
    pub fn get_closest_cartesian(&self, coordinate: Vec<S>, max_search_distance: S) -> (result: Result<
        Option<PythonReturnColor>,
        BridgeError,
    >)
        ensures
            located(self.dimension(), coordinate@.len(), result_view(result), search_round_trip(result_view(result))),
    {
        match &self.light_arr_enum {
            LightArrangementTypes::Test1D(arr) | LightArrangementTypes::Ws281x1D(arr) => get_closest_at(arr, coordinate, max_search_distance),
            LightArrangementTypes::Test2D(arr) | LightArrangementTypes::Ws281x2D(arr) => get_closest_at(arr, coordinate, max_search_distance),
            LightArrangementTypes::Test3D(arr) | LightArrangementTypes::Ws281x3D(arr) => get_closest_at(arr, coordinate, max_search_distance),
            LightArrangementTypes::Test4D(arr) | LightArrangementTypes::Ws281x4D(arr) => get_closest_at(arr, coordinate, max_search_distance),
        }
    }

    /// The colour of the light at `index`.
    pub fn get_by_index(&self, index: usize) -> (result: Result<PythonReturnColor, BridgeError>)
        ensures
            lookup_round_trip(result_view(result)),
    {
        match &self.light_arr_enum {
            LightArrangementTypes::Test1D(arr) | LightArrangementTypes::Ws281x1D(arr) => arr.get_by_index(index),
            LightArrangementTypes::Test2D(arr) | LightArrangementTypes::Ws281x2D(arr) => arr.get_by_index(index),
            LightArrangementTypes::Test3D(arr) | LightArrangementTypes::Ws281x3D(arr) => arr.get_by_index(index),
            LightArrangementTypes::Test4D(arr) | LightArrangementTypes::Ws281x4D(arr) => arr.get_by_index(index),
        }
    }

    /// Colours the light closest to the point with the given cartesian
    /// components, if one lies within `max_search_distance` of it.
    pub fn set_closest_cartesian(&self, coordinate: Vec<S>, max_search_distance: S, color: PythonColor) -> (result: Result<
        (),
        BridgeError,
    >)
        ensures
            located(self.dimension(), coordinate@.len(), result_view(result), colored_round_trip(color@, result_view(result), no_response_text())),
    {
        match &self.light_arr_enum {
            LightArrangementTypes::Test1D(arr) | LightArrangementTypes::Ws281x1D(arr) => set_at(arr, Placement::Closest, coordinate, max_search_distance, color),
            LightArrangementTypes::Test2D(arr) | LightArrangementTypes::Ws281x2D(arr) => set_at(arr, Placement::Closest, coordinate, max_search_distance, color),
            LightArrangementTypes::Test3D(arr) | LightArrangementTypes::Ws281x3D(arr) => set_at(arr, Placement::Closest, coordinate, max_search_distance, color),
            LightArrangementTypes::Test4D(arr) | LightArrangementTypes::Ws281x4D(arr) => set_at(arr, Placement::Closest, coordinate, max_search_distance, color),
        }
    }

    /// Colours the lights within `set_distance` of the point, dimmer the
    /// further away.
    pub fn set_decreasing_intensity(&self, coordinate: Vec<S>, set_distance: S, color: PythonColor) -> (result: Result<
        (),
        BridgeError,
    >)
        ensures
            located(self.dimension(), coordinate@.len(), result_view(result), colored_round_trip(color@, result_view(result), no_response_text())),
    {
        match &self.light_arr_enum {
            LightArrangementTypes::Test1D(arr) | LightArrangementTypes::Ws281x1D(arr) => set_at(arr, Placement::DecreasingIntensity, coordinate, set_distance, color),
            LightArrangementTypes::Test2D(arr) | LightArrangementTypes::Ws281x2D(arr) => set_at(arr, Placement::DecreasingIntensity, coordinate, set_distance, color),
            LightArrangementTypes::Test3D(arr) | LightArrangementTypes::Ws281x3D(arr) => set_at(arr, Placement::DecreasingIntensity, coordinate, set_distance, color),
            LightArrangementTypes::Test4D(arr) | LightArrangementTypes::Ws281x4D(arr) => set_at(arr, Placement::DecreasingIntensity, coordinate, set_distance, color),
        }
    }

    /// As `set_decreasing_intensity`, merged with the colours already there.
    pub fn set_decreasing_intensity_merge(&self, coordinate: Vec<S>, set_distance: S, color: PythonColor) -> (result: Result<
        (),
        BridgeError,
    >)
        ensures
            located(self.dimension(), coordinate@.len(), result_view(result), colored_round_trip(color@, result_view(result), no_response_text())),
    {
        match &self.light_arr_enum {
            LightArrangementTypes::Test1D(arr) | LightArrangementTypes::Ws281x1D(arr) => set_at(arr, Placement::DecreasingIntensityMerge, coordinate, set_distance, color),
            LightArrangementTypes::Test2D(arr) | LightArrangementTypes::Ws281x2D(arr) => set_at(arr, Placement::DecreasingIntensityMerge, coordinate, set_distance, color),
            LightArrangementTypes::Test3D(arr) | LightArrangementTypes::Ws281x3D(arr) => set_at(arr, Placement::DecreasingIntensityMerge, coordinate, set_distance, color),
            LightArrangementTypes::Test4D(arr) | LightArrangementTypes::Ws281x4D(arr) => set_at(arr, Placement::DecreasingIntensityMerge, coordinate, set_distance, color),
        }
    }

    /// Colours every light within `radius` of the point.
    pub fn set_all_in_radius(&self, coordinate: Vec<S>, radius: S, color: PythonColor) -> (result: Result<
        (),
        BridgeError,
    >)
        ensures
            located(self.dimension(), coordinate@.len(), result_view(result), colored_round_trip(color@, result_view(result), no_response_text())),
    {
        match &self.light_arr_enum {
            LightArrangementTypes::Test1D(arr) | LightArrangementTypes::Ws281x1D(arr) => set_at(arr, Placement::Radius, coordinate, radius, color),
            LightArrangementTypes::Test2D(arr) | LightArrangementTypes::Ws281x2D(arr) => set_at(arr, Placement::Radius, coordinate, radius, color),
            LightArrangementTypes::Test3D(arr) | LightArrangementTypes::Ws281x3D(arr) => set_at(arr, Placement::Radius, coordinate, radius, color),
            LightArrangementTypes::Test4D(arr) | LightArrangementTypes::Ws281x4D(arr) => set_at(arr, Placement::Radius, coordinate, radius, color),
        }
    }

    /// Colours every light in the box between the two corners.
    pub fn set_all_in_box(&self, loc1: Vec<S>, loc2: Vec<S>, color: PythonColor) -> (result: Result<
        (),
        BridgeError,
    >)
        ensures
            located(self.dimension(), loc1@.len(), result_view(result), located(self.dimension(), loc2@.len(), result_view(result), colored_round_trip(color@, result_view(result), no_response_text()))),
    {
        match &self.light_arr_enum {
            LightArrangementTypes::Test1D(arr) | LightArrangementTypes::Ws281x1D(arr) => set_box_at(arr, loc1, loc2, color),
            LightArrangementTypes::Test2D(arr) | LightArrangementTypes::Ws281x2D(arr) => set_box_at(arr, loc1, loc2, color),
            LightArrangementTypes::Test3D(arr) | LightArrangementTypes::Ws281x3D(arr) => set_box_at(arr, loc1, loc2, color),
            LightArrangementTypes::Test4D(arr) | LightArrangementTypes::Ws281x4D(arr) => set_box_at(arr, loc1, loc2, color),
        }
    }

    /// Colours the light at `index`.
    pub fn set_by_index(&self, index: usize, color: PythonColor) -> (result: Result<(), BridgeError>)
        ensures
            colored_round_trip(color@, result_view(result), no_response_text()),
    {
        match &self.light_arr_enum {
            LightArrangementTypes::Test1D(arr) | LightArrangementTypes::Ws281x1D(arr) => arr.set_by_index(index, color),
            LightArrangementTypes::Test2D(arr) | LightArrangementTypes::Ws281x2D(arr) => arr.set_by_index(index, color),
            LightArrangementTypes::Test3D(arr) | LightArrangementTypes::Ws281x3D(arr) => arr.set_by_index(index, color),
            LightArrangementTypes::Test4D(arr) | LightArrangementTypes::Ws281x4D(arr) => arr.set_by_index(index, color),
        }
    }

    /// Puts the colours set so far on the strip.
    pub fn show(&self) -> (result: Result<(), BridgeError>)
        ensures
            unit_round_trip(result_view(result), wrong_response_text()),
    {
        match &self.light_arr_enum {
            LightArrangementTypes::Test1D(arr) | LightArrangementTypes::Ws281x1D(arr) => arr.show(),
            LightArrangementTypes::Test2D(arr) | LightArrangementTypes::Ws281x2D(arr) => arr.show(),
            LightArrangementTypes::Test3D(arr) | LightArrangementTypes::Ws281x3D(arr) => arr.show(),
            LightArrangementTypes::Test4D(arr) | LightArrangementTypes::Ws281x4D(arr) => arr.show(),
        }
    }

    /// Colours every light.
    pub fn fill(&self, color: PythonColor) -> (result: Result<(), BridgeError>)
        ensures
            colored_round_trip(color@, result_view(result), wrong_response_text()),
    {
        match &self.light_arr_enum {
            LightArrangementTypes::Test1D(arr) | LightArrangementTypes::Ws281x1D(arr) => arr.fill(color),
            LightArrangementTypes::Test2D(arr) | LightArrangementTypes::Ws281x2D(arr) => arr.fill(color),
            LightArrangementTypes::Test3D(arr) | LightArrangementTypes::Ws281x3D(arr) => arr.fill(color),
            LightArrangementTypes::Test4D(arr) | LightArrangementTypes::Ws281x4D(arr) => arr.fill(color),
        }
    }

    /// The number of lights that the handle was made for.
    pub fn number_lights(&self) -> (count: i32)
        ensures
            count == self.lights(),
    {
        match &self.light_arr_enum {
            LightArrangementTypes::Test1D(arr) | LightArrangementTypes::Ws281x1D(arr) => arr.number_lights(),
            LightArrangementTypes::Test2D(arr) | LightArrangementTypes::Ws281x2D(arr) => arr.number_lights(),
            LightArrangementTypes::Test3D(arr) | LightArrangementTypes::Ws281x3D(arr) => arr.number_lights(),
            LightArrangementTypes::Test4D(arr) | LightArrangementTypes::Ws281x4D(arr) => arr.number_lights(),
        }
    }
}

} // verus!

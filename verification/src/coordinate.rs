//! A location in the arrangement's space.

use vstd::prelude::*;
use crate::errors::{BridgeError, BridgeErrorView};
use crate::util::{dimension_text, vec_to_array};

verus! {

/// A point of `N` components. The bridge carries the components and never
/// computes with them, so their type `S` is the caller's choice.
#[derive(Copy, Debug, PartialEq)]
pub struct Coordinate<S, const N: usize> {
    pub coords: [S; N],
}

impl<S: Copy, const N: usize> Clone for Coordinate<S, N> {
    fn clone(&self) -> (copy: Self)
        ensures
            copy == *self,
    {
        *self
    }
}

impl<S, const N: usize> View for Coordinate<S, N> {
    type V = Seq<S>;

    open spec fn view(&self) -> Seq<S> {
        self.coords@
    }
}

impl<S, const N: usize> Coordinate<S, N> {
    /// The point with the given cartesian components; an error unless there
    /// are exactly `N` of them.
    pub fn cartesian(coordinate: Vec<S>) -> (result: Result<Self, BridgeError>)
        ensures
            coordinate@.len() == N ==> (result matches Ok(point) && point@ == coordinate@),
            coordinate@.len() != N ==> (result matches Err(error) && error@
                == BridgeErrorView::DomainError(dimension_text(N as nat, coordinate@.len()))),
    {
        match vec_to_array::<S, N>(coordinate) {
            Ok(coords) => Ok(Coordinate { coords }),
            Err(error) => Err(error),
        }
    }

    /// The number of components, which is `N`.
    pub fn dimension(&self) -> (count: usize)
        ensures
            count == N,
            self@.len() == N,
    {
        N
    }
}

} // verus!

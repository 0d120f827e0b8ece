//! What holds of a request on its way from the handle to the worker and back.
//!
//! The statements here follow one request through `dispatch`, through the
//! call on the arrangement, through `respond` and through the handle's reading
//! of the response. Where the arrangement's own behaviour matters, it is that
//! of a strip which keeps one colour per light.

use vstd::prelude::*;
use crate::coordinate::Coordinate;
use crate::errors::BridgeErrorView;
use crate::light_arrangement_thread::{
    color_reply_spec, init_reply_spec, option_color_reply_spec, unit_reply_spec,
};
use crate::requests::Requests;
use crate::responses::ResponsesView;
use crate::types::Color;
use crate::worker::{
    after_send_spec, dispatch_spec, fits, init_response_spec, out_of_bounds_text, respond_spec,
    DispatchView, Operation, Outcome, WorkerState,
};

verus! {

/// The outcome of a call by index, of `Fill` or of `Show` on a strip whose
/// lights have the colours `lights`, and the colours after it. A call at a
/// place has no outcome here: where the lights are is not part of this model.
pub open spec fn strip_call<S, const N: usize>(
    lights: Seq<Color>,
    operation: Operation<S, N>,
) -> Option<(Outcome, Seq<Color>)> {
    match operation {
        Operation::GetByIndex(index) => if index < lights.len() {
            Some((Outcome::Light(lights[index as int]), lights))
        } else {
            None
        },
        Operation::SetByIndex(index, color) => if index < lights.len() {
            Some((Outcome::Done, lights.update(index as int, color)))
        } else {
            None
        },
        Operation::Fill(color) => Some((Outcome::Done, Seq::new(lights.len(), |i: int| color))),
        Operation::Show => Some((Outcome::Done, lights)),
        _ => None,
    }
}

/// One turn of the worker's loop on such a strip: the response that goes
/// back, if any, and the colours after the turn.
pub open spec fn served<S, const N: usize>(
    lights: Seq<Color>,
    request: Requests<S, N>,
) -> Option<(Option<ResponsesView>, Seq<Color>)> {
    match dispatch_spec(Some(request), lights.len()) {
        DispatchView::Stop => Some((None, lights)),
        DispatchView::Reply(response) => Some((Some(response), lights)),
        DispatchView::Invoke(operation) => match strip_call(lights, operation) {
            Some((outcome, after)) => Some((Some(respond_spec(outcome)), after)),
            None => None,
        },
    }
}

/// A request to set a light that the strip does not have is answered with a
/// domain error that names the index and the number of lights; the worker
/// makes no call, goes on listening, and every light reads as it did before.
pub proof fn rejected_set_changes_nothing<S, const N: usize>(
    lights: Seq<Color>,
    index: usize,
    color: Color,
    silence: Seq<char>,
    other: usize,
)
    requires
        index >= lights.len(),
        other < lights.len(),
    ensures
        !dispatch_spec(Some(Requests::<S, N>::SetByIndex(index, color)), lights.len())
            .touches_arrangement(),
        dispatch_spec(Some(Requests::<S, N>::SetByIndex(index, color)), lights.len()).next_state()
            == WorkerState::Listening,
        served(lights, Requests::<S, N>::SetByIndex(index, color)) matches Some((response, after))
            && after == lights && unit_reply_spec(response, silence) == Err::<(), BridgeErrorView>(
            BridgeErrorView::DomainError(out_of_bounds_text(index as nat, lights.len())),
        ),
        served(lights, Requests::<S, N>::GetByIndex(other)) matches Some((response, after))
            && after == lights && color_reply_spec(response) == Ok::<(u8, u8, u8), BridgeErrorView>(
            (lights[other as int].red, lights[other as int].green, lights[other as int].blue),
        ),
{
}

/// Setting a light that the strip has and then reading it gives the colour
/// that was set.
pub proof fn read_after_write<S, const N: usize>(
    lights: Seq<Color>,
    index: usize,
    color: Color,
    silence: Seq<char>,
)
    requires
        index < lights.len(),
    ensures
        served(lights, Requests::<S, N>::SetByIndex(index, color)) matches Some((set, after))
            && unit_reply_spec(set, silence) == Ok::<(), BridgeErrorView>(()) && (served(
            after,
            Requests::<S, N>::GetByIndex(index),
        ) matches Some((got, last)) && last == after && color_reply_spec(got) == Ok::<
            (u8, u8, u8),
            BridgeErrorView,
        >((color.red, color.green, color.blue))),
{
}

/// A search that finds no light in reach is a success without a colour, never
/// an error; one that finds a light gives its colour. The search itself is
/// made with the location and the distance of the request.
pub proof fn absence_is_success<S, const N: usize>(
    loc: Coordinate<S, N>,
    max_search_distance: S,
    number_lights: nat,
    found: Option<Color>,
)
    ensures
        dispatch_spec(Some(Requests::GetClosest(loc, max_search_distance)), number_lights)
            == DispatchView::Invoke(Operation::GetClosest(loc, max_search_distance)),
        option_color_reply_spec(Some(respond_spec(Outcome::Closest(None)))) == Ok::<
            Option<(u8, u8, u8)>,
            BridgeErrorView,
        >(None),
        found matches Some(color) ==> option_color_reply_spec(
            Some(respond_spec(Outcome::Closest(found))),
        ) == Ok::<Option<(u8, u8, u8)>, BridgeErrorView>(Some((color.red, color.green, color.blue))),
{
}

/// Whether the handle operation that sends `request` reads `response` as a
/// success.
pub open spec fn read_as_success<S, const N: usize>(
    request: Requests<S, N>,
    response: ResponsesView,
    silence: Seq<char>,
) -> bool {
    match request {
        Requests::GetClosest(_, _) => option_color_reply_spec(Some(response)) is Ok,
        Requests::GetByIndex(_) => color_reply_spec(Some(response)) is Ok,
        _ => unit_reply_spec(Some(response), silence) is Ok,
    }
}

/// Each response has the shape of its request: when the worker calls the
/// arrangement for a request and the outcome is of the call's kind, the
/// handle reads the response to it as a success.
pub proof fn fitting_outcome_is_a_success<S, const N: usize>(
    request: Requests<S, N>,
    number_lights: nat,
    outcome: Outcome,
    silence: Seq<char>,
)
    requires
        dispatch_spec(Some(request), number_lights) matches DispatchView::Invoke(operation)
            && fits(operation, outcome),
    ensures
        read_as_success(request, respond_spec(outcome), silence),
{
}

/// Every location that reaches the arrangement has exactly `N` components.
pub proof fn locations_have_the_dimension<S, const N: usize>(operation: Operation<S, N>)
    ensures
        match operation {
            Operation::GetClosest(loc, _) => loc@.len() == N,
            Operation::SetClosest(loc, _, _) => loc@.len() == N,
            Operation::SetDecreasingIntensity(loc, _, _) => loc@.len() == N,
            Operation::SetDecreasingIntensityMerge(loc, _, _) => loc@.len() == N,
            Operation::SetAllInBox(loc1, loc2, _) => loc1@.len() == N && loc2@.len() == N,
            Operation::SetAllInRadius(loc, _, _) => loc@.len() == N,
            _ => true,
        },
{
}

/// The worker owes exactly one response to every request but `Quit`, and none
/// to `Quit` or to a closed channel.
pub proof fn one_response_per_request<S, const N: usize>(
    received: Option<Requests<S, N>>,
    number_lights: nat,
)
    ensures
        dispatch_spec(received, number_lights).responses_owed() == (if received matches Some(
            request,
        ) && request.expects_response() {
            1nat
        } else {
            0nat
        }),
{
}

/// `Quit` and a closed channel end the worker, and only they do: a request
/// that is refused leaves it listening. A worker that has ended stays so.
pub proof fn quit_ends_the_worker<S, const N: usize>(
    received: Option<Requests<S, N>>,
    number_lights: nat,
    delivered: bool,
)
    ensures
        dispatch_spec(received, number_lights).next_state() == (if received matches Some(request)
            && request.expects_response() {
            WorkerState::Listening
        } else {
            WorkerState::Terminated
        }),
        after_send_spec(WorkerState::Terminated, delivered) == WorkerState::Terminated,
        after_send_spec(WorkerState::Listening, false) == WorkerState::Terminated,
{
}

/// No step takes the worker back to `Initializing`.
pub proof fn initializing_is_left_for_good<S, const N: usize>(
    built: Result<(), Seq<char>>,
    received: Option<Requests<S, N>>,
    number_lights: nat,
    state: WorkerState,
    delivered: bool,
)
    ensures
        init_response_spec(built).1 != WorkerState::Initializing,
        dispatch_spec(received, number_lights).next_state() != WorkerState::Initializing,
        state != WorkerState::Initializing ==> after_send_spec(state, delivered)
            != WorkerState::Initializing,
{
}

/// The handshake: there is a handle exactly when the worker listens. A worker
/// whose arrangement was built reports so and listens, and the constructor
/// succeeds on that report; a worker whose arrangement could not be built
/// reports the reason and ends, and the constructor fails with that reason.
pub proof fn handle_only_for_a_listening_worker(built: Result<(), Seq<char>>)
    ensures
        init_reply_spec(Some(init_response_spec(built).0)) is Ok <==> init_response_spec(built).1
            == WorkerState::Listening,
        built is Ok ==> init_reply_spec(Some(init_response_spec(built).0)) is Ok,
        built matches Err(reason) ==> init_reply_spec(Some(init_response_spec(built).0)) == Err::<
            (),
            BridgeErrorView,
        >(BridgeErrorView::InitializationFailure(reason)),
{
}

} // verus!

//! The decisions of the worker loop.
//!
//! The worker owns the arrangement and is the only thread that touches it. It
//! takes one request at a time, in arrival order, and answers each but `Quit`
//! with exactly one response. This module decides, and says nothing of how the
//! arrangement carries a call out: the thread that owns the arrangement runs
//! the loop, makes each call that `dispatch` asks for and hands the outcome to
//! `respond`.

use vstd::prelude::*;
use std::sync::mpsc::{Receiver, Sender};
use crate::channel::{receive_message, send_message};
use crate::coordinate::Coordinate;
use crate::requests::Requests;
use crate::responses::{Responses, ResponsesView};
use crate::text::{decimal, two_number_text};
use crate::types::Color;

verus! {

/// Where the worker stands. It starts in `Initializing`, never comes back to
/// it, and never leaves `Terminated`.
#[derive(Clone, Copy, Debug, PartialEq, Eq, Structural)]
pub enum WorkerState {
    /// The arrangement is being built.
    Initializing,
    /// The worker serves requests.
    Listening,
    /// The worker has left its loop.
    Terminated,
}

/// One call on the arrangement, with arguments that the worker has checked.
#[derive(Copy, Debug, PartialEq)]
pub enum Operation<S, const N: usize> {
    GetClosest(Coordinate<S, N>, S),
    SetClosest(Coordinate<S, N>, S, Color),
    SetDecreasingIntensity(Coordinate<S, N>, S, Color),
    SetDecreasingIntensityMerge(Coordinate<S, N>, S, Color),
    SetAllInBox(Coordinate<S, N>, Coordinate<S, N>, Color),
    SetAllInRadius(Coordinate<S, N>, S, Color),
    GetByIndex(usize),
    SetByIndex(usize, Color),
    Fill(Color),
    Show,
}

impl<S: Copy, const N: usize> Clone for Operation<S, N> {
    fn clone(&self) -> (copy: Self)
        ensures
            copy == *self,
    {
        *self
    }
}

/// What the arrangement gave back for one call.
#[derive(Clone, Copy, Debug, PartialEq, Eq, Structural)]
pub enum Outcome {
    /// A call that changes or shows lights has returned.
    Done,
    /// The result of a search: the colour of the closest light, if one was in
    /// reach.
    Closest(Option<Color>),
    /// The colour of the light that was looked up.
    Light(Color),
}

/// What the worker does about what it received.
#[derive(Debug, PartialEq)]
pub enum Dispatch<S, const N: usize> {
    /// Leave the loop. Nothing is sent.
    Stop,
    /// Send this response. The arrangement is not touched.
    Reply(Responses),
    /// Make this call on the arrangement and send the response to its outcome.
    Invoke(Operation<S, N>),
}

/// A `Dispatch` with its response by its view.
pub enum DispatchView<S, const N: usize> {
    Stop,
    Reply(ResponsesView),
    Invoke(Operation<S, N>),
}

impl<S, const N: usize> View for Dispatch<S, N> {
    type V = DispatchView<S, N>;

    open spec fn view(&self) -> DispatchView<S, N> {
        match self {
            Dispatch::Stop => DispatchView::Stop,
            Dispatch::Reply(response) => DispatchView::Reply(response@),
            Dispatch::Invoke(operation) => DispatchView::Invoke(*operation),
        }
    }
}

impl<S, const N: usize> DispatchView<S, N> {
    /// How many responses the worker sends on this decision.
    pub open spec fn responses_owed(self) -> nat {
        match self {
            DispatchView::Stop => 0,
            DispatchView::Reply(_) => 1,
            DispatchView::Invoke(_) => 1,
        }
    }

    /// Whether this decision has the arrangement called.
    pub open spec fn touches_arrangement(self) -> bool {
        self is Invoke
    }

    /// The state of a listening worker once it has decided this.
    pub open spec fn next_state(self) -> WorkerState {
        match self {
            DispatchView::Stop => WorkerState::Terminated,
            _ => WorkerState::Listening,
        }
    }
}

/// The message for an index that the strip does not have.
pub open spec fn out_of_bounds_text(index: nat, number_lights: nat) -> Seq<char> {
    "Index "@ + decimal(index) + " is out of bounds for light strip with "@ + decimal(
        number_lights,
    ) + " lights"@
}

/// What the worker decides on `received`, the result of blocking on its
/// receiver, when the strip has `number_lights` lights.
///
/// A closed channel and `Quit` end the loop. An index outside the strip is
/// answered with an error and no call. Every other request becomes the call of
/// the same name, with the same arguments.
pub open spec fn dispatch_spec<S, const N: usize>(
    received: Option<Requests<S, N>>,
    number_lights: nat,
) -> DispatchView<S, N> {
    match received {
        None => DispatchView::Stop,
        Some(Requests::Quit) => DispatchView::Stop,
        Some(Requests::GetClosest(loc, max_search_distance)) => DispatchView::Invoke(
            Operation::GetClosest(loc, max_search_distance),
        ),
        Some(Requests::SetClosest(loc, max_search_distance, color)) => DispatchView::Invoke(
            Operation::SetClosest(loc, max_search_distance, color),
        ),
        Some(Requests::SetDecreasingIntensity(loc, set_distance, color)) => DispatchView::Invoke(
            Operation::SetDecreasingIntensity(loc, set_distance, color),
        ),
        Some(Requests::SetDecreasingIntensityMerge(loc, set_distance, color)) => {
            DispatchView::Invoke(Operation::SetDecreasingIntensityMerge(loc, set_distance, color))
        },
        Some(Requests::SetBox(loc1, loc2, color)) => DispatchView::Invoke(
            Operation::SetAllInBox(loc1, loc2, color),
        ),
        Some(Requests::SetRadius(loc, radius, color)) => DispatchView::Invoke(
            Operation::SetAllInRadius(loc, radius, color),
        ),
        Some(Requests::GetByIndex(index)) => if index < number_lights {
            DispatchView::Invoke(Operation::GetByIndex(index))
        } else {
            DispatchView::Reply(ResponsesView::Error(out_of_bounds_text(index as nat, number_lights)))
        },
        Some(Requests::SetByIndex(index, color)) => if index < number_lights {
            DispatchView::Invoke(Operation::SetByIndex(index, color))
        } else {
            DispatchView::Reply(ResponsesView::Error(out_of_bounds_text(index as nat, number_lights)))
        },
        Some(Requests::Fill(color)) => DispatchView::Invoke(Operation::Fill(color)),
        Some(Requests::Show) => DispatchView::Invoke(Operation::Show),
    }
}

/// The response that refuses `index` on a strip of `number_lights` lights.
fn out_of_bounds(index: usize, number_lights: usize) -> (response: Responses)
    ensures
        response@ == ResponsesView::Error(out_of_bounds_text(index as nat, number_lights as nat)),
{
    Responses::Error(
        two_number_text(
            "Index ",
            index,
            " is out of bounds for light strip with ",
            number_lights,
            " lights",
        ),
    )
}

/// Decides what to do about `received`, the result of blocking on the request
/// receiver (`None`: every sender is gone), for a strip of `number_lights`
/// lights.
pub fn dispatch<S, const N: usize>(received: Option<Requests<S, N>>, number_lights: usize) -> (decision:
    Dispatch<S, N>)
    ensures
        decision@ == dispatch_spec(received, number_lights as nat),
{
    match received {
        None => Dispatch::Stop,
        Some(request) => match request {
            Requests::Quit => Dispatch::Stop,
            Requests::GetClosest(loc, max_search_distance) => Dispatch::Invoke(
                Operation::GetClosest(loc, max_search_distance),
            ),
            Requests::GetByIndex(index) => {
                if index >= number_lights {
                    Dispatch::Reply(out_of_bounds(index, number_lights))
                } else {
                    Dispatch::Invoke(Operation::GetByIndex(index))
                }
            },
            Requests::SetClosest(loc, max_search_distance, color) => Dispatch::Invoke(
                Operation::SetClosest(loc, max_search_distance, color),
            ),
            Requests::SetDecreasingIntensity(loc, set_distance, color) => Dispatch::Invoke(
                Operation::SetDecreasingIntensity(loc, set_distance, color),
            ),
            Requests::SetDecreasingIntensityMerge(loc, set_distance, color) => Dispatch::Invoke(
                Operation::SetDecreasingIntensityMerge(loc, set_distance, color),
            ),
            Requests::SetBox(loc1, loc2, color) => Dispatch::Invoke(
                Operation::SetAllInBox(loc1, loc2, color),
            ),
            Requests::SetRadius(loc, radius, color) => Dispatch::Invoke(
                Operation::SetAllInRadius(loc, radius, color),
            ),
            Requests::SetByIndex(index, color) => {
                if index >= number_lights {
                    Dispatch::Reply(out_of_bounds(index, number_lights))
                } else {
                    Dispatch::Invoke(Operation::SetByIndex(index, color))
                }
            },
            Requests::Fill(color) => Dispatch::Invoke(Operation::Fill(color)),
            Requests::Show => Dispatch::Invoke(Operation::Show),
        },
    }
}

/// The response to the outcome of a call: a search answers with the colour it
/// found or with none, a lookup with the colour, and every other call with a
/// bare acknowledgement.
pub open spec fn respond_spec(outcome: Outcome) -> ResponsesView {
    match outcome {
        Outcome::Done => ResponsesView::Acknowledged,
        Outcome::Closest(None) => ResponsesView::OptionColorResponse(None),
        Outcome::Closest(Some(color)) => ResponsesView::OptionColorResponse(
            Some((color.red, color.green, color.blue)),
        ),
        Outcome::Light(color) => ResponsesView::ColorResponse(
            (color.red, color.green, color.blue),
        ),
    }
}

/// The one response that the worker sends for the outcome of a call.
pub fn respond(outcome: Outcome) -> (response: Responses)
    ensures
        response@ == respond_spec(outcome),
{
    match outcome {
        Outcome::Done => Responses::Acknowledged,
        Outcome::Closest(None) => Responses::OptionColorResponse(None),
        Outcome::Closest(Some(color)) => Responses::OptionColorResponse(Some(color.to_tuple())),
        Outcome::Light(color) => Responses::ColorResponse(color.to_tuple()),
    }
}

/// Whether `outcome` is of the kind that `operation` gives: a search gives
/// what it found, a lookup a colour, and every other call just returns.
pub open spec fn fits<S, const N: usize>(operation: Operation<S, N>, outcome: Outcome) -> bool {
    match operation {
        Operation::GetClosest(_, _) => outcome is Closest,
        Operation::GetByIndex(_) => outcome is Light,
        _ => outcome is Done,
    }
}

/// Whether `response` has the shape that the request behind `operation` calls
/// for.
pub open spec fn answers<S, const N: usize>(
    operation: Operation<S, N>,
    response: ResponsesView,
) -> bool {
    match operation {
        Operation::GetClosest(_, _) => response is OptionColorResponse,
        Operation::GetByIndex(_) => response is ColorResponse,
        _ => response is Acknowledged,
    }
}

/// The one response that the worker sends once `operation` has given
/// `outcome`. It has the shape that the request calls for exactly when the
/// outcome is of the operation's kind; an outcome of another kind is passed on
/// as it is, for the handle to report.
pub fn respond_to<S, const N: usize>(operation: &Operation<S, N>, outcome: Outcome) -> (response:
    Responses)
    ensures
        response@ == respond_spec(outcome),
        answers(*operation, response@) <==> fits(*operation, outcome),
{
    respond(outcome)
}

impl<S, const N: usize> Dispatch<S, N> {
    /// The state of a listening worker once it has decided this: it ends on
    /// `Stop` and listens on otherwise.
    pub fn next_state(&self) -> (state: WorkerState)
        ensures
            state == self@.next_state(),
    {
        match self {
            Dispatch::Stop => WorkerState::Terminated,
            _ => WorkerState::Listening,
        }
    }
}

impl WorkerState {
    /// Whether the loop goes round once more.
    pub fn is_listening(&self) -> (listening: bool)
        ensures
            listening == (*self == WorkerState::Listening),
    {
        match self {
            WorkerState::Listening => true,
            _ => false,
        }
    }
}

/// The handshake: what a worker in `Initializing` reports once it has tried to
/// build its arrangement, and the state it goes to. Success is answered with
/// `InitOk` and the worker listens; a failure is answered with `InitFailed` and
/// its reason, and the worker ends without ever listening.
pub open spec fn init_response_spec(built: Result<(), Seq<char>>) -> (ResponsesView, WorkerState) {
    match built {
        Ok(()) => (ResponsesView::InitOk, WorkerState::Listening),
        Err(reason) => (ResponsesView::InitFailed(reason), WorkerState::Terminated),
    }
}

/// The text of a failed build.
pub open spec fn built_view(built: Result<(), String>) -> Result<(), Seq<char>> {
    match built {
        Ok(()) => Ok(()),
        Err(reason) => Err(reason@),
    }
}

/// The first response of a worker, and its state after it, given whether the
/// arrangement could be built.
pub fn init_response(built: Result<(), String>) -> (report: (Responses, WorkerState))
    ensures
        (report.0@, report.1) == init_response_spec(built_view(built)),
{
    match built {
        Ok(()) => (Responses::InitOk, WorkerState::Listening),
        Err(reason) => (Responses::InitFailed(reason), WorkerState::Terminated),
    }
}

/// The state after a response was handed to the channel: a worker that could
/// not deliver it has nobody left to serve and ends; otherwise it stays as it
/// was.
pub open spec fn after_send_spec(state: WorkerState, delivered: bool) -> WorkerState {
    if delivered {
        state
    } else {
        WorkerState::Terminated
    }
}

/// The state of the worker after it tried to send a response.
pub fn after_send(state: WorkerState, delivered: bool) -> (next: WorkerState)
    ensures
        next == after_send_spec(state, delivered),
{
    if delivered {
        state
    } else {
        WorkerState::Terminated
    }
}

/// Sends `response` through `sender` and gives the state that follows `state`:
/// the worker ends if the response could not be delivered.
pub fn send_response(sender: &Sender<Responses>, response: Responses, state: WorkerState) -> (next:
    WorkerState)
    ensures
        next == after_send_spec(state, true) || next == after_send_spec(state, false),
{
    let undelivered = send_message(sender, response);
    after_send(state, undelivered.is_none())
}

/// Blocks on `receiver` for the next request and decides what to do about it,
/// or about the channel having closed.
pub fn next_dispatch<S, const N: usize>(
    receiver: &Receiver<Requests<S, N>>,
    number_lights: usize,
) -> (decision: Dispatch<S, N>)
    ensures
        exists|received: Option<Requests<S, N>>|
            decision@ == #[trigger] dispatch_spec(received, number_lights as nat),
{
    let received = receive_message(receiver);
    dispatch(received, number_lights)
}

} // verus!

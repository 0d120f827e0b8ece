//! The handle that callers hold.
//!
//! A handle owns one sender of requests and one receiver of responses, and
//! never the arrangement. Each operation sends one request and blocks for one
//! response; nothing else is outstanding on the handle meanwhile, so the
//! response that arrives is the one to that request.

use vstd::prelude::*;
use vstd::string::*;
use std::sync::mpsc::{Receiver, Sender};
use crate::channel::{receive_message, send_message};
use crate::coordinate::Coordinate;
use crate::errors::{result_view, BridgeError, BridgeErrorView};
use crate::requests::Requests;
use crate::util::color_of;
use crate::responses::{Responses, ResponsesView};
use crate::types::{PythonColor, PythonReturnColor};

verus! {

/// The text for a response of the wrong shape to a search or a lookup, and for
/// none at all.
pub open spec fn wrong_response_text() -> Seq<char> {
    "Got wrong response internally from Light Arrangement thread"@
}

/// The text for a response that carries a value where none was called for.
pub open spec fn unexpected_value_text() -> Seq<char> {
    "Expected None response internally but got value"@
}

/// The text for a response that never came.
pub open spec fn no_response_text() -> Seq<char> {
    "Failed to receive response from Light Arrangement thread"@
}

/// The text for a first response that is no part of the handshake.
pub open spec fn wrong_init_text() -> Seq<char> {
    "Failed to start light arrangement thread; Internally returned wrong response"@
}

/// The text for a handshake that ended without a response.
pub open spec fn no_init_text() -> Seq<char> {
    "Failed to start light thread due to receive error"@
}

/// What was received, with the response by its view.
pub open spec fn received_view(received: Option<Responses>) -> Option<ResponsesView> {
    match received {
        Some(response) => Some(response@),
        None => None,
    }
}

/// What the constructor makes of the first response: only `InitOk` yields a
/// handle.
pub open spec fn init_reply_spec(received: Option<ResponsesView>) -> Result<(), BridgeErrorView> {
    match received {
        Some(ResponsesView::InitOk) => Ok(()),
        Some(ResponsesView::InitFailed(reason)) => Err(
            BridgeErrorView::InitializationFailure(reason),
        ),
        Some(ResponsesView::Error(reason)) => Err(BridgeErrorView::InitializationFailure(reason)),
        Some(_) => Err(BridgeErrorView::InitializationFailure(wrong_init_text())),
        None => Err(BridgeErrorView::InitializationFailure(no_init_text())),
    }
}

/// What a search makes of its response.
pub open spec fn option_color_reply_spec(received: Option<ResponsesView>) -> Result<
    Option<PythonReturnColor>,
    BridgeErrorView,
> {
    match received {
        Some(ResponsesView::OptionColorResponse(color)) => Ok(color),
        Some(ResponsesView::Error(reason)) => Err(BridgeErrorView::DomainError(reason)),
        _ => Err(BridgeErrorView::ChannelSilence(wrong_response_text())),
    }
}

/// What a lookup makes of its response.
pub open spec fn color_reply_spec(received: Option<ResponsesView>) -> Result<
    PythonReturnColor,
    BridgeErrorView,
> {
    match received {
        Some(ResponsesView::ColorResponse(color)) => Ok(color),
        Some(ResponsesView::Error(reason)) => Err(BridgeErrorView::DomainError(reason)),
        _ => Err(BridgeErrorView::ChannelSilence(wrong_response_text())),
    }
}

/// What an operation without a result makes of its response; `silence` is the
/// text for a response that never came.
pub open spec fn unit_reply_spec(received: Option<ResponsesView>, silence: Seq<char>) -> Result<
    (),
    BridgeErrorView,
> {
    match received {
        Some(ResponsesView::Acknowledged) => Ok(()),
        Some(ResponsesView::Error(reason)) => Err(BridgeErrorView::DomainError(reason)),
        Some(_) => Err(BridgeErrorView::ChannelSilence(unexpected_value_text())),
        None => Err(BridgeErrorView::ChannelSilence(silence)),
    }
}

/// What a handle makes of an attempt to queue a request: a request that came
/// back undelivered could not reach the worker.
pub open spec fn queued_spec(undelivered: bool) -> Result<(), BridgeErrorView> {
    if undelivered {
        Err(BridgeErrorView::ChannelUnreachable)
    } else {
        Ok(())
    }
}

/// Maps what the sender gave back, the undelivered message if there is one,
/// to whether the request was queued. Only for a queued request does the
/// handle go on to wait for a response.
pub fn queued<T>(undelivered: Option<T>) -> (result: Result<(), BridgeError>)
    ensures
        result_view(result) == queued_spec(undelivered is Some),
{
    match undelivered {
        Some(_) => Err(BridgeError::ChannelUnreachable),
        None => Ok(()),
    }
}

/// Maps the first response of a worker, or the lack of one, to the success or
/// failure of the construction.
pub fn init_reply(received: Option<Responses>) -> (result: Result<(), BridgeError>)
    ensures
        result_view(result) == init_reply_spec(received_view(received)),
{
    match received {
        Some(Responses::InitOk) => Ok(()),
        Some(Responses::InitFailed(reason)) => Err(BridgeError::InitializationFailure(reason)),
        Some(Responses::Error(reason)) => Err(BridgeError::InitializationFailure(reason)),
        Some(_) => Err(
            BridgeError::InitializationFailure(
                String::from_str(
                    "Failed to start light arrangement thread; Internally returned wrong response",
                ),
            ),
        ),
        None => Err(
            BridgeError::InitializationFailure(
                String::from_str("Failed to start light thread due to receive error"),
            ),
        ),
    }
}

/// Maps the response to a search, or the lack of one, to what the caller gets.
/// That no light was in reach is a success.
pub fn option_color_reply(received: Option<Responses>) -> (result: Result<
    Option<PythonReturnColor>,
    BridgeError,
>)
    ensures
        result_view(result) == option_color_reply_spec(received_view(received)),
{
    match received {
        Some(Responses::OptionColorResponse(color)) => Ok(color),
        Some(Responses::Error(reason)) => Err(BridgeError::DomainError(reason)),
        _ => Err(
            BridgeError::ChannelSilence(
                String::from_str("Got wrong response internally from Light Arrangement thread"),
            ),
        ),
    }
}

/// Maps the response to a lookup, or the lack of one, to what the caller gets.
pub fn color_reply(received: Option<Responses>) -> (result: Result<PythonReturnColor, BridgeError>)
    ensures
        result_view(result) == color_reply_spec(received_view(received)),
{
    match received {
        Some(Responses::ColorResponse(color)) => Ok(color),
        Some(Responses::Error(reason)) => Err(BridgeError::DomainError(reason)),
        _ => Err(
            BridgeError::ChannelSilence(
                String::from_str("Got wrong response internally from Light Arrangement thread"),
            ),
        ),
    }
}

/// Maps the response to an operation without a result, or the lack of one, to
/// what the caller gets; `silence` is the text for a response that never came.
pub fn unit_reply(received: Option<Responses>, silence: &str) -> (result: Result<(), BridgeError>)
    ensures
        result_view(result) == unit_reply_spec(received_view(received), silence@),
{
    match received {
        Some(Responses::Acknowledged) => Ok(()),
        Some(Responses::Error(reason)) => Err(BridgeError::DomainError(reason)),
        Some(_) => Err(
            BridgeError::ChannelSilence(
                String::from_str("Expected None response internally but got value"),
            ),
        ),
        None => Err(BridgeError::ChannelSilence(String::from_str(silence))),
    }
}

/// Object to interface with light arrangements that cannot leave the thread
/// that built them. The arrangement lives on a worker thread, and this object
/// talks to it through the two channels.
#[verifier::reject_recursive_types(S)]
#[verifier::reject_recursive_types(N)]
pub struct LightArrangementThread<S, const N: usize> {
    request_sender: Sender<Requests<S, N>>,
    response_receiver: Receiver<Responses>,
    number_lights: i32,
}

/// Whether `result` is what one round trip of a search can give: the request
/// could not be queued, or the result is what `option_color_reply` makes of
/// whatever was received.
pub open spec fn search_round_trip(
    result: Result<Option<PythonReturnColor>, BridgeErrorView>,
) -> bool {
    result == Err::<Option<PythonReturnColor>, BridgeErrorView>(BridgeErrorView::ChannelUnreachable)
        || exists|received: Option<ResponsesView>|
        result == #[trigger] option_color_reply_spec(received)
}

/// As `search_round_trip`, for a lookup and `color_reply`.
pub open spec fn lookup_round_trip(result: Result<PythonReturnColor, BridgeErrorView>) -> bool {
    result == Err::<PythonReturnColor, BridgeErrorView>(BridgeErrorView::ChannelUnreachable)
        || exists|received: Option<ResponsesView>| result == #[trigger] color_reply_spec(received)
}

/// As `search_round_trip`, for an operation without a result and `unit_reply`.
pub open spec fn unit_round_trip(result: Result<(), BridgeErrorView>, silence: Seq<char>) -> bool {
    result == Err::<(), BridgeErrorView>(BridgeErrorView::ChannelUnreachable)
        || exists|received: Option<ResponsesView>|
        result == #[trigger] unit_reply_spec(received, silence)
}

/// What an operation that carries a colour can give: the error of a colour
/// list that is too short, in which case nothing is sent, or else one round
/// trip.
pub open spec fn colored_round_trip(
    color: Seq<u8>,
    result: Result<(), BridgeErrorView>,
    silence: Seq<char>,
) -> bool {
    match color_of(color) {
        Err(reason) => result == Err::<(), BridgeErrorView>(BridgeErrorView::DomainError(reason)),
        Ok(_) => unit_round_trip(result, silence),
    }
}

impl<S: Copy, const N: usize> LightArrangementThread<S, N> {
    /// The number of lights that the handle was made for.
    pub closed spec fn lights(&self) -> i32 {
        self.number_lights
    }

    /// Makes the handle for a worker that has just been started with the other
    /// ends of the two channels, and blocks until the worker says whether its
    /// arrangement could be built. There is a handle only if it could.
    pub fn new(
        request_sender: Sender<Requests<S, N>>,
        response_receiver: Receiver<Responses>,
        number_lights: i32,
    ) -> (result: Result<Self, BridgeError>)
        ensures
            result matches Ok(handle) ==> handle.lights() == number_lights,
            exists|received: Option<ResponsesView>|
                match #[trigger] init_reply_spec(received) {
                    Ok(()) => result is Ok,
                    Err(error) => result matches Err(e) && e@ == error,
                },
    {
        let received = receive_message(&response_receiver);
        let ghost seen = received_view(received);
        match init_reply(received) {
            Ok(()) => {
                assert(init_reply_spec(seen) is Ok);
                Ok(LightArrangementThread { request_sender, response_receiver, number_lights })
            },
            Err(error) => {
                assert(init_reply_spec(seen) == Err::<(), BridgeErrorView>(error@));
                Err(error)
            },
        }
    }

    /// Sends `request` and, if it was queued, blocks for the response to it.
    /// The error is that the request could not be queued, as `queued` says;
    /// `None` is that no response came.
    fn exchange(&self, request: Requests<S, N>) -> (result: Result<Option<Responses>, BridgeError>)
        ensures
            result matches Err(error) ==> Err::<(), BridgeErrorView>(error@) == queued_spec(true),
    {
        match queued(send_message(&self.request_sender, request)) {
            Err(error) => Err(error),
            Ok(()) => Ok(receive_message(&self.response_receiver)),
        }
    }

    /// One round trip of an operation without a result.
    fn exchange_unit(&self, request: Requests<S, N>, silence: &str) -> (result: Result<
        (),
        BridgeError,
    >)
        ensures
            unit_round_trip(result_view(result), silence@),
    {
        match self.exchange(request) {
            Err(error) => Err(error),
            Ok(received) => {
                let ghost seen = received_view(received);
                let result = unit_reply(received, silence);
                assert(result_view(result) == unit_reply_spec(seen, silence@));
                result
            },
        }
    }

    /// One round trip of an operation that carries a colour, if there is a
    /// request to send.
    fn exchange_colored(&self, request: Result<Requests<S, N>, BridgeError>, silence: &str) -> (result:
        Result<(), BridgeError>)
        ensures
            match result_view(request) {
                Err(error) => result_view(result) == Err::<(), BridgeErrorView>(error),
                Ok(_) => unit_round_trip(result_view(result), silence@),
            },
    {
        match request {
            Err(error) => Err(error),
            Ok(request) => self.exchange_unit(request, silence),
        }
    }

    /// The colour of the light closest to `loc`, if one lies within
    /// `max_search_distance` of it.
    pub fn get_closest(&self, loc: &Coordinate<S, N>, max_search_distance: S) -> (result: Result<
        Option<PythonReturnColor>,
        BridgeError,
    >)
        ensures
            search_round_trip(result_view(result)),
    {
        match self.exchange(Requests::get_closest(loc, max_search_distance)) {
            Err(error) => Err(error),
            Ok(received) => {
                let ghost seen = received_view(received);
                let result = option_color_reply(received);
                assert(result_view(result) == option_color_reply_spec(seen));
                result
            },
        }
    }

    /// The colour of the light at `index`.
    pub fn get_by_index(&self, index: usize) -> (result: Result<PythonReturnColor, BridgeError>)
        ensures
            lookup_round_trip(result_view(result)),
    {
        match self.exchange(Requests::get_by_index(index)) {
            Err(error) => Err(error),
            Ok(received) => {
                let ghost seen = received_view(received);
                let result = color_reply(received);
                assert(result_view(result) == color_reply_spec(seen));
                result
            },
        }
    }

    /// Colours the light closest to `loc`, if one lies within
    /// `max_search_distance` of it.
    pub fn set_closest(&self, loc: &Coordinate<S, N>, max_search_distance: S, color: PythonColor) -> (result:
        Result<(), BridgeError>)
        ensures
            colored_round_trip(color@, result_view(result), no_response_text()),
    {
        self.exchange_colored(
            Requests::set_closest(loc, max_search_distance, &color),
            "Failed to receive response from Light Arrangement thread",
        )
    }

    /// Colours the lights within `set_distance` of `loc`, dimmer the further
    /// away.
    pub fn set_decreasing_intensity(&self, loc: &Coordinate<S, N>, set_distance: S, color: PythonColor) -> (result:
        Result<(), BridgeError>)
        ensures
            colored_round_trip(color@, result_view(result), no_response_text()),
    {
        self.exchange_colored(
            Requests::set_decreasing_intensity(loc, set_distance, &color),
            "Failed to receive response from Light Arrangement thread",
        )
    }

    /// As `set_decreasing_intensity`, merged with the colours already there.
    pub fn set_decreasing_intensity_merge(
        &self,
        loc: &Coordinate<S, N>,
        set_distance: S,
        color: PythonColor,
    ) -> (result: Result<(), BridgeError>)
        ensures
            colored_round_trip(color@, result_view(result), no_response_text()),
    {
        self.exchange_colored(
            Requests::set_decreasing_intensity_merge(loc, set_distance, &color),
            "Failed to receive response from Light Arrangement thread",
        )
    }

    /// Colours every light in the box between `loc1` and `loc2`.
    pub fn set_all_in_box(&self, loc1: Coordinate<S, N>, loc2: Coordinate<S, N>, color: PythonColor) -> (result:
        Result<(), BridgeError>)
        ensures
            colored_round_trip(color@, result_view(result), no_response_text()),
    {
        self.exchange_colored(
            Requests::set_all_in_box(loc1, loc2, &color),
            "Failed to receive response from Light Arrangement thread",
        )
    }

    /// Colours every light within `radius` of `loc`.
    pub fn set_all_in_radius(&self, loc: Coordinate<S, N>, radius: S, color: PythonColor) -> (result:
        Result<(), BridgeError>)
        ensures
            colored_round_trip(color@, result_view(result), no_response_text()),
    {
        self.exchange_colored(
            Requests::set_all_in_radius(loc, radius, &color),
            "Failed to receive response from Light Arrangement thread",
        )
    }

    /// Colours the light at `index`.
    pub fn set_by_index(&self, index: usize, color: PythonColor) -> (result: Result<(), BridgeError>)
        ensures
            colored_round_trip(color@, result_view(result), no_response_text()),
    {
        self.exchange_colored(
            Requests::set_by_index(index, &color),
            "Failed to receive response from Light Arrangement thread",
        )
    }

    /// Colours every light.
    pub fn fill(&self, color: PythonColor) -> (result: Result<(), BridgeError>)
        ensures
            colored_round_trip(color@, result_view(result), wrong_response_text()),
    {
        self.exchange_colored(
            Requests::fill(&color),
            "Got wrong response internally from Light Arrangement thread",
        )
    }

    /// Puts the colours set so far on the strip.
    pub fn show(&self) -> (result: Result<(), BridgeError>)
        ensures
            unit_round_trip(result_view(result), wrong_response_text()),
    {
        self.exchange_unit(
            Requests::show(),
            "Got wrong response internally from Light Arrangement thread",
        )
    }

    /// The number of lights that the handle was made for.
    pub fn number_lights(&self) -> (count: i32)
        ensures
            count == self.lights(),
    {
        self.number_lights
    }
}

impl<S, const N: usize> Drop for LightArrangementThread<S, N> {
    /// Tells the worker to leave its loop, and does not wait for it to do so.
    fn drop(&mut self)
        opens_invariants none
        no_unwind
    {
        let _ = send_message(&self.request_sender, Requests::quit());
    }
}

} // verus!

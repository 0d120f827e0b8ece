use std::sync::mpsc::channel;

use light_arrangements_python::coordinate::Coordinate;
use light_arrangements_python::requests::Requests;
use light_arrangements_python::responses::Responses;
use light_arrangements_python::types::Color;
use light_arrangements_python::worker::{
    after_send, dispatch, init_response, next_dispatch, respond, respond_to, send_response,
    Dispatch, Operation, Outcome, WorkerState,
};

const RED: Color = Color { red: 255, green: 0, blue: 0 };

fn at(x: f64, y: f64) -> Coordinate<f64, 2> {
    Coordinate { coords: [x, y] }
}

fn out_of_bounds(index: usize, number_lights: usize) -> Dispatch<f64, 2> {
    Dispatch::Reply(Responses::Error(format!(
        "Index {} is out of bounds for light strip with {} lights",
        index, number_lights
    )))
}

#[test]
fn quit_and_a_closed_channel_stop_the_worker() {
    assert_eq!(dispatch::<f64, 2>(None, 10), Dispatch::Stop);
    assert_eq!(dispatch::<f64, 2>(Some(Requests::Quit), 10), Dispatch::Stop);
    assert_eq!(Dispatch::<f64, 2>::Stop.next_state(), WorkerState::Terminated);
}

#[test]
fn every_request_at_a_place_becomes_the_call_of_its_name() {
    let cases: Vec<(Requests<f64, 2>, Operation<f64, 2>)> = vec![
        (Requests::GetClosest(at(1.0, 2.0), 0.5), Operation::GetClosest(at(1.0, 2.0), 0.5)),
        (Requests::SetClosest(at(1.0, 2.0), 0.5, RED), Operation::SetClosest(at(1.0, 2.0), 0.5, RED)),
        (
            Requests::SetDecreasingIntensity(at(3.0, 4.0), 2.5, RED),
            Operation::SetDecreasingIntensity(at(3.0, 4.0), 2.5, RED),
        ),
        (
            Requests::SetDecreasingIntensityMerge(at(3.0, 4.0), 2.5, RED),
            Operation::SetDecreasingIntensityMerge(at(3.0, 4.0), 2.5, RED),
        ),
        (
            Requests::SetBox(at(0.0, 0.0), at(1.0, 1.0), RED),
            Operation::SetAllInBox(at(0.0, 0.0), at(1.0, 1.0), RED),
        ),
        (Requests::SetRadius(at(5.0, 6.0), 7.0, RED), Operation::SetAllInRadius(at(5.0, 6.0), 7.0, RED)),
        (Requests::Fill(RED), Operation::Fill(RED)),
        (Requests::Show, Operation::Show),
    ];
    for (request, operation) in cases {
        let decision = dispatch(Some(request), 0);
        assert_eq!(decision.next_state(), WorkerState::Listening);
        assert_eq!(decision, Dispatch::Invoke(operation));
    }
}

#[test]
fn an_index_is_checked_against_the_number_of_lights() {
    assert_eq!(
        dispatch::<f64, 2>(Some(Requests::GetByIndex(0)), 10),
        Dispatch::Invoke(Operation::GetByIndex(0))
    );
    assert_eq!(
        dispatch::<f64, 2>(Some(Requests::GetByIndex(9)), 10),
        Dispatch::Invoke(Operation::GetByIndex(9))
    );
    assert_eq!(dispatch::<f64, 2>(Some(Requests::GetByIndex(10)), 10), out_of_bounds(10, 10));
    assert_eq!(dispatch::<f64, 2>(Some(Requests::GetByIndex(0)), 0), out_of_bounds(0, 0));
    assert_eq!(
        dispatch::<f64, 2>(Some(Requests::SetByIndex(9, RED)), 10),
        Dispatch::Invoke(Operation::SetByIndex(9, RED))
    );
    assert_eq!(dispatch::<f64, 2>(Some(Requests::SetByIndex(10, RED)), 10), out_of_bounds(10, 10));
    assert_eq!(
        dispatch::<f64, 2>(Some(Requests::SetByIndex(usize::MAX, RED)), 3),
        out_of_bounds(usize::MAX, 3)
    );
}

#[test]
fn a_refused_request_leaves_the_worker_listening() {
    let decision = dispatch::<f64, 2>(Some(Requests::SetByIndex(12, RED)), 10);
    assert!(matches!(decision, Dispatch::Reply(Responses::Error(_))));
    assert_eq!(decision.next_state(), WorkerState::Listening);
}

#[test]
fn responses_to_outcomes() {
    assert_eq!(respond(Outcome::Done), Responses::Acknowledged);
    assert_eq!(respond(Outcome::Closest(None)), Responses::OptionColorResponse(None));
    assert_eq!(
        respond(Outcome::Closest(Some(Color { red: 1, green: 2, blue: 3 }))),
        Responses::OptionColorResponse(Some((1, 2, 3)))
    );
    assert_eq!(
        respond(Outcome::Light(Color { red: 4, green: 5, blue: 6 })),
        Responses::ColorResponse((4, 5, 6))
    );
}

#[test]
fn handshake_reports_success_and_listens() {
    assert_eq!(init_response(Ok(())), (Responses::InitOk, WorkerState::Listening));
}

#[test]
fn handshake_reports_the_reason_and_ends() {
    assert_eq!(
        init_response(Err(String::from("no such file"))),
        (Responses::InitFailed(String::from("no such file")), WorkerState::Terminated)
    );
}

#[test]
fn an_undelivered_response_ends_the_worker() {
    assert_eq!(after_send(WorkerState::Listening, true), WorkerState::Listening);
    assert_eq!(after_send(WorkerState::Listening, false), WorkerState::Terminated);
    assert_eq!(after_send(WorkerState::Terminated, true), WorkerState::Terminated);
    assert_eq!(after_send(WorkerState::Terminated, false), WorkerState::Terminated);
    assert!(WorkerState::Listening.is_listening());
    assert!(!WorkerState::Initializing.is_listening());
    assert!(!WorkerState::Terminated.is_listening());
}

#[test]
fn send_response_delivers_while_the_receiver_lives() {
    let (sender, receiver) = channel();
    let state = send_response(&sender, Responses::ColorResponse((1, 2, 3)), WorkerState::Listening);
    assert_eq!(state, WorkerState::Listening);
    assert_eq!(receiver.try_recv(), Ok(Responses::ColorResponse((1, 2, 3))));
    assert!(receiver.try_recv().is_err());
}

#[test]
fn send_response_ends_the_worker_when_the_receiver_is_gone() {
    let (sender, receiver) = channel();
    drop(receiver);
    let state = send_response(&sender, Responses::Acknowledged, WorkerState::Listening);
    assert_eq!(state, WorkerState::Terminated);
}

#[test]
fn next_dispatch_takes_requests_in_arrival_order() {
    let (sender, receiver) = channel::<Requests<f64, 2>>();
    sender.send(Requests::GetByIndex(2)).unwrap();
    sender.send(Requests::GetByIndex(5)).unwrap();
    sender.send(Requests::Quit).unwrap();
    assert_eq!(next_dispatch(&receiver, 4), Dispatch::Invoke(Operation::GetByIndex(2)));
    assert_eq!(next_dispatch(&receiver, 4), out_of_bounds(5, 4));
    assert_eq!(next_dispatch(&receiver, 4), Dispatch::Stop);
}

#[test]
fn next_dispatch_stops_when_every_sender_is_gone() {
    let (sender, receiver) = channel::<Requests<f64, 2>>();
    drop(sender);
    assert_eq!(next_dispatch(&receiver, 4), Dispatch::Stop);
}

#[test]
fn the_response_to_an_operation_is_that_to_its_outcome() {
    let found = Outcome::Closest(Some(Color { red: 1, green: 2, blue: 3 }));
    let light = Outcome::Light(Color { red: 4, green: 5, blue: 6 });
    let search: Operation<f64, 2> = Operation::GetClosest(at(1.0, 2.0), 0.5);
    let lookup: Operation<f64, 2> = Operation::GetByIndex(3);
    let fill: Operation<f64, 2> = Operation::Fill(RED);

    assert_eq!(respond_to(&search, found), Responses::OptionColorResponse(Some((1, 2, 3))));
    assert_eq!(respond_to(&search, Outcome::Closest(None)), Responses::OptionColorResponse(None));
    assert_eq!(respond_to(&lookup, light), Responses::ColorResponse((4, 5, 6)));
    assert_eq!(respond_to(&fill, Outcome::Done), Responses::Acknowledged);
    assert_eq!(respond_to(&Operation::<f64, 2>::Show, Outcome::Done), Responses::Acknowledged);
}

#[test]
fn an_outcome_of_another_kind_is_passed_on_for_the_handle_to_report() {
    let lookup: Operation<f64, 2> = Operation::GetByIndex(3);
    let fill: Operation<f64, 2> = Operation::Fill(RED);
    assert_eq!(respond_to(&lookup, Outcome::Done), Responses::Acknowledged);
    assert_eq!(
        respond_to(&fill, Outcome::Light(Color { red: 4, green: 5, blue: 6 })),
        Responses::ColorResponse((4, 5, 6))
    );
}

#[test]
fn requests_without_a_colour() {
    assert_eq!(
        Requests::get_closest(&at(1.0, 2.0), 0.5),
        Requests::GetClosest(at(1.0, 2.0), 0.5)
    );
    assert_eq!(Requests::<f64, 2>::get_by_index(7), Requests::GetByIndex(7));
    assert_eq!(Requests::<f64, 2>::get_by_index(0), Requests::GetByIndex(0));
    assert_eq!(Requests::<f64, 2>::show(), Requests::Show);
    assert_eq!(Requests::<f64, 2>::quit(), Requests::Quit);
}

#[test]
fn requests_with_a_colour() {
    let blue = vec![0, 0, 255];
    let short = vec![0, 0];
    assert_eq!(
        Requests::set_closest(&at(1.0, 2.0), 0.5, &blue),
        Ok(Requests::SetClosest(at(1.0, 2.0), 0.5, Color { red: 0, green: 0, blue: 255 }))
    );
    assert_eq!(
        Requests::<f64, 2>::set_by_index(4, &blue),
        Ok(Requests::SetByIndex(4, Color { red: 0, green: 0, blue: 255 }))
    );
    assert!(Requests::set_closest(&at(1.0, 2.0), 0.5, &short).is_err());
    assert!(Requests::<f64, 2>::set_by_index(4, &short).is_err());
    assert!(Requests::<f64, 2>::fill(&short).is_err());
}

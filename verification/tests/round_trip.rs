use light_arrangements_python::errors::BridgeError;
use std::sync::mpsc::channel;

use light_arrangements_python::coordinate::Coordinate;
use light_arrangements_python::light_arrangement_thread::{
    color_reply, option_color_reply, unit_reply, LightArrangementThread,
};
use light_arrangements_python::requests::Requests;
use light_arrangements_python::responses::Responses;
use light_arrangements_python::types::Color;
use light_arrangements_python::worker::{
    dispatch, init_response, respond, send_response, Dispatch, Operation, Outcome, WorkerState,
};

const NO_RESPONSE: &str = "Failed to receive response from Light Arrangement thread";

/// A strip that keeps one colour per light and knows no places.
struct Strip {
    lights: Vec<Color>,
}

impl Strip {
    fn dark(number_lights: usize) -> Strip {
        Strip { lights: vec![Color { red: 0, green: 0, blue: 0 }; number_lights] }
    }

    fn perform(&mut self, operation: Operation<f64, 1>) -> Outcome {
        match operation {
            Operation::GetByIndex(index) => Outcome::Light(self.lights[index]),
            Operation::SetByIndex(index, color) => {
                self.lights[index] = color;
                Outcome::Done
            }
            Operation::Fill(color) => {
                for light in self.lights.iter_mut() {
                    *light = color;
                }
                Outcome::Done
            }
            Operation::GetClosest(_, _) => Outcome::Closest(None),
            _ => Outcome::Done,
        }
    }

    /// What the worker sends back for `request`, if anything.
    fn serve(&mut self, request: Requests<f64, 1>) -> Option<Responses> {
        match dispatch(Some(request), self.lights.len()) {
            Dispatch::Stop => None,
            Dispatch::Reply(response) => Some(response),
            Dispatch::Invoke(operation) => Some(respond(self.perform(operation))),
        }
    }
}

#[test]
fn set_then_get_by_index_through_the_worker() {
    let mut strip = Strip::dark(10);

    let set = Requests::set_by_index(3, &vec![10, 20, 30]).unwrap();
    assert!(matches!(strip.serve(set), Some(Responses::Acknowledged)));

    let got = color_reply(strip.serve(Requests::GetByIndex(3)));
    assert_eq!(got.unwrap(), (10, 20, 30));

    let rejected = Requests::set_by_index(10, &vec![1, 1, 1]).unwrap();
    match unit_reply(strip.serve(rejected), NO_RESPONSE) {
        Err(BridgeError::DomainError(reason)) => {
            assert_eq!(reason, "Index 10 is out of bounds for light strip with 10 lights")
        }
        other => panic!("expected a domain error, got {:?}", other),
    }

    let again = color_reply(strip.serve(Requests::GetByIndex(3)));
    assert_eq!(again.unwrap(), (10, 20, 30));
}

#[test]
fn a_rejected_set_changes_no_light() {
    let mut strip = Strip::dark(4);
    for index in 0..4 {
        let color = vec![index as u8, 10 + index as u8, 20 + index as u8];
        let set = Requests::set_by_index(index, &color).unwrap();
        assert_eq!(unit_reply(strip.serve(set), NO_RESPONSE), Ok(()));
    }
    let before = strip.lights.clone();
    for index in [4usize, 5, 100, usize::MAX] {
        let rejected = Requests::set_by_index(index, &vec![200, 201, 202]).unwrap();
        assert_eq!(
            unit_reply(strip.serve(rejected), NO_RESPONSE),
            Err(BridgeError::DomainError(format!(
                "Index {} is out of bounds for light strip with 4 lights",
                index
            )))
        );
        assert_eq!(strip.lights, before);
        for other in 0..4 {
            assert_eq!(
                color_reply(strip.serve(Requests::GetByIndex(other))),
                Ok((other as u8, 10 + other as u8, 20 + other as u8))
            );
        }
    }
}

#[test]
fn a_light_reads_as_it_was_set() {
    let mut strip = Strip::dark(6);
    for index in 0..6 {
        for color in [vec![1u8, 2, 3], vec![255, 255, 255], vec![0, 0, 0]] {
            let set = Requests::set_by_index(index, &color).unwrap();
            assert_eq!(unit_reply(strip.serve(set), NO_RESPONSE), Ok(()));
            assert_eq!(
                color_reply(strip.serve(Requests::GetByIndex(index))),
                Ok((color[0], color[1], color[2]))
            );
        }
    }
}

#[test]
fn a_rejected_get_is_a_domain_error() {
    let mut strip = Strip::dark(10);
    assert_eq!(
        color_reply(strip.serve(Requests::GetByIndex(10))),
        Err(BridgeError::DomainError(String::from(
            "Index 10 is out of bounds for light strip with 10 lights"
        )))
    );
}

#[test]
fn no_light_in_reach_is_a_success() {
    let mut strip = Strip::dark(3);
    let search = Requests::GetClosest(Coordinate { coords: [0.5] }, 0.25);
    assert_eq!(option_color_reply(strip.serve(search)), Ok(None));
}

#[test]
fn fill_colours_every_light() {
    let mut strip = Strip::dark(3);
    let fill = Requests::fill(&vec![5, 6, 7]).unwrap();
    assert_eq!(unit_reply(strip.serve(fill), NO_RESPONSE), Ok(()));
    for index in 0..3 {
        assert_eq!(color_reply(strip.serve(Requests::GetByIndex(index))), Ok((5, 6, 7)));
    }
    assert_eq!(unit_reply(strip.serve(Requests::Show), NO_RESPONSE), Ok(()));
}

#[test]
fn quit_is_not_answered() {
    let mut strip = Strip::dark(3);
    assert_eq!(strip.serve(Requests::Quit), None);
}

#[test]
fn a_malformed_arrangement_gives_no_handle() {
    let (request_sender, _request_receiver) = channel::<Requests<f64, 1>>();
    let (response_sender, response_receiver) = channel();

    let built: Result<(), String> = Err(String::from("Failed to create arrangement from csv file"));
    let (first, state) = init_response(built);
    assert_eq!(state, WorkerState::Terminated);
    assert_eq!(send_response(&response_sender, first, state), WorkerState::Terminated);
    drop(response_sender);

    match LightArrangementThread::new(request_sender, response_receiver, 10) {
        Err(BridgeError::InitializationFailure(reason)) => {
            assert_eq!(reason, "Failed to create arrangement from csv file")
        }
        Err(other) => panic!("expected an initialization failure, got {:?}", other),
        Ok(_) => panic!("a handle was made for a worker that never listened"),
    }
}

#[test]
fn a_built_arrangement_gives_a_handle() {
    let (request_sender, _request_receiver) = channel::<Requests<f64, 1>>();
    let (response_sender, response_receiver) = channel();
    let (first, state) = init_response(Ok(()));
    assert_eq!(send_response(&response_sender, first, state), WorkerState::Listening);
    let handle = LightArrangementThread::new(request_sender, response_receiver, 10);
    assert_eq!(handle.map(|handle| handle.number_lights()), Ok(10));
}

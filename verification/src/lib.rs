//! A bridge between caller threads and a light arrangement that has to stay
//! on the thread that built it.
//!
//! The arrangement lives on one worker thread. Callers hold a
//! [`LightArrangementThread`](light_arrangement_thread::LightArrangementThread),
//! which owns nothing but the two channel endpoints, and every operation is one
//! blocking round trip: one request out, one response back.
//!
//! The crate never computes with a coordinate's components, so it is generic
//! over their type.
//!
//! - [`requests`] and [`responses`] are the messages.
//! - [`worker`] decides what the worker does with each message it receives;
//!   the thread that owns the arrangement runs the loop and makes the calls.
//! - [`light_arrangement_thread`] is the handle, and
//!   [`light_arrangement_python_obj`] one object over the handles of every
//!   dimension.
//! - [`coordinate`], [`util`], [`init`] and [`text`] check and convert what
//!   callers hand in; [`errors`] is what they are told when it goes wrong.
//! - [`protocol`] states what holds of a request from end to end.

pub mod types;
pub mod channel;
pub mod text;
pub mod errors;
pub mod util;
pub mod coordinate;
pub mod requests;
pub mod responses;
pub mod worker;
pub mod light_arrangement_thread;
pub mod light_arrangement_python_obj;
pub mod init;
pub mod protocol;

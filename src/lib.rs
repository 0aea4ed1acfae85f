//! Multiple-choice polls with one vote per participant: the data model, poll
//! construction, the vote state transition, participant registration rules
//! and result tallies, each stated and proved over a mathematical model.

mod platform;

pub mod model;
pub mod polls;
pub mod registry;
pub mod results;
pub mod voting;

pub use model::{Invalid, Poll, PollError, User};

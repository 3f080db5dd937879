//! Building blocks of a real-time voice pipeline: services that turn speech
//! into text and text into speech, transports that carry audio and video, and
//! the detection of user turns.
//!
//! Every component is a state machine over plain values. It takes an event (a
//! frame, a server message, the time) and returns the actions that the event
//! calls for; performing them is the business of the program around it.
//!
//! Points in time and durations are given in nanoseconds unless a name says
//! otherwise.
pub mod collections;
pub mod frames;
pub mod json;
pub mod numeral_laws;
pub mod payload;
pub mod runs;
pub mod services;
pub mod text;
pub mod transport;
pub mod turns;

//! Detection of user turns: when a user starts and stops speaking.
pub mod action;
pub mod controller;
pub mod controller_laws;
pub mod laws;
pub mod params;
pub mod start;
pub mod start_laws;
pub mod stop;
pub mod stop_laws;
pub mod strategies;
pub mod timer;

//! A client for a city's current weather, with the network left to the caller.
//!
//! The library composes the request, decides what each answer of the service
//! means, and lays out the lines that present a report. It never opens a
//! connection itself: the caller performs each action that the exchange asks
//! for and hands back what happened.

pub mod decimal;
pub mod display;
pub mod error;
pub mod exchange;
pub mod local_time;
pub mod report;
pub mod request;

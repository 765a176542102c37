//! Availability and booking engine for businesses that publish weekly
//! operating hours and accept appointments for timed services.
//!
//! The library holds the decisions: which slots are free on a day, how local
//! and remote busy periods are merged, and what a booking does at each step of
//! its transaction. Reading from the store and talking to the calendar
//! provider is left to the caller, who hands the results back as plain values.

pub mod clock;
pub mod zone;
pub mod interval;
pub mod schedule;
pub mod slots;
pub mod model;
pub mod calendar;
pub mod availability;
pub mod booking;
pub mod response;
pub mod account;
pub mod media;
pub mod catalog;
pub mod laws;

//! Core logic of a prayer-reminder scheduler.
//!
//! The library resolves a free-form location string to an IANA timezone
//! identifier, builds the request for an external timings service, parses
//! the service's response into absolute prayer instants, and decides which
//! reminders fire in the current evaluation window.  All of that logic is
//! verified; the platform shell around it (HTTP transport, timer, window
//! and sound dispatch) stays outside the library.

pub mod evaluate;
pub mod request;
pub mod resolver;
pub mod settings;
pub mod system;
pub mod text;
pub mod timings;

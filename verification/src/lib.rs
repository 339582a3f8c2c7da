//! Typed request building and response handling for the Moscow school diary
//! service: every operation of the diary is a pure step from plain values to
//! the request to send, or from a decoded response to the value to hand back.

pub mod calendar;
pub mod diary;
pub mod digits;
pub mod endpoints;
pub mod error;
pub mod model;
pub mod prelude;
pub mod request;

//! Control logic for a service that records web pages: each recording
//! session renders a URL inside an automated browser on a private virtual
//! display with a private audio sink, and encodes the captured audio and
//! video into a media file or network stream.
//!
//! This crate holds the verified core: the derived addressing conventions
//! that keep concurrent sessions isolated ([`address`]), the validated
//! session configuration ([`config`]), the ordered startup, unwind and
//! shutdown sequences of one session ([`engine`]), and the registry that
//! serializes lifecycle requests for many sessions ([`manager`]).
//!
//! Launching processes, media pipelines and the browser is input/output and
//! stays outside this crate. The engine and the registry are written as
//! state machines: each step returns the next request the surrounding
//! process runner must perform, and consumes the outcome of the previous
//! one as an [`engine::EngineEvent`]. The contracts pin down the order of
//! the steps, the exact parameters handed to each launcher, and the state
//! of every resource at every point of the lifecycle.

use vstd::prelude::*;

pub mod address;
pub mod config;
pub mod engine;
pub mod errors;
pub mod manager;

verus! {

/// Health-check payload served at the service root.
pub fn index() -> (r: &'static str)
    ensures
        r@ == "hello"@,
{
    "hello"
}

} // verus!

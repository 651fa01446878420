//! Progress model, event reducer and run decisions for the `cyrus` setup engine.
//!
//! A host spawns `cyrus setup --json`, reads one event per line of output, and shows the progress
//! of the run. Every decision on the way stands here, with its contract:
//!
//! - [`launch`]: which binary to run, and with which arguments;
//! - [`run`]: what a run does next, given what has just happened;
//! - [`event`] and [`progress`]: the events, and the progress model that they update;
//! - [`sign_in`]: the state that runs share, and the guard against a stale run;
//! - [`render`]: the lines that show the progress;
//! - [`text`]: trimming of output lines;
//! - [`operations`]: what each operation does, spelled out;
//! - [`laws`]: what holds of all of it together.
//!
//! Spawning, reading, waiting, parsing of JSON and drawing are the host's.
#![allow(unused_imports)]

pub mod event;
pub mod launch;
pub mod laws;
pub mod operations;
pub mod progress;
pub mod render;
pub mod run;
pub mod sign_in;
pub mod text;

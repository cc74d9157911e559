//! A progress-reporting service, written as a verified core without I/O.
//!
//! Worker threads register named progress indicators, advance them and
//! retire them; one background worker owns the terminal and shows one row
//! per active indicator. This crate holds every rule of that service as
//! functions on plain values, each with a contract that Verus has proved:
//!
//! - [`ident`]: identifiers and the counter that issues them;
//! - [`permille`]: completion as an integer up to 1000, without overflow;
//! - [`bar`]: the handle that a producer holds, and the events it sends;
//! - [`registry`]: how a caller makes sure that a worker runs, and what
//!   becomes of an event that could not be sent;
//! - [`worker`], [`table`], [`entry`]: the worker's table of rows and what
//!   each event does to it;
//! - [`painter`], [`text`]: the text of the display.
//!
//! Beside it stand what the service is used for: a task that reports its
//! work in sections ([`task`], [`render`]), computations that can be
//! composed ([`trace`]) and run over many inputs under an indicator
//! ([`iterate`]), and the order in which an image's pixels are computed
//! ([`raster`]).
//!
//! Threads, channels, the clock and the terminal stay with the caller,
//! which feeds events in and carries out what comes back.

pub mod bar;
pub mod clock;
pub mod entry;
pub mod event;
pub mod ident;
pub mod index;
pub mod iterate;
pub mod painter;
pub mod permille;
pub mod raster;
pub mod registry;
pub mod render;
pub mod table;
pub mod task;
pub mod text;
pub mod trace;
pub mod worker;

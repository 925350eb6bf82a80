//! A bridge that lets worker threads hand typed tasks to the one thread that
//! owns the display, together with the debounce timer and the latest-wins
//! supervision of cancellable background computations built on top of it.
//!
//! The library is written without I/O: the owner's event stream is a value
//! that the caller passes in, time is a number of milliseconds on the
//! caller's clock, and every decision is a function from state and event to
//! the next state. The caller reads the toolkit's events, sleeps, spawns and
//! paints; the library says what follows from what.
//!
//! - [`events`] holds the events of the owner loop and the stream that keeps
//!   them in order.
//! - [`completion`] holds the single-use handshake between whoever answers a
//!   task and whoever waits for the answer.
//! - [`sdl_dispatch`] holds the envelope of a task, the dispatcher that puts
//!   envelopes on the stream, and the slot for the current dispatcher.
//! - [`sdl_backend`] holds the executor that picks the tasks of one kind out
//!   of the owner's events.
//! - [`sdl_app`] holds the owner loop.
//! - [`time`] holds the debounce timer.
//! - [`mandelbrot`] holds the computed image, its colouring and the
//!   cancellable loop that computes it.
//! - [`texture`] copies a coloured image into a pixel buffer.
//! - [`mainapp`] holds the application's state and rules, and
//!   [`supervision`] what they guarantee.
//! - [`trusted`] lists what is taken for granted of other crates.

pub mod trusted;
pub mod events;
pub mod completion;
pub mod sdl_dispatch;
pub mod sdl_backend;
pub mod sdl_app;
pub mod time;
pub mod mandelbrot;
pub mod texture;
pub mod mainapp;
pub mod supervision;

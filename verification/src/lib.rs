//! The core of a small terminal shell, kept free of input and output.
//!
//! The shell shows two static panels on the alternate screen and waits, tick
//! by tick, for the quit key. Everything it decides lives here as state
//! machines over plain values: a driver performs each [`app::Command`]
//! on the real terminal and reports back with a [`event_loop::Reply`].
//!
//! * [`tick`]: the timing of the loop, and the timeout of each poll;
//! * [`event_loop`]: drawing once, then polling until the quit key;
//! * [`app`]: the session round the loop: entering the terminal modes, and
//!   leaving them again on every way out of the loop;
//! * [`view`]: what the two panels show, and where.

pub mod app;
pub mod event_loop;
pub mod tick;
pub mod view;

//! Polling of a serial peripheral bus device, without the device.
//!
//! A run looks up the device path, opens the device, gives it its bus mode
//! and then reads a block of bytes from it, once or again and again with a
//! pause in between. This crate holds every decision of such a run and none
//! of its I/O. The [`controller::Controller`] is told what happened outside
//! as an [`controller::Event`] and answers with a [`controller::Step`]: what
//! to report and which [`controller::Action`] to carry out next. A driver
//! carries the action out and hands back the event it ended in, until the
//! action is to exit.
//!
//! * [`args`]: the configuration of a run and the poll policy it selects.
//! * [`error`]: the fatal conditions and their exit codes.
//! * [`session`]: the bus mode, the seeded read buffer, and what a read
//!   delivers.
//! * [`hex`]: the hexadecimal dump that a report of a read carries.
//! * [`controller`]: the state machine.
//! * [`run`]: whole runs, as sequences of events and answers.
//! * [`guarantees`]: what is proved of every answer and of every run.

pub mod args;
pub mod controller;
pub mod error;
pub mod guarantees;
pub mod hex;
pub mod run;
pub mod session;

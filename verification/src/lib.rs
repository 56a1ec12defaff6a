//! Switches a monitor's input when a USB device is plugged in.
//!
//! This library holds the decisions of that task and none of its I/O. It is
//! told what the system reported and answers with what is to be done next:
//! which event shows the device of interest, which displays are taken up,
//! which command each of them gets, and which displays must be waited for
//! before their handles are closed. Its caller owns the hotplug socket and
//! the display transport, does the work that is asked for, and reports back.
//!
//! - [`input_source`]: the inputs of a monitor, their wire codes and names.
//! - [`hotplug`]: device events, and the match against the device of
//!   interest.
//! - [`watcher`]: the two ways of turning system notifications into events.
//! - [`display`]: what is known of a display, and queries over it.
//! - [`transport`]: the work that is asked of the display transport, and
//!   its outcomes.
//! - [`enumeration`]: finding the displays that a query selects.
//! - [`display_control`]: switching the displays that were found.
//! - [`laws`]: what holds of every switching session.
//! - [`event_loop`]: the loop from events to switching sessions.
//! - [`configuration`]: the settings that all of this runs with.

pub mod configuration;
pub mod display;
pub mod display_control;
pub mod enumeration;
pub mod event_loop;
pub mod hotplug;
pub mod input_source;
pub mod laws;
pub mod transport;
pub mod watcher;

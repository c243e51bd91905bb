//! A quiz display: four chained LED matrices that show, as a bar chart, how an audience votes.
//!
//! The audience votes on a quiz server; a bridge polls the server and writes the results over
//! Bluetooth Low Energy; the firmware of the display draws them. This crate holds what all of them
//! decide. It touches no peripheral, radio or socket: programs that do carry out what it says and
//! report back.
//!
//! - [`display`] draws the bar chart and queues the bus operations for it.
//! - [`chain`] models what the LED matrices make of those operations.
//! - [`firmware`] serves a central: votes, clearing, and the blinking of the correct answer.
//! - [`gatt`] holds the service, its commands and the advertising data that both sides share.
//! - [`bridge`] runs a session with the display, and [`config`] reads its settings.
//! - [`blink`] is the diagnostic image's logic.
pub mod blink;
pub mod bridge;
pub mod chain;
pub mod config;
pub mod display;
pub mod firmware;
pub mod gatt;

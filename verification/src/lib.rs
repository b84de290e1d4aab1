//! Verified interaction logic for a display with two buttons.
//!
//! The crate turns the level signal of the two buttons into press and release
//! events and drives a small family of screens with them: a confirmation
//! dialog, a paged confirm/cancel flow, a list menu, a single message, a text
//! scroller and a scroller over prepared panes. Nothing here touches the
//! device: every function takes what the transport delivered as a plain value
//! and answers with the next cursor, the drawing commands to send to the
//! display and, once the user has finished, the result.

pub mod bagls;
pub mod ui;

//! Core of a small "hit and heal" demo: a saturating hit-point counter
//! together with the mapping from user events to the status message shown
//! beside the counter. The GUI shell that renders the counter lives outside
//! this crate; it drives the counter through the entry points in [`events`].

pub mod events;
pub mod health;

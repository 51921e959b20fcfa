//! Core logic of a music recognition client: reading the recognition
//! service's answers, keeping the history of recognised songs, ordering
//! audio devices and applications, driving per-application capture and
//! keeping the main window's state.

pub mod capture;
pub mod devices;
pub mod history;
pub mod json;
pub mod listed_app;
pub mod messages;
pub mod recognition;
pub mod text;
pub mod window;

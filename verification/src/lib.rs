//! A cooperative mission-board engine.
//!
//! Missions move through a small lifecycle (`Open`, `InProgress`,
//! `Completed`, `Failed`) under the authority of their chief, and a
//! completed mission pays capped daily point awards to its crew. This
//! crate holds the decision and computation core: validation of mission
//! authoring, the transition rules, the point ledger, read-side filtering,
//! and the small value objects around them. Storage and transport are left
//! to the caller, which feeds the functions here with the values it read
//! and applies the writes they decide.

pub mod base64_image;
pub mod brawlers;
pub mod catalog;
pub mod chat;
pub mod errors;
pub mod ledger;
pub mod lifecycle;
pub mod models;
pub mod signing;
pub mod statuses;
pub mod text;
pub mod viewing;

//! Deterministic font-delivery model: request validation, closed-form
//! compression and subset size estimation, a fixed catalog, and a keyed
//! font classifier.

pub mod fraction;
pub mod text;
pub mod validate;
pub mod estimate;
pub mod classify;
pub mod catalog;
pub mod health;

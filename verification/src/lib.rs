//! Core of a small command-line project launcher: a persisted registry of
//! named projects (name, filesystem path, last-opened timestamp), the
//! operations on it (add, edit, delete, touch-and-open), and the navigation
//! logic of the interactive menu that drives those operations.

pub mod project;
pub mod store;
pub mod text;
pub mod ops;
pub mod flow;
pub mod laws;

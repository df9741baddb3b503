//! A terminal kanban board: three ordered columns of short text tasks, a
//! keyboard-driven controller over them, and the shape in which a board is
//! saved and loaded.
mod text;
pub mod tasks;
pub mod ui;
pub mod laws;

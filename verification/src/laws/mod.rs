//! What the operations of the library are for, stated of their arguments and results.
//!
//! Each law takes the arguments of an operation and any result that its contract allows, and says
//! how the two are related in terms of the plain fields and texts.

pub mod files;
pub mod flows;
pub mod output;
pub mod resolution;
pub mod steps;
pub mod tags;
pub mod templates;

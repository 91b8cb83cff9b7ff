//! A terminal feed reader's core: the feed collection, the two coupled
//! selections over it, the merged "All feeds" view, the edit operations and
//! the key dispatch of an interactive session.
//!
//! Network access, storage, and the terminal itself are left to the caller:
//! the session reports what outside work it needs as a `Command`, and takes
//! the outcome back as plain values.

pub mod model;
pub mod stamp;
pub mod entries;
pub mod text;
pub mod session;
pub mod input;
pub mod render;
pub mod document;
pub mod guard;

//! A modal terminal text editor's core: a line zipper, a document buffer built
//! from it, a sorted directory snapshot and the session state machine that
//! routes input events between them.

pub mod text;
pub mod zipper;
pub mod page;
pub mod directory;
pub mod search;
pub mod command;
pub mod paths;
pub mod input;
pub mod session;
pub mod steps;

//! An interactive explorer for tabular data: a catalog of named data frames
//! backed by a SQL engine, a command grammar that turns typed command lines
//! into actions, and a reducer that applies actions to the application state
//! tree and chases follow-up actions to quiescence.
//!
//! The format decoders, the SQL engine, the fuzzy matcher, and the terminal
//! renderer are outside collaborators: the library reaches the first two
//! through the `SqlEngine` and `FormatIo` traits and takes the matcher's
//! results as plain values, so everything it decides is stated in contracts
//! and proved.
pub mod action;
pub mod app;
pub mod command;
pub mod errors;
pub mod executor;
pub mod frame;
pub mod go_to_line;
pub mod input;
pub mod laws;
pub mod palette;
pub mod pane;
pub mod schema_view;
pub mod sheet;
pub mod sql;
pub mod text;
pub mod text_picker;
pub mod theme;
pub mod type_ext;
pub mod type_inferer;

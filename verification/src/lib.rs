//! Verified core of the BLAST Lightning Network simulation tool: the event
//! schedule, the model registry, the payment-activity book-keeping, the text
//! commands of the terminal front end and its key handling.

pub mod text;
pub mod number;
pub mod event;
pub mod tui;
pub mod configure;
pub mod tabs;
pub mod command;
pub mod model;
pub mod simln;
pub mod blast;
pub mod cli;
pub mod node_models;
pub mod channels;
pub mod laws;
pub mod command_laws;

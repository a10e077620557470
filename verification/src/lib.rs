//! Locating the `cem` language server for an editor extension.
//!
//! The extension has to hand its editor a command line that starts the
//! language server. It prefers a binary that is already installed, then one
//! that it downloaded earlier in the session, and fetches the latest release
//! only when neither is there.
//!
//! Every question that must be put to the editor or the file system is
//! described by a [`protocol::Request`]; the decisions between two questions
//! are taken by [`resolver::CemExtension::language_server_binary`], which
//! never performs any input or output itself. Whoever embeds the library
//! asks [`resolver::Resolution::request`] what to do, does it, and hands the
//! answer back, until nothing is left to ask.
//!
//! [`model`] states what each decision is and what a whole resolution
//! amounts to; [`laws`] proves what follows for every host.

pub mod command;
pub mod laws;
pub mod model;
pub mod platform;
pub mod protocol;
pub mod release;
pub mod resolver;

//! The decisions behind an editor's language server commands.
//!
//! Every command reads a plain picture of the editor, and answers with plain
//! values: the requests to send, the layers to show, the files to open. The
//! program around the library talks to the servers, the disk and the screen.

pub mod actions;
pub mod diagnostics;
pub mod editor;
pub mod edits;
pub mod foreign;
pub mod goto;
pub mod highlight;
pub mod hover;
pub mod jump;
pub mod labels;
pub mod popup;
pub mod protocol;
pub mod rename;
pub mod selection;
pub mod signature;
pub mod symbols;
pub mod text;

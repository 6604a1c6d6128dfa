//! Core engine of a keyboard-driven directory browser: the modal input state
//! machine, cyclic search, the file-operation command interpreter with its
//! conflict policy, token-gated scan reconciliation, and the bounded preview
//! builder. Filesystem access, terminal handling and rendering live outside
//! this crate; the engine exchanges plain values with them.

pub mod text;
pub mod entry;
pub mod preview;
pub mod state;
pub mod command;
pub mod mode;
pub mod fsmodel;

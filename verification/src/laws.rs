//! What the library promises, stated on plain bytes, numbers and texts.
//!
//! The other modules say what each function computes by spec functions of their own. The laws here
//! say what those amount to: how every stored value is laid out byte by byte, that nothing else
//! reads as one, and what the settings, the replies of a node and the command line lead to.

pub mod command_line;
pub mod formats;
pub mod numbers;
pub mod reading;
pub mod settings;

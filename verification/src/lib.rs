//! A scripted stand-in for the Codex app server.
//!
//! The server speaks newline-delimited JSON-RPC on its standard streams. What
//! it does with each line is decided here, as data: a [`session::Session`]
//! takes a line and answers with a [`session::Step`], the effects to perform
//! in order and whether to go on. The program around this library performs the
//! effects and nothing else.
//!
//! * [`decimal`] reads unsigned decimal numbers.
//! * [`json`] is the boundary with `serde_json`.
//! * [`options`] reads the command line.
//! * [`message`] reads what a client sends.
//! * [`protocol`] spells what the server sends.
//! * [`session`] is the server itself.
//! * [`laws`] proves what holds of the server as a whole.
pub mod decimal;
pub mod json;
pub mod laws;
pub mod message;
pub mod options;
pub mod protocol;
pub mod session;

//! Looks up the US-dollar price of a cryptocurrency token.
//!
//! The library holds the decisions: normalising what the user typed, the
//! allow-list check and its confirmation, reading the decoded price table,
//! rendering the result, and suggesting the closest known name. Reading the
//! terminal, the command line and the network is left to the caller.
pub mod cli;
pub mod matching;
pub mod price;
pub mod resolver;
pub mod text;


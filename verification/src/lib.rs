//! An inline packet-filtering decision engine: for each incoming packet it
//! decides, from the packet's raw bytes and a blocklist of source addresses,
//! whether the packet is passed, dropped, or the decision aborted.
//!
//! The packet path is a pure, stateless-per-packet classifier: a
//! bounds-checked view over the bytes, a header parser, a read-only table
//! lookup, and a decision function. Every failure on that path collapses to
//! the abort disposition; nothing unwinds.

pub mod engine;
pub mod errors;
pub mod packet;
pub mod parser;
pub mod table;

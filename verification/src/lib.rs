//! A verified core for a small Ethereum explorer proxy.
//!
//! The library builds the outbound query URLs, interprets the explorer's
//! status convention, parses wei amounts, renders the ether value to six
//! decimal places, and produces the exact JSON bodies the service returns.
//! The surrounding HTTP server, the outbound client and the environment
//! loading live outside the library and hand it plain values.

pub mod config;
pub mod digits;
pub mod jsontext;
pub mod laws;
pub mod translate;
pub mod urls;

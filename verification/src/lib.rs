//! Decoding of Raymarine Seatalk datagrams carried in NMEA-0183 `$STALK`
//! sentences, together with a tokenizer for the surrounding NMEA, DSC and
//! Inmarsat-C sentence families and an XDR sentence framer.
//!
//! Everything is a pure transformation: text or bytes in, a typed message or
//! a descriptive error out. No call panics, keeps state, or touches I/O.

pub mod decoder;
pub mod laws;
pub mod messages;
pub mod strutil;
pub mod tokenizer;
pub mod xdr;

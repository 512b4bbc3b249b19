//! Bit-exact assembly of the data codewords of a QR Code symbol.
//!
//! A text becomes one segment: a mode indicator, a character count and the
//! packed data, in the most compact of the numeric, alphanumeric and byte
//! modes that can hold it. The segment is terminated and padded to the number
//! of data codewords of the chosen version and error correction level.
//! Error correction coding and the placement of modules are left to the
//! caller; the table that says how the codewords are divided into blocks for
//! it is part of the crate.
//!
//! The crate is verified with Verus. Its model of a stream is the string of
//! bits written so far ([`bits`], [`stream`]); [`segment`] says which bits and
//! which codewords belong to a text, and the functions of [`encoding`] are
//! proved to produce exactly those.

pub mod alphabet;
pub mod bits;
pub mod byte_stream;
pub mod encoding;
pub mod mode;
pub mod segment;
pub mod split;
pub mod stream;
pub mod version;

pub use mode::EncodingMode;
pub use split::{BlockSplit, GroupSplit};
pub use version::{ErrorCorrection, QRCodeVersion};

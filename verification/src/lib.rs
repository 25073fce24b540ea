//! A number-base conversion library: parsing of decimal and hexadecimal
//! literals, wrapping signed arithmetic, bit-width inference, padded
//! decimal/hex/binary rendering, and a base64 encode/decode pass-through.

pub mod arith;
pub mod codec;
pub mod convert;
pub mod error;
pub mod parse;
pub mod render;
pub mod text;
pub mod width;

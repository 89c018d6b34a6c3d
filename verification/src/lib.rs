//! Bridge between a compact binary ("consensus") encoding and a structured
//! serialization framework.
//!
//! Values that know how to encode themselves as a byte stream can be rendered
//! either as a single hex string (for human-readable formats) or as a raw
//! sequence of bytes (for binary formats), and read back the same two ways.
//! Failures keep their full detail: decoder errors carry the offending length
//! or character, and the binary format's parse failures are translated into
//! the framework's error vocabulary with exact, inspectable payloads.

pub mod bridge;
pub mod error;
pub mod hex;
pub mod text;

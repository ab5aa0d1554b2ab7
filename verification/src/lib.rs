//! Generation and textual formatting of universally unique identifiers.
//!
//! An identifier is a 128-bit value with a version field and a variant field at
//! fixed bit positions. The generators produce identifiers of versions 1, 4, 5,
//! 6 and 7; the formatter renders an identifier as hexadecimal text.

pub mod ascii;
pub mod format;
pub mod generate;
pub mod identifier;
pub mod namespace;
pub mod request;

pub use format::format_uuid;
pub use generate::{generate_v1, generate_v4, generate_v5, generate_v6, generate_v7, name_based};
pub use identifier::Uuid;
pub use namespace::Namespace;
pub use request::{check_request, generate, generate_lines, RequestError, Version};

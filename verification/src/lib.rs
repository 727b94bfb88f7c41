//! Decoder for the Mach-O executable container format: a fixed-size header
//! followed by a sequence of variable-length, self-describing load commands.
//!
//! The decoder works over an in-memory byte buffer. Endianness and bit-width
//! are derived once from the 4-byte magic value and threaded explicitly
//! through every decode step; unknown command tags degrade into opaque,
//! round-trippable byte blobs instead of failing the whole parse.

pub mod command;
pub mod constants;
pub mod error;
pub mod extractor;
pub mod header;
pub mod macho;

pub use command::LoadCommand;
pub use error::Error;
pub use header::Header;
pub use macho::MachO;

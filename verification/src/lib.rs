//! Classification of the filesystem an open file resides on.
//!
//! Each platform reports the filesystem behind a file handle in its own
//! vocabulary: a numeric magic code from a statistics query, or a short
//! null-terminated name in a fixed-size buffer.  This crate holds the
//! portable result model and the per-platform interpretation of those raw
//! responses: decoding the buffers defensively and mapping the identifier
//! through a static lookup table, with unrecognized identifiers carried
//! verbatim as a normal, non-error outcome.
//!
//! The operating-system queries themselves are outside collaborators; the
//! functions here take the raw response as a plain value.

mod kind;
pub mod freebsd;
pub mod hex;
pub mod linux;
pub mod text;
pub mod windows;

pub use kind::FileSystemKind;
pub use kind::FileSystemKindView;
pub use kind::FileSystemName;
pub use kind::resolves_to;

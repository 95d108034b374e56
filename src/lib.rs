//! Spies for the magic number of a file or buffer, using libmagic's signature
//! databases, and hands back strongly typed MIME values.

pub mod detective;
pub mod engine;
pub mod error;

pub use detective::{mime_from_answer, MimeDetective};
pub use error::{DetectiveError, MagicError};

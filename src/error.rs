//! The one error type of the detective: a failure of libmagic, of the MIME
//! grammar, or of reading from a file handle.
use crate::engine::{load_failure_text, LoadFailure};
use vstd::prelude::*;
use vstd::string::to_string_from_display_ensures;

verus! {

/// What libmagic refused, at whichever step it did.
#[derive(Debug)]
pub enum MagicError {
    /// No cookie could be allocated under the requested flags.
    Open(magic::cookie::OpenError),
    /// A database path cannot be made into a C string.
    Paths(magic::cookie::InvalidDatabasePathError),
    /// The databases could not be loaded.
    Load(LoadFailure),
    /// A query on a file or a buffer failed.
    Query(magic::cookie::Error),
    /// A path to query holds a NUL character, so it names no file.
    NulInPath,
}

/// Represents a failure of libmagic, as well as MIME parse and I/O errors.
#[derive(Debug)]
pub enum DetectiveError {
    Magic(MagicError),
    Parse(mime::FromStrError),
    IO(std::io::Error),
}

/// The name under which each cause is shown.
pub open spec fn label_of(e: DetectiveError) -> Seq<char> {
    match e {
        DetectiveError::Magic(_) => "MagicError"@,
        DetectiveError::Parse(_) => "MimeParseError"@,
        DetectiveError::IO(_) => "IOError"@,
    }
}

/// Whether `text` is the text shown for a libmagic failure: the failure's
/// own `Display` text, or, for a load, the text naming `magic_load`.
pub open spec fn magic_text(e: MagicError, text: String) -> bool {
    match e {
        MagicError::Open(err) => to_string_from_display_ensures(&err, text),
        MagicError::Paths(err) => to_string_from_display_ensures(&err, text),
        MagicError::Load(_) => text@ == "magic cookie error in `libmagic` function magic_load"@,
        MagicError::Query(err) => to_string_from_display_ensures(&err, text),
        MagicError::NulInPath => text@ == "path holds a NUL character"@,
    }
}

/// Whether `text` is the originating error's own text for `e`.
pub open spec fn detail_text(e: DetectiveError, text: String) -> bool {
    match e {
        DetectiveError::Magic(err) => magic_text(err, text),
        DetectiveError::Parse(err) => to_string_from_display_ensures(&err, text),
        DetectiveError::IO(err) => to_string_from_display_ensures(&err, text),
    }
}

impl MagicError {
    /// libmagic's own text for the failure.
    pub fn to_message(&self) -> (r: String)
        ensures
            magic_text(*self, r),
    {
        match self {
            MagicError::Open(e) => e.to_string(),
            MagicError::Paths(e) => e.to_string(),
            MagicError::Load(e) => load_failure_text(e),
            MagicError::Query(e) => e.to_string(),
            MagicError::NulInPath => String::from_str("path holds a NUL character"),
        }
    }
}

impl DetectiveError {
    /// The name of the cause: `MagicError`, `MimeParseError` or `IOError`.
    pub fn label(&self) -> (r: &'static str)
        ensures
            r@ == label_of(*self),
    {
        match self {
            DetectiveError::Magic(_) => "MagicError",
            DetectiveError::Parse(_) => "MimeParseError",
            DetectiveError::IO(_) => "IOError",
        }
    }

    /// The message shown for this error, with `detail` as the originating
    /// error's text: the cause's name, a colon, a space, then `detail`.
    pub fn message_with(&self, detail: &str) -> (r: String)
        ensures
            r@ == label_of(*self) + ": "@ + detail@,
    {
        let mut text = String::from_str(self.label());
        text.append(": ");
        text.append(detail);
        text
    }

    /// The message shown for this error: the cause's name, then the
    /// originating error's own text.
    pub fn to_message(&self) -> (r: String)
        ensures
            exists|detail: String|
                detail_text(*self, detail) && r@ == label_of(*self) + ": "@ + detail@,
    {
        let detail = match self {
            DetectiveError::Magic(e) => e.to_message(),
            DetectiveError::Parse(e) => e.to_string(),
            DetectiveError::IO(e) => e.to_string(),
        };
        let r = self.message_with(detail.as_str());
        assert(detail_text(*self, detail) && r@ == label_of(*self) + ": "@ + detail@);
        r
    }
}

impl From<MagicError> for DetectiveError {
    fn from(err: MagicError) -> (r: Self)
        ensures
            r == DetectiveError::Magic(err),
    {
        DetectiveError::Magic(err)
    }
}

impl vstd::std_specs::convert::FromSpecImpl<MagicError> for DetectiveError {
    open spec fn obeys_from_spec() -> bool {
        true
    }

    open spec fn from_spec(err: MagicError) -> DetectiveError {
        DetectiveError::Magic(err)
    }
}

impl From<mime::FromStrError> for DetectiveError {
    fn from(err: mime::FromStrError) -> (r: Self)
        ensures
            r == DetectiveError::Parse(err),
    {
        DetectiveError::Parse(err)
    }
}

impl vstd::std_specs::convert::FromSpecImpl<mime::FromStrError> for DetectiveError {
    open spec fn obeys_from_spec() -> bool {
        true
    }

    open spec fn from_spec(err: mime::FromStrError) -> DetectiveError {
        DetectiveError::Parse(err)
    }
}

impl From<std::io::Error> for DetectiveError {
    fn from(err: std::io::Error) -> (r: Self)
        ensures
            r == DetectiveError::IO(err),
    {
        DetectiveError::IO(err)
    }
}

impl vstd::std_specs::convert::FromSpecImpl<std::io::Error> for DetectiveError {
    open spec fn obeys_from_spec() -> bool {
        true
    }

    open spec fn from_spec(err: std::io::Error) -> DetectiveError {
        DetectiveError::IO(err)
    }
}

} // verus!

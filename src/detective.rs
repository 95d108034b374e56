//! The detective: a loaded libmagic cookie, queried by path, by reader or by
//! bytes, whose answers are parsed into typed MIME values.
use crate::engine::{
    database_paths, holds_nul, load_cookie, mime_grammar_accepts, mime_type_flags, open_cookie,
    parse_mime, query_buffer, query_file, read_two, some_path_holds_nul, LoadedCookie,
};
use crate::error::{DetectiveError, MagicError};
use vstd::prelude::*;

verus! {

/// The compiled signature database that `MimeDetective::new` loads.
pub const DEFAULT_DATABASE: &'static str = "/usr/share/misc/magic.mgc";

/// To detect the MimeType/ContentType using the magic library.
pub struct MimeDetective {
    cookie: LoadedCookie,
}

/// Whether a construction failed at the step that turns the paths into a C
/// string.
pub open spec fn refused_paths<T>(r: Result<T, DetectiveError>) -> bool {
    r matches Err(DetectiveError::Magic(MagicError::Paths(_)))
}

/// Whether a construction outcome is a success or a failure of libmagic.
pub open spec fn built_or_magic<T>(r: Result<T, DetectiveError>) -> bool {
    r is Err ==> r->Err_0 is Magic
}

/// Whether a detection outcome is a MIME value, a failed libmagic query or a
/// parse failure.
pub open spec fn query_outcome<T>(r: Result<T, DetectiveError>) -> bool {
    ||| r is Ok
    ||| r matches Err(DetectiveError::Magic(MagicError::Query(_)))
    ||| r matches Err(DetectiveError::Parse(_))
}

/// Whether the path holds a NUL character.
fn path_holds_nul(path: &str) -> (r: bool)
    ensures
        r == holds_nul(path@),
{
    let n = path.unicode_len();
    let mut i: usize = 0;
    while i < n
        invariant
            n == path@.len(),
            i <= n,
            forall|j: int| 0 <= j < i ==> path@[j] != '\0',
        decreases n - i,
    {
        if path.get_char(i) == '\0' {
            return true;
        }
        i += 1;
    }
    false
}

/// Turns libmagic's answer into a MIME value: a failed query stays that
/// failure, and the answer's text becomes a MIME value exactly when the MIME
/// grammar accepts it, a parse failure otherwise.
pub fn mime_from_answer(answer: Result<String, magic::cookie::Error>) -> (r: Result<
    mime::Mime,
    DetectiveError,
>)
    ensures
        match answer {
            Err(e) => r == Err::<mime::Mime, DetectiveError>(
                DetectiveError::Magic(MagicError::Query(e)),
            ),
            Ok(text) => {
                &&& r is Ok <==> mime_grammar_accepts(text@)
                &&& r is Err ==> r->Err_0 is Parse
            },
        },
{
    match answer {
        Err(e) => Err(DetectiveError::Magic(MagicError::Query(e))),
        Ok(text) => match parse_mime(text.as_str()) {
            Ok(m) => Ok(m),
            Err(e) => Err(DetectiveError::Parse(e)),
        },
    }
}

impl MimeDetective {
    /// The database paths this detective's cookie was loaded from, in the
    /// order given; empty where libmagic's own default was loaded.
    pub closed spec fn databases(&self) -> Seq<Seq<char>> {
        self.cookie.databases()
    }

    /// Initialize detective with magic database from `/usr/share/misc/magic.mgc`.
    ///
    /// Requires system to have libmagic installed.
    pub fn new() -> (r: Result<MimeDetective, DetectiveError>)
        ensures
            built_or_magic(r),
            !refused_paths(r),
            r is Ok ==> r->Ok_0.databases() == seq![DEFAULT_DATABASE@],
    {
        let paths: [&str; 1] = [DEFAULT_DATABASE];
        proof {
            reveal_strlit("/usr/share/misc/magic.mgc");
            assert(!holds_nul(paths@[0]@));
            assert(paths@.map_values(|p: &str| p@) =~= seq![DEFAULT_DATABASE@]);
        }
        MimeDetective::load_databases(&paths)
    }

    /// Initialize detective with magic databases available at the provided
    /// paths, in the order given. An empty list loads libmagic's default
    /// databases.
    ///
    /// Requires system to have libmagic installed.
    pub fn load_databases(paths: &[&str]) -> (r: Result<MimeDetective, DetectiveError>)
        ensures
            built_or_magic(r),
            refused_paths(r) <==> some_path_holds_nul(paths@),
            r is Ok ==> r->Ok_0.databases() == paths@.map_values(|p: &str| p@),
    {
        let databases = match database_paths(paths) {
            Ok(databases) => databases,
            Err(e) => return Err(DetectiveError::Magic(MagicError::Paths(e))),
        };
        let opened = match open_cookie(mime_type_flags()) {
            Ok(opened) => opened,
            Err(e) => return Err(DetectiveError::Magic(MagicError::Open(e))),
        };
        match load_cookie(opened, &databases) {
            Ok(cookie) => Ok(MimeDetective { cookie }),
            Err(e) => Err(DetectiveError::Magic(MagicError::Load(e))),
        }
    }

    /// Detect Mime of a filepath. libmagic reads the file itself.
    pub fn detect_filepath(&self, filename: &str) -> (r: Result<mime::Mime, DetectiveError>)
        ensures
            query_outcome(r) || r matches Err(DetectiveError::Magic(MagicError::NulInPath)),
            holds_nul(filename@) <==> r matches Err(
                DetectiveError::Magic(MagicError::NulInPath),
            ),
    {
        if path_holds_nul(filename) {
            return Err(DetectiveError::Magic(MagicError::NulInPath));
        }
        mime_from_answer(query_file(&self.cookie, filename))
    }

    /// Detect Mime of a file: reads its first two bytes, which advances the
    /// reader by two, and detects the Mime of those.
    pub fn detect_file<R: std::io::Read>(&self, file: &mut R) -> (r: Result<
        mime::Mime,
        DetectiveError,
    >)
        ensures
            query_outcome(r) || r matches Err(DetectiveError::IO(_)),
    {
        self.detect_head(read_two(file))
    }

    /// Detect Mime of the leading bytes read from a file, or pass on the
    /// failure to read them.
    pub fn detect_head(&self, head: Result<[u8; 2], std::io::Error>) -> (r: Result<
        mime::Mime,
        DetectiveError,
    >)
        ensures
            match head {
                Err(e) => r == Err::<mime::Mime, DetectiveError>(DetectiveError::IO(e)),
                Ok(_) => query_outcome(r),
            },
    {
        match head {
            Err(e) => Err(DetectiveError::IO(e)),
            Ok(bytes) => self.detect_buffer(bytes.as_slice()),
        }
    }

    /// Detect Mime of a buffer. An empty buffer is detected as
    /// `application/x-empty`, libmagic's answer for empty content.
    pub fn detect_buffer(&self, buffer: &[u8]) -> (r: Result<mime::Mime, DetectiveError>)
        ensures
            query_outcome(r),
    {
        mime_from_answer(query_buffer(&self.cookie, buffer))
    }
}

} // verus!

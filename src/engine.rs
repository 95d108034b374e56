//! The outside collaborators: libmagic's cookie and the MIME grammar parser.
use vstd::prelude::*;

verus! {

#[verifier::external_type_specification]
#[verifier::external_body]
pub struct ExMime(mime::Mime);

#[verifier::external_type_specification]
#[verifier::external_body]
pub struct ExFromStrError(mime::FromStrError);

#[verifier::external_type_specification]
#[verifier::external_body]
pub struct ExIoError(std::io::Error);

#[verifier::external_type_specification]
#[verifier::external_body]
pub struct ExOpenError(magic::cookie::OpenError);

#[verifier::external_type_specification]
#[verifier::external_body]
pub struct ExQueryError(magic::cookie::Error);

#[verifier::external_type_specification]
#[verifier::external_body]
pub struct ExInvalidDatabasePathError(magic::cookie::InvalidDatabasePathError);

#[verifier::external_type_specification]
#[verifier::external_body]
pub struct ExFlags(magic::cookie::Flags);

#[verifier::external_type_specification]
#[verifier::external_body]
pub struct ExDatabasePaths(magic::cookie::DatabasePaths);

/// Whether `mime`'s `FromStr` accepts the text: the MIME grammar is that
/// crate's, and the answer depends on the text alone.
pub uninterp spec fn mime_grammar_accepts(s: Seq<char>) -> bool;

/// Relies on `<mime::Mime as FromStr>::from_str`: it succeeds exactly on the
/// texts its grammar accepts.
#[verifier::external_body]
pub(crate) fn parse_mime(s: &str) -> (r: Result<mime::Mime, mime::FromStrError>)
    ensures
        r is Ok <==> mime_grammar_accepts(s@),
{
    s.parse::<mime::Mime>()
}

/// A libmagic cookie that has been opened but holds no database yet.
/// (Verus cannot name magic's sealed `State` trait, so the typestate cookie
/// is held behind this opaque struct.)
#[verifier::external_body]
#[derive(Debug)]
pub struct OpenedCookie {
    cookie: magic::cookie::Cookie<magic::cookie::Open>,
}

/// The libmagic handle of a cookie whose databases are loaded.
#[verifier::external_body]
#[derive(Debug)]
pub struct CookieHandle {
    cookie: magic::cookie::Cookie<magic::cookie::Load>,
}

/// A libmagic cookie with its signature databases loaded, ready to be queried,
/// with the database paths it was loaded from.
pub struct LoadedCookie {
    handle: CookieHandle,
    databases: Ghost<Seq<Seq<char>>>,
}

impl LoadedCookie {
    /// The database paths handed to libmagic when the cookie was loaded, in
    /// order; empty where libmagic's own default was loaded.
    pub closed spec fn databases(&self) -> Seq<Seq<char>> {
        self.databases@
    }
}

/// The database paths to load, as libmagic takes them, with the paths they
/// were made from.
pub struct DatabaseList {
    paths: magic::cookie::DatabasePaths,
    names: Ghost<Seq<Seq<char>>>,
}

impl DatabaseList {
    /// The paths the list was made from, in order.
    pub closed spec fn names(&self) -> Seq<Seq<char>> {
        self.names@
    }
}

/// libmagic's refusal to load a set of databases into an opened cookie.
#[verifier::external_body]
#[derive(Debug)]
pub struct LoadFailure {
    error: magic::cookie::LoadError<magic::cookie::Open>,
}

/// Relies on `magic::cookie::Flags`: under `MIME_TYPE` libmagic answers with a
/// MIME type string rather than a description, and under `ERROR` it reports a
/// file it cannot open as an error rather than as text in its answer.
#[verifier::external_body]
pub(crate) fn mime_type_flags() -> (r: magic::cookie::Flags) {
    magic::cookie::Flags::MIME_TYPE | magic::cookie::Flags::ERROR
}

/// Relies on `magic::Cookie::open`: allocates a cookie with the given flags,
/// or reports libmagic's failure to do so.
#[verifier::external_body]
pub(crate) fn open_cookie(flags: magic::cookie::Flags) -> (r: Result<OpenedCookie, magic::cookie::OpenError>) {
    magic::Cookie::open(flags).map(|cookie| OpenedCookie { cookie })
}

/// Whether a path holds a NUL character: libmagic takes paths as C strings,
/// which cannot hold one, and no file is named by such a path.
pub open spec fn holds_nul(path: Seq<char>) -> bool {
    path.contains('\0')
}

/// Whether some path of the list holds a NUL character.
pub open spec fn some_path_holds_nul(paths: Seq<&str>) -> bool {
    exists|i: int| 0 <= i < paths.len() && holds_nul(#[trigger] paths[i]@)
}

/// Relies on `DatabasePaths::try_from(&[P])` (magic's `DatabasePaths::new`):
/// it joins the paths with ':' into one C string, which fails exactly when a
/// path holds a NUL character.
#[verifier::external_body]
pub(crate) fn database_paths(paths: &[&str]) -> (r: Result<
    DatabaseList,
    magic::cookie::InvalidDatabasePathError,
>)
    ensures
        r is Err <==> some_path_holds_nul(paths@),
        r is Ok ==> r->Ok_0.names() == paths@.map_values(|p: &str| p@),
{
    magic::cookie::DatabasePaths::try_from(paths).map(
        |list| DatabaseList { paths: list, names: Ghost(paths@.map_values(|p: &str| p@)) },
    )
}

/// Relies on `magic::Cookie::load`: loads exactly the listed databases into
/// the cookie, or reports libmagic's failure (a missing or malformed database
/// file).
#[verifier::external_body]
pub(crate) fn load_cookie(cookie: OpenedCookie, databases: &DatabaseList) -> (r: Result<
    LoadedCookie,
    LoadFailure,
>)
    ensures
        r is Ok ==> r->Ok_0.databases() == databases.names(),
{
    match cookie.cookie.load(&databases.paths) {
        Ok(cookie) => Ok(
            LoadedCookie { handle: CookieHandle { cookie }, databases: Ghost(databases.names()) },
        ),
        Err(error) => Err(LoadFailure { error }),
    }
}

/// Relies on `magic::Cookie::buffer`: libmagic's answer for the bytes, under
/// the databases and flags of the cookie.
#[verifier::external_body]
pub(crate) fn query_buffer(cookie: &LoadedCookie, buffer: &[u8]) -> (r: Result<
    String,
    magic::cookie::Error,
>) {
    cookie.handle.cookie.buffer(buffer)
}

/// Relies on `magic::Cookie::file`: libmagic's answer for the file at the
/// path. That function unwraps the path's conversion to a C string, so the
/// path holds no NUL character.
#[verifier::external_body]
pub(crate) fn query_file(cookie: &LoadedCookie, path: &str) -> (r: Result<
    String,
    magic::cookie::Error,
>)
    requires
        !holds_nul(path@),
{
    cookie.handle.cookie.file(path)
}

/// Relies on `Display` for `magic::cookie::LoadError`: the text names the
/// libmagic function that failed, which for a load is `magic_load`.
#[verifier::external_body]
pub(crate) fn load_failure_text(failure: &LoadFailure) -> (r: String)
    ensures
        r@ == "magic cookie error in `libmagic` function magic_load"@,
{
    failure.error.to_string()
}

/// Relies on `std::io::Read::read_exact`: fills two bytes from the reader, or
/// reports the reader's error (an unexpected end when fewer are left).
#[verifier::external_body]
pub(crate) fn read_two<R: std::io::Read>(reader: &mut R) -> (r: Result<[u8; 2], std::io::Error>) {
    let mut head: [u8; 2] = [0; 2];
    reader.read_exact(&mut head).map(|_| head)
}

} // verus!

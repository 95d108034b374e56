use mime_detective::{mime_from_answer, DetectiveError, MagicError, MimeDetective};
use std::io::{Cursor, Read};

fn init() -> MimeDetective {
    MimeDetective::new().expect("mime db not found")
}

/// A readable handle over the same leading bytes as the crate's Cargo.toml.
fn read_file() -> Cursor<Vec<u8>> {
    Cursor::new(b"[package]\nname = \"mime_detective\"\n".to_vec())
}

#[test]
fn detect_filepath() {
    let detective = init();
    // the crate's own root source file: UTF-8 text that starts with printable ASCII
    let mime = detective.detect_filepath("src/lib.rs").unwrap();
    assert_eq!(mime::TEXT_PLAIN, mime);
}

#[test]
fn detect_file() {
    let detective = init();
    let mut file = read_file();
    let mime = detective.detect_file(&mut file).unwrap();
    assert_eq!(mime::TEXT_PLAIN, mime);
}

#[test]
fn detect_buffer() {
    let detective = init();
    let mut file = read_file();
    let mut buf: [u8; 2] = [0; 2];
    file.read_exact(&mut buf).unwrap();
    let mime = detective.detect_buffer(&buf).unwrap();
    assert_eq!(mime::TEXT_PLAIN, mime);
}

#[test]
fn three_forms_agree_on_plain_text() {
    let detective = init();
    let by_path = detective.detect_filepath("src/lib.rs").unwrap();
    let by_file = detective.detect_file(&mut Cursor::new(b"//! text".to_vec())).unwrap();
    let head: [u8; 2] = *b"//";
    let by_buffer = detective.detect_buffer(&head).unwrap();
    assert_eq!(by_path.essence_str(), by_file.essence_str());
    assert_eq!(by_file.essence_str(), by_buffer.essence_str());
}

#[test]
fn detect_file_advances_reader_by_two() {
    let detective = init();
    let mut reader = Cursor::new(b"hello, world\n".to_vec());
    let mime = detective.detect_file(&mut reader).unwrap();
    assert_eq!(mime::TEXT_PLAIN, mime);
    assert_eq!(reader.position(), 2);
    let mut rest = String::new();
    reader.read_to_string(&mut rest).unwrap();
    assert_eq!(rest, "llo, world\n");
}

#[test]
fn detect_file_on_short_reader_is_io_failure() {
    let detective = init();
    let mut reader = Cursor::new(vec![b'h']);
    let r = detective.detect_file(&mut reader);
    assert!(matches!(r, Err(DetectiveError::IO(_))));
}

#[test]
fn detect_file_on_empty_reader_is_io_failure() {
    let detective = init();
    let mut reader = Cursor::new(Vec::new());
    let r = detective.detect_file(&mut reader);
    match r {
        Err(DetectiveError::IO(e)) => assert_eq!(e.kind(), std::io::ErrorKind::UnexpectedEof),
        _ => panic!("expected an I/O failure"),
    }
}

#[test]
fn detect_head_passes_read_failure_on() {
    let detective = init();
    let failure = std::io::Error::new(std::io::ErrorKind::Other, "disk gone");
    let r = detective.detect_head(Err(failure));
    assert!(matches!(r, Err(DetectiveError::IO(_))));
}

#[test]
fn detect_head_detects_the_bytes() {
    let detective = init();
    let mime = detective.detect_head(Ok(*b"ab")).unwrap();
    assert_eq!(mime::TEXT_PLAIN, mime);
}

#[test]
fn missing_file_is_magic_failure() {
    let detective = init();
    let r = detective.detect_filepath("/nonexistent/file.txt");
    assert!(matches!(r, Err(DetectiveError::Magic(MagicError::Query(_)))));
}

#[test]
fn empty_buffer_is_x_empty() {
    let detective = init();
    let mime = detective.detect_buffer(&[]).unwrap();
    assert_eq!(mime.essence_str(), "application/x-empty");
}

#[test]
fn png_header_is_image_png() {
    let detective = init();
    let header: [u8; 24] = [
        0x89, b'P', b'N', b'G', 0x0d, 0x0a, 0x1a, 0x0a, 0, 0, 0, 13, b'I', b'H', b'D', b'R', 0,
        0, 0, 16, 0, 0, 0, 16,
    ];
    let mime = detective.detect_buffer(&header).unwrap();
    assert_eq!(mime::IMAGE_PNG, mime);
}

#[test]
fn repeated_detection_is_stable() {
    let detective = init();
    let bytes = b"plain words for the detective\n";
    let first = detective.detect_buffer(bytes).unwrap();
    let second = detective.detect_buffer(bytes).unwrap();
    assert_eq!(first, second);
    let by_path_1 = detective.detect_filepath("tests/detective.rs").unwrap();
    let by_path_2 = detective.detect_filepath("tests/detective.rs").unwrap();
    assert_eq!(by_path_1, by_path_2);
}

#[test]
fn missing_database_is_magic_failure() {
    let r = MimeDetective::load_databases(&["/nonexistent/signatures.mgc"]);
    assert!(matches!(r, Err(DetectiveError::Magic(MagicError::Load(_)))));
}

#[test]
fn nul_in_database_path_is_refused() {
    let r = MimeDetective::load_databases(&["/usr/share/misc/magic.mgc", "bad\0path"]);
    assert!(matches!(r, Err(DetectiveError::Magic(MagicError::Paths(_)))));
}

#[test]
fn explicit_default_database_loads() {
    let detective = MimeDetective::load_databases(&["/usr/share/misc/magic.mgc"]).unwrap();
    let mime = detective.detect_buffer(b"some text\n").unwrap();
    assert_eq!(mime::TEXT_PLAIN, mime);
}

#[test]
fn malformed_answer_is_parse_failure() {
    let r = mime_from_answer(Ok("not a mime".to_string()));
    assert!(matches!(r, Err(DetectiveError::Parse(_))));
    let r = mime_from_answer(Ok(String::new()));
    assert!(matches!(r, Err(DetectiveError::Parse(_))));
}

#[test]
fn well_formed_answer_parses() {
    let mime = mime_from_answer(Ok("text/plain".to_string())).unwrap();
    assert_eq!(mime::TEXT_PLAIN, mime);
    let mime = mime_from_answer(Ok("text/plain; charset=utf-8".to_string())).unwrap();
    assert_eq!(mime::TEXT_PLAIN_UTF_8, mime);
    let mime = mime_from_answer(Ok("Image/PNG".to_string())).unwrap();
    assert_eq!(mime::IMAGE_PNG, mime);
}

#[test]
fn labels_name_the_cause() {
    let io = DetectiveError::IO(std::io::Error::new(std::io::ErrorKind::Other, "x"));
    assert_eq!(io.label(), "IOError");
    let parse = match mime_from_answer(Ok("nope".to_string())) {
        Err(e) => e,
        Ok(_) => panic!("expected a parse failure"),
    };
    assert_eq!(parse.label(), "MimeParseError");
    let magic = MimeDetective::load_databases(&["nul\0"]).err().unwrap();
    assert_eq!(magic.label(), "MagicError");
}

#[test]
fn message_with_joins_label_and_detail() {
    let io = DetectiveError::IO(std::io::Error::new(std::io::ErrorKind::Other, "x"));
    assert_eq!(io.message_with("disk gone"), "IOError: disk gone");
}

#[test]
fn messages_carry_the_originating_text() {
    let io = DetectiveError::IO(std::io::Error::new(std::io::ErrorKind::Other, "disk gone"));
    assert_eq!(io.to_message(), "IOError: disk gone");
    let parse = mime_from_answer(Ok("nope".to_string())).err().unwrap();
    assert!(parse.to_message().starts_with("MimeParseError: mime parse error"));
    let load = MimeDetective::load_databases(&["/nonexistent/signatures.mgc"]).err().unwrap();
    assert_eq!(
        load.to_message(),
        "MagicError: magic cookie error in `libmagic` function magic_load"
    );
    let paths = MimeDetective::load_databases(&["nul\0"]).err().unwrap();
    assert_eq!(paths.to_message(), "MagicError: invalid database files path");
}

#[test]
fn from_wraps_each_cause() {
    let e = DetectiveError::from(std::io::Error::new(std::io::ErrorKind::Other, "x"));
    assert!(matches!(e, DetectiveError::IO(_)));
    let parse_error = "nope".parse::<mime::Mime>().err().unwrap();
    assert!(matches!(DetectiveError::from(parse_error), DetectiveError::Parse(_)));
    let magic = match MimeDetective::load_databases(&["nul\0"]) {
        Err(DetectiveError::Magic(m)) => m,
        _ => panic!("expected a libmagic failure"),
    };
    assert!(matches!(DetectiveError::from(magic), DetectiveError::Magic(MagicError::Paths(_))));
}

#[test]
fn nul_in_queried_path_is_magic_failure() {
    let detective = init();
    let r = detective.detect_filepath("src/lib.rs\0");
    assert!(matches!(r, Err(DetectiveError::Magic(MagicError::NulInPath))));
    let message = r.err().unwrap().to_message();
    assert_eq!(message, "MagicError: path holds a NUL character");
}

use base::error::{make_error, make_error_code, Error, ErrorCode};

#[test]
fn error_keeps_code_and_message() {
    let e = Error::new(ErrorCode::NotEnoughStream, String::from("short"));
    assert!(matches!(e.code(), ErrorCode::NotEnoughStream));
    assert_eq!(e.message(), "short");
}

#[test]
fn make_error_gives_an_err() {
    let r: Result<u32, Error> = make_error(ErrorCode::MalformedStream, String::from("bad"));
    let e = r.err().unwrap();
    assert!(matches!(e.code(), ErrorCode::MalformedStream));
    assert_eq!(e.message(), "bad");
    let r: Result<(), Error> = make_error(ErrorCode::EndOfStream, String::new());
    let e = r.err().unwrap();
    assert!(matches!(e.code(), ErrorCode::EndOfStream));
    assert_eq!(e.message(), "");
}

#[test]
fn make_error_code_has_an_empty_message() {
    let r: Result<u8, Error> = make_error_code(ErrorCode::NotEnoughStream);
    let e = r.err().unwrap();
    assert!(matches!(e.code(), ErrorCode::NotEnoughStream));
    assert_eq!(e.message(), "");
}

use error_core::error::{Error, ErrorKind, Failure, ResultExt};
use std::borrow::Cow;
use std::cell::Cell;

fn parse_header(bytes: &[u8]) -> Result<u32, Failure> {
    if bytes.len() != 4 {
        return Err(Failure::new(format!("header is {} bytes, expected 4", bytes.len())));
    }
    if &bytes[..2] != b"HD" {
        return Err(Failure::new("header does not start with HD".to_string()));
    }
    Ok(u32::from(bytes[2]) << 8 | u32::from(bytes[3]))
}

#[test]
fn kind_names() {
    assert_eq!(ErrorKind::InvalidData.to_string(), "InvalidData");
    assert_eq!(ErrorKind::Io.to_string(), "Io");
    assert_eq!(ErrorKind::Other.name(), "Other");
}

#[test]
fn from_kind_alone() {
    for kind in [ErrorKind::InvalidData, ErrorKind::Io, ErrorKind::Other] {
        let e = Error::from(kind);
        assert_eq!(*e.kind(), kind);
        assert_eq!(e.message(), None);
        assert!(e.source().is_none());
        assert_eq!(e.to_string(), kind.to_string());
    }
}

#[test]
fn with_message_static_and_owned() {
    let e = Error::with_message(ErrorKind::Other, "fixed text");
    assert_eq!(*e.kind(), ErrorKind::Other);
    assert_eq!(e.message(), Some("fixed text"));
    assert_eq!(e.to_string(), "fixed text");
    assert!(e.source().is_none());

    let e = Error::with_message(ErrorKind::Io, format!("code {}", 42));
    assert_eq!(e.message(), Some("code 42"));
    assert_eq!(e.to_string(), "code 42");

    let e = Error::with_message(ErrorKind::Io, Cow::Borrowed("cow"));
    assert_eq!(e.message(), Some("cow"));
}

#[test]
fn with_message_fn_runs_producer_once() {
    let calls = Cell::new(0u32);
    let e = Error::with_message_fn(ErrorKind::InvalidData, || {
        calls.set(calls.get() + 1);
        format!("lazy {}", 7)
    });
    assert_eq!(calls.get(), 1);
    assert_eq!(*e.kind(), ErrorKind::InvalidData);
    assert_eq!(e.message(), Some("lazy 7"));
    assert_eq!(e.to_string(), "lazy 7");
}

#[test]
fn custom_message_renders_message_not_cause() {
    let cause = Failure::new("inner failure".to_string());
    let e = Error::with_error(ErrorKind::InvalidData, cause, "outer message");
    assert_eq!(*e.kind(), ErrorKind::InvalidData);
    assert_eq!(e.message(), Some("outer message"));
    assert_eq!(e.to_string(), "outer message");
    let source = e.source().unwrap();
    assert_eq!(source.to_string(), "inner failure");
    assert!(source.source().is_none());
}

#[test]
fn with_error_fn_runs_producer_once() {
    let calls = Cell::new(0u32);
    let e = Error::with_error_fn(ErrorKind::Io, "disk gone", || {
        calls.set(calls.get() + 1);
        "while saving"
    });
    assert_eq!(calls.get(), 1);
    assert_eq!(e.message(), Some("while saving"));
    assert_eq!(e.source().unwrap().to_string(), "disk gone");
}

#[test]
fn custom_renders_as_cause() {
    let cause = Failure::caused_by("top".to_string(), Failure::new("bottom".to_string()));
    let e = Error::new(ErrorKind::Other, cause);
    assert_eq!(*e.kind(), ErrorKind::Other);
    assert_eq!(e.message(), None);
    assert_eq!(e.to_string(), "top");
    let first = e.source().unwrap();
    assert_eq!(first.to_string(), "top");
    let second = first.source().unwrap();
    assert_eq!(second.to_string(), "bottom");
    assert!(second.source().is_none());
}

#[test]
fn custom_from_text_cause() {
    let e = Error::new(ErrorKind::Io, "plain text cause");
    assert_eq!(e.to_string(), "plain text cause");
    let e = Error::new(ErrorKind::Io, String::from("owned cause"));
    assert_eq!(e.source().unwrap().to_string(), "owned cause");
}

#[test]
fn error_nests_inside_error() {
    let inner = Error::with_error(ErrorKind::Io, "root cause", "inner message");
    let outer = Error::new(ErrorKind::Other, inner);
    assert_eq!(*outer.kind(), ErrorKind::Other);
    assert_eq!(outer.to_string(), "inner message");
    let first = outer.source().unwrap();
    assert_eq!(first.to_string(), "inner message");
    assert_eq!(first.source().unwrap().to_string(), "root cause");

    let bare = Error::new(ErrorKind::InvalidData, Error::from(ErrorKind::Io));
    assert_eq!(bare.to_string(), "Io");
    assert!(bare.source().unwrap().source().is_none());
}

#[test]
fn with_kind_passes_success_through() {
    let r: Result<Vec<u8>, Failure> = Ok(vec![1, 2, 3]);
    let adapted = r.with_kind(ErrorKind::Io);
    assert_eq!(adapted.unwrap(), vec![1, 2, 3]);
}

#[test]
fn with_kind_wraps_failure() {
    let r: Result<u32, &'static str> = Err("broken");
    let e = r.with_kind(ErrorKind::Other).unwrap_err();
    assert_eq!(*e.kind(), ErrorKind::Other);
    assert_eq!(e.message(), None);
    assert_eq!(e.to_string(), "broken");
    assert_eq!(e.source().unwrap().to_string(), "broken");
}

#[test]
fn with_context_passes_success_through() {
    let r: Result<u32, String> = Ok(9);
    assert_eq!(r.with_context(ErrorKind::InvalidData, "unused").unwrap(), 9);
}

#[test]
fn with_context_fn_not_called_on_success() {
    let calls = Cell::new(0u32);
    let r: Result<u32, Failure> = Ok(3);
    let adapted = r.with_context_fn(ErrorKind::Io, || {
        calls.set(calls.get() + 1);
        "never"
    });
    assert_eq!(adapted.unwrap(), 3);
    assert_eq!(calls.get(), 0);
}

#[test]
fn with_context_fn_called_once_on_failure() {
    let calls = Cell::new(0u32);
    let r: Result<u32, Failure> = Err(Failure::new("low level".to_string()));
    let e = r
        .with_context_fn(ErrorKind::Io, || {
            calls.set(calls.get() + 1);
            format!("attempt {}", 2)
        })
        .unwrap_err();
    assert_eq!(calls.get(), 1);
    assert_eq!(*e.kind(), ErrorKind::Io);
    assert_eq!(e.message(), Some("attempt 2"));
    assert_eq!(e.to_string(), "attempt 2");
    assert_eq!(e.source().unwrap().to_string(), "low level");
}

#[test]
fn io_failure_converts_to_io_kind() {
    let io = std::io::Error::new(std::io::ErrorKind::NotFound, "no such thing");
    let original = io.to_string();
    let e = Error::from(io);
    assert_eq!(*e.kind(), ErrorKind::Io);
    assert_eq!(e.message(), None);
    assert_eq!(e.source().unwrap().to_string(), original);
    assert_eq!(e.to_string(), original);

    let io = std::io::Error::new(std::io::ErrorKind::Other, "other io");
    let e = Error::from_io(io);
    assert_eq!(e.to_string(), "other io");
}

#[test]
fn malformed_header_with_context() {
    let parsed = parse_header(b"XY\x00\x01");
    let original = parsed.as_ref().unwrap_err().to_string();
    let e = parsed
        .with_context(ErrorKind::InvalidData, "bad header")
        .unwrap_err();
    assert_eq!(*e.kind(), ErrorKind::InvalidData);
    assert_eq!(e.message(), Some("bad header"));
    assert_eq!(e.source().unwrap().to_string(), original);
    assert_eq!(e.to_string(), "bad header");
}

#[test]
fn well_formed_header_passes() {
    let parsed = parse_header(b"HD\x01\x02").with_context(ErrorKind::InvalidData, "bad header");
    assert_eq!(parsed.unwrap(), 0x0102);
}

#[test]
fn failing_open_with_kind() {
    let opened: Result<(), std::io::Error> =
        Err(std::io::Error::new(std::io::ErrorKind::NotFound, "file not found"));
    let original = opened.as_ref().unwrap_err().to_string();
    let e = opened.with_kind(ErrorKind::Io).unwrap_err();
    assert_eq!(*e.kind(), ErrorKind::Io);
    assert_eq!(e.message(), None);
    assert_eq!(e.to_string(), original);
}


#[test]
fn custom_from_borrowed_text_cause() {
    let owned = format!("short-lived {}", 1);
    let e = Error::new(ErrorKind::InvalidData, owned.as_str());
    drop(owned);
    assert_eq!(e.to_string(), "short-lived 1");
    assert!(e.source().unwrap().source().is_none());
}

use chnroutes::error::{CacheError, Error, ExecError, OsError, OsErrorKind, RouteOpError};
use chnroutes::text::{chars_of, log2_floor, parse_u32, str_contains, str_equal};

fn failure() -> OsError {
    OsError::new(OsErrorKind::NotFound, Some(2), "No such file or directory (os error 2)")
}

#[test]
fn messages_of_route_errors() {
    assert_eq!(RouteOpError::OpError(failure()).message(), "Any IO Error");
    assert_eq!(RouteOpError::NoGatewayError.message(), "cannot find system default gateway");
    assert_eq!(RouteOpError::HandleInitError.message(), "cannot create handle");
    assert_eq!(
        RouteOpError::FutureError("task 7 panicked".to_string()).message(),
        "futures join error: task 7 panicked"
    );
    assert_eq!(
        RouteOpError::GetInterfaceError("Local IP address not found".to_string()).message(),
        "Get default interface error: Local IP address not found"
    );
}

#[test]
fn messages_of_errors() {
    assert_eq!(
        Error::NetworkError("timed out".to_string()).message(),
        "Network error: timed out"
    );
    assert_eq!(
        Error::IOError(failure()).message(),
        "IO error: No such file or directory (os error 2)"
    );
    assert_eq!(Error::CacheError(CacheError::IOError(failure())).message(), "Cache error: ");
    assert_eq!(Error::ExecError(ExecError::ExecError(failure())).message(), "Exec error: ");
    assert_eq!(Error::InvalidTarget.message(), "Invalid target");
    assert_eq!(
        Error::RouteOpError(RouteOpError::NoGatewayError).message(),
        "Route operation error: cannot find system default gateway"
    );
    assert_eq!(CacheError::IOError(failure()).message(), "");
    assert_eq!(ExecError::ExecError(failure()).message(), "");
}

#[test]
fn errors_are_copied_whole() {
    let e = Error::RouteOpError(RouteOpError::OpError(failure()));
    assert_eq!(e.clone(), e);
    assert_eq!(failure().clone(), failure());
    assert_eq!(failure().kind, OsErrorKind::NotFound);
    assert_eq!(failure().code, Some(2));
}

#[test]
fn texts_are_compared_and_searched() {
    assert!(str_equal("", ""));
    assert!(str_equal("linux", "linux"));
    assert!(!str_equal("linux", "linus"));
    assert!(!str_equal("linux", "linu"));
    assert!(str_contains("File exists (os error 17)", "exists"));
    assert!(str_contains("exists", "exists"));
    assert!(str_contains("anything", ""));
    assert!(str_contains("", ""));
    assert!(!str_contains("exist", "exists"));
    assert!(!str_contains("", "exists"));
    assert!(!str_contains("Exists", "exists"));
    assert!(str_contains("exexists", "exists"));
    assert_eq!(chars_of("a\u{e9}\u{4e2d}"), vec!['a', '\u{e9}', '\u{4e2d}']);
}

#[test]
fn numerals_and_logarithms() {
    let read = |text: &str| {
        let chars = chars_of(text);
        parse_u32(&chars, 0, chars.len())
    };
    assert_eq!(read("0"), Some(0));
    assert_eq!(read("007"), Some(7));
    assert_eq!(read("+42"), Some(42));
    assert_eq!(read("4294967295"), Some(u32::MAX));
    assert_eq!(read("4294967296"), None);
    assert_eq!(read("99999999999999999999999"), None);
    assert_eq!(read(""), None);
    assert_eq!(read("+"), None);
    assert_eq!(read("-1"), None);
    assert_eq!(read("++1"), None);
    assert_eq!(read("1 "), None);
    assert_eq!(read("\u{664}"), None);
    assert_eq!(log2_floor(0), 0);
    assert_eq!(log2_floor(1), 0);
    assert_eq!(log2_floor(2), 1);
    assert_eq!(log2_floor(255), 7);
    assert_eq!(log2_floor(256), 8);
    assert_eq!(log2_floor(u32::MAX), 31);
}

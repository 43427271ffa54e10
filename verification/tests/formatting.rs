use std::cell::Cell;

use dprint_cmakefmt::format::{finish_format, report_output, start_format};
use dprint_cmakefmt::{CMakeFmtPlugin, Casing, FormatFailure, FormatRequest, NewLineKind, ResolvedConfig};

fn request<'a>(bytes: &[u8], config: &'a ResolvedConfig) -> FormatRequest<'a> {
    FormatRequest {
        file_path: "src/CMakeLists.txt",
        file_bytes: bytes.to_vec(),
        config,
        range: None,
    }
}

#[test]
fn failure_messages() {
    assert_eq!(FormatFailure::Cancelled.to_string(), "Formatting cancelled.");
    assert_eq!(
        FormatFailure::RangeNotSupported.to_string(),
        "Range formatting is not supported by dprint-cmakefmt."
    );
    assert_eq!(
        FormatFailure::InvalidUtf8 { path: "a.cmake".to_string(), detail: "bad".to_string() }.to_string(),
        "Could not format a.cmake because it is not valid UTF-8: bad"
    );
    assert_eq!(
        FormatFailure::Cmakefmt { path: "a.cmake".to_string(), detail: "oops".to_string() }.to_string(),
        "Could not format a.cmake with cmakefmt: oops"
    );
}

#[test]
fn invalid_utf8_names_the_file_and_the_error() {
    let config = ResolvedConfig::default();
    let err = CMakeFmtPlugin.format(request(&[b'x', 0xff], &config), || false).unwrap_err();
    assert_eq!(
        err,
        FormatFailure::InvalidUtf8 {
            path: "src/CMakeLists.txt".to_string(),
            detail: "invalid utf-8 sequence of 1 bytes from index 1".to_string(),
        }
    );
}

#[test]
fn cmakefmt_errors_name_the_file() {
    let config = ResolvedConfig::default();
    let err = CMakeFmtPlugin.format(request(b"if(\n", &config), || false).unwrap_err();
    match err {
        FormatFailure::Cmakefmt { path, detail } => {
            assert_eq!(path, "src/CMakeLists.txt");
            assert!(!detail.is_empty());
        }
        other => panic!("unexpected failure {other:?}"),
    }
}

#[test]
fn configuration_reaches_cmakefmt() {
    let mut config = ResolvedConfig::default();
    config.command_case = Casing::Upper;
    let result = CMakeFmtPlugin
        .format(request(b"cmake_minimum_required(VERSION 3.20)\n", &config), || false)
        .unwrap();
    assert_eq!(result, Some(b"CMAKE_MINIMUM_REQUIRED(VERSION 3.20)\n".to_vec()));
}

#[test]
fn crlf_configuration_writes_crlf() {
    let mut config = ResolvedConfig::default();
    config.new_line_kind = NewLineKind::CarriageReturnLineFeed;
    let result = CMakeFmtPlugin
        .format(request(b"project(demo)\n", &config), || false)
        .unwrap();
    assert_eq!(result, Some(b"project(demo)\r\n".to_vec()));
}

#[test]
fn cancellation_after_formatting_is_respected() {
    let config = ResolvedConfig::default();
    let calls = Cell::new(0);
    let err = CMakeFmtPlugin
        .format(request(b"CMAKE_MINIMUM_REQUIRED(VERSION 3.20)\n", &config), || {
            calls.set(calls.get() + 1);
            calls.get() > 1
        })
        .unwrap_err();
    assert_eq!(err, FormatFailure::Cancelled);
    assert_eq!(calls.get(), 2);
}

#[test]
fn cancellation_is_checked_before_the_range() {
    let config = ResolvedConfig::default();
    let mut ranged = request(b"project(demo)\n", &config);
    ranged.range = Some(0..3);
    let err = CMakeFmtPlugin.format(ranged, || true).unwrap_err();
    assert_eq!(err, FormatFailure::Cancelled);
}

#[test]
fn range_is_checked_before_the_encoding() {
    let config = ResolvedConfig::default();
    let mut ranged = request(&[0xff], &config);
    ranged.range = Some(0..1);
    let err = CMakeFmtPlugin.format(ranged, || false).unwrap_err();
    assert_eq!(err, FormatFailure::RangeNotSupported);
}

#[test]
fn report_output_compares_with_the_source() {
    assert_eq!(report_output("f.cmake", "a()\n", Ok("a()\n".to_string())), Ok(None));
    assert_eq!(
        report_output("f.cmake", "A()\n", Ok("a()\n".to_string())),
        Ok(Some(b"a()\n".to_vec()))
    );
    assert_eq!(
        report_output("f.cmake", "\u{e9}()\n", Ok("\u{c9}()\n".to_string())),
        Ok(Some("\u{c9}()\n".as_bytes().to_vec()))
    );
    assert_eq!(
        report_output("f.cmake", "if(\n", Err("unclosed".to_string())),
        Err(FormatFailure::Cmakefmt { path: "f.cmake".to_string(), detail: "unclosed".to_string() })
    );
}

#[test]
fn file_path_only_changes_failure_texts() {
    let config = ResolvedConfig::default();
    let at = |path: &'static str, bytes: &[u8]| FormatRequest {
        file_path: path,
        file_bytes: bytes.to_vec(),
        config: &config,
        range: None,
    };
    let source: &[u8] = b"PROJECT(demo)\n";
    let first = CMakeFmtPlugin.format(at("a/CMakeLists.txt", source), || false);
    let second = CMakeFmtPlugin.format(at("b/other.cmake", source), || false);
    assert!(first.is_ok());
    assert_eq!(first, second);

    let broken: &[u8] = b"if(\n";
    let first = CMakeFmtPlugin.format(at("a/CMakeLists.txt", broken), || false).unwrap_err();
    let second = CMakeFmtPlugin.format(at("b/other.cmake", broken), || false).unwrap_err();
    match (first, second) {
        (
            FormatFailure::Cmakefmt { path: p1, detail: d1 },
            FormatFailure::Cmakefmt { path: p2, detail: d2 },
        ) => {
            assert_eq!(p1, "a/CMakeLists.txt");
            assert_eq!(p2, "b/other.cmake");
            assert_eq!(d1, d2);
        }
        other => panic!("unexpected failures {other:?}"),
    }
}

#[test]
fn cancellation_after_cmakefmt_wins_over_its_output_only() {
    assert_eq!(
        finish_format("f.cmake", "A()\n", Ok("a()\n".to_string()), true),
        Err(FormatFailure::Cancelled)
    );
    assert_eq!(
        finish_format("f.cmake", "a()\n", Ok("a()\n".to_string()), true),
        Err(FormatFailure::Cancelled)
    );
    assert_eq!(
        finish_format("f.cmake", "A()\n", Ok("a()\n".to_string()), false),
        Ok(Some(b"a()\n".to_vec()))
    );
    assert_eq!(
        finish_format("f.cmake", "if(\n", Err("unclosed".to_string()), true),
        Err(FormatFailure::Cmakefmt { path: "f.cmake".to_string(), detail: "unclosed".to_string() })
    );
}

#[test]
fn start_format_checks_cancellation_then_range() {
    assert_eq!(start_format(true, true), Some(FormatFailure::Cancelled));
    assert_eq!(start_format(true, false), Some(FormatFailure::Cancelled));
    assert_eq!(start_format(false, true), Some(FormatFailure::RangeNotSupported));
    assert_eq!(start_format(false, false), None);
}

#[test]
fn token_is_asked_once_when_a_range_is_refused_and_twice_on_success() {
    let config = ResolvedConfig::default();
    let calls = Cell::new(0);
    let mut ranged = request(b"project(demo)\n", &config);
    ranged.range = Some(0..3);
    let err = CMakeFmtPlugin
        .format(ranged, || {
            calls.set(calls.get() + 1);
            false
        })
        .unwrap_err();
    assert_eq!(err, FormatFailure::RangeNotSupported);
    assert_eq!(calls.get(), 1);

    let calls = Cell::new(0);
    let result = CMakeFmtPlugin.format(request(b"project(demo)\n", &config), || {
        calls.set(calls.get() + 1);
        false
    });
    assert!(result.is_ok());
    assert_eq!(calls.get(), 2);

    let calls = Cell::new(0);
    let err = CMakeFmtPlugin
        .format(request(b"if(\n", &config), || {
            calls.set(calls.get() + 1);
            false
        })
        .unwrap_err();
    assert!(matches!(err, FormatFailure::Cmakefmt { .. }));
    assert_eq!(calls.get(), 1);
}

//! Formatting one file: the checks before cmakefmt runs, the call itself, and
//! what is reported back to dprint.
use vstd::prelude::*;
use vstd::slice::slice_to_vec;
use vstd::string::StringExecFns;
use vstd::utf8::{decode_utf8, encode_utf8, valid_utf8};
use crate::plugin::CMakeFmtPlugin;
use crate::settings::{
    cmakefmt_settings, same_text, settings_for, Casing, CmakefmtSettings, ContinuationAlignment,
    DangleAlignment, LineEndingKind, ResolvedConfig,
};

verus! {

/// Why a file was not formatted.
#[derive(Clone, Debug, PartialEq, Eq)]
pub enum FormatFailure {
    /// dprint cancelled the request.
    Cancelled,
    /// dprint asked for a range of the file; only whole files are formatted.
    RangeNotSupported,
    /// The file is not UTF-8 text.
    InvalidUtf8 { path: String, detail: String },
    /// cmakefmt reported an error.
    Cmakefmt { path: String, detail: String },
}

/// A `FormatFailure` with its texts as character sequences.
pub enum FailureView {
    Cancelled,
    RangeNotSupported,
    InvalidUtf8(Seq<char>, Seq<char>),
    Cmakefmt(Seq<char>, Seq<char>),
}

impl View for FormatFailure {
    type V = FailureView;

    open spec fn view(&self) -> FailureView {
        match self {
            FormatFailure::Cancelled => FailureView::Cancelled,
            FormatFailure::RangeNotSupported => FailureView::RangeNotSupported,
            FormatFailure::InvalidUtf8 { path, detail } => FailureView::InvalidUtf8(path@, detail@),
            FormatFailure::Cmakefmt { path, detail } => FailureView::Cmakefmt(path@, detail@),
        }
    }
}

/// The message dprint shows for a failure.
pub open spec fn failure_message(failure: FailureView) -> Seq<char> {
    match failure {
        FailureView::Cancelled => "Formatting cancelled."@,
        FailureView::RangeNotSupported => "Range formatting is not supported by dprint-cmakefmt."@,
        FailureView::InvalidUtf8(path, detail) =>
            "Could not format "@ + path + " because it is not valid UTF-8: "@ + detail,
        FailureView::Cmakefmt(path, detail) => "Could not format "@ + path + " with cmakefmt: "@ + detail,
    }
}

impl FormatFailure {
    /// The message dprint shows for this failure.
    pub fn to_string(&self) -> (r: String)
        ensures
            r@ == failure_message(self@),
    {
        match self {
            FormatFailure::Cancelled => "Formatting cancelled.".to_owned(),
            FormatFailure::RangeNotSupported => "Range formatting is not supported by dprint-cmakefmt.".to_owned(),
            FormatFailure::InvalidUtf8 { path, detail } => {
                let mut message = "Could not format ".to_owned();
                message.append(path.as_str());
                message.append(" because it is not valid UTF-8: ");
                message.append(detail.as_str());
                message
            },
            FormatFailure::Cmakefmt { path, detail } => {
                let mut message = "Could not format ".to_owned();
                message.append(path.as_str());
                message.append(" with cmakefmt: ");
                message.append(detail.as_str());
                message
            },
        }
    }
}

/// What a format gives, with its texts and bytes as sequences.
pub open spec fn outcome_view(r: Result<Option<Vec<u8>>, FormatFailure>) -> Result<Option<Seq<u8>>, FailureView> {
    match r {
        Ok(Some(bytes)) => Ok(Some(bytes@)),
        Ok(None) => Ok(None),
        Err(failure) => Err(failure@),
    }
}

/// The text of the error that `std::str::from_utf8` reports for bytes that
/// are not UTF-8.
pub uninterp spec fn utf8_error_text(bytes: Seq<u8>) -> Seq<char>;

/// `std::str::from_utf8`, with its error turned into its message.
///
/// Claimed, as std documents: the bytes are accepted exactly when they are
/// valid UTF-8, and then the text is what they encode. The error's message is
/// only named.
#[verifier::external_body]
fn decode_utf8_text(bytes: &[u8]) -> (r: Result<&str, String>)
    ensures
        r is Ok <==> valid_utf8(bytes@),
        r matches Ok(text) ==> text@ == decode_utf8(bytes@),
        r matches Err(message) ==> message@ == utf8_error_text(bytes@),
{
    std::str::from_utf8(bytes).map_err(|e| e.to_string())
}

/// The text cmakefmt makes of a source under the given settings (and
/// cmakefmt's defaults for everything else), or the message of the error it
/// reports.
pub uninterp spec fn cmakefmt_output(source: Seq<char>, settings: CmakefmtSettings) -> Result<Seq<char>, Seq<char>>;

/// `cmakefmt::format_source`, given a `cmakefmt::Config` that holds the
/// settings in the fields of the same names and `cmakefmt::Config::default()`
/// for the rest; its error is turned into its message.
///
/// Claimed: the outcome depends on the source and the settings alone, and is
/// named `cmakefmt_output`; nothing more is said of it.
#[verifier::external_body]
fn run_cmakefmt(source: &str, settings: &CmakefmtSettings) -> (r: Result<String, String>)
    ensures
        match r {
            Ok(text) => cmakefmt_output(source@, *settings) == Ok::<Seq<char>, Seq<char>>(text@),
            Err(message) => cmakefmt_output(source@, *settings) == Err::<Seq<char>, Seq<char>>(message@),
        },
{
    let CmakefmtSettings { line_width, tab_size, use_tabchars, line_ending, command_case, keyword_case,
        max_empty_lines, max_lines_hwrap, max_pargs_hwrap, max_subgroups_hwrap, max_rows_cmdline,
        require_valid_layout, wrap_after_first_arg, continuation_align, enable_sort, autosort,
        dangle_parens, dangle_align, enable_markup, first_comment_is_literal } = *settings;
    let config = cmakefmt::Config {
        line_width, tab_size, use_tabchars, line_ending: to_cmakefmt_line_ending(line_ending),
        command_case: to_cmakefmt_case(command_case), keyword_case: to_cmakefmt_case(keyword_case),
        max_empty_lines, max_lines_hwrap, max_pargs_hwrap, max_subgroups_hwrap, max_rows_cmdline,
        require_valid_layout, wrap_after_first_arg, continuation_align: to_cmakefmt_continuation(continuation_align),
        enable_sort, autosort, dangle_parens, dangle_align: to_cmakefmt_dangle(dangle_align),
        enable_markup, first_comment_is_literal, ..cmakefmt::Config::default()
    };
    cmakefmt::format_source(source, &config).map_err(|e| e.to_string())
}

/// Converts this crate's line ending into cmakefmt's `LineEnding`, for `run_cmakefmt`.
#[verifier::external_body]
fn to_cmakefmt_line_ending(kind: LineEndingKind) -> cmakefmt::LineEnding {
    match kind {
        LineEndingKind::Unix => cmakefmt::LineEnding::Unix,
        LineEndingKind::Windows => cmakefmt::LineEnding::Windows,
        LineEndingKind::Auto => cmakefmt::LineEnding::Auto,
    }
}

/// Converts this crate's case style into cmakefmt's `CaseStyle`, for `run_cmakefmt`.
#[verifier::external_body]
fn to_cmakefmt_case(casing: Casing) -> cmakefmt::CaseStyle {
    match casing {
        Casing::Lower => cmakefmt::CaseStyle::Lower,
        Casing::Upper => cmakefmt::CaseStyle::Upper,
        Casing::Unchanged => cmakefmt::CaseStyle::Unchanged,
    }
}

/// Converts this crate's continuation alignment into cmakefmt's `ContinuationAlign`, for `run_cmakefmt`.
#[verifier::external_body]
fn to_cmakefmt_continuation(align: ContinuationAlignment) -> cmakefmt::ContinuationAlign {
    match align {
        ContinuationAlignment::SameIndent => cmakefmt::ContinuationAlign::SameIndent,
        ContinuationAlignment::UnderFirstValue => cmakefmt::ContinuationAlign::UnderFirstValue,
    }
}

/// Converts this crate's dangle alignment into cmakefmt's `DangleAlign`, for `run_cmakefmt`.
#[verifier::external_body]
fn to_cmakefmt_dangle(align: DangleAlignment) -> cmakefmt::DangleAlign {
    match align {
        DangleAlignment::Prefix => cmakefmt::DangleAlign::Prefix,
        DangleAlignment::Open => cmakefmt::DangleAlign::Open,
        DangleAlignment::Close => cmakefmt::DangleAlign::Close,
    }
}

/// What is reported for a source once cmakefmt has given its output: its
/// error, no change when the output is the source, or the output's bytes.
pub open spec fn reported_output(path: Seq<char>, source: Seq<char>, output: Result<Seq<char>, Seq<char>>) -> Result<Option<Seq<u8>>, FailureView> {
    match output {
        Err(detail) => Err(FailureView::Cmakefmt(path, detail)),
        Ok(formatted) => if formatted == source {
            Ok(None)
        } else {
            Ok(Some(encode_utf8(formatted)))
        },
    }
}

/// What formatting a file gives when dprint does not cancel the request.
pub open spec fn format_outcome(path: Seq<char>, bytes: Seq<u8>, ranged: bool, config: ResolvedConfig) -> Result<Option<Seq<u8>>, FailureView> {
    if ranged {
        Err(FailureView::RangeNotSupported)
    } else if !valid_utf8(bytes) {
        Err(FailureView::InvalidUtf8(path, utf8_error_text(bytes)))
    } else {
        reported_output(path, decode_utf8(bytes), cmakefmt_output(decode_utf8(bytes), settings_for(config)))
    }
}

/// Turns cmakefmt's output for a source into what is reported to dprint.
pub fn report_output(path: &str, source: &str, output: Result<String, String>) -> (r: Result<Option<Vec<u8>>, FormatFailure>)
    ensures
        outcome_view(r) == reported_output(path@, source@, match output {
            Ok(text) => Ok::<Seq<char>, Seq<char>>(text@),
            Err(message) => Err::<Seq<char>, Seq<char>>(message@),
        }),
{
    match output {
        Err(detail) => Err(FormatFailure::Cmakefmt { path: path.to_owned(), detail }),
        Ok(formatted) => {
            if same_text(formatted.as_str(), source) {
                Ok(None)
            } else {
                Ok(Some(slice_to_vec(formatted.as_str().as_bytes())))
            }
        },
    }
}

/// What is reported once cmakefmt has given its output and dprint has been
/// asked again whether the request is cancelled: a cancellation wins over a
/// successful output; otherwise as `reported_output`.
pub open spec fn finished_output(
    path: Seq<char>,
    source: Seq<char>,
    output: Result<Seq<char>, Seq<char>>,
    cancelled: bool,
) -> Result<Option<Seq<u8>>, FailureView> {
    if output is Ok && cancelled {
        Err(FailureView::Cancelled)
    } else {
        reported_output(path, source, output)
    }
}

/// Finishes a format: `cancelled` is dprint's answer, asked after cmakefmt
/// has run, on whether the request was cancelled.
pub fn finish_format(path: &str, source: &str, output: Result<String, String>, cancelled: bool) -> (r: Result<Option<Vec<u8>>, FormatFailure>)
    ensures
        outcome_view(r) == finished_output(path@, source@, match output {
            Ok(text) => Ok::<Seq<char>, Seq<char>>(text@),
            Err(message) => Err::<Seq<char>, Seq<char>>(message@),
        }, cancelled),
{
    if output.is_ok() && cancelled {
        return Err(FormatFailure::Cancelled);
    }
    report_output(path, source, output)
}

/// What formatting a file gives, given dprint's two answers on whether the
/// request is cancelled: `first`, asked before anything else, and `second`,
/// asked once cmakefmt has formatted the file (it counts only then).
pub open spec fn format_result(
    path: Seq<char>,
    bytes: Seq<u8>,
    ranged: bool,
    config: ResolvedConfig,
    first: bool,
    second: bool,
) -> Result<Option<Seq<u8>>, FailureView> {
    if first {
        Err(FailureView::Cancelled)
    } else if format_outcome(path, bytes, ranged, config) is Ok && second {
        Err(FailureView::Cancelled)
    } else {
        format_outcome(path, bytes, ranged, config)
    }
}

/// The checks made before the file is looked at: `cancelled` is dprint's
/// first answer on whether the request is cancelled, `ranged` whether a range
/// of the file was asked for. A cancellation comes first, then the refusal of
/// ranges; `None` lets the format go on.
pub fn start_format(cancelled: bool, ranged: bool) -> (r: Option<FormatFailure>)
    ensures
        r == (if cancelled {
            Some(FormatFailure::Cancelled)
        } else if ranged {
            Some(FormatFailure::RangeNotSupported)
        } else {
            None::<FormatFailure>
        }),
{
    if cancelled {
        Some(FormatFailure::Cancelled)
    } else if ranged {
        Some(FormatFailure::RangeNotSupported)
    } else {
        None
    }
}

/// A request to format one file.
pub struct FormatRequest<'a> {
    /// The file's path, as it is shown in messages.
    pub file_path: &'a str,
    pub file_bytes: Vec<u8>,
    pub config: &'a ResolvedConfig,
    /// The part of the file to format; `None` for the whole file.
    pub range: Option<std::ops::Range<usize>>,
}

impl CMakeFmtPlugin {
    /// Formats a file. `is_cancelled` reports whether dprint has cancelled the
    /// request; it is asked before the file is looked at and again after
    /// cmakefmt has formatted the file, and at no other time. The result is
    /// `format_result` of the answers it gave. cmakefmt is handed the settings
    /// of the request's configuration and nothing else: no configuration file
    /// of its own is looked up, and the path appears only in failure messages.
    pub fn format<F: Fn() -> bool>(&mut self, request: FormatRequest<'_>, is_cancelled: F) -> (r: Result<Option<Vec<u8>>, FormatFailure>)
        requires
            call_requires(is_cancelled, ()),
        ensures
            exists|first: bool, second: bool|
                #![trigger format_result(request.file_path@, request.file_bytes@, request.range is Some, *request.config, first, second)]
                call_ensures(is_cancelled, (), first) && call_ensures(is_cancelled, (), second)
                && outcome_view(r) == format_result(request.file_path@, request.file_bytes@, request.range is Some, *request.config, first, second),
            (forall|b: bool| call_ensures(is_cancelled, (), b) ==> !b)
                ==> outcome_view(r) == format_outcome(request.file_path@, request.file_bytes@, request.range is Some, *request.config),
            (forall|b: bool| call_ensures(is_cancelled, (), b) ==> b) ==> r == Err::<Option<Vec<u8>>, FormatFailure>(FormatFailure::Cancelled),
    {
        let ghost path = request.file_path@;
        let ghost bytes = request.file_bytes@;
        let ghost ranged = request.range is Some;
        let ghost config = *request.config;
        let first = is_cancelled();
        if let Some(failure) = start_format(first, request.range.is_some()) {
            assert(outcome_view(Err(failure)) == format_result(path, bytes, ranged, config, first, first));
            return Err(failure);
        }
        let source = match decode_utf8_text(request.file_bytes.as_slice()) {
            Ok(text) => text,
            Err(detail) => {
                let failure = FormatFailure::InvalidUtf8 { path: request.file_path.to_owned(), detail };
                assert(outcome_view(Err(failure)) == format_result(path, bytes, ranged, config, first, first));
                return Err(failure);
            },
        };
        let settings = cmakefmt_settings(request.config);
        let output = run_cmakefmt(source, &settings);
        let second = if output.is_ok() {
            is_cancelled()
        } else {
            first
        };
        let r = finish_format(request.file_path, source, output, second);
        assert(outcome_view(r) == format_result(path, bytes, ranged, config, first, second));
        r
    }
}

} // verus!

//! The settings this plugin hands to cmakefmt, their defaults, and the
//! parsers for the options that are written as words in dprint's config.
use vstd::prelude::*;
use vstd::string::StringExecFns;

verus! {

/// How command names and keywords are cased in the formatted output.
#[derive(Clone, Copy, Debug, PartialEq, Eq, Structural)]
pub enum Casing {
    Lower,
    Upper,
    Unchanged,
}

/// How continuation lines of a wrapped keyword section are indented.
#[derive(Clone, Copy, Debug, PartialEq, Eq, Structural)]
pub enum ContinuationAlignment {
    SameIndent,
    UnderFirstValue,
}

/// Where a dangling closing parenthesis is placed.
#[derive(Clone, Copy, Debug, PartialEq, Eq, Structural)]
pub enum DangleAlignment {
    Prefix,
    Open,
    Close,
}

/// dprint's choice of newline for formatted output.
#[derive(Clone, Copy, Debug, PartialEq, Eq, Structural)]
pub enum NewLineKind {
    Auto,
    LineFeed,
    CarriageReturnLineFeed,
}

/// cmakefmt's choice of line ending for formatted output.
#[derive(Clone, Copy, Debug, PartialEq, Eq, Structural)]
pub enum LineEndingKind {
    Unix,
    Windows,
    Auto,
}

/// The resolved formatting options of one dprint configuration.
#[derive(Clone, Copy, Debug, PartialEq, Eq, Structural)]
pub struct ResolvedConfig {
    pub line_width: usize,
    pub indent_width: usize,
    pub use_tabs: bool,
    pub new_line_kind: NewLineKind,
    pub command_case: Casing,
    pub keyword_case: Casing,
    pub max_empty_lines: usize,
    pub max_lines_hwrap: usize,
    pub max_pargs_hwrap: usize,
    pub max_subgroups_hwrap: usize,
    pub max_rows_cmdline: usize,
    pub require_valid_layout: bool,
    pub wrap_after_first_arg: bool,
    pub continuation_align: ContinuationAlignment,
    pub enable_sort: bool,
    pub autosort: bool,
    pub dangle_parens: bool,
    pub dangle_align: DangleAlignment,
    pub enable_markup: bool,
    pub first_comment_is_literal: bool,
}

/// cmakefmt's documented defaults for the options this plugin exposes,
/// with the given newline kind (a dprint notion that cmakefmt does not have).
pub open spec fn cmakefmt_defaults_with(new_line_kind: NewLineKind) -> ResolvedConfig {
    ResolvedConfig {
        line_width: 80,
        indent_width: 2,
        use_tabs: false,
        new_line_kind,
        command_case: Casing::Lower,
        keyword_case: Casing::Upper,
        max_empty_lines: 1,
        max_lines_hwrap: 2,
        max_pargs_hwrap: 6,
        max_subgroups_hwrap: 0,
        max_rows_cmdline: 2,
        require_valid_layout: false,
        wrap_after_first_arg: false,
        continuation_align: ContinuationAlignment::UnderFirstValue,
        enable_sort: false,
        autosort: false,
        dangle_parens: false,
        dangle_align: DangleAlignment::Prefix,
        enable_markup: true,
        first_comment_is_literal: true,
    }
}

/// The plugin's default for `maxHangingWrapGroups`. The plugin has always
/// defaulted it to 2; cmakefmt's own default is now 0, so the plugin sets its
/// value itself rather than following cmakefmt's.
pub const DEFAULT_MAX_SUBGROUPS_HWRAP: usize = 2;

/// The configuration used when neither dprint's global options nor the
/// plugin's own options say otherwise: cmakefmt's defaults, with line feeds
/// and the plugin's own default for `maxHangingWrapGroups`.
pub open spec fn default_config() -> ResolvedConfig {
    ResolvedConfig {
        max_subgroups_hwrap: DEFAULT_MAX_SUBGROUPS_HWRAP,
        ..cmakefmt_defaults_with(NewLineKind::LineFeed)
    }
}

/// Reads the options this plugin exposes out of `cmakefmt::Config::default()`
/// and pairs them with the given newline kind.
///
/// The contract claims that cmakefmt's defaults are the values its
/// documentation lists for `Config` (the table on `Config` and the `#[default]`
/// variants of its enums), which is also what its `Default` impl writes.
#[verifier::external_body]
fn cmakefmt_defaults(new_line_kind: NewLineKind) -> (r: ResolvedConfig)
    ensures
        r == cmakefmt_defaults_with(new_line_kind),
{
    let c = cmakefmt::Config::default();
    ResolvedConfig {
        line_width: c.line_width, indent_width: c.tab_size, use_tabs: c.use_tabchars, new_line_kind,
        command_case: from_cmakefmt_case(c.command_case), keyword_case: from_cmakefmt_case(c.keyword_case),
        max_empty_lines: c.max_empty_lines, max_lines_hwrap: c.max_lines_hwrap,
        max_pargs_hwrap: c.max_pargs_hwrap, max_subgroups_hwrap: c.max_subgroups_hwrap,
        max_rows_cmdline: c.max_rows_cmdline, require_valid_layout: c.require_valid_layout,
        wrap_after_first_arg: c.wrap_after_first_arg, continuation_align: from_cmakefmt_continuation(c.continuation_align),
        enable_sort: c.enable_sort, autosort: c.autosort, dangle_parens: c.dangle_parens,
        dangle_align: from_cmakefmt_dangle(c.dangle_align), enable_markup: c.enable_markup,
        first_comment_is_literal: c.first_comment_is_literal,
    }
}

/// Converts cmakefmt's `CaseStyle` into this crate's, for `cmakefmt_defaults`
/// (whose body would otherwise outgrow a wrapper); cmakefmt marks the enum
/// `non_exhaustive`, and the arm for variants it may add maps to `Unchanged`.
#[verifier::external_body]
fn from_cmakefmt_case(style: cmakefmt::CaseStyle) -> Casing {
    match style {
        cmakefmt::CaseStyle::Lower => Casing::Lower,
        cmakefmt::CaseStyle::Upper => Casing::Upper,
        _ => Casing::Unchanged,
    }
}

/// Converts cmakefmt's `ContinuationAlign` into this crate's, for
/// `cmakefmt_defaults`; the arm for variants cmakefmt may add maps to
/// `UnderFirstValue`.
#[verifier::external_body]
fn from_cmakefmt_continuation(align: cmakefmt::ContinuationAlign) -> ContinuationAlignment {
    match align {
        cmakefmt::ContinuationAlign::SameIndent => ContinuationAlignment::SameIndent,
        _ => ContinuationAlignment::UnderFirstValue,
    }
}

/// Converts cmakefmt's `DangleAlign` into this crate's, for
/// `cmakefmt_defaults`; the arm for variants cmakefmt may add maps to `Close`.
#[verifier::external_body]
fn from_cmakefmt_dangle(align: cmakefmt::DangleAlign) -> DangleAlignment {
    match align {
        cmakefmt::DangleAlign::Prefix => DangleAlignment::Prefix,
        cmakefmt::DangleAlign::Open => DangleAlignment::Open,
        _ => DangleAlignment::Close,
    }
}

impl Default for ResolvedConfig {
    fn default() -> (r: Self)
        ensures
            r == default_config(),
    {
        let mut config = cmakefmt_defaults(NewLineKind::LineFeed);
        config.max_subgroups_hwrap = DEFAULT_MAX_SUBGROUPS_HWRAP;
        config
    }
}

/// The cmakefmt line ending that stands for a dprint newline kind.
pub open spec fn line_ending_for(kind: NewLineKind) -> LineEndingKind {
    match kind {
        NewLineKind::LineFeed => LineEndingKind::Unix,
        NewLineKind::CarriageReturnLineFeed => LineEndingKind::Windows,
        NewLineKind::Auto => LineEndingKind::Auto,
    }
}

impl ResolvedConfig {
    /// The line ending cmakefmt is asked to write for this configuration.
    pub fn line_ending(&self) -> (r: LineEndingKind)
        ensures
            r == line_ending_for(self.new_line_kind),
    {
        match self.new_line_kind {
            NewLineKind::LineFeed => LineEndingKind::Unix,
            NewLineKind::CarriageReturnLineFeed => LineEndingKind::Windows,
            NewLineKind::Auto => LineEndingKind::Auto,
        }
    }
}

/// The options handed to cmakefmt, under cmakefmt's names for them.
#[derive(Clone, Copy, Debug, PartialEq, Eq, Structural)]
pub struct CmakefmtSettings {
    pub line_width: usize,
    pub tab_size: usize,
    pub use_tabchars: bool,
    pub line_ending: LineEndingKind,
    pub command_case: Casing,
    pub keyword_case: Casing,
    pub max_empty_lines: usize,
    pub max_lines_hwrap: usize,
    pub max_pargs_hwrap: usize,
    pub max_subgroups_hwrap: usize,
    pub max_rows_cmdline: usize,
    pub require_valid_layout: bool,
    pub wrap_after_first_arg: bool,
    pub continuation_align: ContinuationAlignment,
    pub enable_sort: bool,
    pub autosort: bool,
    pub dangle_parens: bool,
    pub dangle_align: DangleAlignment,
    pub enable_markup: bool,
    pub first_comment_is_literal: bool,
}

/// The cmakefmt settings for a configuration: each option under cmakefmt's
/// name, the indentation width as `tab_size`, tabs as `use_tabchars`, and the
/// newline kind as the line ending that stands for it.
pub open spec fn settings_for(c: ResolvedConfig) -> CmakefmtSettings {
    CmakefmtSettings {
        line_width: c.line_width,
        tab_size: c.indent_width,
        use_tabchars: c.use_tabs,
        line_ending: line_ending_for(c.new_line_kind),
        command_case: c.command_case,
        keyword_case: c.keyword_case,
        max_empty_lines: c.max_empty_lines,
        max_lines_hwrap: c.max_lines_hwrap,
        max_pargs_hwrap: c.max_pargs_hwrap,
        max_subgroups_hwrap: c.max_subgroups_hwrap,
        max_rows_cmdline: c.max_rows_cmdline,
        require_valid_layout: c.require_valid_layout,
        wrap_after_first_arg: c.wrap_after_first_arg,
        continuation_align: c.continuation_align,
        enable_sort: c.enable_sort,
        autosort: c.autosort,
        dangle_parens: c.dangle_parens,
        dangle_align: c.dangle_align,
        enable_markup: c.enable_markup,
        first_comment_is_literal: c.first_comment_is_literal,
    }
}

/// The settings cmakefmt is given for a configuration.
pub fn cmakefmt_settings(c: &ResolvedConfig) -> (s: CmakefmtSettings)
    ensures
        s == settings_for(*c),
{
    CmakefmtSettings {
        line_width: c.line_width,
        tab_size: c.indent_width,
        use_tabchars: c.use_tabs,
        line_ending: c.line_ending(),
        command_case: c.command_case,
        keyword_case: c.keyword_case,
        max_empty_lines: c.max_empty_lines,
        max_lines_hwrap: c.max_lines_hwrap,
        max_pargs_hwrap: c.max_pargs_hwrap,
        max_subgroups_hwrap: c.max_subgroups_hwrap,
        max_rows_cmdline: c.max_rows_cmdline,
        require_valid_layout: c.require_valid_layout,
        wrap_after_first_arg: c.wrap_after_first_arg,
        continuation_align: c.continuation_align,
        enable_sort: c.enable_sort,
        autosort: c.autosort,
        dangle_parens: c.dangle_parens,
        dangle_align: c.dangle_align,
        enable_markup: c.enable_markup,
        first_comment_is_literal: c.first_comment_is_literal,
    }
}

/// What `{:?}` prints for a string: the text in double quotes, with the
/// characters that need it escaped.
pub uninterp spec fn debug_quoted(text: Seq<char>) -> Seq<char>;

/// Formats a string with `Debug` (`format!("{value:?}")`).
///
/// The contract names the result `debug_quoted` of the text and says no more:
/// std's escaping rules are not restated here.
#[verifier::external_body]
fn quote_with_debug(value: &str) -> (r: String)
    ensures
        r@ == debug_quoted(value@),
{
    format!("{value:?}")
}

/// Whether two strings hold the same characters.
pub fn same_text(a: &str, b: &str) -> (r: bool)
    ensures
        r == (a@ == b@),
{
    a.to_owned() == b.to_owned()
}

/// The message given for an option value that is not one of the accepted words.
pub open spec fn not_one_of_message(choices: Seq<char>, value: Seq<char>) -> Seq<char> {
    "Expected one of "@ + choices + ", but found "@ + debug_quoted(value) + "."@
}

/// Builds the message given for an option value that is not one of the
/// accepted words.
pub fn not_one_of(choices: &str, value: &str) -> (r: String)
    ensures
        r@ == not_one_of_message(choices@, value@),
{
    let quoted = quote_with_debug(value);
    let mut message = "Expected one of ".to_owned();
    message.append(choices);
    message.append(", but found ");
    message.append(quoted.as_str());
    message.append(".");
    message
}

/// The case style that a word of the configuration names, if any.
pub open spec fn case_style_named(word: Seq<char>) -> Option<Casing> {
    if word == "lower"@ {
        Some(Casing::Lower)
    } else if word == "upper"@ {
        Some(Casing::Upper)
    } else if word == "unchanged"@ {
        Some(Casing::Unchanged)
    } else {
        None
    }
}

/// The accepted words for a case style, as listed in the error message.
pub open spec fn case_style_choices() -> Seq<char> {
    "\"lower\", \"upper\", or \"unchanged\""@
}

/// What parsing a case-style word gives: the style, or the message naming the
/// accepted words and the value that was found.
pub open spec fn case_style_result(word: Seq<char>) -> Result<Casing, Seq<char>> {
    match case_style_named(word) {
        Some(style) => Ok(style),
        None => Err(not_one_of_message(case_style_choices(), word)),
    }
}

/// Parses the value of `commandCase` or `keywordCase`.
pub fn parse_case_style(value: &str) -> (r: Result<Casing, String>)
    ensures
        match case_style_result(value@) {
            Ok(style) => r == Ok::<Casing, String>(style),
            Err(message) => r matches Err(m) && m@ == message,
        },
{
    if same_text(value, "lower") {
        Ok(Casing::Lower)
    } else if same_text(value, "upper") {
        Ok(Casing::Upper)
    } else if same_text(value, "unchanged") {
        Ok(Casing::Unchanged)
    } else {
        Err(not_one_of("\"lower\", \"upper\", or \"unchanged\"", value))
    }
}

/// The continuation alignment that a word of the configuration names, if any.
pub open spec fn continuation_align_named(word: Seq<char>) -> Option<ContinuationAlignment> {
    if word == "same-indent"@ {
        Some(ContinuationAlignment::SameIndent)
    } else if word == "under-first-value"@ {
        Some(ContinuationAlignment::UnderFirstValue)
    } else {
        None
    }
}

/// The accepted words for a continuation alignment, as listed in the error message.
pub open spec fn continuation_align_choices() -> Seq<char> {
    "\"same-indent\" or \"under-first-value\""@
}

/// What parsing a continuation-alignment word gives.
pub open spec fn continuation_align_result(word: Seq<char>) -> Result<ContinuationAlignment, Seq<char>> {
    match continuation_align_named(word) {
        Some(align) => Ok(align),
        None => Err(not_one_of_message(continuation_align_choices(), word)),
    }
}

/// Parses the value of `continuationAlign`.
pub fn parse_continuation_align(value: &str) -> (r: Result<ContinuationAlignment, String>)
    ensures
        match continuation_align_result(value@) {
            Ok(align) => r == Ok::<ContinuationAlignment, String>(align),
            Err(message) => r matches Err(m) && m@ == message,
        },
{
    if same_text(value, "same-indent") {
        Ok(ContinuationAlignment::SameIndent)
    } else if same_text(value, "under-first-value") {
        Ok(ContinuationAlignment::UnderFirstValue)
    } else {
        Err(not_one_of("\"same-indent\" or \"under-first-value\"", value))
    }
}

/// The dangle alignment that a word of the configuration names, if any.
pub open spec fn dangle_align_named(word: Seq<char>) -> Option<DangleAlignment> {
    if word == "prefix"@ {
        Some(DangleAlignment::Prefix)
    } else if word == "open"@ {
        Some(DangleAlignment::Open)
    } else if word == "close"@ {
        Some(DangleAlignment::Close)
    } else {
        None
    }
}

/// The accepted words for a dangle alignment, as listed in the error message.
pub open spec fn dangle_align_choices() -> Seq<char> {
    "\"prefix\", \"open\", or \"close\""@
}

/// What parsing a dangle-alignment word gives.
pub open spec fn dangle_align_result(word: Seq<char>) -> Result<DangleAlignment, Seq<char>> {
    match dangle_align_named(word) {
        Some(align) => Ok(align),
        None => Err(not_one_of_message(dangle_align_choices(), word)),
    }
}

/// Parses the value of `dangleAlign`.
pub fn parse_dangle_align(value: &str) -> (r: Result<DangleAlignment, String>)
    ensures
        match dangle_align_result(value@) {
            Ok(align) => r == Ok::<DangleAlignment, String>(align),
            Err(message) => r matches Err(m) && m@ == message,
        },
{
    if same_text(value, "prefix") {
        Ok(DangleAlignment::Prefix)
    } else if same_text(value, "open") {
        Ok(DangleAlignment::Open)
    } else if same_text(value, "close") {
        Ok(DangleAlignment::Close)
    } else {
        Err(not_one_of("\"prefix\", \"open\", or \"close\"", value))
    }
}

} // verus!

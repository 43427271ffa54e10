//! Reading option values out of dprint's configuration map.
//!
//! The map is dprint-core's `ConfigKeyMap`, an `IndexMap` from option names to
//! values. Verus sees it through `config_entries`, the sequence of its entries
//! in order, each value described by a `SettingValue`.
use vstd::prelude::*;
use dprint_core::configuration::ConfigKeyMap;
use crate::settings::NewLineKind;
use dprint_core::configuration::NewLineKind as DprintNewLineKind;

verus! {

/// A value of dprint's configuration, as far as this plugin reads it.
pub enum SettingValue {
    Text(Seq<char>),
    Number(i32),
    Flag(bool),
    /// An array or an object.
    Compound,
    Null,
}

/// The entries of a configuration map, in the map's order, each value
/// described by the `SettingValue` it is.
pub uninterp spec fn config_entries(map: ConfigKeyMap) -> Seq<(Seq<char>, SettingValue)>;

/// Whether no two entries have the same key, as in every map.
pub open spec fn keys_distinct(entries: Seq<(Seq<char>, SettingValue)>) -> bool {
    forall|i: int, j: int| 0 <= i < j < entries.len() ==> entries[i].0 != entries[j].0
}

/// The value that the entries give for a key, if any.
pub open spec fn entry_value(entries: Seq<(Seq<char>, SettingValue)>, key: Seq<char>) -> Option<SettingValue>
    decreases entries.len(),
{
    if entries.len() == 0 {
        None
    } else if entries[0].0 == key {
        Some(entries[0].1)
    } else {
        entry_value(entries.drop_first(), key)
    }
}

/// The entries without those for a key.
pub open spec fn without_key(entries: Seq<(Seq<char>, SettingValue)>, key: Seq<char>) -> Seq<(Seq<char>, SettingValue)>
    decreases entries.len(),
{
    if entries.len() == 0 {
        entries
    } else if entries[0].0 == key {
        without_key(entries.drop_first(), key)
    } else {
        seq![entries[0]] + without_key(entries.drop_first(), key)
    }
}

/// A problem found in the configuration, as dprint reports it: the option it
/// concerns and a message.
#[derive(Clone, Debug, PartialEq, Eq)]
pub struct ConfigurationDiagnostic {
    pub property_name: String,
    pub message: String,
}

impl View for ConfigurationDiagnostic {
    type V = (Seq<char>, Seq<char>);

    open spec fn view(&self) -> (Seq<char>, Seq<char>) {
        (self.property_name@, self.message@)
    }
}

impl DeepView for ConfigurationDiagnostic {
    type V = (Seq<char>, Seq<char>);

    open spec fn deep_view(&self) -> (Seq<char>, Seq<char>) {
        self@
    }
}

impl ConfigurationDiagnostic {
    pub fn new(property_name: String, message: String) -> (r: Self)
        ensures
            r.property_name == property_name,
            r.message == message,
    {
        ConfigurationDiagnostic { property_name, message }
    }
}

/// What reading one option out of the configuration gives.
pub enum Outcome<T> {
    /// The option is absent, or its value is `null`.
    Unset,
    /// The option holds a value of the expected kind.
    Value(T),
    /// The option holds something else; the message says what is wrong.
    Invalid(Seq<char>),
}

/// The value an option ends up with: the one read, or the fallback.
pub open spec fn settled<T>(outcome: Outcome<T>, fallback: T) -> T {
    match outcome {
        Outcome::Value(v) => v,
        _ => fallback,
    }
}

/// The diagnostics that reading an option yields: one for an invalid value.
pub open spec fn problems<T>(key: Seq<char>, outcome: Outcome<T>) -> Seq<(Seq<char>, Seq<char>)> {
    match outcome {
        Outcome::Invalid(message) => seq![(key, message)],
        _ => Seq::empty(),
    }
}

/// The message for an array or object where a plain value is expected.
pub open spec fn compound_message() -> Seq<char> {
    "Arrays and objects are not supported for this value"@
}

/// The decimal digit for a number below ten.
pub open spec fn digit_char(d: nat) -> char {
    (('0' as u32) + d) as char
}

/// The decimal digits of a natural number, without leading zeros.
pub open spec fn decimal_digits(n: nat) -> Seq<char>
    decreases n,
{
    if n < 10 {
        seq![digit_char(n)]
    } else {
        decimal_digits(n / 10) + seq![digit_char(n % 10)]
    }
}

/// How an integer is written in decimal, with a leading `-` when negative.
pub open spec fn decimal_text(n: int) -> Seq<char> {
    if n < 0 {
        seq!['-'] + decimal_digits((-n) as nat)
    } else {
        decimal_digits(n as nat)
    }
}

/// The text that a plain value is read from: a string as it is, a number in
/// decimal, a boolean as `true` or `false`.
pub open spec fn value_text(value: SettingValue) -> Seq<char> {
    match value {
        SettingValue::Text(text) => text,
        SettingValue::Number(n) => decimal_text(n as int),
        SettingValue::Flag(b) => if b { "true"@ } else { "false"@ },
        _ => Seq::empty(),
    }
}

/// Reads an option whose plain values are parsed by `parse`.
pub open spec fn read_option<T>(value: Option<SettingValue>, parse: spec_fn(Seq<char>) -> Result<T, Seq<char>>) -> Outcome<T> {
    match value {
        None => Outcome::Unset,
        Some(SettingValue::Null) => Outcome::Unset,
        Some(SettingValue::Compound) => Outcome::Invalid(compound_message()),
        Some(v) => match parse(value_text(v)) {
            Ok(t) => Outcome::Value(t),
            Err(message) => Outcome::Invalid(message),
        },
    }
}

/// Whether a character is an ASCII decimal digit.
pub open spec fn is_digit(c: char) -> bool {
    '0' <= c && c <= '9'
}

/// The number that a sequence of decimal digits stands for.
pub open spec fn digits_value(digits: Seq<char>) -> nat
    decreases digits.len(),
{
    if digits.len() == 0 {
        0
    } else {
        digits_value(digits.drop_last()) * 10 + ((digits.last() as u32) - ('0' as u32)) as nat
    }
}

/// The digits of an unsigned number written with an optional leading `+`.
pub open spec fn unsigned_digits(text: Seq<char>) -> Seq<char> {
    if text.len() > 0 && text[0] == '+' {
        text.drop_first()
    } else {
        text
    }
}

/// Whether a text is an unsigned decimal number that fits in a `usize`.
pub open spec fn is_usize_text(text: Seq<char>) -> bool {
    let digits = unsigned_digits(text);
    &&& digits.len() > 0
    &&& forall|i: int| 0 <= i < digits.len() ==> is_digit(#[trigger] digits[i])
    &&& digits_value(digits) <= usize::MAX
}

/// The message of the error that parsing a text as a `usize` gives, for a text
/// that is not one.
pub uninterp spec fn usize_parse_error(text: Seq<char>) -> Seq<char>;

/// Parsing a text as a `usize`, as `str::parse` does: an optional `+` and
/// decimal digits, with a value that fits.
pub open spec fn parse_usize(text: Seq<char>) -> Result<usize, Seq<char>> {
    if is_usize_text(text) {
        Ok(digits_value(unsigned_digits(text)) as usize)
    } else {
        Err(usize_parse_error(text))
    }
}

/// Parsing a text as a `bool`, as `str::parse` does.
pub open spec fn parse_flag(text: Seq<char>) -> Result<bool, Seq<char>> {
    if text == "true"@ {
        Ok(true)
    } else if text == "false"@ {
        Ok(false)
    } else {
        Err("provided string was not `true` or `false`"@)
    }
}

/// Parsing a text as dprint's newline kind.
pub open spec fn parse_new_line_kind(text: Seq<char>) -> Result<NewLineKind, Seq<char>> {
    if text == "auto"@ {
        Ok(NewLineKind::Auto)
    } else if text == "lf"@ {
        Ok(NewLineKind::LineFeed)
    } else if text == "crlf"@ {
        Ok(NewLineKind::CarriageReturnLineFeed)
    } else {
        Err("Found invalid value '"@ + text + "'."@)
    }
}

/// Reading a plain value as a string never fails.
pub open spec fn parse_text(text: Seq<char>) -> Result<Seq<char>, Seq<char>> {
    Ok(text)
}

/// Reading a size option (a `usize`).
pub open spec fn size_outcome(value: Option<SettingValue>) -> Outcome<usize> {
    read_option(value, |t: Seq<char>| parse_usize(t))
}

/// Reading a flag option (a `bool`).
pub open spec fn flag_outcome(value: Option<SettingValue>) -> Outcome<bool> {
    read_option(value, |t: Seq<char>| parse_flag(t))
}

/// Reading the newline-kind option.
pub open spec fn new_line_kind_outcome(value: Option<SettingValue>) -> Outcome<NewLineKind> {
    read_option(value, |t: Seq<char>| parse_new_line_kind(t))
}

/// Reading an option as a string.
pub open spec fn text_outcome(value: Option<SettingValue>) -> Outcome<Seq<char>> {
    read_option(value, |t: Seq<char>| parse_text(t))
}

/// What a read of an option by `get_nullable_value` does to its result and to
/// the diagnostics: a value is returned, and an invalid value adds a
/// diagnostic naming the option.
pub open spec fn reported<T>(
    outcome: Outcome<T>,
    key: Seq<char>,
    r: Option<T>,
    before: Seq<(Seq<char>, Seq<char>)>,
    after: Seq<(Seq<char>, Seq<char>)>,
) -> bool {
    &&& r == match outcome {
        Outcome::Value(v) => Some(v),
        _ => None,
    }
    &&& after == before + problems(key, outcome)
}

/// `dprint_core::configuration::get_nullable_value::<usize>`: takes the option
/// out of the map and parses it.
///
/// Claimed, as the function's source shows: the map's keys are distinct (it is
/// an `IndexMap`); the entry for the key leaves the map and the others stay in
/// order; an absent or `null` value gives `None`;
/// an array or object gives the diagnostic `compound_message`; a string, a
/// number (in decimal) or a boolean (as `true`/`false`) is parsed with
/// `str::parse::<usize>`, whose accepted texts `parse_usize` states after std's
/// documentation; the text of its error is only named. The last clause spells
/// out the diagnostic that a text which is not a `usize` gives, with that name.
#[verifier::external_body]
pub(crate) fn take_size(config: &mut ConfigKeyMap, key: &str, diagnostics: &mut Vec<ConfigurationDiagnostic>) -> (r: Option<usize>)
    ensures
        config_entries(*final(config)) == without_key(config_entries(*old(config)), key@),
        keys_distinct(config_entries(*old(config))),
        reported(size_outcome(entry_value(config_entries(*old(config)), key@)), key@, r,
            old(diagnostics).deep_view(), final(diagnostics).deep_view()),
        entry_value(config_entries(*old(config)), key@) matches Some(v) ==> (!(v is Null) && !(v is Compound)
            && !is_usize_text(value_text(v))
            ==> final(diagnostics).deep_view().last() == (key@, usize_parse_error(value_text(v)))),
{
    let mut found = Vec::new();
    let r = dprint_core::configuration::get_nullable_value::<usize>(config, key, &mut found);
    diagnostics.extend(found.into_iter().map(|d| ConfigurationDiagnostic::new(d.property_name, d.message)));
    r
}

/// `dprint_core::configuration::get_nullable_value::<bool>`: takes the option
/// out of the map and parses it.
///
/// Claimed, as the function's source and its tests show: as for `take_size`,
/// with `str::parse::<bool>`, which accepts exactly `true` and `false` and
/// otherwise reports "provided string was not `true` or `false`".
#[verifier::external_body]
pub(crate) fn take_flag(config: &mut ConfigKeyMap, key: &str, diagnostics: &mut Vec<ConfigurationDiagnostic>) -> (r: Option<bool>)
    ensures
        config_entries(*final(config)) == without_key(config_entries(*old(config)), key@),
        keys_distinct(config_entries(*old(config))),
        reported(flag_outcome(entry_value(config_entries(*old(config)), key@)), key@, r,
            old(diagnostics).deep_view(), final(diagnostics).deep_view()),
{
    let mut found = Vec::new();
    let r = dprint_core::configuration::get_nullable_value::<bool>(config, key, &mut found);
    diagnostics.extend(found.into_iter().map(|d| ConfigurationDiagnostic::new(d.property_name, d.message)));
    r
}

/// `dprint_core::configuration::get_nullable_value::<NewLineKind>` (dprint's
/// newline kind, converted to this crate's): takes the option out of the map
/// and parses it.
///
/// Claimed, as the source of both functions shows: as for `take_size`, with
/// dprint's `FromStr` for the newline kind, which accepts `auto`, `lf` and
/// `crlf` and otherwise reports "Found invalid value '<text>'.".
#[verifier::external_body]
pub(crate) fn take_new_line_kind(config: &mut ConfigKeyMap, key: &str, diagnostics: &mut Vec<ConfigurationDiagnostic>) -> (r: Option<NewLineKind>)
    ensures
        config_entries(*final(config)) == without_key(config_entries(*old(config)), key@),
        keys_distinct(config_entries(*old(config))),
        reported(new_line_kind_outcome(entry_value(config_entries(*old(config)), key@)), key@, r,
            old(diagnostics).deep_view(), final(diagnostics).deep_view()),
{
    let mut found = Vec::new();
    let r = dprint_core::configuration::get_nullable_value::<DprintNewLineKind>(config, key, &mut found);
    diagnostics.extend(found.into_iter().map(|d| ConfigurationDiagnostic::new(d.property_name, d.message)));
    r.map(|k| match k { DprintNewLineKind::Auto => NewLineKind::Auto, DprintNewLineKind::LineFeed => NewLineKind::LineFeed, DprintNewLineKind::CarriageReturnLineFeed => NewLineKind::CarriageReturnLineFeed })
}

/// `dprint_core::configuration::get_nullable_value::<String>`: takes the
/// option out of the map as a string.
///
/// Claimed, as the function's source shows: as for `take_size`, and a plain
/// value is always read, as its text.
#[verifier::external_body]
pub(crate) fn take_text(config: &mut ConfigKeyMap, key: &str, diagnostics: &mut Vec<ConfigurationDiagnostic>) -> (r: Option<String>)
    ensures
        config_entries(*final(config)) == without_key(config_entries(*old(config)), key@),
        keys_distinct(config_entries(*old(config))),
        reported(text_outcome(entry_value(config_entries(*old(config)), key@)), key@, r.deep_view(),
            old(diagnostics).deep_view(), final(diagnostics).deep_view()),
{
    let mut found = Vec::new();
    let r = dprint_core::configuration::get_nullable_value::<String>(config, key, &mut found);
    diagnostics.extend(found.into_iter().map(|d| ConfigurationDiagnostic::new(d.property_name, d.message)));
    r
}

/// The diagnostics for the options left in a map that nothing read.
pub open spec fn unknown_diagnostics(entries: Seq<(Seq<char>, SettingValue)>) -> Seq<(Seq<char>, Seq<char>)> {
    entries.map_values(|e: (Seq<char>, SettingValue)| (e.0, "Unknown property in configuration"@))
}

/// `dprint_core::configuration::get_unknown_property_diagnostics`: one
/// diagnostic for each entry left in the map.
///
/// Claimed, as the function's source shows: the diagnostics name the entries'
/// keys in the map's order, each with the message "Unknown property in
/// configuration".
#[verifier::external_body]
pub(crate) fn unknown_property_diagnostics(config: ConfigKeyMap) -> (r: Vec<ConfigurationDiagnostic>)
    ensures
        r.deep_view() == unknown_diagnostics(config_entries(config)),
{
    let found = dprint_core::configuration::get_unknown_property_diagnostics(config);
    found.into_iter().map(|d| ConfigurationDiagnostic::new(d.property_name, d.message)).collect()
}

} // verus!

//! Properties of configuration resolution and formatting that hold for every
//! input, stated over the specifications the functions' contracts use.
use vstd::prelude::*;
use vstd::utf8::{decode_utf8, decode_utf8_encode_utf8, encode_utf8, encode_utf8_decode_utf8, encode_utf8_valid_utf8, valid_utf8};
use crate::format::{cmakefmt_output, format_outcome, format_result, FailureView};
use crate::options::{
    decimal_digits, decimal_text, digit_char, digits_value, entry_value, flag_outcome, is_digit,
    is_usize_text, keys_distinct, new_line_kind_outcome, problems, size_outcome, unknown_diagnostics,
    unsigned_digits, without_key, Outcome, SettingValue,
};
use crate::resolve::{
    casing_outcome, continuation_outcome, dangle_outcome, option_names, resolve_diagnostics,
    resolved_config, unrecognized_entries, with_global, without_keys, GlobalConfiguration,
};
use crate::settings::{
    default_config, settings_for, Casing, ContinuationAlignment, DangleAlignment, LineEndingKind, NewLineKind,
    ResolvedConfig,
};

verus! {

/// An option of the plugin that holds a valid value wins over dprint's global
/// option of the same name.
pub proof fn law_plugin_option_wins_over_global(entries: Seq<(Seq<char>, SettingValue)>, global: GlobalConfiguration)
    ensures
        size_outcome(entry_value(entries, "lineWidth"@)) matches Outcome::Value(w)
            ==> resolved_config(entries, global).line_width == w,
        size_outcome(entry_value(entries, "indentWidth"@)) matches Outcome::Value(w)
            ==> resolved_config(entries, global).indent_width == w,
        flag_outcome(entry_value(entries, "useTabs"@)) matches Outcome::Value(t)
            ==> resolved_config(entries, global).use_tabs == t,
        new_line_kind_outcome(entry_value(entries, "newLineKind"@)) matches Outcome::Value(k)
            ==> resolved_config(entries, global).new_line_kind == k,
{
}

/// Every option of the plugin that holds a valid value ends up in the
/// resolved configuration, whatever dprint's global options say.
pub proof fn law_every_valid_option_is_applied(entries: Seq<(Seq<char>, SettingValue)>, global: GlobalConfiguration)
    ensures
        casing_outcome(entry_value(entries, "commandCase"@)) matches Outcome::Value(v)
            ==> resolved_config(entries, global).command_case == v,
        casing_outcome(entry_value(entries, "keywordCase"@)) matches Outcome::Value(v)
            ==> resolved_config(entries, global).keyword_case == v,
        size_outcome(entry_value(entries, "maxEmptyLines"@)) matches Outcome::Value(v)
            ==> resolved_config(entries, global).max_empty_lines == v,
        size_outcome(entry_value(entries, "maxLinesHwrap"@)) matches Outcome::Value(v)
            ==> resolved_config(entries, global).max_lines_hwrap == v,
        size_outcome(entry_value(entries, "maxHangingWrapPositionalArgs"@)) matches Outcome::Value(v)
            ==> resolved_config(entries, global).max_pargs_hwrap == v,
        size_outcome(entry_value(entries, "maxHangingWrapGroups"@)) matches Outcome::Value(v)
            ==> resolved_config(entries, global).max_subgroups_hwrap == v,
        size_outcome(entry_value(entries, "maxRowsCmdline"@)) matches Outcome::Value(v)
            ==> resolved_config(entries, global).max_rows_cmdline == v,
        flag_outcome(entry_value(entries, "requireValidLayout"@)) matches Outcome::Value(v)
            ==> resolved_config(entries, global).require_valid_layout == v,
        flag_outcome(entry_value(entries, "wrapAfterFirstArg"@)) matches Outcome::Value(v)
            ==> resolved_config(entries, global).wrap_after_first_arg == v,
        continuation_outcome(entry_value(entries, "continuationAlign"@)) matches Outcome::Value(v)
            ==> resolved_config(entries, global).continuation_align == v,
        flag_outcome(entry_value(entries, "enableSort"@)) matches Outcome::Value(v)
            ==> resolved_config(entries, global).enable_sort == v,
        flag_outcome(entry_value(entries, "autosort"@)) matches Outcome::Value(v)
            ==> resolved_config(entries, global).autosort == v,
        flag_outcome(entry_value(entries, "dangleParens"@)) matches Outcome::Value(v)
            ==> resolved_config(entries, global).dangle_parens == v,
        dangle_outcome(entry_value(entries, "dangleAlign"@)) matches Outcome::Value(v)
            ==> resolved_config(entries, global).dangle_align == v,
        flag_outcome(entry_value(entries, "enableMarkup"@)) matches Outcome::Value(v)
            ==> resolved_config(entries, global).enable_markup == v,
        flag_outcome(entry_value(entries, "firstCommentIsLiteral"@)) matches Outcome::Value(v)
            ==> resolved_config(entries, global).first_comment_is_literal == v,
{
}

/// The words each word option accepts, and what they give: reading one of
/// them as the option's value gives that setting and no diagnostic.
pub proof fn law_accepted_words_are_read(other: Seq<char>)
    ensures
        casing_outcome(Some(SettingValue::Text("lower"@))) == Outcome::Value(Casing::Lower),
        casing_outcome(Some(SettingValue::Text("upper"@))) == Outcome::Value(Casing::Upper),
        casing_outcome(Some(SettingValue::Text("unchanged"@))) == Outcome::Value(Casing::Unchanged),
        continuation_outcome(Some(SettingValue::Text("same-indent"@)))
            == Outcome::Value(ContinuationAlignment::SameIndent),
        continuation_outcome(Some(SettingValue::Text("under-first-value"@)))
            == Outcome::Value(ContinuationAlignment::UnderFirstValue),
        dangle_outcome(Some(SettingValue::Text("prefix"@))) == Outcome::Value(DangleAlignment::Prefix),
        dangle_outcome(Some(SettingValue::Text("open"@))) == Outcome::Value(DangleAlignment::Open),
        dangle_outcome(Some(SettingValue::Text("close"@))) == Outcome::Value(DangleAlignment::Close),
        problems("commandCase"@, casing_outcome(Some(SettingValue::Text("lower"@)))).len() == 0,
        problems("continuationAlign"@, continuation_outcome(Some(SettingValue::Text("under-first-value"@)))).len() == 0,
        problems("dangleAlign"@, dangle_outcome(Some(SettingValue::Text("close"@)))).len() == 0,
        other != "lower"@ && other != "upper"@ && other != "unchanged"@
            ==> casing_outcome(Some(SettingValue::Text(other))) is Invalid,
        other != "same-indent"@ && other != "under-first-value"@
            ==> continuation_outcome(Some(SettingValue::Text(other))) is Invalid,
        other != "prefix"@ && other != "open"@ && other != "close"@
            ==> dangle_outcome(Some(SettingValue::Text(other))) is Invalid,
{
    reveal_strlit("lower");
    reveal_strlit("upper");
    reveal_strlit("unchanged");
    reveal_strlit("same-indent");
    reveal_strlit("under-first-value");
    reveal_strlit("prefix");
    reveal_strlit("open");
    reveal_strlit("close");
    assert("lower"@ != "upper"@) by { assert("lower"@[0] != "upper"@[0]); }
    assert("lower"@ != "unchanged"@) by { assert("lower"@.len() != "unchanged"@.len()); }
    assert("upper"@ != "unchanged"@) by { assert("upper"@.len() != "unchanged"@.len()); }
    assert("same-indent"@ != "under-first-value"@) by { assert("same-indent"@.len() != "under-first-value"@.len()); }
    assert("prefix"@ != "open"@) by { assert("prefix"@.len() != "open"@.len()); }
    assert("prefix"@ != "close"@) by { assert("prefix"@[0] != "close"@[0]); }
    assert("open"@ != "close"@) by { assert("open"@.len() != "close"@.len()); }
}

/// The words the newline option accepts, and what they give; every other
/// text is refused.
pub proof fn law_new_line_kind_words(other: Seq<char>)
    ensures
        new_line_kind_outcome(Some(SettingValue::Text("auto"@))) == Outcome::Value(NewLineKind::Auto),
        new_line_kind_outcome(Some(SettingValue::Text("lf"@))) == Outcome::Value(NewLineKind::LineFeed),
        new_line_kind_outcome(Some(SettingValue::Text("crlf"@))) == Outcome::Value(NewLineKind::CarriageReturnLineFeed),
        other != "auto"@ && other != "lf"@ && other != "crlf"@
            ==> new_line_kind_outcome(Some(SettingValue::Text(other))) is Invalid,
{
    reveal_strlit("auto");
    reveal_strlit("lf");
    reveal_strlit("crlf");
    assert("auto"@ != "lf"@) by { assert("auto"@.len() != "lf"@.len()); }
    assert("auto"@ != "crlf"@) by { assert("auto"@[0] != "crlf"@[0]); }
    assert("lf"@ != "crlf"@) by { assert("lf"@.len() != "crlf"@.len()); }
}

/// A file is reported unchanged only when cmakefmt gave back exactly its text.
pub proof fn law_unchanged_means_identical_output(path: Seq<char>, bytes: Seq<u8>, config: ResolvedConfig)
    requires
        format_outcome(path, bytes, false, config) == Ok::<Option<Seq<u8>>, FailureView>(None),
    ensures
        valid_utf8(bytes),
        cmakefmt_output(decode_utf8(bytes), settings_for(config)) == Ok::<Seq<char>, Seq<char>>(decode_utf8(bytes)),
{
}

/// Each option reaches cmakefmt unchanged, under cmakefmt's name for it, and
/// dprint's newline kind as the line ending that stands for it: line feeds as
/// Unix endings, carriage return and line feed as Windows endings, and `auto`
/// as cmakefmt's own detection.
pub proof fn law_settings_carry_each_option(c: ResolvedConfig)
    ensures
        settings_for(c).line_width == c.line_width,
        settings_for(c).tab_size == c.indent_width,
        settings_for(c).use_tabchars == c.use_tabs,
        c.new_line_kind == NewLineKind::LineFeed ==> settings_for(c).line_ending == LineEndingKind::Unix,
        c.new_line_kind == NewLineKind::CarriageReturnLineFeed ==> settings_for(c).line_ending == LineEndingKind::Windows,
        c.new_line_kind == NewLineKind::Auto ==> settings_for(c).line_ending == LineEndingKind::Auto,
        settings_for(c).command_case == c.command_case,
        settings_for(c).keyword_case == c.keyword_case,
        settings_for(c).max_empty_lines == c.max_empty_lines,
        settings_for(c).max_lines_hwrap == c.max_lines_hwrap,
        settings_for(c).max_pargs_hwrap == c.max_pargs_hwrap,
        settings_for(c).max_subgroups_hwrap == c.max_subgroups_hwrap,
        settings_for(c).max_rows_cmdline == c.max_rows_cmdline,
        settings_for(c).require_valid_layout == c.require_valid_layout,
        settings_for(c).wrap_after_first_arg == c.wrap_after_first_arg,
        settings_for(c).continuation_align == c.continuation_align,
        settings_for(c).enable_sort == c.enable_sort,
        settings_for(c).autosort == c.autosort,
        settings_for(c).dangle_parens == c.dangle_parens,
        settings_for(c).dangle_align == c.dangle_align,
        settings_for(c).enable_markup == c.enable_markup,
        settings_for(c).first_comment_is_literal == c.first_comment_is_literal,
{
}

/// Where the plugin's option is not set, dprint's global option of the same
/// name applies.
pub proof fn law_global_option_applies_when_plugin_option_unset(entries: Seq<(Seq<char>, SettingValue)>, global: GlobalConfiguration)
    ensures
        global.line_width matches Some(w)
            ==> (entry_value(entries, "lineWidth"@) is None ==> resolved_config(entries, global).line_width == w as usize),
        global.indent_width matches Some(w)
            ==> (entry_value(entries, "indentWidth"@) is None ==> resolved_config(entries, global).indent_width == w as usize),
        global.use_tabs matches Some(t)
            ==> (entry_value(entries, "useTabs"@) is None ==> resolved_config(entries, global).use_tabs == t),
        global.new_line_kind matches Some(k)
            ==> (entry_value(entries, "newLineKind"@) is None ==> resolved_config(entries, global).new_line_kind == k),
{
}

/// An empty plugin configuration gives cmakefmt's defaults with dprint's
/// global options applied, and no diagnostics.
pub proof fn law_empty_configuration(global: GlobalConfiguration)
    ensures
        resolved_config(Seq::empty(), global) == with_global(global),
        resolve_diagnostics(Seq::empty()).len() == 0,
{
    let empty = Seq::<(Seq<char>, SettingValue)>::empty();
    lemma_without_keys_of_empty(crate::resolve::option_names());
    assert(unrecognized_entries(empty) =~= empty);
    assert(resolve_diagnostics(empty) =~= Seq::empty());
}

/// With neither the plugin's options nor dprint's global options set, the
/// configuration is cmakefmt's defaults with line feeds.
pub proof fn law_defaults_without_any_option()
    ensures
        resolved_config(Seq::empty(), GlobalConfiguration {
            line_width: None,
            use_tabs: None,
            indent_width: None,
            new_line_kind: None,
        }) == default_config(),
{
}

/// A key that no entry has: its value is absent and removing it changes nothing.
proof fn lemma_absent_key(entries: Seq<(Seq<char>, SettingValue)>, key: Seq<char>)
    requires
        forall|i: int| 0 <= i < entries.len() ==> #[trigger] entries[i].0 != key,
    ensures
        entry_value(entries, key) is None,
        without_key(entries, key) == entries,
    decreases entries.len(),
{
    if entries.len() > 0 {
        let rest = entries.drop_first();
        assert forall|i: int| 0 <= i < rest.len() implies #[trigger] rest[i].0 != key by {
            assert(rest[i] == entries[i + 1]);
        }
        lemma_absent_key(rest, key);
        assert(entries[0].0 != key);
        assert(seq![entries[0]] + rest =~= entries);
    }
}

/// Removing keys that no entry has changes nothing.
proof fn lemma_absent_keys(entries: Seq<(Seq<char>, SettingValue)>, keys: Seq<Seq<char>>)
    requires
        forall|i: int| 0 <= i < entries.len() ==> !keys.contains(#[trigger] entries[i].0),
    ensures
        without_keys(entries, keys) == entries,
    decreases keys.len(),
{
    if keys.len() > 0 {
        assert forall|i: int| 0 <= i < entries.len() implies !keys.drop_last().contains(#[trigger] entries[i].0) by {
            if keys.drop_last().contains(entries[i].0) {
                let j = choose|j: int| 0 <= j < keys.drop_last().len() && keys.drop_last()[j] == entries[i].0;
                assert(keys[j] == entries[i].0);
            }
        }
        lemma_absent_keys(entries, keys.drop_last());
        assert forall|i: int| 0 <= i < entries.len() implies #[trigger] entries[i].0 != keys.last() by {
            assert(keys[keys.len() - 1] == keys.last());
        }
        lemma_absent_key(entries, keys.last());
    }
}

/// A configuration none of whose keys is an option of the plugin resolves to
/// the same configuration as an empty one, and each of its entries is reported
/// as an unknown property, in the map's order.
pub proof fn law_unknown_keys_are_each_reported(entries: Seq<(Seq<char>, SettingValue)>, global: GlobalConfiguration)
    requires
        forall|i: int| 0 <= i < entries.len() ==> !option_names().contains(#[trigger] entries[i].0),
    ensures
        resolved_config(entries, global) == with_global(global),
        resolve_diagnostics(entries) == unknown_diagnostics(entries),
{
    let names = option_names();
    assert forall|k: int| 0 <= k < names.len() implies entry_value(entries, #[trigger] names[k]) is None by {
        assert forall|i: int| 0 <= i < entries.len() implies #[trigger] entries[i].0 != names[k] by {
            if entries[i].0 == names[k] {
                assert(names.contains(entries[i].0));
            }
        }
        lemma_absent_key(entries, names[k]);
    }
    assert(entry_value(entries, "lineWidth"@) is None) by { assert(names[0] == "lineWidth"@); }
    assert(entry_value(entries, "indentWidth"@) is None) by { assert(names[1] == "indentWidth"@); }
    assert(entry_value(entries, "useTabs"@) is None) by { assert(names[2] == "useTabs"@); }
    assert(entry_value(entries, "newLineKind"@) is None) by { assert(names[3] == "newLineKind"@); }
    assert(entry_value(entries, "commandCase"@) is None) by { assert(names[4] == "commandCase"@); }
    assert(entry_value(entries, "keywordCase"@) is None) by { assert(names[5] == "keywordCase"@); }
    assert(entry_value(entries, "maxEmptyLines"@) is None) by { assert(names[6] == "maxEmptyLines"@); }
    assert(entry_value(entries, "maxLinesHwrap"@) is None) by { assert(names[7] == "maxLinesHwrap"@); }
    assert(entry_value(entries, "maxHangingWrapPositionalArgs"@) is None) by { assert(names[8] == "maxHangingWrapPositionalArgs"@); }
    assert(entry_value(entries, "maxHangingWrapGroups"@) is None) by { assert(names[9] == "maxHangingWrapGroups"@); }
    assert(entry_value(entries, "maxRowsCmdline"@) is None) by { assert(names[10] == "maxRowsCmdline"@); }
    assert(entry_value(entries, "requireValidLayout"@) is None) by { assert(names[11] == "requireValidLayout"@); }
    assert(entry_value(entries, "wrapAfterFirstArg"@) is None) by { assert(names[12] == "wrapAfterFirstArg"@); }
    assert(entry_value(entries, "continuationAlign"@) is None) by { assert(names[13] == "continuationAlign"@); }
    assert(entry_value(entries, "enableSort"@) is None) by { assert(names[14] == "enableSort"@); }
    assert(entry_value(entries, "autosort"@) is None) by { assert(names[15] == "autosort"@); }
    assert(entry_value(entries, "dangleParens"@) is None) by { assert(names[16] == "dangleParens"@); }
    assert(entry_value(entries, "dangleAlign"@) is None) by { assert(names[17] == "dangleAlign"@); }
    assert(entry_value(entries, "enableMarkup"@) is None) by { assert(names[18] == "enableMarkup"@); }
    assert(entry_value(entries, "firstCommentIsLiteral"@) is None) by { assert(names[19] == "firstCommentIsLiteral"@); }
    lemma_absent_keys(entries, names);
    assert(resolve_diagnostics(entries) =~= unknown_diagnostics(entries));
}

proof fn lemma_without_keys_of_empty(keys: Seq<Seq<char>>)
    ensures
        crate::resolve::without_keys(Seq::empty(), keys) == Seq::<(Seq<char>, SettingValue)>::empty(),
    decreases keys.len(),
{
    if keys.len() > 0 {
        lemma_without_keys_of_empty(keys.drop_last());
    }
}

/// The decimal digits of a number are digits and read back as the number.
proof fn lemma_decimal_digits(n: nat)
    ensures
        decimal_digits(n).len() > 0,
        forall|i: int| 0 <= i < decimal_digits(n).len() ==> is_digit(#[trigger] decimal_digits(n)[i]),
        digits_value(decimal_digits(n)) == n,
    decreases n,
{
    assert(digit_char(n % 10) as u32 == ('0' as u32) + n % 10);
    if n < 10 {
        let d = decimal_digits(n);
        assert(d.drop_last() =~= Seq::<char>::empty());
        assert(digits_value(d.drop_last()) == 0);
        assert(n % 10 == n);
    } else {
        lemma_decimal_digits(n / 10);
        let d = decimal_digits(n);
        assert(d.drop_last() =~= decimal_digits(n / 10));
        assert(d.last() == digit_char(n % 10));
        assert(digits_value(d) == digits_value(decimal_digits(n / 10)) * 10 + n % 10);
        assert forall|i: int| 0 <= i < d.len() implies is_digit(#[trigger] d[i]) by {
            if i < d.len() - 1 {
                assert(d[i] == decimal_digits(n / 10)[i]);
            }
        }
    }
}

/// A size option given as a non-negative number takes that number.
pub proof fn law_size_option_from_number(n: i32)
    requires
        n >= 0,
    ensures
        size_outcome(Some(SettingValue::Number(n))) == Outcome::Value(n as usize),
{
    lemma_decimal_digits(n as nat);
    let text = decimal_text(n as int);
    assert(text == decimal_digits(n as nat));
    assert(unsigned_digits(text) == text) by {
        if text.len() > 0 && text[0] == '+' {
            assert(is_digit(text[0]));
        }
    }
    assert(is_usize_text(text));
}

/// A flag option given as a boolean takes that boolean.
pub proof fn law_flag_option_from_boolean(b: bool)
    ensures
        flag_outcome(Some(SettingValue::Flag(b))) == Outcome::Value(b),
{
    reveal_strlit("true");
    reveal_strlit("false");
    assert("true"@ != "false"@) by {
        assert("true"@.len() != "false"@.len());
    }
    let text = crate::options::value_text(SettingValue::Flag(b));
    assert(crate::options::parse_flag(text) == Ok::<bool, Seq<char>>(b));
}

/// A file is never formatted when a range of it is asked for.
pub proof fn law_ranges_are_refused(path: Seq<char>, bytes: Seq<u8>, config: ResolvedConfig)
    ensures
        format_outcome(path, bytes, true, config) == Err::<Option<Seq<u8>>, FailureView>(FailureView::RangeNotSupported),
{
}

/// A source that cmakefmt leaves as it is is reported as unchanged.
pub proof fn law_stable_source_is_unchanged(path: Seq<char>, bytes: Seq<u8>, config: ResolvedConfig)
    requires
        valid_utf8(bytes),
        cmakefmt_output(decode_utf8(bytes), settings_for(config)) == Ok::<Seq<char>, Seq<char>>(decode_utf8(bytes)),
    ensures
        format_outcome(path, bytes, false, config) == Ok::<Option<Seq<u8>>, FailureView>(None),
{
}

/// Whenever cmakefmt's output differs from the source, in any way, the
/// output is reported as the file's new bytes: its UTF-8 encoding.
pub proof fn law_changed_source_is_rewritten(path: Seq<char>, bytes: Seq<u8>, config: ResolvedConfig, text: Seq<char>)
    requires
        valid_utf8(bytes),
        cmakefmt_output(decode_utf8(bytes), settings_for(config)) == Ok::<Seq<char>, Seq<char>>(text),
        text != decode_utf8(bytes),
    ensures
        format_outcome(path, bytes, false, config) == Ok::<Option<Seq<u8>>, FailureView>(Some(encode_utf8(text))),
        format_result(path, bytes, false, config, false, false) == Ok::<Option<Seq<u8>>, FailureView>(Some(encode_utf8(text))),
{
}

/// Changed output is valid UTF-8, differs from the input bytes, and is the
/// encoding of the text cmakefmt produced.
pub proof fn law_changed_output_is_cmakefmt_text(path: Seq<char>, bytes: Seq<u8>, config: ResolvedConfig, out: Seq<u8>)
    requires
        format_outcome(path, bytes, false, config) == Ok::<Option<Seq<u8>>, FailureView>(Some(out)),
    ensures
        valid_utf8(bytes),
        valid_utf8(out),
        cmakefmt_output(decode_utf8(bytes), settings_for(config)) == Ok::<Seq<char>, Seq<char>>(decode_utf8(out)),
        out != bytes,
{
    let source = decode_utf8(bytes);
    let formatted = cmakefmt_output(source, settings_for(config))->Ok_0;
    encode_utf8_valid_utf8(formatted);
    encode_utf8_decode_utf8(formatted);
    decode_utf8_encode_utf8(bytes);
}

/// No option is lost or merged on the way to cmakefmt: different
/// configurations give different cmakefmt settings.
pub proof fn law_settings_keep_every_option(a: ResolvedConfig, b: ResolvedConfig)
    ensures
        settings_for(a) == settings_for(b) ==> a == b,
{
}

/// Appending an entry leaves the value of every other key as it was.
proof fn lemma_push_keeps_other_values(entries: Seq<(Seq<char>, SettingValue)>, e: (Seq<char>, SettingValue), key: Seq<char>)
    requires
        e.0 != key,
    ensures
        entry_value(entries.push(e), key) == entry_value(entries, key),
    decreases entries.len(),
{
    if entries.len() > 0 {
        assert(entries.push(e).drop_first() =~= entries.drop_first().push(e));
        assert(entries.push(e)[0] == entries[0]);
        lemma_push_keeps_other_values(entries.drop_first(), e, key);
    } else {
        assert(entries.push(e).drop_first() =~= Seq::<(Seq<char>, SettingValue)>::empty());
        assert(entries.push(e)[0] == e);
        assert(entry_value(Seq::<(Seq<char>, SettingValue)>::empty(), key) is None);
    }
}

/// Removing a key that an appended entry does not have keeps that entry last.
proof fn lemma_push_survives_without_key(entries: Seq<(Seq<char>, SettingValue)>, e: (Seq<char>, SettingValue), key: Seq<char>)
    requires
        e.0 != key,
    ensures
        without_key(entries.push(e), key) == without_key(entries, key).push(e),
    decreases entries.len(),
{
    if entries.len() > 0 {
        assert(entries.push(e).drop_first() =~= entries.drop_first().push(e));
        lemma_push_survives_without_key(entries.drop_first(), e, key);
        if entries[0].0 != key {
            assert(seq![entries[0]] + without_key(entries.drop_first(), key).push(e)
                =~= (seq![entries[0]] + without_key(entries.drop_first(), key)).push(e));
        }
    } else {
        let one = entries.push(e);
        assert(one.drop_first() =~= Seq::<(Seq<char>, SettingValue)>::empty());
        assert(seq![one[0]] + without_key(one.drop_first(), key) =~= one);
    }
}

/// Removing keys that an appended entry does not have keeps that entry last.
proof fn lemma_push_survives_without_keys(entries: Seq<(Seq<char>, SettingValue)>, e: (Seq<char>, SettingValue), keys: Seq<Seq<char>>)
    requires
        !keys.contains(e.0),
    ensures
        without_keys(entries.push(e), keys) == without_keys(entries, keys).push(e),
    decreases keys.len(),
{
    if keys.len() > 0 {
        assert(!keys.drop_last().contains(e.0)) by {
            if keys.drop_last().contains(e.0) {
                let j = choose|j: int| 0 <= j < keys.drop_last().len() && keys.drop_last()[j] == e.0;
                assert(keys[j] == e.0);
            }
        }
        lemma_push_survives_without_keys(entries, e, keys.drop_last());
        assert(keys[keys.len() - 1] != e.0);
        lemma_push_survives_without_key(without_keys(entries, keys.drop_last()), e, keys.last());
    }
}

/// Adding an entry whose key is not an option of the plugin changes nothing
/// in the resolved configuration and adds exactly one diagnostic, last, which
/// names that key as an unknown property.
pub proof fn law_adding_an_unknown_key(
    entries: Seq<(Seq<char>, SettingValue)>,
    key: Seq<char>,
    value: SettingValue,
    global: GlobalConfiguration,
)
    requires
        !option_names().contains(key),
    ensures
        resolved_config(entries.push((key, value)), global) == resolved_config(entries, global),
        resolve_diagnostics(entries.push((key, value)))
            == resolve_diagnostics(entries).push((key, "Unknown property in configuration"@)),
{
    let names = option_names();
    let e = (key, value);
    let more = entries.push(e);
    assert forall|k: int| 0 <= k < names.len() implies entry_value(more, #[trigger] names[k]) == entry_value(entries, names[k]) by {
        if key == names[k] {
            assert(names.contains(key));
        }
        lemma_push_keeps_other_values(entries, e, names[k]);
    }
    assert(entry_value(more, "lineWidth"@) == entry_value(entries, "lineWidth"@)) by { assert(names[0] == "lineWidth"@); }
    assert(entry_value(more, "indentWidth"@) == entry_value(entries, "indentWidth"@)) by { assert(names[1] == "indentWidth"@); }
    assert(entry_value(more, "useTabs"@) == entry_value(entries, "useTabs"@)) by { assert(names[2] == "useTabs"@); }
    assert(entry_value(more, "newLineKind"@) == entry_value(entries, "newLineKind"@)) by { assert(names[3] == "newLineKind"@); }
    assert(entry_value(more, "commandCase"@) == entry_value(entries, "commandCase"@)) by { assert(names[4] == "commandCase"@); }
    assert(entry_value(more, "keywordCase"@) == entry_value(entries, "keywordCase"@)) by { assert(names[5] == "keywordCase"@); }
    assert(entry_value(more, "maxEmptyLines"@) == entry_value(entries, "maxEmptyLines"@)) by { assert(names[6] == "maxEmptyLines"@); }
    assert(entry_value(more, "maxLinesHwrap"@) == entry_value(entries, "maxLinesHwrap"@)) by { assert(names[7] == "maxLinesHwrap"@); }
    assert(entry_value(more, "maxHangingWrapPositionalArgs"@) == entry_value(entries, "maxHangingWrapPositionalArgs"@)) by { assert(names[8] == "maxHangingWrapPositionalArgs"@); }
    assert(entry_value(more, "maxHangingWrapGroups"@) == entry_value(entries, "maxHangingWrapGroups"@)) by { assert(names[9] == "maxHangingWrapGroups"@); }
    assert(entry_value(more, "maxRowsCmdline"@) == entry_value(entries, "maxRowsCmdline"@)) by { assert(names[10] == "maxRowsCmdline"@); }
    assert(entry_value(more, "requireValidLayout"@) == entry_value(entries, "requireValidLayout"@)) by { assert(names[11] == "requireValidLayout"@); }
    assert(entry_value(more, "wrapAfterFirstArg"@) == entry_value(entries, "wrapAfterFirstArg"@)) by { assert(names[12] == "wrapAfterFirstArg"@); }
    assert(entry_value(more, "continuationAlign"@) == entry_value(entries, "continuationAlign"@)) by { assert(names[13] == "continuationAlign"@); }
    assert(entry_value(more, "enableSort"@) == entry_value(entries, "enableSort"@)) by { assert(names[14] == "enableSort"@); }
    assert(entry_value(more, "autosort"@) == entry_value(entries, "autosort"@)) by { assert(names[15] == "autosort"@); }
    assert(entry_value(more, "dangleParens"@) == entry_value(entries, "dangleParens"@)) by { assert(names[16] == "dangleParens"@); }
    assert(entry_value(more, "dangleAlign"@) == entry_value(entries, "dangleAlign"@)) by { assert(names[17] == "dangleAlign"@); }
    assert(entry_value(more, "enableMarkup"@) == entry_value(entries, "enableMarkup"@)) by { assert(names[18] == "enableMarkup"@); }
    assert(entry_value(more, "firstCommentIsLiteral"@) == entry_value(entries, "firstCommentIsLiteral"@)) by { assert(names[19] == "firstCommentIsLiteral"@); }
    lemma_push_survives_without_keys(entries, e, names);
    assert(unknown_diagnostics(unrecognized_entries(more))
        =~= unknown_diagnostics(unrecognized_entries(entries)).push((key, "Unknown property in configuration"@)));
    assert(resolve_diagnostics(more) =~= resolve_diagnostics(entries).push((key, "Unknown property in configuration"@)));
}

/// The file's path appears only in failure texts: two requests that differ
/// only in the path, and whose cancellation answers are the same, both
/// succeed, with the same result, or both fail in the same way, the path in
/// the message aside.
pub proof fn law_path_only_names_failures(
    path1: Seq<char>,
    path2: Seq<char>,
    bytes: Seq<u8>,
    ranged: bool,
    config: ResolvedConfig,
    first: bool,
    second: bool,
)
    ensures
        format_result(path1, bytes, ranged, config, first, second) is Ok
            <==> format_result(path2, bytes, ranged, config, first, second) is Ok,
        format_result(path1, bytes, ranged, config, first, second) is Ok
            ==> format_result(path1, bytes, ranged, config, first, second)
                == format_result(path2, bytes, ranged, config, first, second),
        format_result(path1, bytes, ranged, config, first, second) == Err::<Option<Seq<u8>>, FailureView>(FailureView::Cancelled)
            <==> format_result(path2, bytes, ranged, config, first, second) == Err::<Option<Seq<u8>>, FailureView>(FailureView::Cancelled),
        format_result(path1, bytes, ranged, config, first, second) == Err::<Option<Seq<u8>>, FailureView>(FailureView::RangeNotSupported)
            <==> format_result(path2, bytes, ranged, config, first, second) == Err::<Option<Seq<u8>>, FailureView>(FailureView::RangeNotSupported),
        format_result(path1, bytes, ranged, config, first, second) matches Err(FailureView::InvalidUtf8(p, d))
            ==> format_result(path2, bytes, ranged, config, first, second) == Err::<Option<Seq<u8>>, FailureView>(FailureView::InvalidUtf8(path2, d)),
        format_result(path1, bytes, ranged, config, first, second) matches Err(FailureView::Cmakefmt(p, d))
            ==> format_result(path2, bytes, ranged, config, first, second) == Err::<Option<Seq<u8>>, FailureView>(FailureView::Cmakefmt(path2, d)),
{
}

/// The order of the checks: a first answer of "cancelled" cancels the
/// format, whatever the request; after a first "not cancelled", a range is
/// refused, whatever the file holds; and a format succeeds only when both
/// answers were "not cancelled", no range was asked for and the file is UTF-8.
pub proof fn law_order_of_checks(
    path: Seq<char>,
    bytes: Seq<u8>,
    ranged: bool,
    config: ResolvedConfig,
    first: bool,
    second: bool,
)
    ensures
        first ==> format_result(path, bytes, ranged, config, first, second) == Err::<Option<Seq<u8>>, FailureView>(FailureView::Cancelled),
        !first && ranged ==> format_result(path, bytes, ranged, config, first, second)
            == Err::<Option<Seq<u8>>, FailureView>(FailureView::RangeNotSupported),
        format_result(path, bytes, ranged, config, first, second) is Ok
            ==> !first && !second && !ranged && valid_utf8(bytes),
{
}

/// The diagnostic, if any, for the option at a position of `option_names`.
pub open spec fn option_problem(entries: Seq<(Seq<char>, SettingValue)>, i: int) -> Seq<(Seq<char>, Seq<char>)> {
    if i == 0 {
        problems("lineWidth"@, size_outcome(entry_value(entries, "lineWidth"@)))
    } else if i == 1 {
        problems("indentWidth"@, size_outcome(entry_value(entries, "indentWidth"@)))
    } else if i == 2 {
        problems("useTabs"@, flag_outcome(entry_value(entries, "useTabs"@)))
    } else if i == 3 {
        problems("newLineKind"@, new_line_kind_outcome(entry_value(entries, "newLineKind"@)))
    } else if i == 4 {
        problems("commandCase"@, casing_outcome(entry_value(entries, "commandCase"@)))
    } else if i == 5 {
        problems("keywordCase"@, casing_outcome(entry_value(entries, "keywordCase"@)))
    } else if i == 6 {
        problems("maxEmptyLines"@, size_outcome(entry_value(entries, "maxEmptyLines"@)))
    } else if i == 7 {
        problems("maxLinesHwrap"@, size_outcome(entry_value(entries, "maxLinesHwrap"@)))
    } else if i == 8 {
        problems("maxHangingWrapPositionalArgs"@, size_outcome(entry_value(entries, "maxHangingWrapPositionalArgs"@)))
    } else if i == 9 {
        problems("maxHangingWrapGroups"@, size_outcome(entry_value(entries, "maxHangingWrapGroups"@)))
    } else if i == 10 {
        problems("maxRowsCmdline"@, size_outcome(entry_value(entries, "maxRowsCmdline"@)))
    } else if i == 11 {
        problems("requireValidLayout"@, flag_outcome(entry_value(entries, "requireValidLayout"@)))
    } else if i == 12 {
        problems("wrapAfterFirstArg"@, flag_outcome(entry_value(entries, "wrapAfterFirstArg"@)))
    } else if i == 13 {
        problems("continuationAlign"@, continuation_outcome(entry_value(entries, "continuationAlign"@)))
    } else if i == 14 {
        problems("enableSort"@, flag_outcome(entry_value(entries, "enableSort"@)))
    } else if i == 15 {
        problems("autosort"@, flag_outcome(entry_value(entries, "autosort"@)))
    } else if i == 16 {
        problems("dangleParens"@, flag_outcome(entry_value(entries, "dangleParens"@)))
    } else if i == 17 {
        problems("dangleAlign"@, dangle_outcome(entry_value(entries, "dangleAlign"@)))
    } else if i == 18 {
        problems("enableMarkup"@, flag_outcome(entry_value(entries, "enableMarkup"@)))
    } else if i == 19 {
        problems("firstCommentIsLiteral"@, flag_outcome(entry_value(entries, "firstCommentIsLiteral"@)))
    } else {
        Seq::empty()
    }
}

/// The diagnostics for the first `n` options of `option_names`, in order.
pub open spec fn option_problems(entries: Seq<(Seq<char>, SettingValue)>, n: nat) -> Seq<(Seq<char>, Seq<char>)>
    decreases n,
{
    if n == 0 {
        Seq::empty()
    } else {
        option_problems(entries, (n - 1) as nat) + option_problem(entries, n - 1)
    }
}

/// Whether every option of the plugin that the entries set holds a valid value.
pub open spec fn options_valid(entries: Seq<(Seq<char>, SettingValue)>) -> bool {
    forall|k: int| 0 <= k < option_names().len() ==> #[trigger] option_problem(entries, k).len() == 0
}

/// The keys of the entries, in order.
pub open spec fn entry_keys(entries: Seq<(Seq<char>, SettingValue)>) -> Seq<Seq<char>> {
    entries.map_values(|e: (Seq<char>, SettingValue)| e.0)
}

proof fn lemma_diagnostics_split(entries: Seq<(Seq<char>, SettingValue)>)
    ensures
        resolve_diagnostics(entries)
            == option_problems(entries, 20) + unknown_diagnostics(unrecognized_entries(entries)),
{
    reveal_with_fuel(option_problems, 21);
    assert(resolve_diagnostics(entries)
        =~= option_problems(entries, 20) + unknown_diagnostics(unrecognized_entries(entries)));
}

/// The diagnostic for an option, if any, names that option, which the entries set.
proof fn lemma_option_problem_shape(entries: Seq<(Seq<char>, SettingValue)>, i: int)
    requires
        0 <= i < 20,
    ensures
        option_problem(entries, i).len() <= 1,
        option_problem(entries, i).len() == 1 ==> option_problem(entries, i)[0].0 == option_names()[i]
            && entry_value(entries, option_names()[i]) is Some,
{
}

/// A key that has a value is the key of an entry.
proof fn lemma_value_has_entry(entries: Seq<(Seq<char>, SettingValue)>, key: Seq<char>)
    requires
        entry_value(entries, key) is Some,
    ensures
        entry_keys(entries).contains(key),
    decreases entries.len(),
{
    if entries[0].0 == key {
        assert(entry_keys(entries)[0] == key);
    } else {
        lemma_value_has_entry(entries.drop_first(), key);
        let j = choose|j: int| 0 <= j < entry_keys(entries.drop_first()).len() && entry_keys(entries.drop_first())[j] == key;
        assert(entry_keys(entries)[j + 1] == key);
    }
}

/// The diagnostics for the first options name distinct options, each set in
/// the entries; they are empty exactly when none of those options is invalid.
proof fn lemma_option_problems_shape(entries: Seq<(Seq<char>, SettingValue)>, n: nat)
    requires
        n <= 20,
    ensures
        forall|j: int| 0 <= j < option_problems(entries, n).len() ==> option_names().take(n as int).contains(#[trigger] option_problems(entries, n)[j].0)
            && entry_value(entries, option_problems(entries, n)[j].0) is Some,
        forall|j1: int, j2: int| 0 <= j1 < j2 < option_problems(entries, n).len()
            ==> option_problems(entries, n)[j1].0 != option_problems(entries, n)[j2].0,
        option_problems(entries, n).len() == 0 <==> forall|k: int| 0 <= k < n ==> #[trigger] option_problem(entries, k).len() == 0,
    decreases n,
{
    if n > 0 {
        let m = (n - 1) as nat;
        lemma_option_problems_shape(entries, m);
        lemma_option_problem_shape(entries, m as int);
        crate::resolve::lemma_option_names_distinct();
        let names = option_names();
        let before = option_problems(entries, m);
        let last = option_problem(entries, m as int);
        let all = option_problems(entries, n);
        assert(all == before + last);
        assert forall|j: int| 0 <= j < all.len() implies names.take(n as int).contains(#[trigger] all[j].0)
            && entry_value(entries, all[j].0) is Some by {
            if j < before.len() {
                assert(all[j] == before[j]);
                let k = choose|k: int| 0 <= k < names.take(m as int).len() && names.take(m as int)[k] == before[j].0;
                assert(names.take(n as int)[k] == before[j].0);
            } else {
                assert(all[j] == last[0]);
                assert(names.take(n as int)[m as int] == names[m as int]);
            }
        }
        assert forall|j1: int, j2: int| 0 <= j1 < j2 < all.len() implies all[j1].0 != all[j2].0 by {
            if j2 >= before.len() {
                assert(all[j1] == before[j1]);
                assert(all[j2] == last[0]);
                let k = choose|k: int| 0 <= k < names.take(m as int).len() && names.take(m as int)[k] == before[j1].0;
                assert(names[k] == before[j1].0);
            } else {
                assert(all[j1] == before[j1]);
                assert(all[j2] == before[j2]);
            }
        }
        if all.len() == 0 {
            assert forall|k: int| 0 <= k < n implies #[trigger] option_problem(entries, k).len() == 0 by {
                if k < m {
                    assert(option_problem(entries, k).len() == 0);
                }
            }
        }
        if forall|k: int| 0 <= k < n ==> #[trigger] option_problem(entries, k).len() == 0 {
            assert(option_problem(entries, m as int).len() == 0);
            assert forall|k: int| 0 <= k < m implies #[trigger] option_problem(entries, k).len() == 0 by {
                assert(option_problem(entries, k).len() == 0);
            }
        }
    }
}

/// The entries left after removing a key are the entries with another key,
/// and their keys stay distinct.
proof fn lemma_without_key_members(entries: Seq<(Seq<char>, SettingValue)>, key: Seq<char>)
    ensures
        forall|e: (Seq<char>, SettingValue)|
            #![trigger without_key(entries, key).contains(e)]
            #![trigger entries.contains(e)]
            without_key(entries, key).contains(e) <==> entries.contains(e) && e.0 != key,
        keys_distinct(entries) ==> keys_distinct(without_key(entries, key)),
    decreases entries.len(),
{
    if entries.len() > 0 {
        let rest = entries.drop_first();
        lemma_without_key_members(rest, key);
        let w = without_key(rest, key);
        let all = without_key(entries, key);
        assert forall|e: (Seq<char>, SettingValue)| entries.contains(e) <==> e == entries[0] || rest.contains(e) by {
            if entries.contains(e) {
                let i = choose|i: int| 0 <= i < entries.len() && entries[i] == e;
                if i > 0 {
                    assert(rest[i - 1] == e);
                }
            }
            if rest.contains(e) {
                let i = choose|i: int| 0 <= i < rest.len() && rest[i] == e;
                assert(entries[i + 1] == e);
            }
            if e == entries[0] {
                assert(entries[0] == e);
            }
        }
        if keys_distinct(entries) {
            assert forall|i: int, j: int| 0 <= i < j < rest.len() implies rest[i].0 != rest[j].0 by {
                assert(rest[i] == entries[i + 1]);
                assert(rest[j] == entries[j + 1]);
            }
        }
        if entries[0].0 != key {
            let r = seq![entries[0]] + w;
            assert(all == r);
            assert forall|e: (Seq<char>, SettingValue)| r.contains(e) <==> e == entries[0] || w.contains(e) by {
                if r.contains(e) {
                    let i = choose|i: int| 0 <= i < r.len() && r[i] == e;
                    if i > 0 {
                        assert(w[i - 1] == e);
                    }
                }
                if w.contains(e) {
                    let i = choose|i: int| 0 <= i < w.len() && w[i] == e;
                    assert(r[i + 1] == e);
                }
                if e == entries[0] {
                    assert(r[0] == e);
                }
            }
            assert forall|e: (Seq<char>, SettingValue)| all.contains(e) <==> entries.contains(e) && e.0 != key by {
                assert(r.contains(e) <==> e == entries[0] || w.contains(e));
                assert(w.contains(e) <==> rest.contains(e) && e.0 != key);
                assert(entries.contains(e) <==> e == entries[0] || rest.contains(e));
            }
            if keys_distinct(entries) {
                assert forall|i: int, j: int| 0 <= i < j < r.len() implies r[i].0 != r[j].0 by {
                    if i == 0 {
                        assert(r[j] == w[j - 1]);
                        assert(w.contains(w[j - 1]));
                        assert(rest.contains(r[j]));
                        let k = choose|k: int| 0 <= k < rest.len() && rest[k] == r[j];
                        assert(entries[k + 1] == r[j]);
                    } else {
                        assert(r[i] == w[i - 1]);
                        assert(r[j] == w[j - 1]);
                    }
                }
            }
        } else {
            assert(all == w);
            assert forall|e: (Seq<char>, SettingValue)| all.contains(e) <==> entries.contains(e) && e.0 != key by {
                assert(w.contains(e) <==> rest.contains(e) && e.0 != key);
                assert(entries.contains(e) <==> e == entries[0] || rest.contains(e));
            }
        }
    } else {
        assert(without_key(entries, key) == entries);
    }
}

/// The entries left after removing several keys are the entries with none of
/// those keys, and their keys stay distinct.
proof fn lemma_without_keys_members(entries: Seq<(Seq<char>, SettingValue)>, keys: Seq<Seq<char>>)
    ensures
        forall|e: (Seq<char>, SettingValue)|
            #![trigger without_keys(entries, keys).contains(e)]
            #![trigger entries.contains(e)]
            without_keys(entries, keys).contains(e) <==> entries.contains(e) && !keys.contains(e.0),
        keys_distinct(entries) ==> keys_distinct(without_keys(entries, keys)),
    decreases keys.len(),
{
    if keys.len() > 0 {
        let shorter = keys.drop_last();
        let before = without_keys(entries, shorter);
        lemma_without_keys_members(entries, shorter);
        lemma_without_key_members(before, keys.last());
        assert forall|k: Seq<char>| keys.contains(k) <==> shorter.contains(k) || k == keys.last() by {
            if keys.contains(k) {
                let i = choose|i: int| 0 <= i < keys.len() && keys[i] == k;
                if i < keys.len() - 1 {
                    assert(shorter[i] == k);
                }
            }
            if shorter.contains(k) {
                let i = choose|i: int| 0 <= i < shorter.len() && shorter[i] == k;
                assert(keys[i] == k);
            }
            if k == keys.last() {
                assert(keys[keys.len() - 1] == k);
            }
        }
        assert forall|e: (Seq<char>, SettingValue)|
            without_keys(entries, keys).contains(e) <==> entries.contains(e) && !keys.contains(e.0) by {
            assert(without_key(before, keys.last()).contains(e) <==> before.contains(e) && e.0 != keys.last());
            assert(before.contains(e) <==> entries.contains(e) && !shorter.contains(e.0));
            assert(keys.contains(e.0) <==> shorter.contains(e.0) || e.0 == keys.last());
        }
    } else {
        assert forall|e: (Seq<char>, SettingValue)|
            without_keys(entries, keys).contains(e) <==> entries.contains(e) && !keys.contains(e.0) by {
            if keys.contains(e.0) {
                let i = choose|i: int| 0 <= i < keys.len() && keys[i] == e.0;
            }
        }
    }
}

/// Every diagnostic of a resolution names a key of the configuration, and no
/// two name the same key; so there are at most as many diagnostics as entries.
pub proof fn law_diagnostics_name_distinct_keys(entries: Seq<(Seq<char>, SettingValue)>)
    requires
        keys_distinct(entries),
    ensures
        forall|j: int| 0 <= j < resolve_diagnostics(entries).len()
            ==> entry_keys(entries).contains(#[trigger] resolve_diagnostics(entries)[j].0),
        forall|j1: int, j2: int| 0 <= j1 < j2 < resolve_diagnostics(entries).len()
            ==> resolve_diagnostics(entries)[j1].0 != resolve_diagnostics(entries)[j2].0,
        resolve_diagnostics(entries).len() <= entries.len(),
{
    let names = option_names();
    let d = resolve_diagnostics(entries);
    let known = option_problems(entries, 20);
    let u = unrecognized_entries(entries);
    let unknown = unknown_diagnostics(u);
    lemma_diagnostics_split(entries);
    lemma_option_problems_shape(entries, 20);
    lemma_without_keys_members(entries, names);
    assert(names.take(20) =~= names);
    assert(d == known + unknown);
    assert forall|j: int| 0 <= j < d.len() implies entry_keys(entries).contains(#[trigger] d[j].0) by {
        if j < known.len() {
            assert(d[j] == known[j]);
            lemma_value_has_entry(entries, known[j].0);
        } else {
            let i = j - known.len();
            assert(d[j] == unknown[i]);
            assert(unknown[i].0 == u[i].0);
            assert(u.contains(u[i]));
            let k = choose|k: int| 0 <= k < entries.len() && entries[k] == u[i];
            assert(entry_keys(entries)[k] == u[i].0);
        }
    }
    assert forall|j1: int, j2: int| 0 <= j1 < j2 < d.len() implies d[j1].0 != d[j2].0 by {
        if j2 < known.len() {
            assert(d[j1] == known[j1]);
            assert(d[j2] == known[j2]);
        } else if j1 < known.len() {
            assert(d[j1] == known[j1]);
            let i2 = j2 - known.len();
            assert(d[j2].0 == u[i2].0);
            assert(u.contains(u[i2]));
        } else {
            let i1 = j1 - known.len();
            let i2 = j2 - known.len();
            assert(d[j1].0 == u[i1].0);
            assert(d[j2].0 == u[i2].0);
        }
    }
    let dk = d.map_values(|x: (Seq<char>, Seq<char>)| x.0);
    let ek = entry_keys(entries);
    assert(dk.no_duplicates()) by {
        assert forall|a: int, b: int| 0 <= a < dk.len() && 0 <= b < dk.len() && a != b implies dk[a] != dk[b] by {
            if a < b {
                assert(d[a].0 != d[b].0);
            } else {
                assert(d[b].0 != d[a].0);
            }
        }
    }
    dk.unique_seq_to_set();
    ek.lemma_cardinality_of_set();
    assert(dk.to_set().subset_of(ek.to_set())) by {
        assert forall|x: Seq<char>| dk.to_set().contains(x) implies ek.to_set().contains(x) by {
            let j = choose|j: int| 0 <= j < dk.len() && dk[j] == x;
            assert(ek.contains(d[j].0));
        }
    }
    vstd::seq_lib::seq_to_set_is_finite(ek);
    vstd::set_lib::lemma_len_subset(dk.to_set(), ek.to_set());
}

/// A resolution gives no diagnostics exactly when every key of the
/// configuration is an option of the plugin and every option set is valid.
pub proof fn law_no_diagnostics_exactly_when_valid(entries: Seq<(Seq<char>, SettingValue)>)
    ensures
        resolve_diagnostics(entries).len() == 0 <==> (forall|i: int| 0 <= i < entries.len()
            ==> option_names().contains(#[trigger] entries[i].0)) && options_valid(entries),
{
    let names = option_names();
    let known = option_problems(entries, 20);
    let u = unrecognized_entries(entries);
    lemma_diagnostics_split(entries);
    lemma_option_problems_shape(entries, 20);
    lemma_without_keys_members(entries, names);
    assert(unknown_diagnostics(u).len() == u.len());
    if u.len() > 0 {
        assert(u.contains(u[0]));
        let k = choose|k: int| 0 <= k < entries.len() && entries[k] == u[0];
        assert(!names.contains(entries[k].0));
    }
    if exists|i: int| 0 <= i < entries.len() && !names.contains(#[trigger] entries[i].0) {
        let i = choose|i: int| 0 <= i < entries.len() && !names.contains(#[trigger] entries[i].0);
        assert(entries.contains(entries[i]));
        assert(u.contains(entries[i]));
    }
}

} // verus!

//! Resolving the plugin's configuration: cmakefmt's defaults, overridden by
//! dprint's global options, overridden by the plugin's own options.
use vstd::prelude::*;
use dprint_core::configuration::ConfigKeyMap;
use crate::options::{
    config_entries, entry_value, keys_distinct, flag_outcome, new_line_kind_outcome, problems, settled,
    size_outcome, take_flag, take_new_line_kind, take_size, take_text, text_outcome,
    unknown_diagnostics, unknown_property_diagnostics, without_key, ConfigurationDiagnostic,
    Outcome, SettingValue,
};
use crate::plugin::CMakeFmtPlugin;
use crate::settings::{
    case_style_result, continuation_align_result, dangle_align_result, default_config,
    parse_case_style, parse_continuation_align, parse_dangle_align, Casing,
    ContinuationAlignment, DangleAlignment, NewLineKind, ResolvedConfig,
};

verus! {

/// dprint's global options, which apply to every plugin.
#[derive(Clone, Copy, Debug, Default, PartialEq, Eq)]
pub struct GlobalConfiguration {
    pub line_width: Option<u32>,
    pub use_tabs: Option<bool>,
    pub indent_width: Option<u8>,
    pub new_line_kind: Option<NewLineKind>,
}

/// Which files the plugin formats.
#[derive(Clone, Debug, PartialEq, Eq)]
pub struct FileMatchingInfo {
    pub file_extensions: Vec<String>,
    pub file_names: Vec<String>,
}

/// The outcome of resolving a configuration.
#[derive(Clone, Debug, PartialEq, Eq)]
pub struct PluginResolveConfigurationResult {
    pub file_matching: FileMatchingInfo,
    pub diagnostics: Vec<ConfigurationDiagnostic>,
    pub config: ResolvedConfig,
}

/// The file extensions the plugin formats.
pub open spec fn cmake_file_extensions() -> Seq<Seq<char>> {
    seq!["cmake"@]
}

/// The file names the plugin formats.
pub open spec fn cmake_file_names() -> Seq<Seq<char>> {
    seq!["CMakeLists.txt"@, "CMakeLists.txt.in"@]
}

/// cmakefmt's defaults with dprint's global options applied.
pub open spec fn with_global(global: GlobalConfiguration) -> ResolvedConfig {
    let d = default_config();
    ResolvedConfig {
        line_width: match global.line_width {
            Some(w) => w as usize,
            None => d.line_width,
        },
        indent_width: match global.indent_width {
            Some(w) => w as usize,
            None => d.indent_width,
        },
        use_tabs: match global.use_tabs {
            Some(t) => t,
            None => d.use_tabs,
        },
        new_line_kind: match global.new_line_kind {
            Some(k) => k,
            None => d.new_line_kind,
        },
        ..d
    }
}

/// Reading a word option and parsing it with `parse`.
pub open spec fn parsed_word<T>(word: Outcome<Seq<char>>, parse: spec_fn(Seq<char>) -> Result<T, Seq<char>>) -> Outcome<T> {
    match word {
        Outcome::Value(w) => match parse(w) {
            Ok(t) => Outcome::Value(t),
            Err(message) => Outcome::Invalid(message),
        },
        Outcome::Unset => Outcome::Unset,
        Outcome::Invalid(message) => Outcome::Invalid(message),
    }
}

/// Reading a case-style option.
pub open spec fn casing_outcome(value: Option<SettingValue>) -> Outcome<Casing> {
    parsed_word(text_outcome(value), |w: Seq<char>| case_style_result(w))
}

/// Reading the continuation-alignment option.
pub open spec fn continuation_outcome(value: Option<SettingValue>) -> Outcome<ContinuationAlignment> {
    parsed_word(text_outcome(value), |w: Seq<char>| continuation_align_result(w))
}

/// Reading the dangle-alignment option.
pub open spec fn dangle_outcome(value: Option<SettingValue>) -> Outcome<DangleAlignment> {
    parsed_word(text_outcome(value), |w: Seq<char>| dangle_align_result(w))
}

/// The names of the plugin's options, in the order they are read.
pub open spec fn option_names() -> Seq<Seq<char>> {
    seq![
        "lineWidth"@,
        "indentWidth"@,
        "useTabs"@,
        "newLineKind"@,
        "commandCase"@,
        "keywordCase"@,
        "maxEmptyLines"@,
        "maxLinesHwrap"@,
        "maxHangingWrapPositionalArgs"@,
        "maxHangingWrapGroups"@,
        "maxRowsCmdline"@,
        "requireValidLayout"@,
        "wrapAfterFirstArg"@,
        "continuationAlign"@,
        "enableSort"@,
        "autosort"@,
        "dangleParens"@,
        "dangleAlign"@,
        "enableMarkup"@,
        "firstCommentIsLiteral"@,
    ]
}

/// The entries without those for any of the keys.
pub open spec fn without_keys(entries: Seq<(Seq<char>, SettingValue)>, keys: Seq<Seq<char>>) -> Seq<(Seq<char>, SettingValue)>
    decreases keys.len(),
{
    if keys.len() == 0 {
        entries
    } else {
        without_key(without_keys(entries, keys.drop_last()), keys.last())
    }
}

/// The entries of a configuration that are not options of the plugin.
pub open spec fn unrecognized_entries(entries: Seq<(Seq<char>, SettingValue)>) -> Seq<(Seq<char>, SettingValue)> {
    without_keys(entries, option_names())
}

/// The configuration resolved from the plugin's configuration entries and
/// dprint's global options: each option of the plugin that holds a valid value
/// wins; otherwise the global option, where there is one; otherwise cmakefmt's
/// default.
pub open spec fn resolved_config(entries: Seq<(Seq<char>, SettingValue)>, global: GlobalConfiguration) -> ResolvedConfig {
    let base = with_global(global);
    ResolvedConfig {
        line_width: settled(size_outcome(entry_value(entries, "lineWidth"@)), base.line_width),
        indent_width: settled(size_outcome(entry_value(entries, "indentWidth"@)), base.indent_width),
        use_tabs: settled(flag_outcome(entry_value(entries, "useTabs"@)), base.use_tabs),
        new_line_kind: settled(new_line_kind_outcome(entry_value(entries, "newLineKind"@)), base.new_line_kind),
        command_case: settled(casing_outcome(entry_value(entries, "commandCase"@)), base.command_case),
        keyword_case: settled(casing_outcome(entry_value(entries, "keywordCase"@)), base.keyword_case),
        max_empty_lines: settled(size_outcome(entry_value(entries, "maxEmptyLines"@)), base.max_empty_lines),
        max_lines_hwrap: settled(size_outcome(entry_value(entries, "maxLinesHwrap"@)), base.max_lines_hwrap),
        max_pargs_hwrap: settled(size_outcome(entry_value(entries, "maxHangingWrapPositionalArgs"@)), base.max_pargs_hwrap),
        max_subgroups_hwrap: settled(size_outcome(entry_value(entries, "maxHangingWrapGroups"@)), base.max_subgroups_hwrap),
        max_rows_cmdline: settled(size_outcome(entry_value(entries, "maxRowsCmdline"@)), base.max_rows_cmdline),
        require_valid_layout: settled(flag_outcome(entry_value(entries, "requireValidLayout"@)), base.require_valid_layout),
        wrap_after_first_arg: settled(flag_outcome(entry_value(entries, "wrapAfterFirstArg"@)), base.wrap_after_first_arg),
        continuation_align: settled(continuation_outcome(entry_value(entries, "continuationAlign"@)), base.continuation_align),
        enable_sort: settled(flag_outcome(entry_value(entries, "enableSort"@)), base.enable_sort),
        autosort: settled(flag_outcome(entry_value(entries, "autosort"@)), base.autosort),
        dangle_parens: settled(flag_outcome(entry_value(entries, "dangleParens"@)), base.dangle_parens),
        dangle_align: settled(dangle_outcome(entry_value(entries, "dangleAlign"@)), base.dangle_align),
        enable_markup: settled(flag_outcome(entry_value(entries, "enableMarkup"@)), base.enable_markup),
        first_comment_is_literal: settled(flag_outcome(entry_value(entries, "firstCommentIsLiteral"@)), base.first_comment_is_literal),
    }
}

/// The diagnostics of resolving a configuration: one for each option of the
/// plugin with an invalid value, in the order the options are read, then one
/// for each entry that is not an option of the plugin, in the map's order.
pub open spec fn resolve_diagnostics(entries: Seq<(Seq<char>, SettingValue)>) -> Seq<(Seq<char>, Seq<char>)> {
    problems("lineWidth"@, size_outcome(entry_value(entries, "lineWidth"@)))
        + problems("indentWidth"@, size_outcome(entry_value(entries, "indentWidth"@)))
        + problems("useTabs"@, flag_outcome(entry_value(entries, "useTabs"@)))
        + problems("newLineKind"@, new_line_kind_outcome(entry_value(entries, "newLineKind"@)))
        + problems("commandCase"@, casing_outcome(entry_value(entries, "commandCase"@)))
        + problems("keywordCase"@, casing_outcome(entry_value(entries, "keywordCase"@)))
        + problems("maxEmptyLines"@, size_outcome(entry_value(entries, "maxEmptyLines"@)))
        + problems("maxLinesHwrap"@, size_outcome(entry_value(entries, "maxLinesHwrap"@)))
        + problems("maxHangingWrapPositionalArgs"@, size_outcome(entry_value(entries, "maxHangingWrapPositionalArgs"@)))
        + problems("maxHangingWrapGroups"@, size_outcome(entry_value(entries, "maxHangingWrapGroups"@)))
        + problems("maxRowsCmdline"@, size_outcome(entry_value(entries, "maxRowsCmdline"@)))
        + problems("requireValidLayout"@, flag_outcome(entry_value(entries, "requireValidLayout"@)))
        + problems("wrapAfterFirstArg"@, flag_outcome(entry_value(entries, "wrapAfterFirstArg"@)))
        + problems("continuationAlign"@, continuation_outcome(entry_value(entries, "continuationAlign"@)))
        + problems("enableSort"@, flag_outcome(entry_value(entries, "enableSort"@)))
        + problems("autosort"@, flag_outcome(entry_value(entries, "autosort"@)))
        + problems("dangleParens"@, flag_outcome(entry_value(entries, "dangleParens"@)))
        + problems("dangleAlign"@, dangle_outcome(entry_value(entries, "dangleAlign"@)))
        + problems("enableMarkup"@, flag_outcome(entry_value(entries, "enableMarkup"@)))
        + problems("firstCommentIsLiteral"@, flag_outcome(entry_value(entries, "firstCommentIsLiteral"@)))
        + unknown_diagnostics(unrecognized_entries(entries))
}

/// Removing the entries of one key leaves the value of every other key as it was.
pub proof fn lemma_without_key_keeps_other_values(entries: Seq<(Seq<char>, SettingValue)>, removed: Seq<char>, key: Seq<char>)
    requires
        removed != key,
    ensures
        entry_value(without_key(entries, removed), key) == entry_value(entries, key),
    decreases entries.len(),
{
    if entries.len() > 0 {
        lemma_without_key_keeps_other_values(entries.drop_first(), removed, key);
        if entries[0].0 != removed {
            assert((seq![entries[0]] + without_key(entries.drop_first(), removed)).drop_first()
                =~= without_key(entries.drop_first(), removed));
        }
    }
}

/// Removing the entries of several keys leaves the value of every other key as it was.
pub proof fn lemma_without_keys_keeps_other_values(entries: Seq<(Seq<char>, SettingValue)>, removed: Seq<Seq<char>>, key: Seq<char>)
    requires
        !removed.contains(key),
    ensures
        entry_value(without_keys(entries, removed), key) == entry_value(entries, key),
    decreases removed.len(),
{
    if removed.len() > 0 {
        assert(!removed.drop_last().contains(key)) by {
            if removed.drop_last().contains(key) {
                let i = choose|i: int| 0 <= i < removed.drop_last().len() && removed.drop_last()[i] == key;
                assert(removed[i] == key);
            }
        }
        lemma_without_keys_keeps_other_values(entries, removed.drop_last(), key);
        assert(removed[removed.len() - 1] != key);
        lemma_without_key_keeps_other_values(without_keys(entries, removed.drop_last()), removed.last(), key);
    }
}

/// The plugin's option names are all different.
pub proof fn lemma_option_names_distinct()
    ensures
        forall|i: int, j: int| 0 <= i < j < option_names().len() ==> option_names()[i] != option_names()[j],
{
    reveal_strlit("lineWidth");
    reveal_strlit("indentWidth");
    reveal_strlit("useTabs");
    reveal_strlit("newLineKind");
    reveal_strlit("commandCase");
    reveal_strlit("keywordCase");
    reveal_strlit("maxEmptyLines");
    reveal_strlit("maxLinesHwrap");
    reveal_strlit("maxHangingWrapPositionalArgs");
    reveal_strlit("maxHangingWrapGroups");
    reveal_strlit("maxRowsCmdline");
    reveal_strlit("requireValidLayout");
    reveal_strlit("wrapAfterFirstArg");
    reveal_strlit("continuationAlign");
    reveal_strlit("enableSort");
    reveal_strlit("autosort");
    reveal_strlit("dangleParens");
    reveal_strlit("dangleAlign");
    reveal_strlit("enableMarkup");
    reveal_strlit("firstCommentIsLiteral");
    let names = option_names();
    assert forall|i: int, j: int| 0 <= i < j < names.len() implies names[i] != names[j] by {
        if names[i] == names[j] {
            assert(names[i].len() == names[j].len());
            assert(names[i][0] == names[j][0]);
            assert(names[i][1] == names[j][1]);
            assert(names[i][2] == names[j][2]);
            assert(names[i][3] == names[j][3]);
            assert(names[i][4] == names[j][4]);
            assert(names[i][5] == names[j][5]);
        }
    }
}

/// Reading the option at a position of `option_names`, after the options
/// before it were taken out of the map, sees the value the untouched map gives.
proof fn lemma_next_option(entries: Seq<(Seq<char>, SettingValue)>, i: int)
    requires
        0 <= i < option_names().len(),
    ensures
        entry_value(without_keys(entries, option_names().take(i)), option_names()[i])
            == entry_value(entries, option_names()[i]),
        without_keys(entries, option_names().take(i + 1))
            == without_key(without_keys(entries, option_names().take(i)), option_names()[i]),
{
    let names = option_names();
    lemma_option_names_distinct();
    assert(!names.take(i).contains(names[i])) by {
        if names.take(i).contains(names[i]) {
            let k = choose|k: int| 0 <= k < names.take(i).len() && names.take(i)[k] == names[i];
            assert(names[k] == names[i]);
        }
    }
    lemma_without_keys_keeps_other_values(entries, names.take(i), names[i]);
    assert(names.take(i + 1).drop_last() =~= names.take(i));
}

/// Reads a size option into `target`, if the configuration holds a valid one.
fn apply_size_value(config: &mut ConfigKeyMap, key: &str, target: &mut usize, diagnostics: &mut Vec<ConfigurationDiagnostic>)
    ensures
        config_entries(*final(config)) == without_key(config_entries(*old(config)), key@),
        keys_distinct(config_entries(*old(config))),
        *final(target) == settled(size_outcome(entry_value(config_entries(*old(config)), key@)), *old(target)),
        final(diagnostics).deep_view() == old(diagnostics).deep_view()
            + problems(key@, size_outcome(entry_value(config_entries(*old(config)), key@))),
{
    if let Some(value) = take_size(config, key, diagnostics) {
        *target = value;
    }
}

/// Reads a flag option into `target`, if the configuration holds a valid one.
fn apply_flag_value(config: &mut ConfigKeyMap, key: &str, target: &mut bool, diagnostics: &mut Vec<ConfigurationDiagnostic>)
    ensures
        config_entries(*final(config)) == without_key(config_entries(*old(config)), key@),
        keys_distinct(config_entries(*old(config))),
        *final(target) == settled(flag_outcome(entry_value(config_entries(*old(config)), key@)), *old(target)),
        final(diagnostics).deep_view() == old(diagnostics).deep_view()
            + problems(key@, flag_outcome(entry_value(config_entries(*old(config)), key@))),
{
    if let Some(value) = take_flag(config, key, diagnostics) {
        *target = value;
    }
}

/// Reads the newline-kind option into `target`, if the configuration holds a valid one.
fn apply_new_line_kind_value(
    config: &mut ConfigKeyMap,
    key: &str,
    target: &mut NewLineKind,
    diagnostics: &mut Vec<ConfigurationDiagnostic>,
)
    ensures
        config_entries(*final(config)) == without_key(config_entries(*old(config)), key@),
        keys_distinct(config_entries(*old(config))),
        *final(target) == settled(new_line_kind_outcome(entry_value(config_entries(*old(config)), key@)), *old(target)),
        final(diagnostics).deep_view() == old(diagnostics).deep_view()
            + problems(key@, new_line_kind_outcome(entry_value(config_entries(*old(config)), key@))),
{
    if let Some(value) = take_new_line_kind(config, key, diagnostics) {
        *target = value;
    }
}

/// Reads a case-style option into `target`, if the configuration holds a
/// valid one; a word that is not a case style adds a diagnostic.
fn apply_casing_value(config: &mut ConfigKeyMap, key: &str, target: &mut Casing, diagnostics: &mut Vec<ConfigurationDiagnostic>)
    ensures
        config_entries(*final(config)) == without_key(config_entries(*old(config)), key@),
        keys_distinct(config_entries(*old(config))),
        *final(target) == settled(casing_outcome(entry_value(config_entries(*old(config)), key@)), *old(target)),
        final(diagnostics).deep_view() == old(diagnostics).deep_view()
            + problems(key@, casing_outcome(entry_value(config_entries(*old(config)), key@))),
{
    if let Some(value) = take_text(config, key, diagnostics) {
        match parse_case_style(value.as_str()) {
            Ok(parsed) => *target = parsed,
            Err(message) => {
                diagnostics.push(ConfigurationDiagnostic::new(key.to_owned(), message));
            },
        }
    }
}

/// Reads the continuation-alignment option into `target`, if the
/// configuration holds a valid one.
fn apply_continuation_value(
    config: &mut ConfigKeyMap,
    key: &str,
    target: &mut ContinuationAlignment,
    diagnostics: &mut Vec<ConfigurationDiagnostic>,
)
    ensures
        config_entries(*final(config)) == without_key(config_entries(*old(config)), key@),
        keys_distinct(config_entries(*old(config))),
        *final(target) == settled(continuation_outcome(entry_value(config_entries(*old(config)), key@)), *old(target)),
        final(diagnostics).deep_view() == old(diagnostics).deep_view()
            + problems(key@, continuation_outcome(entry_value(config_entries(*old(config)), key@))),
{
    if let Some(value) = take_text(config, key, diagnostics) {
        match parse_continuation_align(value.as_str()) {
            Ok(parsed) => *target = parsed,
            Err(message) => {
                diagnostics.push(ConfigurationDiagnostic::new(key.to_owned(), message));
            },
        }
    }
}

/// Reads the dangle-alignment option into `target`, if the configuration
/// holds a valid one.
fn apply_dangle_value(
    config: &mut ConfigKeyMap,
    key: &str,
    target: &mut DangleAlignment,
    diagnostics: &mut Vec<ConfigurationDiagnostic>,
)
    ensures
        config_entries(*final(config)) == without_key(config_entries(*old(config)), key@),
        keys_distinct(config_entries(*old(config))),
        *final(target) == settled(dangle_outcome(entry_value(config_entries(*old(config)), key@)), *old(target)),
        final(diagnostics).deep_view() == old(diagnostics).deep_view()
            + problems(key@, dangle_outcome(entry_value(config_entries(*old(config)), key@))),
{
    if let Some(value) = take_text(config, key, diagnostics) {
        match parse_dangle_align(value.as_str()) {
            Ok(parsed) => *target = parsed,
            Err(message) => {
                diagnostics.push(ConfigurationDiagnostic::new(key.to_owned(), message));
            },
        }
    }
}

impl CMakeFmtPlugin {
    #[verifier::rlimit(80)]
    /// Resolves the plugin's configuration from its section of dprint's
    /// configuration and dprint's global options.
    pub fn resolve_config(&mut self, config: ConfigKeyMap, global_config: &GlobalConfiguration) -> (r: PluginResolveConfigurationResult)
        ensures
            keys_distinct(config_entries(config)),
            r.config == resolved_config(config_entries(config), *global_config),
            r.diagnostics.deep_view() == resolve_diagnostics(config_entries(config)),
            r.file_matching.file_extensions.deep_view() == cmake_file_extensions(),
            r.file_matching.file_names.deep_view() == cmake_file_names(),
    {
        let ghost entries = config_entries(config);
        let mut config = config;
        let mut diagnostics: Vec<ConfigurationDiagnostic> = Vec::new();
        let mut resolved_config = ResolvedConfig::default();

        if let Some(line_width) = global_config.line_width {
            resolved_config.line_width = line_width as usize;
        }
        if let Some(indent_width) = global_config.indent_width {
            resolved_config.indent_width = indent_width as usize;
        }
        if let Some(use_tabs) = global_config.use_tabs {
            resolved_config.use_tabs = use_tabs;
        }
        if let Some(new_line_kind) = global_config.new_line_kind {
            resolved_config.new_line_kind = new_line_kind;
        }
        assert(resolved_config == with_global(*global_config));
        assert(option_names().take(0) =~= Seq::<Seq<char>>::empty());

        proof { lemma_next_option(entries, 0); }
        apply_size_value(&mut config, "lineWidth", &mut resolved_config.line_width, &mut diagnostics);
        proof { lemma_next_option(entries, 1); }
        apply_size_value(&mut config, "indentWidth", &mut resolved_config.indent_width, &mut diagnostics);
        proof { lemma_next_option(entries, 2); }
        apply_flag_value(&mut config, "useTabs", &mut resolved_config.use_tabs, &mut diagnostics);
        proof { lemma_next_option(entries, 3); }
        apply_new_line_kind_value(&mut config, "newLineKind", &mut resolved_config.new_line_kind, &mut diagnostics);
        proof { lemma_next_option(entries, 4); }
        apply_casing_value(&mut config, "commandCase", &mut resolved_config.command_case, &mut diagnostics);
        proof { lemma_next_option(entries, 5); }
        apply_casing_value(&mut config, "keywordCase", &mut resolved_config.keyword_case, &mut diagnostics);
        proof { lemma_next_option(entries, 6); }
        apply_size_value(&mut config, "maxEmptyLines", &mut resolved_config.max_empty_lines, &mut diagnostics);
        proof { lemma_next_option(entries, 7); }
        apply_size_value(&mut config, "maxLinesHwrap", &mut resolved_config.max_lines_hwrap, &mut diagnostics);
        proof { lemma_next_option(entries, 8); }
        apply_size_value(&mut config, "maxHangingWrapPositionalArgs", &mut resolved_config.max_pargs_hwrap, &mut diagnostics);
        proof { lemma_next_option(entries, 9); }
        apply_size_value(&mut config, "maxHangingWrapGroups", &mut resolved_config.max_subgroups_hwrap, &mut diagnostics);
        proof { lemma_next_option(entries, 10); }
        apply_size_value(&mut config, "maxRowsCmdline", &mut resolved_config.max_rows_cmdline, &mut diagnostics);
        proof { lemma_next_option(entries, 11); }
        apply_flag_value(&mut config, "requireValidLayout", &mut resolved_config.require_valid_layout, &mut diagnostics);
        proof { lemma_next_option(entries, 12); }
        apply_flag_value(&mut config, "wrapAfterFirstArg", &mut resolved_config.wrap_after_first_arg, &mut diagnostics);
        proof { lemma_next_option(entries, 13); }
        apply_continuation_value(&mut config, "continuationAlign", &mut resolved_config.continuation_align, &mut diagnostics);
        proof { lemma_next_option(entries, 14); }
        apply_flag_value(&mut config, "enableSort", &mut resolved_config.enable_sort, &mut diagnostics);
        proof { lemma_next_option(entries, 15); }
        apply_flag_value(&mut config, "autosort", &mut resolved_config.autosort, &mut diagnostics);
        proof { lemma_next_option(entries, 16); }
        apply_flag_value(&mut config, "dangleParens", &mut resolved_config.dangle_parens, &mut diagnostics);
        proof { lemma_next_option(entries, 17); }
        apply_dangle_value(&mut config, "dangleAlign", &mut resolved_config.dangle_align, &mut diagnostics);
        proof { lemma_next_option(entries, 18); }
        apply_flag_value(&mut config, "enableMarkup", &mut resolved_config.enable_markup, &mut diagnostics);
        proof { lemma_next_option(entries, 19); }
        apply_flag_value(&mut config, "firstCommentIsLiteral", &mut resolved_config.first_comment_is_literal, &mut diagnostics);

        assert(option_names().take(20) =~= option_names());
        let unknown = unknown_property_diagnostics(config);
        let mut diagnostics = diagnostics;
        let mut unknown = unknown;
        diagnostics.append(&mut unknown);

        PluginResolveConfigurationResult {
            file_matching: FileMatchingInfo {
                file_extensions: vec!["cmake".to_owned()],
                file_names: vec!["CMakeLists.txt".to_owned(), "CMakeLists.txt.in".to_owned()],
            },
            diagnostics,
            config: resolved_config,
        }
    }
}

} // verus!

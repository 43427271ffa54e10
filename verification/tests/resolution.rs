use dprint_cmakefmt::settings::{cmakefmt_settings, parse_case_style, parse_continuation_align, parse_dangle_align};
use dprint_cmakefmt::{
    CMakeFmtPlugin, Casing, CmakefmtSettings, ContinuationAlignment, DangleAlignment, GlobalConfiguration,
    LineEndingKind, NewLineKind, ResolvedConfig,
};
use dprint_core::configuration::{ConfigKeyMap, ConfigKeyValue};

fn resolve(entries: Vec<(&str, ConfigKeyValue)>, global: GlobalConfiguration) -> dprint_cmakefmt::PluginResolveConfigurationResult {
    let mut config = ConfigKeyMap::new();
    for (key, value) in entries {
        config.insert(key.to_string(), value);
    }
    CMakeFmtPlugin.resolve_config(config, &global)
}

#[test]
fn default_config_is_cmakefmts_documented_defaults() {
    let config = ResolvedConfig::default();
    assert_eq!(config.line_width, 80);
    assert_eq!(config.indent_width, 2);
    assert!(!config.use_tabs);
    assert_eq!(config.new_line_kind, NewLineKind::LineFeed);
    assert_eq!(config.command_case, Casing::Lower);
    assert_eq!(config.keyword_case, Casing::Upper);
    assert_eq!(config.max_empty_lines, 1);
    assert_eq!(config.max_lines_hwrap, 2);
    assert_eq!(config.max_pargs_hwrap, 6);
    assert_eq!(config.max_subgroups_hwrap, 2);
    assert_eq!(config.max_rows_cmdline, 2);
    assert!(!config.require_valid_layout);
    assert!(!config.wrap_after_first_arg);
    assert_eq!(config.continuation_align, ContinuationAlignment::UnderFirstValue);
    assert!(!config.enable_sort);
    assert!(!config.autosort);
    assert!(!config.dangle_parens);
    assert_eq!(config.dangle_align, DangleAlignment::Prefix);
    assert!(config.enable_markup);
    assert!(config.first_comment_is_literal);
}

#[test]
fn empty_configuration_gives_defaults_and_no_diagnostics() {
    let result = resolve(vec![], GlobalConfiguration::default());
    assert!(result.diagnostics.is_empty());
    assert_eq!(result.config, ResolvedConfig::default());
}

#[test]
fn plugin_option_wins_over_global_option() {
    let result = resolve(
        vec![
            ("lineWidth", ConfigKeyValue::Number(120)),
            ("indentWidth", ConfigKeyValue::Number(8)),
            ("useTabs", ConfigKeyValue::Bool(false)),
            ("newLineKind", ConfigKeyValue::String("auto".to_string())),
        ],
        GlobalConfiguration {
            line_width: Some(100),
            indent_width: Some(4),
            use_tabs: Some(true),
            new_line_kind: Some(NewLineKind::CarriageReturnLineFeed),
        },
    );
    assert!(result.diagnostics.is_empty());
    assert_eq!(result.config.line_width, 120);
    assert_eq!(result.config.indent_width, 8);
    assert!(!result.config.use_tabs);
    assert_eq!(result.config.new_line_kind, NewLineKind::Auto);
}

#[test]
fn invalid_plugin_option_falls_back_to_global_option() {
    let result = resolve(
        vec![("lineWidth", ConfigKeyValue::String("wide".to_string()))],
        GlobalConfiguration {
            line_width: Some(100),
            ..GlobalConfiguration::default()
        },
    );
    assert_eq!(result.config.line_width, 100);
    assert_eq!(result.diagnostics.len(), 1);
    assert_eq!(result.diagnostics[0].property_name, "lineWidth");
}

#[test]
fn null_option_counts_as_unset() {
    let result = resolve(
        vec![("lineWidth", ConfigKeyValue::Null)],
        GlobalConfiguration {
            line_width: Some(100),
            ..GlobalConfiguration::default()
        },
    );
    assert!(result.diagnostics.is_empty());
    assert_eq!(result.config.line_width, 100);
}

#[test]
fn size_options_read_numbers_and_decimal_strings() {
    let result = resolve(
        vec![
            ("maxEmptyLines", ConfigKeyValue::Number(3)),
            ("maxLinesHwrap", ConfigKeyValue::String("5".to_string())),
            ("maxHangingWrapPositionalArgs", ConfigKeyValue::String("+7".to_string())),
            ("maxHangingWrapGroups", ConfigKeyValue::Number(0)),
            ("maxRowsCmdline", ConfigKeyValue::Number(12)),
        ],
        GlobalConfiguration::default(),
    );
    assert!(result.diagnostics.is_empty());
    assert_eq!(result.config.max_empty_lines, 3);
    assert_eq!(result.config.max_lines_hwrap, 5);
    assert_eq!(result.config.max_pargs_hwrap, 7);
    assert_eq!(result.config.max_subgroups_hwrap, 0);
    assert_eq!(result.config.max_rows_cmdline, 12);
}

#[test]
fn negative_size_is_reported() {
    let result = resolve(vec![("maxEmptyLines", ConfigKeyValue::Number(-1))], GlobalConfiguration::default());
    assert_eq!(result.config.max_empty_lines, 1);
    assert_eq!(result.diagnostics.len(), 1);
    assert_eq!(result.diagnostics[0].property_name, "maxEmptyLines");
    assert_eq!(result.diagnostics[0].message, "invalid digit found in string");
}

#[test]
fn arrays_and_objects_are_reported() {
    let result = resolve(
        vec![
            ("lineWidth", ConfigKeyValue::Array(vec![ConfigKeyValue::Number(1)])),
            ("enableSort", ConfigKeyValue::Object(ConfigKeyMap::new())),
        ],
        GlobalConfiguration::default(),
    );
    assert_eq!(result.diagnostics.len(), 2);
    assert_eq!(result.diagnostics[0].property_name, "lineWidth");
    assert_eq!(result.diagnostics[0].message, "Arrays and objects are not supported for this value");
    assert_eq!(result.diagnostics[1].property_name, "enableSort");
    assert_eq!(result.diagnostics[1].message, "Arrays and objects are not supported for this value");
    assert_eq!(result.config, ResolvedConfig::default());
}

#[test]
fn flag_options_read_booleans_and_words() {
    let result = resolve(
        vec![
            ("requireValidLayout", ConfigKeyValue::Bool(true)),
            ("wrapAfterFirstArg", ConfigKeyValue::String("true".to_string())),
            ("enableMarkup", ConfigKeyValue::String("false".to_string())),
            ("autosort", ConfigKeyValue::String("yes".to_string())),
        ],
        GlobalConfiguration::default(),
    );
    assert!(result.config.require_valid_layout);
    assert!(result.config.wrap_after_first_arg);
    assert!(!result.config.enable_markup);
    assert!(!result.config.autosort);
    assert_eq!(result.diagnostics.len(), 1);
    assert_eq!(result.diagnostics[0].property_name, "autosort");
    assert_eq!(result.diagnostics[0].message, "provided string was not `true` or `false`");
}

#[test]
fn new_line_kind_accepts_dprint_words() {
    let crlf = resolve(vec![("newLineKind", ConfigKeyValue::String("crlf".to_string()))], GlobalConfiguration::default());
    assert_eq!(crlf.config.new_line_kind, NewLineKind::CarriageReturnLineFeed);
    assert_eq!(crlf.config.line_ending(), LineEndingKind::Windows);

    let bad = resolve(vec![("newLineKind", ConfigKeyValue::String("system".to_string()))], GlobalConfiguration::default());
    assert_eq!(bad.config.new_line_kind, NewLineKind::LineFeed);
    assert_eq!(bad.diagnostics.len(), 1);
    assert_eq!(bad.diagnostics[0].message, "Found invalid value 'system'.");
}

#[test]
fn word_options_are_parsed() {
    let result = resolve(
        vec![
            ("commandCase", ConfigKeyValue::String("upper".to_string())),
            ("keywordCase", ConfigKeyValue::String("unchanged".to_string())),
            ("continuationAlign", ConfigKeyValue::String("same-indent".to_string())),
            ("dangleAlign", ConfigKeyValue::String("close".to_string())),
            ("dangleParens", ConfigKeyValue::Bool(true)),
        ],
        GlobalConfiguration::default(),
    );
    assert!(result.diagnostics.is_empty());
    assert_eq!(result.config.command_case, Casing::Upper);
    assert_eq!(result.config.keyword_case, Casing::Unchanged);
    assert_eq!(result.config.continuation_align, ContinuationAlignment::SameIndent);
    assert_eq!(result.config.dangle_align, DangleAlignment::Close);
    assert!(result.config.dangle_parens);
}

#[test]
fn unknown_word_is_reported_with_the_accepted_words() {
    let result = resolve(vec![("commandCase", ConfigKeyValue::String("Shout".to_string()))], GlobalConfiguration::default());
    assert_eq!(result.config.command_case, Casing::Lower);
    assert_eq!(result.diagnostics.len(), 1);
    assert_eq!(result.diagnostics[0].property_name, "commandCase");
    assert_eq!(
        result.diagnostics[0].message,
        "Expected one of \"lower\", \"upper\", or \"unchanged\", but found \"Shout\"."
    );
}

#[test]
fn word_options_read_numbers_as_their_text() {
    let result = resolve(vec![("dangleAlign", ConfigKeyValue::Number(3))], GlobalConfiguration::default());
    assert_eq!(result.diagnostics.len(), 1);
    assert_eq!(
        result.diagnostics[0].message,
        "Expected one of \"prefix\", \"open\", or \"close\", but found \"3\"."
    );
}

#[test]
fn diagnostics_list_invalid_options_then_unknown_keys_in_map_order() {
    let result = resolve(
        vec![
            ("zeta", ConfigKeyValue::Bool(true)),
            ("useTabs", ConfigKeyValue::Number(1)),
            ("lineWidth", ConfigKeyValue::String("x".to_string())),
            ("alpha", ConfigKeyValue::Null),
        ],
        GlobalConfiguration::default(),
    );
    let names: Vec<&str> = result.diagnostics.iter().map(|d| d.property_name.as_str()).collect();
    assert_eq!(names, vec!["lineWidth", "useTabs", "zeta", "alpha"]);
    assert_eq!(result.diagnostics[2].message, "Unknown property in configuration");
    assert_eq!(result.diagnostics[3].message, "Unknown property in configuration");
}

#[test]
fn parse_case_style_accepts_exactly_three_words() {
    assert_eq!(parse_case_style("lower"), Ok(Casing::Lower));
    assert_eq!(parse_case_style("upper"), Ok(Casing::Upper));
    assert_eq!(parse_case_style("unchanged"), Ok(Casing::Unchanged));
    assert_eq!(
        parse_case_style("Lower"),
        Err("Expected one of \"lower\", \"upper\", or \"unchanged\", but found \"Lower\".".to_string())
    );
    assert_eq!(
        parse_case_style("a\"b"),
        Err("Expected one of \"lower\", \"upper\", or \"unchanged\", but found \"a\\\"b\".".to_string())
    );
}

#[test]
fn parse_continuation_align_accepts_exactly_two_words() {
    assert_eq!(parse_continuation_align("same-indent"), Ok(ContinuationAlignment::SameIndent));
    assert_eq!(parse_continuation_align("under-first-value"), Ok(ContinuationAlignment::UnderFirstValue));
    assert_eq!(
        parse_continuation_align("same_indent"),
        Err("Expected one of \"same-indent\" or \"under-first-value\", but found \"same_indent\".".to_string())
    );
}

#[test]
fn parse_dangle_align_accepts_exactly_three_words() {
    assert_eq!(parse_dangle_align("prefix"), Ok(DangleAlignment::Prefix));
    assert_eq!(parse_dangle_align("open"), Ok(DangleAlignment::Open));
    assert_eq!(parse_dangle_align("close"), Ok(DangleAlignment::Close));
    assert_eq!(
        parse_dangle_align(""),
        Err("Expected one of \"prefix\", \"open\", or \"close\", but found \"\".".to_string())
    );
}

#[test]
fn line_ending_follows_new_line_kind() {
    let mut config = ResolvedConfig::default();
    assert_eq!(config.line_ending(), LineEndingKind::Unix);
    config.new_line_kind = NewLineKind::Auto;
    assert_eq!(config.line_ending(), LineEndingKind::Auto);
    config.new_line_kind = NewLineKind::CarriageReturnLineFeed;
    assert_eq!(config.line_ending(), LineEndingKind::Windows);
}

#[test]
fn unknown_keys_leave_configuration_at_defaults() {
    let result = resolve(
        vec![
            ("line_width", ConfigKeyValue::Number(10)),
            ("CommandCase", ConfigKeyValue::String("upper".to_string())),
        ],
        GlobalConfiguration::default(),
    );
    assert_eq!(result.config, ResolvedConfig::default());
    let names: Vec<&str> = result.diagnostics.iter().map(|d| d.property_name.as_str()).collect();
    assert_eq!(names, vec!["line_width", "CommandCase"]);
}

#[test]
fn adding_an_unknown_key_adds_one_diagnostic_and_changes_nothing_else() {
    let entries = vec![
        ("lineWidth", ConfigKeyValue::Number(100)),
        ("useTabs", ConfigKeyValue::String("maybe".to_string())),
        ("other", ConfigKeyValue::Null),
    ];
    let mut with_extra = entries.clone();
    with_extra.push(("mystery", ConfigKeyValue::Bool(true)));
    let before = resolve(entries, GlobalConfiguration::default());
    let after = resolve(with_extra, GlobalConfiguration::default());
    assert_eq!(after.config, before.config);
    assert_eq!(after.diagnostics.len(), before.diagnostics.len() + 1);
    assert_eq!(&after.diagnostics[..before.diagnostics.len()], &before.diagnostics[..]);
    let last = after.diagnostics.last().unwrap();
    assert_eq!(last.property_name, "mystery");
    assert_eq!(last.message, "Unknown property in configuration");
}

#[test]
fn diagnostics_name_distinct_keys_of_the_configuration() {
    let entries = vec![
        ("lineWidth", ConfigKeyValue::String("wide".to_string())),
        ("commandCase", ConfigKeyValue::String("title".to_string())),
        ("unknownOne", ConfigKeyValue::Number(3)),
        ("enableSort", ConfigKeyValue::Bool(true)),
        ("unknownTwo", ConfigKeyValue::Null),
    ];
    let keys: Vec<&str> = entries.iter().map(|(k, _)| *k).collect();
    let result = resolve(entries, GlobalConfiguration::default());
    let names: Vec<&str> = result.diagnostics.iter().map(|d| d.property_name.as_str()).collect();
    assert_eq!(names, vec!["lineWidth", "commandCase", "unknownOne", "unknownTwo"]);
    assert!(names.len() <= keys.len());
    for name in &names {
        assert!(keys.contains(name));
    }
}

#[test]
fn known_and_valid_options_give_no_diagnostics() {
    let result = resolve(
        vec![
            ("lineWidth", ConfigKeyValue::Number(90)),
            ("newLineKind", ConfigKeyValue::String("crlf".to_string())),
            ("keywordCase", ConfigKeyValue::String("lower".to_string())),
            ("dangleAlign", ConfigKeyValue::String("open".to_string())),
            ("maxHangingWrapGroups", ConfigKeyValue::Null),
        ],
        GlobalConfiguration::default(),
    );
    assert!(result.diagnostics.is_empty());
    assert_eq!(result.config.line_width, 90);
    assert_eq!(result.config.new_line_kind, NewLineKind::CarriageReturnLineFeed);
    assert_eq!(result.config.keyword_case, Casing::Lower);
    assert_eq!(result.config.dangle_align, DangleAlignment::Open);
    assert_eq!(result.config.max_subgroups_hwrap, 2);
}

#[test]
fn cmakefmt_settings_carry_every_option_under_cmakefmts_names() {
    let config = ResolvedConfig {
        line_width: 70,
        indent_width: 3,
        use_tabs: true,
        new_line_kind: NewLineKind::CarriageReturnLineFeed,
        command_case: Casing::Upper,
        keyword_case: Casing::Unchanged,
        max_empty_lines: 4,
        max_lines_hwrap: 5,
        max_pargs_hwrap: 7,
        max_subgroups_hwrap: 8,
        max_rows_cmdline: 9,
        require_valid_layout: true,
        wrap_after_first_arg: true,
        continuation_align: ContinuationAlignment::SameIndent,
        enable_sort: true,
        autosort: true,
        dangle_parens: true,
        dangle_align: DangleAlignment::Close,
        enable_markup: false,
        first_comment_is_literal: false,
    };
    let settings = cmakefmt_settings(&config);
    assert_eq!(
        settings,
        CmakefmtSettings {
            line_width: 70,
            tab_size: 3,
            use_tabchars: true,
            line_ending: LineEndingKind::Windows,
            command_case: Casing::Upper,
            keyword_case: Casing::Unchanged,
            max_empty_lines: 4,
            max_lines_hwrap: 5,
            max_pargs_hwrap: 7,
            max_subgroups_hwrap: 8,
            max_rows_cmdline: 9,
            require_valid_layout: true,
            wrap_after_first_arg: true,
            continuation_align: ContinuationAlignment::SameIndent,
            enable_sort: true,
            autosort: true,
            dangle_parens: true,
            dangle_align: DangleAlignment::Close,
            enable_markup: false,
            first_comment_is_literal: false,
        }
    );
}

use dprint_cmakefmt::{CMakeFmtPlugin, FormatRequest, GlobalConfiguration, NewLineKind, ResolvedConfig};
use dprint_core::configuration::{ConfigKeyMap, ConfigKeyValue};
use dprint_core::plugins::CheckConfigUpdatesMessage;

fn request<'a>(bytes: &[u8], config: &'a ResolvedConfig) -> FormatRequest<'a> {
    FormatRequest {
        file_path: "CMakeLists.txt",
        file_bytes: bytes.to_vec(),
        config,
        range: None,
    }
}

#[test]
fn plugin_info_uses_cmakefmt_config_key() {
    let mut plugin = CMakeFmtPlugin;
    let info = plugin.plugin_info("0.1.0", "https://github.com/sargunv/dprint-cmakefmt");

    assert_eq!(info.name, "dprint-cmakefmt");
    assert_eq!(info.config_key, "cmakefmt");
    assert_eq!(info.version, "0.1.0");
    assert_eq!(
        info.config_schema_url,
        format!(
            "https://plugins.dprint.dev/sargunv/dprint-cmakefmt/{}/schema.json",
            "0.1.0"
        )
    );
    assert_eq!(
        info.update_url.as_deref(),
        Some("https://plugins.dprint.dev/sargunv/dprint-cmakefmt/latest.json")
    );
}

#[test]
fn resolves_cmake_file_matching() {
    let mut plugin = CMakeFmtPlugin;
    let result = plugin.resolve_config(ConfigKeyMap::new(), &GlobalConfiguration::default());

    assert_eq!(result.file_matching.file_extensions, vec!["cmake"]);
    assert_eq!(
        result.file_matching.file_names,
        vec!["CMakeLists.txt", "CMakeLists.txt.in"]
    );
}

#[test]
fn resolves_global_configuration() {
    let mut plugin = CMakeFmtPlugin;
    let result = plugin.resolve_config(
        ConfigKeyMap::new(),
        &GlobalConfiguration {
            line_width: Some(100),
            indent_width: Some(4),
            use_tabs: Some(true),
            new_line_kind: Some(NewLineKind::CarriageReturnLineFeed),
        },
    );

    assert!(result.diagnostics.is_empty());
    assert_eq!(result.config.line_width, 100);
    assert_eq!(result.config.indent_width, 4);
    assert!(result.config.use_tabs);
    assert_eq!(
        result.config.new_line_kind,
        NewLineKind::CarriageReturnLineFeed
    );
}

#[test]
fn diagnoses_unknown_config_keys() {
    let mut config = ConfigKeyMap::new();
    config.insert("unknown".to_string(), ConfigKeyValue::Bool(true));

    let mut plugin = CMakeFmtPlugin;
    let result = plugin.resolve_config(config, &GlobalConfiguration::default());

    assert_eq!(result.diagnostics.len(), 1);
    assert_eq!(result.diagnostics[0].property_name, "unknown");
}

#[test]
fn formats_cmake_source() {
    let mut plugin = CMakeFmtPlugin;
    let config = ResolvedConfig::default();
    let result = plugin
        .format(request(b"CMAKE_MINIMUM_REQUIRED(VERSION 3.20)\n", &config), || false)
        .unwrap();

    assert_eq!(
        result,
        Some(b"cmake_minimum_required(VERSION 3.20)\n".to_vec())
    );
}

#[test]
fn reports_no_change_for_stable_source() {
    let mut plugin = CMakeFmtPlugin;
    let config = ResolvedConfig::default();
    let result = plugin
        .format(request(b"cmake_minimum_required(VERSION 3.20)\n", &config), || false)
        .unwrap();

    assert_eq!(result, None);
}

#[test]
fn check_config_updates_is_noop() {
    let plugin = CMakeFmtPlugin;
    let changes = plugin
        .check_config_updates(CheckConfigUpdatesMessage {
            old_version: None,
            config: ConfigKeyMap::new(),
        })
        .unwrap();

    assert!(changes.is_empty());
}

#[test]
fn rejects_non_utf8_input() {
    let mut plugin = CMakeFmtPlugin;
    let config = ResolvedConfig::default();
    let err = plugin.format(request(&[0xff], &config), || false).unwrap_err();

    assert!(err.to_string().contains("not valid UTF-8"));
}

#[test]
fn reports_malformed_cmake_errors() {
    let mut plugin = CMakeFmtPlugin;
    let config = ResolvedConfig::default();
    let err = plugin.format(request(b"if(\n", &config), || false).unwrap_err();

    assert!(err.to_string().contains("cmakefmt"));
}

#[test]
fn formats_large_input_without_panicking() {
    let mut plugin = CMakeFmtPlugin;
    let config = ResolvedConfig::default();
    let source = "CMAKE_MINIMUM_REQUIRED(VERSION 3.20)\n".repeat(1_000);
    let result = plugin
        .format(request(source.as_bytes(), &config), || false)
        .unwrap();

    assert!(result.is_some());
}

#[test]
fn repeated_format_calls_are_stable() {
    let mut plugin = CMakeFmtPlugin;
    let config = ResolvedConfig::default();

    for _ in 0..10 {
        let result = plugin
            .format(request(b"cmake_minimum_required(VERSION 3.20)\n", &config), || false)
            .unwrap();

        assert_eq!(result, None);
    }
}

#[test]
fn rejects_range_formatting_explicitly() {
    let mut plugin = CMakeFmtPlugin;
    let config = ResolvedConfig::default();
    let mut ranged = request(b"cmake_minimum_required(VERSION 3.20)\n", &config);
    ranged.range = Some(0..10);
    let err = plugin.format(ranged, || false).unwrap_err();

    assert!(err.to_string().contains("Range formatting is not supported"));
}

#[test]
fn respects_cancellation_before_formatting() {
    let mut plugin = CMakeFmtPlugin;
    let config = ResolvedConfig::default();
    let err = plugin
        .format(request(b"cmake_minimum_required(VERSION 3.20)\n", &config), || true)
        .unwrap_err();

    assert!(err.to_string().contains("cancelled"));
}

#[test]
fn license_text_is_bundled() {
    let mut plugin = CMakeFmtPlugin;

    assert_eq!(plugin.license_text(), dprint_cmakefmt::LICENSE_TEXT);
}

use wasm_tracing::{ConsoleConfig, Level, WasmLayerConfig};

#[test]
fn test_default_built_config() {
    let config = WasmLayerConfig::new();

    assert_eq!(
        config,
        WasmLayerConfig {
            report_logs_in_timings: true,
            console: ConsoleConfig::ReportWithConsoleColor,
            max_level: Level::TRACE,
            show_fields: true,
            show_origin: true,
            origin_base_url: None
        }
    )
}

#[test]
fn test_set_report_logs_in_timings() {
    let mut config = WasmLayerConfig::new();
    config.set_report_logs_in_timings(false);

    assert!(!config.report_logs_in_timings);
}

#[test]
fn test_set_console_config_no_reporting() {
    let mut config = WasmLayerConfig::new();
    config.set_console_config(ConsoleConfig::NoReporting);

    assert!(!config.console.reporting_enabled());
}

#[test]
fn test_set_console_config_without_color() {
    let mut config = WasmLayerConfig::new();
    config.set_console_config(ConsoleConfig::ReportWithoutConsoleColor);

    assert_eq!(config.console, ConsoleConfig::ReportWithoutConsoleColor);
}

#[test]
fn test_set_console_config_with_color() {
    let mut config = WasmLayerConfig::new();
    config.set_console_config(ConsoleConfig::ReportWithConsoleColor);

    assert_eq!(config.console, ConsoleConfig::ReportWithConsoleColor);
}

#[test]
fn test_set_config_log_level_warn() {
    let mut config = WasmLayerConfig::new();
    config.set_max_level(Level::WARN);

    assert_eq!(config.max_level, Level::WARN);
}

#[test]
fn default_is_the_same_as_new() {
    assert_eq!(WasmLayerConfig::default(), WasmLayerConfig::new());
}

#[test]
fn setters_change_one_field_each() {
    let mut config = WasmLayerConfig::new();
    config.set_show_origin(false);
    assert_eq!(
        config,
        WasmLayerConfig { show_origin: false, ..WasmLayerConfig::new() }
    );
    config.set_show_fields(false);
    assert_eq!(
        config,
        WasmLayerConfig { show_origin: false, show_fields: false, ..WasmLayerConfig::new() }
    );
    config.set_origin_base_url("http://localhost:8080/");
    assert_eq!(config.origin_base_url, Some(String::from("http://localhost:8080/")));
    assert!(!config.show_origin);
    assert!(!config.show_fields);
    assert!(config.report_logs_in_timings);
}

#[test]
fn setters_chain() {
    let config = WasmLayerConfig::new()
        .set_max_level(Level::DEBUG)
        .set_show_origin(false)
        .set_show_fields(false)
        .to_owned();
    assert_eq!(
        config,
        WasmLayerConfig {
            report_logs_in_timings: true,
            console: ConsoleConfig::ReportWithConsoleColor,
            max_level: Level::DEBUG,
            show_fields: false,
            show_origin: false,
            origin_base_url: None
        }
    );
}

#[test]
fn console_enabled_follows_the_console_mode() {
    let mut config = WasmLayerConfig::new();
    assert!(config.console_enabled());
    config.set_console_config(ConsoleConfig::ReportWithoutConsoleColor);
    assert!(config.console_enabled());
    config.set_console_config(ConsoleConfig::NoReporting);
    assert!(!config.console_enabled());
}

#[test]
fn reporting_enabled_for_each_mode() {
    assert!(!ConsoleConfig::NoReporting.reporting_enabled());
    assert!(ConsoleConfig::ReportWithoutConsoleColor.reporting_enabled());
    assert!(ConsoleConfig::ReportWithConsoleColor.reporting_enabled());
}

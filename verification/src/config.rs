//! Configuration consumed by the layer.

pub mod console;

use crate::config::console::ConsoleConfig;
use crate::level::Level;
use vstd::prelude::*;

verus! {

/// Configuration parameters for the [`WasmLayer`](crate::WasmLayer).
#[derive(Debug, PartialEq, Eq)]
pub struct WasmLayerConfig {
    /// In dev-tools, report timings of traces.
    pub report_logs_in_timings: bool,
    /// See [`ConsoleConfig`].
    pub console: ConsoleConfig,
    /// Maximum log level.
    pub max_level: Level,
    /// Show/hide fields of types.
    pub show_fields: bool,
    /// Show origin (line number, source).
    pub show_origin: bool,
    /// Optional URL to prepend to origins, e.g. to show full file paths that
    /// can be navigated when logged in the browser console.
    pub origin_base_url: Option<String>,
}

/// What a [`WasmLayerConfig`] holds, with its text as sequences of
/// characters.
pub struct ConfigView {
    pub report_logs_in_timings: bool,
    pub console: ConsoleConfig,
    pub max_level: Level,
    pub show_fields: bool,
    pub show_origin: bool,
    pub origin_base_url: Option<Seq<char>>,
}

impl ConfigView {
    /// The configuration a layer starts from: everything is reported, in
    /// colour, at every level, with fields and origins, and no base URL.
    pub open spec fn initial() -> ConfigView {
        ConfigView {
            report_logs_in_timings: true,
            console: ConsoleConfig::ReportWithConsoleColor,
            max_level: Level::TRACE,
            show_fields: true,
            show_origin: true,
            origin_base_url: None,
        }
    }

    /// Whether an event or span of `level` passes the level filter.
    pub open spec fn admits(self, level: Level) -> bool {
        self.max_level.admits(level)
    }

    /// Whether an event can reach any sink at all under this configuration.
    pub open spec fn reports_events(self) -> bool {
        self.report_logs_in_timings || self.console.reports()
    }
}

impl View for WasmLayerConfig {
    type V = ConfigView;

    open spec fn view(&self) -> ConfigView {
        ConfigView {
            report_logs_in_timings: self.report_logs_in_timings,
            console: self.console,
            max_level: self.max_level,
            show_fields: self.show_fields,
            show_origin: self.show_origin,
            origin_base_url: match self.origin_base_url {
                Some(url) => Some(url@),
                None => None,
            },
        }
    }
}

impl Clone for WasmLayerConfig {
    fn clone(&self) -> (copy: Self)
        ensures
            copy@ == self@,
    {
        WasmLayerConfig {
            report_logs_in_timings: self.report_logs_in_timings,
            console: self.console,
            max_level: self.max_level,
            show_fields: self.show_fields,
            show_origin: self.show_origin,
            origin_base_url: match &self.origin_base_url {
                Some(url) => Some(url.clone()),
                None => None,
            },
        }
    }
}

impl Default for WasmLayerConfig {
    fn default() -> (config: Self)
        ensures
            config@ == ConfigView::initial(),
    {
        WasmLayerConfig {
            report_logs_in_timings: true,
            console: ConsoleConfig::ReportWithConsoleColor,
            max_level: Level::TRACE,
            show_fields: true,
            show_origin: true,
            origin_base_url: None,
        }
    }
}

impl WasmLayerConfig {
    /// Create a default [`WasmLayerConfig`].
    pub fn new() -> (config: WasmLayerConfig)
        ensures
            config@ == ConfigView::initial(),
    {
        WasmLayerConfig::default()
    }

    /// Set whether events should appear in performance timings.
    pub fn set_report_logs_in_timings(&mut self, report_logs_in_timings: bool) -> (ret: &mut Self)
        ensures
            ret@ == (ConfigView { report_logs_in_timings, ..old(self)@ }),
            *final(self) == *final(ret),
    {
        self.report_logs_in_timings = report_logs_in_timings;
        self
    }

    /// Set the maximal level on which events should be displayed.
    pub fn set_max_level(&mut self, max_level: Level) -> (ret: &mut Self)
        ensures
            ret@ == (ConfigView { max_level, ..old(self)@ }),
            *final(self) == *final(ret),
    {
        self.max_level = max_level;
        self
    }

    /// Set if and how events should be displayed in the browser console.
    pub fn set_console_config(&mut self, console_config: ConsoleConfig) -> (ret: &mut Self)
        ensures
            ret@ == (ConfigView { console: console_config, ..old(self)@ }),
            *final(self) == *final(ret),
    {
        self.console = console_config;
        self
    }

    /// Set if events will show their origin: the file and line they come
    /// from.
    pub fn set_show_origin(&mut self, show_origin: bool) -> (ret: &mut Self)
        ensures
            ret@ == (ConfigView { show_origin, ..old(self)@ }),
            *final(self) == *final(ret),
    {
        self.show_origin = show_origin;
        self
    }

    /// Set if events will show additional fields.
    pub fn set_show_fields(&mut self, show_fields: bool) -> (ret: &mut Self)
        ensures
            ret@ == (ConfigView { show_fields, ..old(self)@ }),
            *final(self) == *final(ret),
    {
        self.show_fields = show_fields;
        self
    }

    /// Set the base URL for origins. This can be used to show full file
    /// paths in the browser console.
    pub fn set_origin_base_url(&mut self, origin_base_url: &str) -> (ret: &mut Self)
        ensures
            ret@ == (ConfigView { origin_base_url: Some(origin_base_url@), ..old(self)@ }),
            *final(self) == *final(ret),
    {
        self.origin_base_url = Some(origin_base_url.to_owned());
        self
    }

    /// True if the console is reporting spans and events.
    pub fn console_enabled(&self) -> (enabled: bool)
        ensures
            enabled == self@.console.reports(),
    {
        self.console.reporting_enabled()
    }
}

} // verus!

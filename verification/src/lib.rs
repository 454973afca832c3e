//! Bridges structured tracing spans and events to a browser-like host.
//!
//! The crate decides, for every span lifecycle transition and every event,
//! which performance marks, measures and console lines the host should
//! receive, and renders their text. It performs no output of its own: each
//! decision is returned as a list of sink calls for the embedding code to
//! carry out.

pub mod config;
pub mod layer;
pub mod level;
pub mod marks;
pub mod meta;
pub mod recorder;
pub mod sink;
pub mod text;

pub use config::console::ConsoleConfig;
pub use config::WasmLayerConfig;
pub use layer::{event_sink_calls, WasmLayer};
pub use level::Level;
pub use marks::ThreadMark;
pub use meta::{EventMeta, SpanMeta};
pub use recorder::StringRecorder;
pub use sink::SinkCall;

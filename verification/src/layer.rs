//! The event layer: decides, for each notification of the tracing framework,
//! what the host's sinks are to receive.

use crate::config::console::ConsoleConfig;
use crate::config::{ConfigView, WasmLayerConfig};
use crate::level::Level;
use crate::marks::{event_mark, event_mark_name, mark_name, push_thread_suffix, span_mark, ThreadMark};
use crate::meta::{EventMeta, EventMetaView, SpanMeta, SpanMetaView};
use crate::recorder::{FieldText, RecorderView, StringRecorder};
use crate::sink::{SinkCall, SinkCallView};
use crate::text::{decimal, push_decimal};
use std::sync::atomic::AtomicUsize;
use vstd::prelude::*;

verus! {

/// The module shown for a span or an event: its own, or `...` when it is not
/// known.
pub open spec fn module_text(module: Option<Seq<char>>) -> Seq<char> {
    match module {
        Some(path) => path,
        None => "..."@,
    }
}

/// Where an event comes from: the base URL, if one is configured, then
/// `file:line`. Empty when origins are hidden, or when the file or the line
/// is not known.
pub open spec fn origin_text(config: ConfigView, meta: EventMetaView) -> Seq<char> {
    if config.show_origin && meta.file is Some && meta.line is Some {
        let base = match config.origin_base_url {
            Some(url) => url,
            None => Seq::empty(),
        };
        base + meta.file->0 + ":"@ + decimal(meta.line->0 as nat)
    } else {
        Seq::empty()
    }
}

/// The fields that the enclosing span has accumulated, as text; empty
/// outside any span, and for a span without a recorder.
pub open spec fn span_fields_text(span: Option<RecorderView>) -> Seq<char> {
    match span {
        Some(recorder) => recorder.fields_text(),
        None => Seq::empty(),
    }
}

/// The label under which an event shows on the performance timeline.
pub open spec fn event_measure_label(
    meta: EventMetaView,
    recorder: RecorderView,
    thread: ThreadMark,
) -> Seq<char> {
    meta.level.label() + " "@ + module_text(meta.module) + thread.suffix() + " "@
        + recorder.rendered()
}

/// The line that a console without styles receives for an event.
pub open spec fn plain_line(
    config: ConfigView,
    meta: EventMetaView,
    recorder: RecorderView,
    span: Option<RecorderView>,
    thread: ThreadMark,
) -> Seq<char> {
    meta.level.label() + " "@ + origin_text(config, meta) + thread.suffix() + " "@
        + recorder.rendered() + span_fields_text(span)
}

/// The template that a console with styles receives for an event: the level,
/// the origin with the thread, and the message, each behind a style marker.
pub open spec fn styled_template(
    config: ConfigView,
    meta: EventMetaView,
    recorder: RecorderView,
    span: Option<RecorderView>,
    thread: ThreadMark,
) -> Seq<char> {
    "%c"@ + meta.level.label() + "%c "@ + origin_text(config, meta) + thread.suffix() + "%c"@
        + recorder.rendered() + span_fields_text(span)
}

/// The style of the origin and thread segment of a styled line.
pub open spec fn origin_style() -> Seq<char> {
    "color: gray; font-style: italic"@
}

/// The style of the message segment of a styled line.
pub open spec fn message_style() -> Seq<char> {
    "color: inherit"@
}

/// What an event puts on the performance timeline: a mark at this instant
/// and a measure from that mark, or nothing when timings are not reported.
pub open spec fn event_timing_calls(
    config: ConfigView,
    event_id: usize,
    meta: EventMetaView,
    recorder: RecorderView,
    thread: ThreadMark,
) -> Seq<SinkCallView> {
    if config.report_logs_in_timings {
        seq![
            SinkCallView::Mark { name: event_mark(event_id) },
            SinkCallView::Measure {
                label: event_measure_label(meta, recorder, thread),
                start_mark: event_mark(event_id),
            },
        ]
    } else {
        Seq::empty()
    }
}

/// What an event writes to the console, by console mode.
pub open spec fn event_console_calls(
    config: ConfigView,
    meta: EventMetaView,
    recorder: RecorderView,
    span: Option<RecorderView>,
    thread: ThreadMark,
) -> Seq<SinkCallView> {
    match config.console {
        ConsoleConfig::NoReporting => Seq::empty(),
        ConsoleConfig::ReportWithoutConsoleColor => seq![
            SinkCallView::PrintPlain { line: plain_line(config, meta, recorder, span, thread) },
        ],
        ConsoleConfig::ReportWithConsoleColor => seq![
            SinkCallView::PrintStyled {
                template: styled_template(config, meta, recorder, span, thread),
                level_style: meta.level.style(),
                origin_style: origin_style(),
                message_style: message_style(),
            },
        ],
    }
}

/// Everything the sinks receive for one event, in order.
///
/// An event that the level filter stops, or that arrives while neither the
/// timeline nor the console is reported to, reaches no sink. Any other event
/// is first put on the timeline, if timings are reported, and then written to
/// the console, if the console is.
pub open spec fn event_calls(
    config: ConfigView,
    event_id: usize,
    meta: EventMetaView,
    fields: Seq<FieldText>,
    span: Option<RecorderView>,
    thread: ThreadMark,
) -> Seq<SinkCallView> {
    if !config.admits(meta.level) || !config.reports_events() {
        Seq::empty()
    } else {
        let recorder = RecorderView::empty(config.show_fields).record_all(fields);
        event_timing_calls(config, event_id, meta, recorder, thread) + event_console_calls(
            config,
            meta,
            recorder,
            span,
            thread,
        )
    }
}

/// What entering a span puts on the timeline: the span's mark, when timings
/// are reported.
pub open spec fn enter_calls(config: ConfigView, id: u64, thread: ThreadMark) -> Seq<
    SinkCallView,
> {
    if config.report_logs_in_timings {
        seq![SinkCallView::Mark { name: span_mark(id, thread) }]
    } else {
        Seq::empty()
    }
}

/// The label under which a span shows on the performance timeline: its name
/// in quotes, the thread, the module and, for a span with a recorder, the
/// recorder's text.
pub open spec fn exit_label(
    span: SpanMetaView,
    recorder: Option<RecorderView>,
    thread: ThreadMark,
) -> Seq<char> {
    let head = "\""@ + span.name + "\""@ + thread.suffix() + " "@ + module_text(span.module);
    match recorder {
        Some(recorder) => head + " "@ + recorder.rendered(),
        None => head,
    }
}

/// What leaving a span puts on the timeline: a measure from the span's mark,
/// when timings are reported.
pub open spec fn exit_calls(
    config: ConfigView,
    id: u64,
    span: SpanMetaView,
    recorder: Option<RecorderView>,
    thread: ThreadMark,
) -> Seq<SinkCallView> {
    if config.report_logs_in_timings {
        seq![
            SinkCallView::Measure {
                label: exit_label(span, recorder, thread),
                start_mark: span_mark(id, thread),
            },
        ]
    } else {
        Seq::empty()
    }
}

/// With timings reported, entering a span and leaving it again gives exactly
/// one mark, on entry, and exactly one measure, on exit, and the measure
/// starts at that mark. This holds whether or not the span has a recorder.
pub proof fn lemma_enter_exit_pair(
    config: ConfigView,
    id: u64,
    span: SpanMetaView,
    recorder: Option<RecorderView>,
    thread: ThreadMark,
)
    requires
        config.report_logs_in_timings,
    ensures
        enter_calls(config, id, thread).len() == 1,
        exit_calls(config, id, span, recorder, thread).len() == 1,
        enter_calls(config, id, thread)[0] matches SinkCallView::Mark { name }
            && exit_calls(config, id, span, recorder, thread)[0] matches SinkCallView::Measure {
            start_mark,
            ..
        } && start_mark == name && name == span_mark(id, thread),
{
}

/// An event that the level filter stops reaches no sink.
pub proof fn lemma_filtered_event_is_silent(
    config: ConfigView,
    event_id: usize,
    meta: EventMetaView,
    fields: Seq<FieldText>,
    span: Option<RecorderView>,
    thread: ThreadMark,
)
    requires
        !config.admits(meta.level),
    ensures
        event_calls(config, event_id, meta, fields, span, thread).len() == 0,
{
}

/// With the console off and timings off, no event reaches a sink, whatever
/// its level.
pub proof fn lemma_unreported_event_is_silent(
    config: ConfigView,
    event_id: usize,
    meta: EventMetaView,
    fields: Seq<FieldText>,
    span: Option<RecorderView>,
    thread: ThreadMark,
)
    requires
        config.console is NoReporting,
        !config.report_logs_in_timings,
    ensures
        event_calls(config, event_id, meta, fields, span, thread).len() == 0,
{
}

/// Appends the module shown for a span or an event to `out`.
fn push_module(out: &mut String, module: &Option<String>)
    ensures
        final(out)@ == old(out)@ + module_text(module.deep_view()),
{
    match module {
        Some(path) => out.append(path.as_str()),
        None => out.append("..."),
    }
}

/// Appends the origin of an event to `out`.
fn push_origin(out: &mut String, config: &WasmLayerConfig, meta: &EventMeta)
    ensures
        final(out)@ == old(out)@ + origin_text(config@, meta@),
{
    if config.show_origin {
        if let Some(file) = &meta.file {
            if let Some(line) = meta.line {
                if let Some(url) = &config.origin_base_url {
                    out.append(url.as_str());
                }
                out.append(file.as_str());
                out.append(":");
                push_decimal(out, line as u64);
            }
        }
    }
}

/// Appends what follows the level in a console line: origin, thread, the
/// given separator, the event's text and the fields of the enclosing span.
fn push_console_tail(
    out: &mut String,
    config: &WasmLayerConfig,
    meta: &EventMeta,
    recorder: &StringRecorder,
    span: Option<&StringRecorder>,
    thread: ThreadMark,
    separator: &str,
)
    ensures
        final(out)@ == old(out)@ + origin_text(config@, meta@) + thread.suffix() + separator@
            + recorder@.rendered() + span_fields_text(span.deep_view()),
{
    push_origin(out, config, meta);
    push_thread_suffix(out, thread);
    out.append(separator);
    recorder.push_rendered(out);
    match span {
        Some(span_recorder) => span_recorder.push_fields_text(out),
        None => {},
    }
}

/// The sink calls for one event that drew `event_id` from the event counter.
///
/// `fields` are the event's own fields, in the order they were recorded, each
/// with its rendered value; `span` is the recorder of the span the event
/// occurs in, if there is one; `thread` tells how the reporting thread shows.
pub fn event_sink_calls(
    config: &WasmLayerConfig,
    event_id: usize,
    meta: &EventMeta,
    fields: &Vec<(String, String)>,
    span: Option<&StringRecorder>,
    thread: ThreadMark,
) -> (calls: Vec<SinkCall>)
    ensures
        calls.deep_view() == event_calls(
            config@,
            event_id,
            meta@,
            fields.deep_view(),
            span.deep_view(),
            thread,
        ),
{
    let mut calls: Vec<SinkCall> = Vec::new();
    let console_on = config.console.reporting_enabled();
    if !config.max_level.allows(meta.level) || (!config.report_logs_in_timings && !console_on) {
        return calls;
    }
    let mut recorder = StringRecorder::new(config.show_fields);
    recorder.record_all(fields);
    if config.report_logs_in_timings {
        let mut label = String::new();
        label.append(meta.level.as_str());
        label.append(" ");
        push_module(&mut label, &meta.module);
        push_thread_suffix(&mut label, thread);
        label.append(" ");
        recorder.push_rendered(&mut label);
        calls.push(SinkCall::Mark { name: event_mark_name(event_id) });
        calls.push(SinkCall::Measure { label, start_mark: event_mark_name(event_id) });
    }
    match config.console {
        ConsoleConfig::NoReporting => {},
        ConsoleConfig::ReportWithoutConsoleColor => {
            let mut line = String::new();
            line.append(meta.level.as_str());
            line.append(" ");
            push_console_tail(&mut line, config, meta, &recorder, span, thread, " ");
            calls.push(SinkCall::PrintPlain { line });
        },
        ConsoleConfig::ReportWithConsoleColor => {
            let mut template = String::new();
            template.append("%c");
            template.append(meta.level.as_str());
            template.append("%c ");
            push_console_tail(&mut template, config, meta, &recorder, span, thread, "%c");
            calls.push(
                SinkCall::PrintStyled {
                    template,
                    level_style: meta.level.console_style(),
                    origin_style: "color: gray; font-style: italic",
                    message_style: "color: inherit",
                },
            );
        },
    }
    calls
}

/// Reports spans and events to the performance timeline and to the console of
/// the host, as its configuration says.
///
/// The layer reacts to each notification on its own and keeps no record of
/// spans. Its one piece of state is the event counter, from which every
/// event that is put on the timeline draws the number that names its mark;
/// the counter is atomic, so the layer can be shared between threads.
pub struct WasmLayer {
    last_event_id: AtomicUsize,
    config: WasmLayerConfig,
}

impl WasmLayer {
    /// The configuration the layer was made with.
    pub closed spec fn config(&self) -> ConfigView {
        self.config@
    }

    /// Create a new layer with the provided config.
    pub fn new(config: WasmLayerConfig) -> (layer: Self)
        ensures
            layer.config() == config@,
    {
        WasmLayer { last_event_id: AtomicUsize::new(0), config }
    }

    /// Tells whether spans and events of `level` are to be processed at all:
    /// those at least as severe as the configured maximum level are.
    pub fn enabled(&self, level: Level) -> (enabled: bool)
        ensures
            enabled == self.config().admits(level),
    {
        self.config.max_level.allows(level)
    }

    /// Tells whether an event of `level` can reach any sink: it must pass
    /// the level filter, and the timeline or the console must be reported to.
    /// An event for which this is false needs no further work.
    pub fn reports_event(&self, level: Level) -> (reports: bool)
        ensures
            reports == (self.config().admits(level) && self.config().reports_events()),
    {
        self.config.max_level.allows(level) && (self.config.report_logs_in_timings
            || self.config.console.reporting_enabled())
    }

    /// A span was created with the given attributes: returns the recorder
    /// that is to stay attached to the span, filled with them.
    pub fn on_new_span(&self, fields: &Vec<(String, String)>) -> (recorder: StringRecorder)
        ensures
            recorder@ == RecorderView::empty(self.config().show_fields).record_all(
                fields.deep_view(),
            ),
    {
        let mut recorder = StringRecorder::new(self.config.show_fields);
        recorder.record_all(fields);
        recorder
    }

    /// A span recorded new values: merges them into the recorder attached to
    /// the span.
    pub fn on_record(&self, recorder: &mut StringRecorder, fields: &Vec<(String, String)>)
        ensures
            final(recorder)@ == old(recorder)@.record_all(fields.deep_view()),
    {
        recorder.record_all(fields);
    }

    /// An event occurred: returns the sink calls for it.
    ///
    /// The calls are those of [`event_sink_calls`] for the number that the
    /// event draws from the layer's counter.
    pub fn on_event(
        &self,
        meta: &EventMeta,
        fields: &Vec<(String, String)>,
        span: Option<&StringRecorder>,
        thread: ThreadMark,
    ) -> (calls: Vec<SinkCall>)
        ensures
            exists|event_id: usize|
                calls.deep_view() == event_calls(
                    self.config(),
                    event_id,
                    meta@,
                    fields.deep_view(),
                    span.deep_view(),
                    thread,
                ),
            !self.config().admits(meta.level) ==> calls@.len() == 0,
            !self.config().reports_events() ==> calls@.len() == 0,
    {
        let event_id: usize = if self.reports_event(meta.level)
            && self.config.report_logs_in_timings {
            self.last_event_id.fetch_add(1, core::sync::atomic::Ordering::Relaxed)
        } else {
            0
        };
        let calls = event_sink_calls(&self.config, event_id, meta, fields, span, thread);
        assert(calls.deep_view().len() == calls@.len());
        calls
    }

    /// A span was entered: returns the sink calls for it.
    pub fn on_enter(&self, id: u64, thread: ThreadMark) -> (calls: Vec<SinkCall>)
        ensures
            calls.deep_view() == enter_calls(self.config(), id, thread),
    {
        let mut calls: Vec<SinkCall> = Vec::new();
        if self.config.report_logs_in_timings {
            calls.push(SinkCall::Mark { name: mark_name(id, thread) });
        }
        calls
    }

    /// A span was exited: returns the sink calls for it. `recorder` is the
    /// recorder attached to the span, if it has one.
    pub fn on_exit(
        &self,
        id: u64,
        span: &SpanMeta,
        recorder: Option<&StringRecorder>,
        thread: ThreadMark,
    ) -> (calls: Vec<SinkCall>)
        ensures
            calls.deep_view() == exit_calls(
                self.config(),
                id,
                span@,
                recorder.deep_view(),
                thread,
            ),
    {
        let mut calls: Vec<SinkCall> = Vec::new();
        if self.config.report_logs_in_timings {
            let mut label = String::new();
            label.append("\"");
            label.append(span.name.as_str());
            label.append("\"");
            push_thread_suffix(&mut label, thread);
            label.append(" ");
            push_module(&mut label, &span.module);
            match recorder {
                Some(span_recorder) => {
                    label.append(" ");
                    span_recorder.push_rendered(&mut label);
                },
                None => {},
            }
            calls.push(SinkCall::Measure { label, start_mark: mark_name(id, thread) });
        }
        calls
    }
}

impl Default for WasmLayer {
    fn default() -> (layer: Self)
        ensures
            layer.config() == ConfigView::initial(),
    {
        WasmLayer::new(WasmLayerConfig::default())
    }
}

} // verus!

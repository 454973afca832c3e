//! What the layer reads of the metadata of events and spans.

use crate::level::Level;
use vstd::prelude::*;

verus! {

/// The metadata of one event.
#[derive(Debug, PartialEq, Eq)]
pub struct EventMeta {
    /// The severity of the event.
    pub level: Level,
    /// The module that emitted the event, if known.
    pub module: Option<String>,
    /// The source file that emitted the event, if known.
    pub file: Option<String>,
    /// The line in that file, if known.
    pub line: Option<u32>,
}

/// An [`EventMeta`] with its text as sequences of characters.
pub struct EventMetaView {
    pub level: Level,
    pub module: Option<Seq<char>>,
    pub file: Option<Seq<char>>,
    pub line: Option<u32>,
}

impl View for EventMeta {
    type V = EventMetaView;

    open spec fn view(&self) -> EventMetaView {
        EventMetaView {
            level: self.level,
            module: self.module.deep_view(),
            file: self.file.deep_view(),
            line: self.line,
        }
    }
}

/// A copy of a text that may be missing.
fn clone_text(text: &Option<String>) -> (copy: Option<String>)
    ensures
        copy.deep_view() == text.deep_view(),
{
    match text {
        Some(text) => Some(text.clone()),
        None => None,
    }
}

impl Clone for EventMeta {
    fn clone(&self) -> (copy: Self)
        ensures
            copy@ == self@,
    {
        EventMeta {
            level: self.level,
            module: clone_text(&self.module),
            file: clone_text(&self.file),
            line: self.line,
        }
    }
}

/// The metadata of one span.
#[derive(Debug, PartialEq, Eq)]
pub struct SpanMeta {
    /// The name of the span.
    pub name: String,
    /// The module that opened the span, if known.
    pub module: Option<String>,
}

/// A [`SpanMeta`] with its text as sequences of characters.
pub struct SpanMetaView {
    pub name: Seq<char>,
    pub module: Option<Seq<char>>,
}

impl View for SpanMeta {
    type V = SpanMetaView;

    open spec fn view(&self) -> SpanMetaView {
        SpanMetaView { name: self.name@, module: self.module.deep_view() }
    }
}

impl Clone for SpanMeta {
    fn clone(&self) -> (copy: Self)
        ensures
            copy@ == self@,
    {
        SpanMeta { name: self.name.clone(), module: clone_text(&self.module) }
    }
}

} // verus!

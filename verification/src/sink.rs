//! The calls that the layer asks the host to make.

use vstd::prelude::*;

verus! {

/// One call to a sink of the host. The layer returns such calls in the order
/// in which they are to be made; a sink that fails is to be ignored.
#[derive(Debug, PartialEq, Eq)]
pub enum SinkCall {
    /// Record an instantaneous marker on the performance timeline.
    Mark {
        /// The name of the marker.
        name: String,
    },
    /// Record the time from an earlier marker until now.
    Measure {
        /// The label under which the duration shows.
        label: String,
        /// The name of the marker at which the duration starts.
        start_mark: String,
    },
    /// Write one line to the console.
    PrintPlain {
        /// The line.
        line: String,
    },
    /// Write one line to the console in three styled segments. The template
    /// holds three `%c` markers; each switches to the next style.
    PrintStyled {
        /// The line, with its three style markers.
        template: String,
        /// Style of the first segment: the level.
        level_style: &'static str,
        /// Style of the second segment: origin and thread.
        origin_style: &'static str,
        /// Style of the third segment: the message.
        message_style: &'static str,
    },
}

/// A [`SinkCall`] with its text as sequences of characters.
pub enum SinkCallView {
    Mark { name: Seq<char> },
    Measure { label: Seq<char>, start_mark: Seq<char> },
    PrintPlain { line: Seq<char> },
    PrintStyled {
        template: Seq<char>,
        level_style: Seq<char>,
        origin_style: Seq<char>,
        message_style: Seq<char>,
    },
}

impl View for SinkCall {
    type V = SinkCallView;

    open spec fn view(&self) -> SinkCallView {
        match self {
            SinkCall::Mark { name } => SinkCallView::Mark { name: name@ },
            SinkCall::Measure { label, start_mark } => SinkCallView::Measure {
                label: label@,
                start_mark: start_mark@,
            },
            SinkCall::PrintPlain { line } => SinkCallView::PrintPlain { line: line@ },
            SinkCall::PrintStyled {
                template,
                level_style,
                origin_style,
                message_style,
            } => SinkCallView::PrintStyled {
                template: template@,
                level_style: level_style@,
                origin_style: origin_style@,
                message_style: message_style@,
            },
        }
    }
}

impl Clone for SinkCall {
    fn clone(&self) -> (copy: Self)
        ensures
            copy@ == self@,
    {
        match self {
            SinkCall::Mark { name } => SinkCall::Mark { name: name.clone() },
            SinkCall::Measure { label, start_mark } => SinkCall::Measure {
                label: label.clone(),
                start_mark: start_mark.clone(),
            },
            SinkCall::PrintPlain { line } => SinkCall::PrintPlain { line: line.clone() },
            SinkCall::PrintStyled {
                template,
                level_style,
                origin_style,
                message_style,
            } => SinkCall::PrintStyled {
                template: template.clone(),
                level_style: *level_style,
                origin_style: *origin_style,
                message_style: *message_style,
            },
        }
    }
}

impl DeepView for SinkCall {
    type V = SinkCallView;

    open spec fn deep_view(&self) -> SinkCallView {
        self@
    }
}

} // verus!

//! The field recorder: accumulates the key/value fields of one span or one
//! event and renders them as text.

use vstd::prelude::*;

verus! {

/// One recorded field: its name and its rendered value.
pub type FieldText = (Seq<char>, Seq<char>);

/// The name of the field that carries the lead text of a span or an event.
pub open spec fn message_name() -> Seq<char> {
    "message"@
}

/// How one field is rendered: on a line of its own, indented by a tab, as
/// `name: value`.
pub open spec fn field_line(name: Seq<char>, value: Seq<char>) -> Seq<char> {
    "\n\t"@ + name + ": "@ + value
}

/// The rendering of a list of fields: their lines, in order.
pub open spec fn field_lines(fields: Seq<FieldText>) -> Seq<char>
    decreases fields.len(),
{
    if fields.len() == 0 {
        Seq::empty()
    } else {
        field_lines(fields.drop_last()) + field_line(fields.last().0, fields.last().1)
    }
}

/// What a [`StringRecorder`] holds.
pub struct RecorderView {
    /// Whether fields other than the message are kept.
    pub show_fields: bool,
    /// The lead text: the value of the last `message` field recorded, empty
    /// if there was none.
    pub message: Seq<char>,
    /// The other fields, in the order they were recorded.
    pub fields: Seq<FieldText>,
}

impl RecorderView {
    /// A recorder that has seen no field yet.
    pub open spec fn empty(show_fields: bool) -> RecorderView {
        RecorderView { show_fields, message: Seq::empty(), fields: Seq::empty() }
    }

    /// The recorder after one more field. A `message` field becomes the lead
    /// text; any other field is appended when fields are shown and dropped
    /// when they are not.
    pub open spec fn record(self, name: Seq<char>, value: Seq<char>) -> RecorderView {
        if name == message_name() {
            RecorderView { message: value, ..self }
        } else if self.show_fields {
            RecorderView { fields: self.fields.push((name, value)), ..self }
        } else {
            self
        }
    }

    /// The recorder after a list of fields, recorded in order.
    pub open spec fn record_all(self, fields: Seq<FieldText>) -> RecorderView
        decreases fields.len(),
    {
        if fields.len() == 0 {
            self
        } else {
            self.record_all(fields.drop_last()).record(fields.last().0, fields.last().1)
        }
    }

    /// The text of the kept fields, without the lead text.
    pub open spec fn fields_text(self) -> Seq<char> {
        field_lines(self.fields)
    }

    /// The full text: the lead text, then every kept field.
    pub open spec fn rendered(self) -> Seq<char> {
        self.message + self.fields_text()
    }
}

/// Recording a list of fields in two steps gives the recorder that recording
/// the whole list at once gives. So a recorder that is attached to a span and
/// filled over several calls holds what one filled in a single call holds.
pub proof fn lemma_record_all_in_steps(
    recorder: RecorderView,
    first: Seq<FieldText>,
    second: Seq<FieldText>,
)
    ensures
        recorder.record_all(first + second) == recorder.record_all(first).record_all(second),
    decreases second.len(),
{
    if second.len() == 0 {
    } else {
        assert((first + second).drop_last() =~= first + second.drop_last());
        lemma_record_all_in_steps(recorder, first, second.drop_last());
    }
}

/// Recording never changes whether a recorder shows fields, and a recorder
/// that hides fields keeps none: whatever is recorded into an empty one, its
/// full text is its lead text alone.
pub proof fn lemma_hidden_fields_leave_the_message(fields: Seq<FieldText>)
    ensures
        !RecorderView::empty(false).record_all(fields).show_fields,
        RecorderView::empty(false).record_all(fields).fields.len() == 0,
        RecorderView::empty(false).record_all(fields).rendered() == RecorderView::empty(
            false,
        ).record_all(fields).message,
    decreases fields.len(),
{
    let recorder = RecorderView::empty(false).record_all(fields);
    if fields.len() > 0 {
        lemma_hidden_fields_leave_the_message(fields.drop_last());
    }
}

/// Rendering is repeatable: any two texts that [`StringRecorder::render`]
/// gives for recorders that hold the same are the same text.
pub proof fn lemma_render_is_repeatable(
    first_recorder: StringRecorder,
    second_recorder: StringRecorder,
    first: String,
    second: String,
)
    requires
        first_recorder@ == second_recorder@,
        first@ == first_recorder@.rendered(),
        second@ == second_recorder@.rendered(),
    ensures
        first@ == second@,
{
}

/// Accumulates the fields of a single span or event, in the order they are
/// recorded, and renders them.
///
/// A recorder lives either for the length of one event, or attached to a span
/// and filled over several calls until the span closes.
#[derive(Debug, PartialEq, Eq)]
pub struct StringRecorder {
    show_fields: bool,
    message: String,
    fields: Vec<(String, String)>,
}

impl View for StringRecorder {
    type V = RecorderView;

    closed spec fn view(&self) -> RecorderView {
        RecorderView {
            show_fields: self.show_fields,
            message: self.message@,
            fields: self.fields.deep_view(),
        }
    }
}

impl DeepView for StringRecorder {
    type V = RecorderView;

    open spec fn deep_view(&self) -> RecorderView {
        self@
    }
}

impl Clone for StringRecorder {
    fn clone(&self) -> (copy: Self)
        ensures
            copy@ == self@,
    {
        let mut fields: Vec<(String, String)> = Vec::new();
        let mut i: usize = 0;
        while i < self.fields.len()
            invariant
                i <= self.fields.len(),
                fields.deep_view() == self.fields.deep_view().take(i as int),
            decreases self.fields.len() - i,
        {
            let field = &self.fields[i];
            let ghost before = fields.deep_view();
            fields.push((field.0.clone(), field.1.clone()));
            assert(fields.deep_view() =~= before.push((field.0@, field.1@)));
            i += 1;
        }
        assert(fields.deep_view() =~= self.fields.deep_view());
        StringRecorder { show_fields: self.show_fields, message: self.message.clone(), fields }
    }
}

/// Tells whether `name` is the name of the message field.
fn is_message_name(name: &str) -> (is_message: bool)
    ensures
        is_message == (name@ == message_name()),
{
    let expected = "message";
    proof {
        reveal_strlit("message");
    }
    if name.unicode_len() != 7 {
        return false;
    }
    let mut i: usize = 0;
    while i < 7
        invariant
            i <= 7,
            name@.len() == 7,
            expected@.len() == 7,
            expected@ == message_name(),
            forall|j: int| 0 <= j < i ==> name@[j] == expected@[j],
        decreases 7 - i,
    {
        if name.get_char(i) != expected.get_char(i) {
            return false;
        }
        i += 1;
    }
    assert(name@ =~= expected@);
    true
}

impl StringRecorder {
    /// Creates a recorder with no fields. With `show_fields` unset the
    /// recorder keeps the message and drops every other field.
    pub fn new(show_fields: bool) -> (recorder: Self)
        ensures
            recorder@ == RecorderView::empty(show_fields),
    {
        let recorder = StringRecorder { show_fields, message: String::new(), fields: Vec::new() };
        assert(recorder.fields.deep_view() =~= Seq::empty());
        recorder
    }

    /// Records one field, given its name and its rendered value.
    pub fn record(&mut self, name: &str, value: &str)
        ensures
            final(self)@ == old(self)@.record(name@, value@),
    {
        if is_message_name(name) {
            self.message = value.to_owned();
        } else if self.show_fields {
            self.fields.push((name.to_owned(), value.to_owned()));
            assert(self.fields.deep_view() =~= old(self).fields.deep_view().push((name@, value@)));
        }
    }

    /// Records a list of fields, in order.
    pub fn record_all(&mut self, fields: &Vec<(String, String)>)
        ensures
            final(self)@ == old(self)@.record_all(fields.deep_view()),
    {
        let ghost all = fields.deep_view();
        let mut i: usize = 0;
        while i < fields.len()
            invariant
                i <= fields.len(),
                all == fields.deep_view(),
                self@ == old(self)@.record_all(all.take(i as int)),
            decreases fields.len() - i,
        {
            let field = &fields[i];
            self.record(field.0.as_str(), field.1.as_str());
            assert(all.take(i + 1).drop_last() =~= all.take(i as int));
            i += 1;
        }
        assert(all.take(i as int) =~= all);
    }

    /// Appends the text of the kept fields to `out`.
    pub fn push_fields_text(&self, out: &mut String)
        ensures
            final(out)@ == old(out)@ + self@.fields_text(),
    {
        let ghost all = self@.fields;
        let mut i: usize = 0;
        while i < self.fields.len()
            invariant
                i <= self.fields.len(),
                all == self.fields.deep_view(),
                out@ == old(out)@ + field_lines(all.take(i as int)),
            decreases self.fields.len() - i,
        {
            let field = &self.fields[i];
            out.append("\n\t");
            out.append(field.0.as_str());
            out.append(": ");
            out.append(field.1.as_str());
            assert(all.take(i + 1).drop_last() =~= all.take(i as int));
            i += 1;
        }
        assert(all.take(i as int) =~= all);
    }

    /// Appends the full text of the recorder to `out`.
    pub fn push_rendered(&self, out: &mut String)
        ensures
            final(out)@ == old(out)@ + self@.rendered(),
    {
        out.append(self.message.as_str());
        self.push_fields_text(out);
    }

    /// The text of the kept fields, without the lead text.
    pub fn fields_text(&self) -> (text: String)
        ensures
            text@ == self@.fields_text(),
    {
        let mut text = String::new();
        self.push_fields_text(&mut text);
        text
    }

    /// The full text of the recorder: the lead text followed by every kept
    /// field. Rendering reads the recorder and leaves it as it was.
    pub fn render(&self) -> (text: String)
        ensures
            text@ == self@.rendered(),
    {
        let mut text = String::new();
        self.push_rendered(&mut text);
        text
    }
}

} // verus!

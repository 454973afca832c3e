use wasm_tracing::StringRecorder;

fn pairs(fields: &[(&str, &str)]) -> Vec<(String, String)> {
    fields.iter().map(|(k, v)| (k.to_string(), v.to_string())).collect()
}

#[test]
fn message_alone_without_fields() {
    let mut recorder = StringRecorder::new(false);
    recorder.record_all(&pairs(&[("message", "Foobar")]));
    assert_eq!(recorder.render(), "Foobar");
    assert_eq!(recorder.fields_text(), "");
}

#[test]
fn message_and_fields_in_order() {
    let mut recorder = StringRecorder::new(true);
    recorder.record_all(&pairs(&[("message", "X"), ("a", "1"), ("b", "2")]));
    assert_eq!(recorder.render(), "X\n\ta: 1\n\tb: 2");
    assert_eq!(recorder.fields_text(), "\n\ta: 1\n\tb: 2");
}

#[test]
fn rendering_twice_gives_the_same_text() {
    let mut recorder = StringRecorder::new(true);
    recorder.record("message", "hello");
    recorder.record("user", "7");
    let first = recorder.render();
    let second = recorder.render();
    assert_eq!(first, second);
    assert_eq!(first, "hello\n\tuser: 7");
    let before = recorder.clone();
    let _ = recorder.render();
    let _ = recorder.fields_text();
    assert_eq!(recorder, before);
}

#[test]
fn hidden_fields_are_dropped_but_the_message_stays() {
    let mut recorder = StringRecorder::new(false);
    recorder.record("a", "1");
    recorder.record("message", "kept");
    recorder.record("b", "2");
    assert_eq!(recorder.render(), "kept");
    assert_eq!(recorder.fields_text(), "");
}

#[test]
fn an_empty_recorder_renders_nothing() {
    assert_eq!(StringRecorder::new(true).render(), "");
    assert_eq!(StringRecorder::new(false).render(), "");
    assert_eq!(StringRecorder::new(true).fields_text(), "");
}

#[test]
fn fields_without_a_message() {
    let mut recorder = StringRecorder::new(true);
    recorder.record("a", "1");
    assert_eq!(recorder.render(), "\n\ta: 1");
}

#[test]
fn the_message_comes_first_wherever_it_was_recorded() {
    let mut recorder = StringRecorder::new(true);
    recorder.record("a", "1");
    recorder.record("message", "late");
    recorder.record("b", "2");
    assert_eq!(recorder.render(), "late\n\ta: 1\n\tb: 2");
}

#[test]
fn repeated_keys_are_appended_not_replaced() {
    let mut recorder = StringRecorder::new(true);
    recorder.record("a", "1");
    recorder.record("a", "2");
    assert_eq!(recorder.render(), "\n\ta: 1\n\ta: 2");
}

#[test]
fn a_later_message_replaces_the_lead_text() {
    let mut recorder = StringRecorder::new(true);
    recorder.record("message", "first");
    recorder.record("message", "second");
    assert_eq!(recorder.render(), "second");
}

#[test]
fn only_the_exact_name_is_the_message() {
    let mut recorder = StringRecorder::new(true);
    recorder.record("Message", "1");
    recorder.record("messag", "2");
    recorder.record("messages", "3");
    recorder.record("massage", "4");
    recorder.record("messagé", "5");
    recorder.record("", "6");
    assert_eq!(
        recorder.render(),
        "\n\tMessage: 1\n\tmessag: 2\n\tmessages: 3\n\tmassage: 4\n\tmessagé: 5\n\t: 6"
    );
}

#[test]
fn recording_in_steps_is_recording_at_once() {
    let mut at_once = StringRecorder::new(true);
    at_once.record_all(&pairs(&[("message", "m"), ("a", "1"), ("b", "2")]));
    let mut in_steps = StringRecorder::new(true);
    in_steps.record_all(&pairs(&[("message", "m")]));
    in_steps.record_all(&pairs(&[]));
    in_steps.record_all(&pairs(&[("a", "1"), ("b", "2")]));
    assert_eq!(at_once, in_steps);
}

#[test]
fn text_beyond_ascii_is_kept() {
    let mut recorder = StringRecorder::new(true);
    recorder.record("message", "grüß dich");
    recorder.record("ключ", "値");
    assert_eq!(recorder.render(), "grüß dich\n\tключ: 値");
}

#[test]
fn push_rendered_appends() {
    let mut recorder = StringRecorder::new(true);
    recorder.record("message", "m");
    recorder.record("k", "v");
    let mut out = String::from("> ");
    recorder.push_rendered(&mut out);
    assert_eq!(out, "> m\n\tk: v");
    let mut out = String::from("> ");
    recorder.push_fields_text(&mut out);
    assert_eq!(out, "> \n\tk: v");
}

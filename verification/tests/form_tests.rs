use fui::field::Field;
use fui::form::{EventOutcome, FormEvent, FormFocus, FormState, FormView};
use fui::validator::Validator;
use fui::value::Value;

fn one_of(opts: &[&str]) -> Validator {
    Validator::OneOf(opts.iter().map(|s| s.to_string()).collect())
}

fn target_form() -> FormView {
    FormView::new().field(Field::text("target").validator(Validator::Required))
}

fn object(entries: Vec<(&str, Value)>) -> Value {
    Value::Object(entries.into_iter().map(|(k, v)| (k.to_string(), v)).collect())
}

#[test]
fn validate_all_ok_iff_every_field_accepts() {
    let mut form = FormView::new()
        .field(Field::text("target").validator(Validator::Required))
        .field(Field::text("note"));
    assert_eq!(
        form.validate_all(),
        Err(vec![("target".to_string(), "Field is required".to_string())])
    );
    form.set_widget_text(0, "out.tar".to_string());
    assert_eq!(
        form.validate_all(),
        Ok(object(vec![("target", Value::Str("out.tar".to_string())), ("note", Value::Null)]))
    );
}

#[test]
fn validate_all_collects_every_failing_field_in_order() {
    let form = FormView::new()
        .field(Field::text("target").validator(Validator::Required))
        .field(Field::text("note"))
        .field(Field::text("format").validator(Validator::Required).validator(one_of(&["a"])));
    assert_eq!(
        form.validate_all(),
        Err(vec![
            ("target".to_string(), "Field is required".to_string()),
            ("format".to_string(), "Field is required".to_string()),
        ])
    );
}

#[test]
fn validate_all_is_idempotent_without_input_changes() {
    let mut form = target_form();
    assert_eq!(form.validate_all(), form.validate_all());
    form.set_widget_text(0, "out.tar".to_string());
    assert_eq!(form.validate_all(), form.validate_all());
}

#[test]
fn submit_of_empty_required_field_rejects_and_annotates() {
    let mut form = target_form();
    let mut submit_calls = 0;
    let outcome = form.event_submit();
    if let EventOutcome::Submitted(_) = &outcome {
        submit_calls += 1;
    }
    assert_eq!(outcome, EventOutcome::Rejected);
    assert_eq!(submit_calls, 0);
    assert_eq!(form.widget_error(0).as_str(), "Field is required");
    assert_eq!(form.get_state(), FormState::Interactive);
}

#[test]
fn submit_of_filled_form_hands_out_the_aggregate_once() {
    let mut form = target_form();
    form.set_widget_text(0, "archive.tar".to_string());
    let mut submitted = Vec::new();
    match form.event_submit() {
        EventOutcome::Submitted(v) => submitted.push(v),
        other => panic!("expected a submission, got {:?}", other),
    }
    assert_eq!(form.get_state(), FormState::Submitted);
    assert_eq!(
        submitted,
        vec![object(vec![("target", Value::Str("archive.tar".to_string()))])]
    );
    // A submitted form is terminal: further events invoke nothing.
    assert_eq!(form.event_submit(), EventOutcome::Ignored);
    assert_eq!(form.event_cancel(), EventOutcome::Ignored);
    assert_eq!(submitted.len(), 1);
}

#[test]
fn autocomplete_initial_value_submits_unedited() {
    let mut form = FormView::new().field(
        Field::autocomplete("format", vec!["none".to_string(), "gzip".to_string()])
            .initial("gzip")
            .validator(Validator::Required)
            .validator(one_of(&["none", "gzip", "bzip2"])),
    );
    match form.event_submit() {
        EventOutcome::Submitted(v) => {
            assert_eq!(v, object(vec![("format", Value::Str("gzip".to_string()))]));
        }
        other => panic!("expected a submission, got {:?}", other),
    }
}

#[test]
fn failed_submit_refreshes_stale_annotations() {
    let mut form = FormView::new()
        .field(Field::text("target").validator(Validator::Required))
        .field(Field::text("format").validator(Validator::Required));
    assert_eq!(form.event_submit(), EventOutcome::Rejected);
    assert_eq!(form.widget_error(0).as_str(), "Field is required");
    assert_eq!(form.widget_error(1).as_str(), "Field is required");
    form.set_widget_text(0, "out.tar".to_string());
    assert_eq!(form.event_submit(), EventOutcome::Rejected);
    assert_eq!(form.widget_error(0).as_str(), "");
    assert_eq!(form.widget_error(1).as_str(), "Field is required");
    assert_eq!(form.widget_text(0).as_str(), "out.tar");
}

#[test]
fn cancel_invokes_on_cancel_exactly_once_without_validation() {
    let mut form = target_form();
    let mut cancel_calls = 0;
    let mut submit_calls = 0;
    match form.on_event(FormEvent::Enter, FormFocus::CancelControl) {
        EventOutcome::Cancelled => cancel_calls += 1,
        EventOutcome::Submitted(_) => submit_calls += 1,
        _ => {}
    }
    assert_eq!(cancel_calls, 1);
    assert_eq!(submit_calls, 0);
    assert_eq!(form.get_state(), FormState::Cancelled);
    // No validation happened: the invalid required field was not annotated.
    assert_eq!(form.widget_error(0).as_str(), "");
    // Terminal: a second cancel or a submit invokes nothing.
    assert_eq!(form.on_event(FormEvent::Enter, FormFocus::CancelControl), EventOutcome::Ignored);
    assert_eq!(form.on_event(FormEvent::SubmitKey, FormFocus::Content), EventOutcome::Ignored);
    assert_eq!(cancel_calls, 1);
}

#[test]
fn event_routing_follows_focus_and_keys() {
    let mut form = target_form();
    form.set_widget_text(0, "x".to_string());
    // Events that belong to the widgets leave the form untouched.
    assert_eq!(form.on_event(FormEvent::Other, FormFocus::Content), EventOutcome::Ignored);
    assert_eq!(form.on_event(FormEvent::Enter, FormFocus::Content), EventOutcome::Ignored);
    assert_eq!(
        form.on_event(FormEvent::MouseLeftPress, FormFocus::Content),
        EventOutcome::Ignored
    );
    assert_eq!(form.get_state(), FormState::Interactive);
    // The dedicated submit key works from anywhere.
    match form.on_event(FormEvent::SubmitKey, FormFocus::Content) {
        EventOutcome::Submitted(v) => {
            assert_eq!(v, object(vec![("target", Value::Str("x".to_string()))]));
        }
        other => panic!("expected a submission, got {:?}", other),
    }

    let mut second = target_form();
    second.set_widget_text(0, "y".to_string());
    assert!(matches!(
        second.on_event(FormEvent::MouseLeftPress, FormFocus::SubmitControl),
        EventOutcome::Submitted(_)
    ));
}

#[test]
fn title_is_kept() {
    let form = target_form().title("Pack an archive");
    assert_eq!(form.get_title().as_str(), "Pack an archive");
}

#[test]
fn field_order_is_declaration_order() {
    let form = FormView::new()
        .field(Field::text("a"))
        .field(Field::text("b"))
        .field(Field::text("c"));
    assert_eq!(form.field_count(), 3);
    assert_eq!(form.field_at(0).get_label().as_str(), "a");
    assert_eq!(form.field_at(1).get_label().as_str(), "b");
    assert_eq!(form.field_at(2).get_label().as_str(), "c");
}

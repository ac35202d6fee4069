use fui::field::{Field, FieldKind};
use fui::validator::{one_of_message, Validator};
use fui::value::Value;

fn one_of(opts: &[&str]) -> Validator {
    Validator::OneOf(opts.iter().map(|s| s.to_string()).collect())
}

#[test]
fn required_rejects_absent() {
    let r = Validator::Required.validate(None);
    assert_eq!(r, Err("Field is required".to_string()));
}

#[test]
fn required_rejects_empty() {
    let r = Validator::Required.validate(Some(""));
    assert_eq!(r, Err("Field is required".to_string()));
}

#[test]
fn required_passes_value_through() {
    let r = Validator::Required.validate(Some("x"));
    assert_eq!(r, Ok(Some("x".to_string())));
}

#[test]
fn one_of_accepts_member() {
    let r = one_of(&["a", "b"]).validate(Some("a"));
    assert_eq!(r, Ok(Some("a".to_string())));
}

#[test]
fn one_of_rejects_nonmember_naming_the_set() {
    let r = one_of(&["a", "b"]).validate(Some("c"));
    assert_eq!(r, Err("Value must be one of: a, b".to_string()));
}

#[test]
fn one_of_accepts_absent_input() {
    let r = one_of(&["a", "b"]).validate(None);
    assert_eq!(r, Ok(None));
}

#[test]
fn one_of_message_names_every_member_in_order() {
    let opts = vec!["none".to_string(), "gzip".to_string(), "bzip2".to_string()];
    assert_eq!(one_of_message(&opts), "Value must be one of: none, gzip, bzip2");
    assert_eq!(one_of_message(&vec!["a".to_string()]), "Value must be one of: a");
    assert_eq!(one_of_message(&Vec::new()), "Value must be one of: ");
}

#[test]
fn field_coerces_text_to_string_value() {
    let f = Field::text("target");
    assert_eq!(f.validate(Some("out.tar")), Ok(Value::Str("out.tar".to_string())));
}

#[test]
fn field_coerces_absent_and_empty_to_null() {
    let f = Field::text("target");
    assert_eq!(f.validate(None), Ok(Value::Null));
    assert_eq!(f.validate(Some("")), Ok(Value::Null));
}

#[test]
fn field_first_rejecting_validator_wins() {
    let f = Field::text("format")
        .validator(Validator::Required)
        .validator(one_of(&["none", "gzip"]));
    assert_eq!(f.validate(Some("")), Err("Field is required".to_string()));
    assert_eq!(f.validate(Some("zip")), Err("Value must be one of: none, gzip".to_string()));
    assert_eq!(f.validate(Some("gzip")), Ok(Value::Str("gzip".to_string())));
}

#[test]
fn field_builder_holds_configuration() {
    let f = Field::text("target").help("the archive to write").initial("out.tar");
    assert_eq!(f.get_label().as_str(), "target");
    assert_eq!(f.get_help().as_str(), "the archive to write");
    assert_eq!(f.get_initial(), &Some("out.tar".to_string()));
    assert!(matches!(f.get_kind(), FieldKind::Text));
}

#[test]
fn autocomplete_field_keeps_suggestions() {
    let f = Field::autocomplete("format", vec!["none".to_string(), "gzip".to_string()]);
    match f.get_kind() {
        FieldKind::Autocomplete { suggestions } => {
            assert_eq!(suggestions, &vec!["none".to_string(), "gzip".to_string()]);
        }
        FieldKind::Text => panic!("expected an autocomplete field"),
    }
}

#[test]
fn build_widget_prepopulates_initial_text() {
    let with_initial = Field::text("format").initial("gzip").build_widget();
    assert_eq!(with_initial.text, "gzip");
    assert_eq!(with_initial.error, "");
    let without_initial = Field::text("target").build_widget();
    assert_eq!(without_initial.text, "");
    assert_eq!(without_initial.error, "");
}

#[test]
fn flag_def_exposes_name_and_help_and_stays_optional() {
    let d = Field::text("target").help("the archive to write").flag_def();
    assert_eq!(d.name, "target");
    assert_eq!(d.help, "the archive to write");
    assert!(!d.required);
}

#[test]
fn set_widget_error_annotates_and_clears() {
    let f = Field::text("target");
    let mut w = f.build_widget();
    f.set_widget_error(&mut w, "Field is required");
    assert_eq!(w.error, "Field is required");
    assert_eq!(w.text, "");
    f.set_widget_error(&mut w, "");
    assert_eq!(w.error, "");
}

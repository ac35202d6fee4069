use fui::field::Field;
use fui::form::FormView;
use fui::validator::Validator;
use fui::value::Value;

fn one_of(opts: &[&str]) -> Validator {
    Validator::OneOf(opts.iter().map(|s| s.to_string()).collect())
}

fn archive_form() -> FormView {
    FormView::new()
        .field(Field::text("target").help("the archive to write").validator(Validator::Required))
        .field(
            Field::text("format")
                .validator(Validator::Required)
                .validator(one_of(&["none", "gzip", "bzip2"])),
        )
}

fn parse(form: &FormView, argv: &[&str]) -> clap::ArgMatches {
    clap::Command::new("prog")
        .args(form.fields2clap_args())
        .try_get_matches_from(argv)
        .expect("the flags should parse")
}

#[test]
fn flag_path_invokes_the_callback_once_with_the_aggregate() {
    let form = archive_form();
    let matches = parse(&form, &["prog", "--target", "out.tar", "--format", "gzip"]);
    let mut received = Vec::new();
    match form.clap_arg_matches2value(&matches) {
        Ok(v) => received.push(v),
        Err(errors) => panic!("expected success, got {:?}", errors),
    }
    assert_eq!(
        received,
        vec![Value::Object(vec![
            ("target".to_string(), Value::Str("out.tar".to_string())),
            ("format".to_string(), Value::Str("gzip".to_string())),
        ])]
    );
}

#[test]
fn flag_path_aborts_the_action_when_a_field_fails() {
    let form = archive_form();
    let matches = parse(&form, &["prog", "--target", "out.tar", "--format", "zip"]);
    assert_eq!(
        form.clap_arg_matches2value(&matches),
        Err(vec![(
            "format".to_string(),
            "Value must be one of: none, gzip, bzip2".to_string(),
        )])
    );
}

#[test]
fn flag_path_treats_missing_flags_as_absent() {
    let form = archive_form();
    let matches = parse(&form, &["prog"]);
    assert_eq!(
        form.clap_arg_matches2value(&matches),
        Err(vec![
            ("target".to_string(), "Field is required".to_string()),
            ("format".to_string(), "Field is required".to_string()),
        ])
    );
}

#[test]
fn flag_definitions_carry_name_and_help() {
    let form = archive_form();
    let args = form.fields2clap_args();
    assert_eq!(args.len(), 2);
    assert_eq!(args[0].get_id().as_str(), "target");
    assert_eq!(args[0].get_long(), Some("target"));
    assert_eq!(args[0].get_help().map(|h| h.to_string()), Some("the archive to write".to_string()));
    assert_eq!(args[1].get_id().as_str(), "format");
}

#[test]
fn parsed_flags_reach_each_field_by_name() {
    let form = archive_form();
    let matches = parse(&form, &["prog", "--target", "out.tar"]);
    assert_eq!(
        form.field_at(0).extract_from_parsed_flags(&matches),
        Some("out.tar".to_string())
    );
    assert_eq!(form.field_at(1).extract_from_parsed_flags(&matches), None);
}

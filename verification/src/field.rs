//! A typed, labeled, validated unit of user input.

use crate::flags::FlagDef;
use crate::validator::{
    all_accept, first_message, is_coerced, lemma_first_message, opt_string_view, raw_view,
    Validator,
};
use crate::value::Value;
use vstd::prelude::*;
use vstd::string::StringExecFns;

verus! {

/// The model of one live interactive widget: the raw text it currently
/// holds and the error annotation shown beside it. The surrounding program
/// mirrors this state onto a real terminal widget.
#[derive(Clone, Debug, PartialEq, Eq)]
pub struct Widget {
    pub text: String,
    pub error: String,
}

/// How a field presents itself interactively. The two kinds share one
/// contract and differ only in presentation: an autocomplete field offers
/// its suggestions while editing, but they are advisory; enforcement, if
/// wanted, is an explicit `OneOf` validator.
#[derive(Clone, Debug, PartialEq, Eq)]
pub enum FieldKind {
    Text,
    Autocomplete { suggestions: Vec<String> },
}

/// One input of a form: a label (also its flag name), a help text, an
/// optional initial raw value, and an ordered validator chain. Constructed
/// once by the builder methods and immutable afterwards.
#[derive(Clone, Debug)]
pub struct Field {
    label: String,
    help: String,
    initial: Option<String>,
    validators: Vec<Validator>,
    kind: FieldKind,
}

impl Field {
    /// The label, the human-readable key of this field in an output object
    /// and in an error mapping; it doubles as the flag name.
    pub closed spec fn spec_label(&self) -> Seq<char> {
        self.label@
    }

    /// The help text shown beside the widget and as the flag description.
    pub closed spec fn spec_help(&self) -> Seq<char> {
        self.help@
    }

    /// The initial raw value a fresh widget is pre-populated with.
    pub closed spec fn spec_initial(&self) -> Option<Seq<char>> {
        opt_string_view(self.initial)
    }

    /// The validator chain, in declaration order.
    pub closed spec fn spec_validators(&self) -> Seq<Validator> {
        self.validators@
    }

    /// The presentation kind.
    pub closed spec fn spec_kind(&self) -> FieldKind {
        self.kind
    }

    /// A free-form text field. Its label starts out as its only
    /// configuration; help, initial value and validators are added by the
    /// other builder methods.
    pub fn text(label: &str) -> (f: Field)
        ensures
            f.spec_label() == label@,
            f.spec_help() == Seq::<char>::empty(),
            f.spec_initial() is None,
            f.spec_validators() == Seq::<Validator>::empty(),
            f.spec_kind() == FieldKind::Text,
    {
        Field {
            label: label.to_owned(),
            help: String::new(),
            initial: None,
            validators: Vec::new(),
            kind: FieldKind::Text,
        }
    }

    /// A free-form text field with a suggestion list.
    pub fn autocomplete(label: &str, suggestions: Vec<String>) -> (f: Field)
        ensures
            f.spec_label() == label@,
            f.spec_help() == Seq::<char>::empty(),
            f.spec_initial() is None,
            f.spec_validators() == Seq::<Validator>::empty(),
            f.spec_kind() == (FieldKind::Autocomplete { suggestions }),
    {
        Field {
            label: label.to_owned(),
            help: String::new(),
            initial: None,
            validators: Vec::new(),
            kind: FieldKind::Autocomplete { suggestions },
        }
    }

    /// Sets the help text. Chainable.
    pub fn help(self, help: &str) -> (f: Field)
        ensures
            f.spec_label() == self.spec_label(),
            f.spec_help() == help@,
            f.spec_initial() == self.spec_initial(),
            f.spec_validators() == self.spec_validators(),
            f.spec_kind() == self.spec_kind(),
    {
        Field { help: help.to_owned(), ..self }
    }

    /// Sets the initial raw value. Chainable.
    pub fn initial(self, initial: &str) -> (f: Field)
        ensures
            f.spec_label() == self.spec_label(),
            f.spec_help() == self.spec_help(),
            f.spec_initial() == Option::Some(initial@),
            f.spec_validators() == self.spec_validators(),
            f.spec_kind() == self.spec_kind(),
    {
        Field { initial: Some(initial.to_owned()), ..self }
    }

    /// Appends a validator to the chain. Chainable.
    pub fn validator(self, v: Validator) -> (f: Field)
        ensures
            f.spec_label() == self.spec_label(),
            f.spec_help() == self.spec_help(),
            f.spec_initial() == self.spec_initial(),
            f.spec_validators() == self.spec_validators().push(v),
            f.spec_kind() == self.spec_kind(),
    {
        let mut f = self;
        f.validators.push(v);
        f
    }

    /// The label as a borrowed string.
    pub fn get_label(&self) -> (r: &String)
        ensures
            r@ == self.spec_label(),
    {
        &self.label
    }

    /// The help text as a borrowed string.
    pub fn get_help(&self) -> (r: &String)
        ensures
            r@ == self.spec_help(),
    {
        &self.help
    }

    /// The initial raw value, if any.
    pub fn get_initial(&self) -> (r: &Option<String>)
        ensures
            opt_string_view(*r) == self.spec_initial(),
    {
        &self.initial
    }

    /// The presentation kind.
    pub fn get_kind(&self) -> (r: &FieldKind)
        ensures
            *r == self.spec_kind(),
    {
        &self.kind
    }

    /// Creates a fresh, independent widget for this field: pre-populated
    /// with the initial raw value if one was declared, with no error
    /// annotation.
    pub fn build_widget(&self) -> (w: Widget)
        ensures
            w.error@ == Seq::<char>::empty(),
            self.spec_initial() matches Option::Some(s) ==> w.text@ == s,
            self.spec_initial() is None ==> w.text@ == Seq::<char>::empty(),
    {
        let text = match &self.initial {
            Option::Some(s) => s.clone(),
            Option::None => String::new(),
        };
        Widget { text, error: String::new() }
    }

    /// The flag descriptor of this field: the label as the flag name, the
    /// help text as its description, never required at the flag level.
    pub fn flag_def(&self) -> (d: FlagDef)
        ensures
            d.name@ == self.spec_label(),
            d.help@ == self.spec_help(),
            !d.required,
    {
        FlagDef { name: self.label.clone(), help: self.help.clone(), required: false }
    }

    /// Reads this field's current raw text from its live widget. The text
    /// is always present; absence arises only on the flag path.
    pub fn extract_from_widget(&self, w: &Widget) -> (r: Option<String>)
        ensures
            opt_string_view(r) == Option::Some(w.text@),
    {
        Some(w.text.clone())
    }

    /// Looks this field's raw value up by name in externally parsed flags.
    /// The opaque matches decide the outcome, so nothing is stated of it;
    /// `validate` rules on whatever comes back.
    pub fn extract_from_parsed_flags(&self, matches: &clap::ArgMatches) -> Option<String> {
        crate::flags::matches_value_of(matches, self.label.as_str())
    }

    /// Runs the ordered validator chain on a raw input. Every validator
    /// sees the original raw input; the first rejection wins and its message
    /// is the field's error. When all accept, the input is coerced: absent
    /// or empty text becomes `Null`, anything else the string value itself.
    pub fn validate(&self, raw: Option<&str>) -> (r: Result<Value, String>)
        ensures
            r is Ok <==> all_accept(self.spec_validators(), raw_view(raw)),
            r matches Ok(v) ==> is_coerced(v, raw_view(raw)),
            r matches Err(m) ==> m@ == first_message(self.spec_validators(), raw_view(raw)),
    {
        let n = self.validators.len();
        let mut i: usize = 0;
        while i < n
            invariant
                n == self.validators@.len(),
                i <= n,
                forall|j: int| 0 <= j < i ==> (#[trigger] self.validators@[j]).spec_accepts(
                    raw_view(raw),
                ),
            decreases n - i,
        {
            match self.validators[i].validate(raw) {
                Ok(_) => {},
                Err(m) => {
                    proof {
                        assert(!self.validators@[i as int].spec_accepts(raw_view(raw)));
                        lemma_first_message(self.validators@, raw_view(raw), i as int);
                    }
                    return Err(m);
                },
            }
            i = i + 1;
        }
        match raw {
            Option::None => Ok(Value::Null),
            Option::Some(s) => {
                if s.is_empty() {
                    Ok(Value::Null)
                } else {
                    Ok(Value::Str(s.to_owned()))
                }
            },
        }
    }

    /// Decorates the live widget with a visible error annotation; an empty
    /// message clears any prior annotation. The raw text is untouched.
    pub fn set_widget_error(&self, w: &mut Widget, message: &str)
        ensures
            final(w).text@ == old(w).text@,
            final(w).error@ == message@,
    {
        w.error = message.to_owned();
    }
}

} // verus!

//! An ordered collection of fields with submit/cancel behavior, presentable
//! either as a batch flag set or as an interactive widget tree.

use crate::field::{Field, Widget};
use crate::validator::{
    all_accept, first_message, is_coerced, opt_string_view, raw_view,
};
use crate::value::Value;
use vstd::prelude::*;

verus! {

/// Where a form stands in its life. Fields are appended to a form whose
/// widgets already exist, so building and interactive editing coincide in
/// one state; `Submitted` and `Cancelled` are terminal: a terminal form
/// consumes no further submit or cancel event, so each callback is invoked
/// at most once.
#[derive(Clone, Copy, Debug, PartialEq, Eq, Structural)]
pub enum FormState {
    Interactive,
    Submitted,
    Cancelled,
}

/// What an event made of the form, and what the surrounding program owes
/// its callbacks: `Submitted` carries the aggregate value for `on_submit`,
/// `Cancelled` asks for `on_cancel`, `Rejected` means the form stays open
/// with its error annotations refreshed, and an `Ignored` event belongs to
/// the underlying widgets.
#[derive(Debug, PartialEq, Eq)]
pub enum EventOutcome {
    Submitted(Value),
    Rejected,
    Cancelled,
    Ignored,
}

/// An input event, reduced to what the submit/cancel protocol reads.
#[derive(Clone, Copy, Debug, PartialEq, Eq, Structural)]
pub enum FormEvent {
    MouseLeftPress,
    Enter,
    SubmitKey,
    Other,
}

/// Which control of the form's dialog holds the focus when an event
/// arrives.
#[derive(Clone, Copy, Debug, PartialEq, Eq, Structural)]
pub enum FormFocus {
    CancelControl,
    SubmitControl,
    Content,
}

/// The views of the raw texts an ordered widget list currently holds; a
/// live widget always holds text, so every raw input is present.
pub open spec fn widget_raws(widgets: Seq<Widget>) -> Seq<Option<Seq<char>>> {
    Seq::new(widgets.len(), |i: int| Option::Some(widgets[i].text@))
}

/// The views of a list of owned raw inputs.
pub open spec fn raws_views(raws: Seq<Option<String>>) -> Seq<Option<Seq<char>>> {
    Seq::new(raws.len(), |i: int| opt_string_view(raws[i]))
}

/// Whether every field's validator chain accepts its raw input.
pub open spec fn fields_accept(fields: Seq<Field>, raws: Seq<Option<Seq<char>>>) -> bool {
    forall|i: int|
        0 <= i < fields.len() ==> all_accept((#[trigger] fields[i]).spec_validators(), raws[i])
}

/// The error mapping of a validation pass: one entry per failing field, in
/// field order, keyed by the field's label and carrying the first rejecting
/// validator's message. Accepting fields contribute nothing.
pub open spec fn spec_errors(fields: Seq<Field>, raws: Seq<Option<Seq<char>>>) -> Seq<
    (Seq<char>, Seq<char>),
>
    decreases fields.len(),
{
    if fields.len() == 0 {
        Seq::empty()
    } else {
        let prefix = spec_errors(fields.drop_last(), raws.drop_last());
        if all_accept(fields.last().spec_validators(), raws.last()) {
            prefix
        } else {
            prefix.push(
                (
                    fields.last().spec_label(),
                    first_message(fields.last().spec_validators(), raws.last()),
                ),
            )
        }
    }
}

/// Whether `v` is the aggregate object of a fully accepting validation
/// pass: exactly one entry per field, in declaration order, keyed by the
/// field's label and holding the coerced raw input.
pub open spec fn ok_object(v: Value, fields: Seq<Field>, raws: Seq<Option<Seq<char>>>) -> bool {
    v matches Value::Object(entries) && {
        &&& entries@.len() == fields.len()
        &&& forall|i: int|
            0 <= i < fields.len() ==> (#[trigger] entries@[i]).0@ == fields[i].spec_label()
        &&& forall|i: int| 0 <= i < fields.len() ==> is_coerced((#[trigger] entries@[i]).1, raws[i])
    }
}

/// The views of one error-mapping entry.
pub open spec fn pair_views(p: (String, String)) -> (Seq<char>, Seq<char>) {
    (p.0@, p.1@)
}

/// The contract of one validation pass over given raw inputs: success
/// exactly when every field accepts, then the aggregate object; otherwise
/// the error mapping, nothing else.
pub open spec fn flag_validate_post(
    fields: Seq<Field>,
    raws: Seq<Option<Seq<char>>>,
    r: Result<Value, Vec<(String, String)>>,
) -> bool {
    &&& (r is Ok <==> fields_accept(fields, raws))
    &&& (r matches Ok(v) ==> ok_object(v, fields, raws))
    &&& (r matches Err(errs) ==> errs@.map_values(|p: (String, String)| pair_views(p))
        == spec_errors(fields, raws))
}

/// Aggregates fields and handles the process of submitting or cancelling.
/// It owns one model widget per field, in field order; the surrounding
/// program mirrors that state onto real terminal widgets and reports raw
/// events back.
pub struct FormView {
    fields: Vec<Field>,
    widgets: Vec<Widget>,
    state: FormState,
    title: String,
}

impl FormView {
    /// The ordered field list.
    pub closed spec fn spec_fields(&self) -> Seq<Field> {
        self.fields@
    }

    /// The model widgets, one per field.
    pub closed spec fn spec_widgets(&self) -> Seq<Widget> {
        self.widgets@
    }

    /// Where the form stands in its life.
    pub closed spec fn spec_state(&self) -> FormState {
        self.state
    }

    /// The title shown on top of the form.
    pub closed spec fn spec_title(&self) -> Seq<char> {
        self.title@
    }

    /// Well-formedness: one widget per field.
    pub open spec fn wf(&self) -> bool {
        self.spec_widgets().len() == self.spec_fields().len()
    }

    /// The contract of `validate_all`: a validation pass over the widgets'
    /// current texts.
    pub open spec fn validate_post(&self, r: Result<Value, Vec<(String, String)>>) -> bool {
        flag_validate_post(self.spec_fields(), widget_raws(self.spec_widgets()), r)
    }

    /// Creates a new, empty form in its editing state.
    pub fn new() -> (form: FormView)
        ensures
            form.wf(),
            form.spec_fields().len() == 0,
            form.spec_state() == FormState::Interactive,
            form.spec_title() == Seq::<char>::empty(),
    {
        FormView {
            fields: Vec::new(),
            widgets: Vec::new(),
            state: FormState::Interactive,
            title: String::new(),
        }
    }

    /// Appends `field` to the field list and instantiates its widget at the
    /// corresponding position. Chainable.
    pub fn field(self, field: Field) -> (form: FormView)
        requires
            self.wf(),
        ensures
            form.wf(),
            form.spec_fields() == self.spec_fields().push(field),
            form.spec_widgets().len() == self.spec_widgets().len() + 1,
            forall|i: int|
                0 <= i < self.spec_widgets().len() ==> form.spec_widgets()[i]
                    == self.spec_widgets()[i],
            fresh_widget(field, form.spec_widgets().last()),
            form.spec_state() == self.spec_state(),
            form.spec_title() == self.spec_title(),
    {
        let mut form = self;
        let widget = field.build_widget();
        form.widgets.push(widget);
        form.fields.push(field);
        form
    }

    /// Sets the title shown on top of the form. Chainable.
    pub fn title(self, title: &str) -> (form: FormView)
        ensures
            form.spec_fields() == self.spec_fields(),
            form.spec_widgets() == self.spec_widgets(),
            form.spec_state() == self.spec_state(),
            form.spec_title() == title@,
    {
        let mut form = self;
        form.title = title.to_owned();
        form
    }

    /// The title as a borrowed string.
    pub fn get_title(&self) -> (r: &String)
        ensures
            r@ == self.spec_title(),
    {
        &self.title
    }

    /// Where the form stands in its life.
    pub fn get_state(&self) -> (s: FormState)
        ensures
            s == self.spec_state(),
    {
        self.state
    }

    /// How many fields the form declares.
    pub fn field_count(&self) -> (n: usize)
        ensures
            n == self.spec_fields().len(),
    {
        self.fields.len()
    }

    /// The field at a position.
    pub fn field_at(&self, index: usize) -> (f: &Field)
        requires
            index < self.spec_fields().len(),
        ensures
            *f == self.spec_fields()[index as int],
    {
        &self.fields[index]
    }

    /// The raw text the widget at a position currently holds.
    pub fn widget_text(&self, index: usize) -> (r: &String)
        requires
            index < self.spec_widgets().len(),
        ensures
            r@ == self.spec_widgets()[index as int].text@,
    {
        &self.widgets[index].text
    }

    /// The error annotation the widget at a position currently shows;
    /// empty when there is none.
    pub fn widget_error(&self, index: usize) -> (r: &String)
        requires
            index < self.spec_widgets().len(),
        ensures
            r@ == self.spec_widgets()[index as int].error@,
    {
        &self.widgets[index].error
    }

    /// Replaces the raw text of the widget at a position: the model of the
    /// user editing that field. The annotation and everything else stay.
    pub fn set_widget_text(&mut self, index: usize, text: String)
        requires
            old(self).wf(),
            index < old(self).spec_widgets().len(),
        ensures
            final(self).wf(),
            final(self).spec_fields() == old(self).spec_fields(),
            final(self).spec_state() == old(self).spec_state(),
            final(self).spec_title() == old(self).spec_title(),
            final(self).spec_widgets().len() == old(self).spec_widgets().len(),
            forall|i: int|
                0 <= i < old(self).spec_widgets().len() && i != index
                    ==> final(self).spec_widgets()[i] == old(self).spec_widgets()[i],
            final(self).spec_widgets()[index as int].text@ == text@,
            final(self).spec_widgets()[index as int].error@ == old(self).spec_widgets()[
                index as int
            ].error@,
    {
        let w = &mut self.widgets[index];
        w.text = text;
    }

    /// One validation pass over given raw inputs, one per field in order:
    /// the shared heart of both front ends. Returns the aggregate object
    /// exactly when every field's validator chain accepts its raw input;
    /// otherwise the error mapping with one entry per failing field. All
    /// fields are checked either way; errors are never short-circuited
    /// across fields.
    pub fn validate_raw_inputs(&self, raws: &Vec<Option<String>>) -> (r: Result<
        Value,
        Vec<(String, String)>,
    >)
        requires
            raws@.len() == self.spec_fields().len(),
        ensures
            flag_validate_post(self.spec_fields(), raws_views(raws@), r),
    {
        let ghost rvs = raws_views(raws@);
        let n = self.fields.len();
        let mut data: Vec<(String, Value)> = Vec::new();
        let mut errs: Vec<(String, String)> = Vec::new();
        let mut i: usize = 0;
        while i < n
            invariant
                n == self.spec_fields().len(),
                raws@.len() == n,
                rvs == raws_views(raws@),
                i <= n,
                errs@.len() == 0 ==> data@.len() == i,
                errs@.len() == 0 ==> forall|j: int|
                    0 <= j < i ==> (#[trigger] data@[j]).0@ == self.spec_fields()[j].spec_label()
                        && is_coerced(data@[j].1, rvs[j]),
                (errs@.len() == 0) <==> (forall|j: int|
                    0 <= j < i ==> all_accept(
                        (#[trigger] self.spec_fields()[j]).spec_validators(),
                        rvs[j],
                    )),
                errs@.map_values(|p: (String, String)| pair_views(p)) == spec_errors(
                    self.spec_fields().take(i as int),
                    rvs.take(i as int),
                ),
            decreases n - i,
        {
            let raw: Option<&str> = match &raws[i] {
                Option::Some(s) => Some(s.as_str()),
                Option::None => None,
            };
            proof {
                assert(raw_view(raw) == rvs[i as int]);
            }
            let label = self.fields[i].get_label().clone();
            let ghost pre_errs = errs@;
            match self.fields[i].validate(raw) {
                Ok(v) => {
                    data.push((label, v));
                },
                Err(m) => {
                    errs.push((label, m));
                },
            }
            proof {
                let fpre = self.spec_fields().take(i as int);
                let fpost = self.spec_fields().take(i as int + 1);
                let rpre = rvs.take(i as int);
                let rpost = rvs.take(i as int + 1);
                assert(fpost.drop_last() =~= fpre);
                assert(rpost.drop_last() =~= rpre);
                assert(fpost.last() == self.spec_fields()[i as int]);
                assert(rpost.last() == rvs[i as int]);
                if all_accept(self.spec_fields()[i as int].spec_validators(), rvs[i as int]) {
                    assert(spec_errors(fpost, rpost) == spec_errors(fpre, rpre));
                } else {
                    assert(spec_errors(fpost, rpost) == spec_errors(fpre, rpre).push(
                        (
                            self.spec_fields()[i as int].spec_label(),
                            first_message(
                                self.spec_fields()[i as int].spec_validators(),
                                rvs[i as int],
                            ),
                        ),
                    ));
                    assert(errs@.map_values(|p: (String, String)| pair_views(p)) =~= pre_errs
                        .map_values(|p: (String, String)| pair_views(p)).push(
                        pair_views(errs@.last()),
                    ));
                }
            }
            i = i + 1;
        }
        proof {
            assert(self.spec_fields().take(n as int) =~= self.spec_fields());
            assert(rvs.take(n as int) =~= rvs);
        }
        if errs.len() == 0 {
            Ok(Value::Object(data))
        } else {
            Err(errs)
        }
    }

    /// Reads every field's live raw text and runs one validation pass over
    /// it: the interactive front end's validation. The form itself is not
    /// changed; two passes without intervening input changes return
    /// identical results.
    pub fn validate_all(&self) -> (r: Result<Value, Vec<(String, String)>>)
        requires
            self.wf(),
        ensures
            self.validate_post(r),
    {
        let n = self.fields.len();
        let mut raws: Vec<Option<String>> = Vec::new();
        let mut i: usize = 0;
        while i < n
            invariant
                self.wf(),
                n == self.spec_fields().len(),
                i <= n,
                raws@.len() == i,
                forall|j: int|
                    0 <= j < i ==> opt_string_view(#[trigger] raws@[j]) == Option::Some(
                        self.spec_widgets()[j].text@,
                    ),
            decreases n - i,
        {
            let raw = self.fields[i].extract_from_widget(&self.widgets[i]);
            raws.push(raw);
            i = i + 1;
        }
        let r = self.validate_raw_inputs(&raws);
        proof {
            assert(raws_views(raws@) =~= widget_raws(self.spec_widgets()));
        }
        r
    }

    /// Handles a submit attempt. On full acceptance the form transitions to
    /// `Submitted` and the aggregate value is handed out for `on_submit`;
    /// otherwise every widget's annotation is refreshed — failing fields
    /// get their message, accepting ones are cleared — and the form stays
    /// open. A terminal form ignores the event.
    pub fn event_submit(&mut self) -> (r: EventOutcome)
        requires
            old(self).wf(),
        ensures
            final(self).wf(),
            submit_post(*old(self), *final(self), r),
    {
        match self.state {
            FormState::Interactive => {},
            _ => {
                return EventOutcome::Ignored;
            },
        }
        match self.validate_all() {
            Ok(v) => {
                self.state = FormState::Submitted;
                EventOutcome::Submitted(v)
            },
            Err(_) => {
                let ghost pre = *self;
                let n = self.fields.len();
                let mut i: usize = 0;
                while i < n
                    invariant
                        pre.wf(),
                        n == pre.spec_fields().len(),
                        self.spec_fields() == pre.spec_fields(),
                        self.spec_state() == pre.spec_state(),
                        self.spec_title() == pre.spec_title(),
                        self.spec_widgets().len() == n,
                        i <= n,
                        forall|j: int|
                            0 <= j < i ==> (#[trigger] self.spec_widgets()[j]).text@
                                == pre.spec_widgets()[j].text@ && self.spec_widgets()[j].error@
                                == spec_annotation(pre.spec_fields()[j], pre.spec_widgets()[j]),
                        forall|j: int|
                            i <= j < n ==> #[trigger] self.spec_widgets()[j]
                                == pre.spec_widgets()[j],
                    decreases n - i,
                {
                    let raw_owned = self.fields[i].extract_from_widget(&self.widgets[i]);
                    let raw: Option<&str> = match &raw_owned {
                        Option::Some(s) => Some(s.as_str()),
                        Option::None => None,
                    };
                    match self.fields[i].validate(raw) {
                        Ok(_) => {
                            self.fields[i].set_widget_error(&mut self.widgets[i], "");
                            proof {
                                reveal_strlit("");
                                assert(""@ =~= Seq::<char>::empty());
                            }
                        },
                        Err(m) => {
                            self.fields[i].set_widget_error(&mut self.widgets[i], m.as_str());
                        },
                    }
                    i = i + 1;
                }
                EventOutcome::Rejected
            },
        }
    }

    /// Handles a cancel event: an interactive form transitions to
    /// `Cancelled` and `on_cancel` is owed, exactly once; no validation is
    /// performed and the widgets keep their state. A terminal form ignores
    /// the event, so neither callback can fire twice.
    pub fn event_cancel(&mut self) -> (r: EventOutcome)
        requires
            old(self).wf(),
        ensures
            final(self).wf(),
            cancel_post(*old(self), *final(self), r),
    {
        match self.state {
            FormState::Interactive => {
                self.state = FormState::Cancelled;
                EventOutcome::Cancelled
            },
            _ => EventOutcome::Ignored,
        }
    }

    /// Routes one input event: cancel and submit triggers reach their
    /// handlers, everything else belongs to the underlying widgets and
    /// leaves the form untouched. The focus is the one current after the
    /// surrounding program forwarded the event to its widget tree.
    pub fn on_event(&mut self, event: FormEvent, focus: FormFocus) -> (r: EventOutcome)
        requires
            old(self).wf(),
        ensures
            final(self).wf(),
            is_cancel_trigger(event, focus) ==> cancel_post(*old(self), *final(self), r),
            is_submit_trigger(event, focus) ==> submit_post(*old(self), *final(self), r),
            !is_cancel_trigger(event, focus) && !is_submit_trigger(event, focus) ==> r is Ignored
                && *final(self) == *old(self),
    {
        match (event, focus) {
            (FormEvent::MouseLeftPress, FormFocus::CancelControl) => self.event_cancel(),
            (FormEvent::Enter, FormFocus::CancelControl) => self.event_cancel(),
            (FormEvent::MouseLeftPress, FormFocus::SubmitControl) => self.event_submit(),
            (FormEvent::Enter, FormFocus::SubmitControl) => self.event_submit(),
            (FormEvent::SubmitKey, _) => self.event_submit(),
            _ => EventOutcome::Ignored,
        }
    }

    /// Translates the form's fields to the flag parser's argument builders,
    /// one per field in declaration order, each built from that field's
    /// descriptor. The builders are opaque here; the descriptors they are
    /// built from are pinned by `Field::flag_def`.
    pub fn fields2clap_args(&self) -> (args: Vec<clap::Arg>)
        ensures
            args@.len() == self.spec_fields().len(),
    {
        let n = self.fields.len();
        let mut args: Vec<clap::Arg> = Vec::new();
        let mut i: usize = 0;
        while i < n
            invariant
                n == self.spec_fields().len(),
                i <= n,
                args@.len() == i,
            decreases n - i,
        {
            let def = self.fields[i].flag_def();
            args.push(crate::flags::flag_def_to_arg(&def));
            i = i + 1;
        }
        args
    }

    /// Translates externally parsed flags to the aggregate value: each
    /// field's raw value is looked up by name and the shared validation
    /// pass rules on the lot. A single failing field aborts the whole
    /// action with the full error mapping — the flag path enforces the same
    /// "all fields must pass" rule as the interactive one, and no callback
    /// is owed on partial data. The parsed matches are opaque, so the
    /// contract promises exactly one validation pass over some raw inputs,
    /// one per field.
    pub fn clap_arg_matches2value(&self, matches: &clap::ArgMatches) -> (r: Result<
        Value,
        Vec<(String, String)>,
    >)
        ensures
            exists|raws: Seq<Option<Seq<char>>>|
                raws.len() == self.spec_fields().len() && flag_validate_post(
                    self.spec_fields(),
                    raws,
                    r,
                ),
    {
        let n = self.fields.len();
        let mut raws: Vec<Option<String>> = Vec::new();
        let mut i: usize = 0;
        while i < n
            invariant
                n == self.spec_fields().len(),
                i <= n,
                raws@.len() == i,
            decreases n - i,
        {
            raws.push(self.fields[i].extract_from_parsed_flags(matches));
            i = i + 1;
        }
        let r = self.validate_raw_inputs(&raws);
        proof {
            assert(raws_views(raws@).len() == self.spec_fields().len());
        }
        r
    }
}

/// A validation pass succeeds exactly when its error mapping would be
/// empty: the mapping holds an entry precisely for each failing field, so
/// it is empty if and only if every field's validator chain accepts its
/// raw input.
pub proof fn lemma_no_errors_iff_all_accept(fields: Seq<Field>, raws: Seq<Option<Seq<char>>>)
    requires
        raws.len() == fields.len(),
    ensures
        spec_errors(fields, raws).len() == 0 <==> fields_accept(fields, raws),
    decreases fields.len(),
{
    if fields.len() > 0 {
        let fpre = fields.drop_last();
        let rpre = raws.drop_last();
        lemma_no_errors_iff_all_accept(fpre, rpre);
        if fields_accept(fields, raws) {
            assert forall|i: int| 0 <= i < fpre.len() implies all_accept(
                (#[trigger] fpre[i]).spec_validators(),
                rpre[i],
            ) by {
                assert(fpre[i] == fields[i]);
                assert(rpre[i] == raws[i]);
            }
            assert(all_accept(fields.last().spec_validators(), raws.last()));
        }
        if spec_errors(fields, raws).len() == 0 {
            assert(spec_errors(fpre, rpre).len() == 0);
            assert forall|i: int| 0 <= i < fields.len() implies all_accept(
                (#[trigger] fields[i]).spec_validators(),
                raws[i],
            ) by {
                if i < fields.len() - 1 {
                    assert(fields[i] == fpre[i]);
                    assert(raws[i] == rpre[i]);
                } else {
                    assert(fields[i] == fields.last());
                    assert(raws[i] == raws.last());
                }
            }
        }
    }
}

/// How many fields of a validation pass fail their validator chain.
pub open spec fn failing_count(fields: Seq<Field>, raws: Seq<Option<Seq<char>>>) -> int
    decreases fields.len(),
{
    if fields.len() == 0 {
        0
    } else {
        failing_count(fields.drop_last(), raws.drop_last()) + if all_accept(
            fields.last().spec_validators(),
            raws.last(),
        ) {
            0int
        } else {
            1int
        }
    }
}

/// The error mapping holds exactly one entry per failing field — not one
/// per field overall.
pub proof fn lemma_one_error_entry_per_failing_field(
    fields: Seq<Field>,
    raws: Seq<Option<Seq<char>>>,
)
    requires
        raws.len() == fields.len(),
    ensures
        spec_errors(fields, raws).len() == failing_count(fields, raws),
    decreases fields.len(),
{
    if fields.len() > 0 {
        lemma_one_error_entry_per_failing_field(fields.drop_last(), raws.drop_last());
    }
}

/// Whether two values are the same aggregate object at the model level:
/// the same keys in the same order, with values that agree as flat field
/// results.
pub open spec fn objects_alike(a: Value, b: Value) -> bool {
    a matches Value::Object(ea) && (b matches Value::Object(eb) && {
        &&& ea@.len() == eb@.len()
        &&& forall|i: int|
            0 <= i < ea@.len() ==> (#[trigger] ea@[i]).0@ == eb@[i].0@ && ea@[i].1.same_flat(
                eb@[i].1,
            )
    })
}

/// Validation is idempotent: two passes over the same form without
/// intervening input changes yield identical results — the same outcome
/// kind, the same aggregate object, or the same error mapping.
pub proof fn lemma_validate_all_idempotent(
    form: FormView,
    r1: Result<Value, Vec<(String, String)>>,
    r2: Result<Value, Vec<(String, String)>>,
)
    requires
        form.validate_post(r1),
        form.validate_post(r2),
    ensures
        r1 is Ok <==> r2 is Ok,
        (r1 is Ok && r2 is Ok) ==> objects_alike(r1->Ok_0, r2->Ok_0),
        (r1 is Err && r2 is Err) ==> (r1->Err_0)@.map_values(|p: (String, String)| pair_views(p))
            == (r2->Err_0)@.map_values(|p: (String, String)| pair_views(p)),
{
    let fields = form.spec_fields();
    let raws = widget_raws(form.spec_widgets());
    if r1 is Ok && r2 is Ok {
        let v1 = r1->Ok_0;
        let v2 = r2->Ok_0;
        let ea = v1->Object_0;
        let eb = v2->Object_0;
        assert forall|i: int| 0 <= i < ea@.len() implies (#[trigger] ea@[i]).0@ == eb@[i].0@
            && ea@[i].1.same_flat(eb@[i].1) by {
            assert(is_coerced(ea@[i].1, raws[i]));
            assert(is_coerced(eb@[i].1, raws[i]));
        }
    }
}

/// The annotation a submit attempt leaves on one widget: the field's error
/// message when its chain rejects the widget's text, else empty, clearing
/// any stale annotation.
pub open spec fn spec_annotation(f: Field, w: Widget) -> Seq<char> {
    if all_accept(f.spec_validators(), Option::Some(w.text@)) {
        Seq::empty()
    } else {
        first_message(f.spec_validators(), Option::Some(w.text@))
    }
}

/// Whether the widgets went from `old_w` to `new_w` by a failed submit
/// attempt: every text kept, every annotation refreshed.
pub open spec fn annotated(fields: Seq<Field>, old_w: Seq<Widget>, new_w: Seq<Widget>) -> bool {
    &&& new_w.len() == old_w.len()
    &&& forall|i: int| 0 <= i < old_w.len() ==> (#[trigger] new_w[i]).text@ == old_w[i].text@
    &&& forall|i: int|
        0 <= i < old_w.len() ==> (#[trigger] new_w[i]).error@ == spec_annotation(
            fields[i],
            old_w[i],
        )
}

/// The contract of a submit event on a form in its editing state: on full
/// acceptance the aggregate object is handed out and the form is submitted
/// for good; otherwise the form stays open with its annotations refreshed
/// and no callback is owed.
pub open spec fn submit_active_post(pre: FormView, post: FormView, r: EventOutcome) -> bool {
    if fields_accept(pre.spec_fields(), widget_raws(pre.spec_widgets())) {
        &&& r matches EventOutcome::Submitted(v) && ok_object(
            v,
            pre.spec_fields(),
            widget_raws(pre.spec_widgets()),
        )
        &&& post.spec_state() == FormState::Submitted
        &&& post.spec_widgets() == pre.spec_widgets()
    } else {
        &&& r is Rejected
        &&& post.spec_state() == FormState::Interactive
        &&& annotated(pre.spec_fields(), pre.spec_widgets(), post.spec_widgets())
    }
}

/// The contract of a submit event: a terminal form ignores it untouched;
/// an interactive form behaves as `submit_active_post` says. Fields and
/// title never change.
pub open spec fn submit_post(pre: FormView, post: FormView, r: EventOutcome) -> bool {
    &&& post.spec_fields() == pre.spec_fields()
    &&& post.spec_title() == pre.spec_title()
    &&& (pre.spec_state() != FormState::Interactive ==> r is Ignored && post == pre)
    &&& (pre.spec_state() == FormState::Interactive ==> submit_active_post(pre, post, r))
}

/// The contract of a cancel event: an interactive form transitions to
/// `Cancelled` and owes `on_cancel`, exactly once over its life; no
/// validation is performed and nothing else changes. A terminal form
/// ignores the event untouched.
pub open spec fn cancel_post(pre: FormView, post: FormView, r: EventOutcome) -> bool {
    &&& post.spec_fields() == pre.spec_fields()
    &&& post.spec_widgets() == pre.spec_widgets()
    &&& post.spec_title() == pre.spec_title()
    &&& (pre.spec_state() != FormState::Interactive ==> r is Ignored && post == pre)
    &&& (pre.spec_state() == FormState::Interactive ==> r is Cancelled && post.spec_state()
        == FormState::Cancelled)
}

/// Whether an event and the focus it arrived under trigger cancelling: a
/// left mouse press or Enter while the cancel control holds the focus.
pub open spec fn is_cancel_trigger(ev: FormEvent, focus: FormFocus) -> bool {
    (ev is MouseLeftPress || ev is Enter) && focus is CancelControl
}

/// Whether an event and the focus it arrived under trigger a submit
/// attempt: a left mouse press or Enter on the submit control, or the
/// dedicated submit key from anywhere.
pub open spec fn is_submit_trigger(ev: FormEvent, focus: FormFocus) -> bool {
    ||| (ev is MouseLeftPress || ev is Enter) && focus is SubmitControl
    ||| ev is SubmitKey
}

/// Whether `w` is a freshly built widget of `f`: pre-populated with the
/// declared initial raw value, carrying no annotation.
pub open spec fn fresh_widget(f: Field, w: Widget) -> bool {
    &&& w.error@ == Seq::<char>::empty()
    &&& match f.spec_initial() {
        Option::Some(s) => w.text@ == s,
        Option::None => w.text@ == Seq::<char>::empty(),
    }
}

} // verus!

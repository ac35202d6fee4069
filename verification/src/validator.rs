//! Composable checks against a field's raw textual input.

use crate::value::Value;
use vstd::prelude::*;
use vstd::string::StringExecFns;

verus! {

/// The view of an optional borrowed raw input.
pub open spec fn raw_view(raw: Option<&str>) -> Option<Seq<char>> {
    match raw {
        Option::Some(s) => Option::Some(s@),
        Option::None => Option::None,
    }
}

/// The view of an optional owned raw input.
pub open spec fn opt_string_view(raw: Option<String>) -> Option<Seq<char>> {
    match raw {
        Option::Some(s) => Option::Some(s@),
        Option::None => Option::None,
    }
}

/// The characters of `opts` joined by `sep`, in order.
pub open spec fn spec_join(opts: Seq<String>, sep: Seq<char>) -> Seq<char>
    decreases opts.len(),
{
    if opts.len() == 0 {
        Seq::empty()
    } else if opts.len() == 1 {
        opts[0]@
    } else {
        spec_join(opts.drop_last(), sep) + sep + opts.last()@
    }
}

/// A check against a field's raw input. Validators inspect the raw text and
/// either accept it unchanged or reject it with a human-readable message;
/// they never transform it.
#[derive(Clone, Debug, PartialEq, Eq)]
pub enum Validator {
    /// Rejects absent and empty input.
    Required,
    /// Rejects present input that is not a member of the allowed set.
    /// Absent input is left for `Required` to rule on.
    OneOf(Vec<String>),
}

impl Validator {
    /// Whether this validator accepts the given raw input.
    pub open spec fn spec_accepts(&self, raw: Option<Seq<char>>) -> bool {
        match self {
            Validator::Required => raw matches Option::Some(s) && s.len() > 0,
            Validator::OneOf(opts) => match raw {
                Option::None => true,
                Option::Some(s) => exists|j: int| 0 <= j < opts@.len() && opts@[j]@ == s,
            },
        }
    }

    /// The message this validator reports when it rejects an input.
    pub open spec fn spec_message(&self) -> Seq<char> {
        match self {
            Validator::Required => "Field is required"@,
            Validator::OneOf(opts) => "Value must be one of: "@ + spec_join(opts@, ", "@),
        }
    }

    /// Runs this validator on a raw input: the raw text is passed through
    /// unchanged on acceptance, and the first person to reject wins.
    pub fn validate(&self, raw: Option<&str>) -> (r: Result<Option<String>, String>)
        ensures
            r is Ok <==> self.spec_accepts(raw_view(raw)),
            r matches Ok(p) ==> opt_string_view(p) == raw_view(raw),
            r matches Err(m) ==> m@ == self.spec_message(),
    {
        match self {
            Validator::Required => match raw {
                Option::None => Err("Field is required".to_owned()),
                Option::Some(s) => {
                    if s.is_empty() {
                        Err("Field is required".to_owned())
                    } else {
                        Ok(Some(s.to_owned()))
                    }
                },
            },
            Validator::OneOf(opts) => match raw {
                Option::None => Ok(None),
                Option::Some(s) => {
                    if contains_string(opts, s) {
                        Ok(Some(s.to_owned()))
                    } else {
                        Err(one_of_message(opts))
                    }
                },
            },
        }
    }
}

/// Whether every validator of the chain `vs` accepts the raw input: the
/// composition rule. Each validator receives the original raw input; the
/// chain accepts exactly when all of its members do.
pub open spec fn all_accept(vs: Seq<Validator>, raw: Option<Seq<char>>) -> bool {
    forall|j: int| 0 <= j < vs.len() ==> (#[trigger] vs[j]).spec_accepts(raw)
}

/// The message of the first validator in `vs` that rejects the raw input;
/// meaningful only when some member rejects.
pub open spec fn first_message(vs: Seq<Validator>, raw: Option<Seq<char>>) -> Seq<char>
    decreases vs.len(),
{
    if vs.len() == 0 {
        Seq::empty()
    } else if !vs[0].spec_accepts(raw) {
        vs[0].spec_message()
    } else {
        first_message(vs.drop_first(), raw)
    }
}

/// When every validator up to position `i` accepts and the one at `i`
/// rejects, the chain's error is that validator's message.
pub proof fn lemma_first_message(vs: Seq<Validator>, raw: Option<Seq<char>>, i: int)
    requires
        0 <= i < vs.len(),
        forall|j: int| 0 <= j < i ==> (#[trigger] vs[j]).spec_accepts(raw),
        !vs[i].spec_accepts(raw),
    ensures
        first_message(vs, raw) == vs[i].spec_message(),
    decreases i,
{
    if i > 0 {
        assert(vs[0].spec_accepts(raw));
        let rest = vs.drop_first();
        assert forall|j: int| 0 <= j < i - 1 implies (#[trigger] rest[j]).spec_accepts(raw) by {
            assert(rest[j] == vs[j + 1]);
        }
        assert(rest[i - 1] == vs[i]);
        lemma_first_message(rest, raw, i - 1);
    }
}

/// Whether `v` is the terminal coercion of the raw input that survived a
/// field's validator chain: absent or empty input becomes `Null`, any other
/// text becomes the string variant holding it unchanged.
pub open spec fn is_coerced(v: Value, raw: Option<Seq<char>>) -> bool {
    match raw {
        Option::None => v is Null,
        Option::Some(s) => if s.len() == 0 {
            v is Null
        } else {
            v.is_str_of(s)
        },
    }
}

/// Whether `s` occurs among `opts`.
pub fn contains_string(opts: &Vec<String>, s: &str) -> (b: bool)
    ensures
        b == exists|j: int| 0 <= j < opts@.len() && opts@[j]@ == s@,
{
    let sv = s.to_owned();
    let n = opts.len();
    let mut i: usize = 0;
    while i < n
        invariant
            n == opts@.len(),
            i <= n,
            sv@ == s@,
            forall|j: int| 0 <= j < i ==> opts@[j]@ != s@,
        decreases n - i,
    {
        if opts[i] == sv {
            proof {
                assert(opts@[i as int]@ == s@);
            }
            return true;
        }
        i = i + 1;
    }
    false
}

/// Builds the rejection message of a `OneOf` validator, naming every member
/// of the allowed set in order.
pub fn one_of_message(opts: &Vec<String>) -> (m: String)
    ensures
        m@ == "Value must be one of: "@ + spec_join(opts@, ", "@),
{
    let mut m = "Value must be one of: ".to_owned();
    proof {
        assert(m@ =~= "Value must be one of: "@ + spec_join(opts@.take(0), ", "@));
    }
    let n = opts.len();
    let mut i: usize = 0;
    while i < n
        invariant
            n == opts@.len(),
            i <= n,
            m@ == "Value must be one of: "@ + spec_join(opts@.take(i as int), ", "@),
        decreases n - i,
    {
        if i > 0 {
            m.append(", ");
        }
        m.append(opts[i].as_str());
        proof {
            let pre = opts@.take(i as int);
            let post = opts@.take(i as int + 1);
            assert(post.drop_last() =~= pre);
            assert(post.last() == opts@[i as int]);
            if i == 0 {
                assert(m@ =~= "Value must be one of: "@ + spec_join(post, ", "@));
            } else {
                assert(spec_join(post, ", "@) == spec_join(pre, ", "@) + ", "@ + opts@[i as int]@);
                assert(m@ =~= "Value must be one of: "@ + spec_join(post, ", "@));
            }
        }
        i = i + 1;
    }
    proof {
        assert(opts@.take(n as int) =~= opts@);
    }
    m
}

} // verus!

//! Field-level validation errors and the text that reports them.

use vstd::prelude::*;
use crate::text::{concat_str, debug_quoted, debug_string};

verus! {

broadcast use vstd::string::group_string_axioms;

/// A parameter of a validation error: its name and its value as text.
pub type ParamView = (Seq<char>, Seq<char>);

/// A failed check: the field, the code of the check, and its parameters.
pub type FieldErrorView = (Seq<char>, Seq<char>, Seq<ParamView>);

/// A parameter of a validation error. `value` holds the value as the JSON
/// value that it would serialize to, in Rust's `Debug` notation.
#[derive(Debug)]
pub struct Param {
    pub name: String,
    pub value: String,
}

/// The failure of one check on one field.
#[derive(Debug)]
pub struct FieldError {
    pub field: String,
    pub code: String,
    pub params: Vec<Param>,
}

/// The failed checks of a request, in the order of the request's fields.
#[derive(Debug)]
pub struct ValidationErrors {
    pub errors: Vec<FieldError>,
}

impl View for Param {
    type V = ParamView;

    open spec fn view(&self) -> ParamView {
        (self.name@, self.value@)
    }
}

impl View for FieldError {
    type V = FieldErrorView;

    open spec fn view(&self) -> FieldErrorView {
        (self.field@, self.code@, self.params@.map_values(|p: Param| p@))
    }
}

impl View for ValidationErrors {
    type V = Seq<FieldErrorView>;

    open spec fn view(&self) -> Seq<FieldErrorView> {
        self.errors@.map_values(|f: FieldError| f@)
    }
}

/// A string value in the notation of `value`.
pub open spec fn string_value(s: Seq<char>) -> Seq<char> {
    "String("@ + debug_quoted(s) + ")"@
}

/// The parameter that records the value that was checked.
pub open spec fn value_param(s: Seq<char>) -> ParamView {
    ("value"@, string_value(s))
}

/// The parameters of a failed check, as `{"name": value, ...}`.
pub open spec fn params_text(ps: Seq<ParamView>) -> Seq<char>
    decreases ps.len(),
{
    if ps.len() == 0 {
        Seq::empty()
    } else if ps.len() == 1 {
        debug_quoted(ps[0].0) + ": "@ + ps[0].1
    } else {
        params_text(ps.drop_last()) + ", "@ + debug_quoted(ps.last().0) + ": "@ + ps.last().1
    }
}

/// The line that reports one failed check.
pub open spec fn field_error_text(e: FieldErrorView) -> Seq<char> {
    e.0 + ": Validation error: "@ + e.1 + " [{"@ + params_text(e.2) + "}]"@
}

/// The report of all failed checks, one line each.
pub open spec fn errors_text(es: Seq<FieldErrorView>) -> Seq<char>
    decreases es.len(),
{
    if es.len() == 0 {
        Seq::empty()
    } else if es.len() == 1 {
        field_error_text(es[0])
    } else {
        errors_text(es.drop_last()) + "\n"@ + field_error_text(es.last())
    }
}

/// A string value in the notation of `Param::value`.
pub fn string_value_text(s: &str) -> (r: String)
    ensures
        r@ == string_value(s@),
{
    let mut r = concat_str("String(", debug_string(s).as_str());
    r.append(")");
    r
}

/// The parameter that records the checked value `s`.
pub fn value_param_of(s: &str) -> (r: Param)
    ensures
        r@ == value_param(s@),
{
    Param { name: "value".to_string(), value: string_value_text(s) }
}

impl FieldError {
    /// The line that reports this failed check.
    pub fn text(&self) -> (r: String)
        ensures
            r@ == field_error_text(self@),
    {
        let ghost ps = self.params@.map_values(|p: Param| p@);
        let mut r = concat_str(self.field.as_str(), ": Validation error: ");
        r.append(self.code.as_str());
        r.append(" [{");
        let ghost head = r@;
        let mut i: usize = 0;
        while i < self.params.len()
            invariant
                i <= self.params@.len(),
                ps == self.params@.map_values(|p: Param| p@),
                r@ == head + params_text(ps.take(i as int)),
            decreases self.params@.len() - i,
        {
            assert(ps.take(i as int + 1).drop_last() =~= ps.take(i as int));
            assert(ps.take(i as int + 1).last() == ps[i as int]);
            if i > 0 {
                r.append(", ");
            }
            let q = debug_string(self.params[i].name.as_str());
            r.append(q.as_str());
            r.append(": ");
            r.append(self.params[i].value.as_str());
            if i == 0 {
                assert(ps.take(1)[0] == ps[0]);
                assert(r@ =~= head + params_text(ps.take(1)));
            } else {
                assert(r@ =~= head + params_text(ps.take(i as int + 1)));
            }
            i += 1;
        }
        assert(ps.take(self.params@.len() as int) =~= ps);
        r.append("}]");
        assert(r@ =~= field_error_text(self@));
        r
    }
}

impl ValidationErrors {
    /// The report of all failed checks, one line each.
    pub fn message(&self) -> (r: String)
        ensures
            r@ == errors_text(self@),
    {
        let ghost es = self@;
        let mut r = String::new();
        let mut i: usize = 0;
        while i < self.errors.len()
            invariant
                i <= self.errors@.len(),
                es == self.errors@.map_values(|f: FieldError| f@),
                r@ == errors_text(es.take(i as int)),
            decreases self.errors@.len() - i,
        {
            assert(es.take(i as int + 1).drop_last() =~= es.take(i as int));
            assert(es.take(i as int + 1).last() == es[i as int]);
            if i > 0 {
                r.append("\n");
            }
            let line = self.errors[i].text();
            r.append(line.as_str());
            if i == 0 {
                assert(es.take(1)[0] == es[0]);
                assert(r@ =~= errors_text(es.take(1)));
            } else {
                assert(r@ =~= errors_text(es.take(i as int + 1)));
            }
            i += 1;
        }
        assert(es.take(self.errors@.len() as int) =~= es);
        r
    }
}

} // verus!

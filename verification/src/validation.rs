//! Field rules on text, counted in characters, and the report of the fields
//! that broke them.

use vstd::prelude::*;

verus! {

/// One broken rule. Every rule here bounds the length of a text in
/// characters: `min` and `max` are the bounds the rule sets (none where it
/// sets none), and `message` is the text the rule carries, if any.
#[derive(Clone, Debug, PartialEq, Eq)]
pub struct FieldError {
    pub field: &'static str,
    pub message: Option<&'static str>,
    pub min: Option<usize>,
    pub max: Option<usize>,
}

/// A broken rule as the contracts speak of it: the field's name, the rule's
/// message, and its lower and upper bound.
pub type FailureView = (Seq<char>, Option<Seq<char>>, Option<usize>, Option<usize>);

/// The characters of an optional static text.
pub open spec fn opt_str(o: Option<&'static str>) -> Option<Seq<char>> {
    match o {
        Some(s) => Some(s@),
        None => None,
    }
}

/// A broken rule taken by its characters.
pub open spec fn failure_view(e: FieldError) -> FailureView {
    (e.field@, opt_str(e.message), e.min, e.max)
}

/// A list of broken rules taken by their characters.
pub open spec fn failures_view(errs: Seq<FieldError>) -> Seq<FailureView> {
    errs.map_values(|e: FieldError| failure_view(e))
}

/// The rules that were broken, listed in the order in which the fields are
/// declared.
#[derive(Clone, Debug, PartialEq, Eq)]
pub struct ValidationErrors {
    pub fields: Vec<FieldError>,
}

/// The outcome of a validated operation.
pub type ValidationResult<T> = Result<T, ValidationErrors>;

impl ValidationErrors {
    /// The broken rules, by their characters.
    pub open spec fn failures(self) -> Seq<FailureView> {
        failures_view(self.fields@)
    }
}

/// A validation outcome agrees with the list of broken rules: success when
/// the list is empty, else an error that lists exactly those rules.
pub open spec fn reports<T>(r: Result<T, ValidationErrors>, failures: Seq<FailureView>) -> bool {
    match r {
        Ok(_) => failures.len() == 0,
        Err(e) => e.failures() == failures && failures.len() > 0,
    }
}

/// The characters of an optional text.
pub open spec fn opt_text(o: Option<String>) -> Option<Seq<char>> {
    match o {
        Some(s) => Some(s@),
        None => None,
    }
}

/// A text has at least `min` characters and, where `max` is given, at most
/// `max` of them.
pub open spec fn length_ok(s: Seq<char>, min: nat, max: Option<nat>) -> bool {
    &&& min <= s.len()
    &&& match max {
        Some(m) => s.len() <= m,
        None => true,
    }
}

/// An absent text passes any length rule.
pub open spec fn opt_length_ok(s: Option<Seq<char>>, min: nat, max: Option<nat>) -> bool {
    match s {
        Some(t) => length_ok(t, min, max),
        None => true,
    }
}

/// The lower bound a rule sets: none where the least length is zero.
pub open spec fn lower_bound(min: usize) -> Option<usize> {
    if min == 0 {
        None
    } else {
        Some(min)
    }
}

/// An upper bound as a length.
pub open spec fn opt_nat(max: Option<usize>) -> Option<nat> {
    match max {
        Some(m) => Some(m as nat),
        None => None,
    }
}

/// The report entry of a length rule on a text: nothing where the rule
/// holds, the broken rule where it does not.
pub open spec fn length_failure(
    s: Seq<char>,
    min: usize,
    max: Option<usize>,
    name: Seq<char>,
    message: Option<Seq<char>>,
) -> Seq<FailureView> {
    if length_ok(s, min as nat, opt_nat(max)) {
        Seq::empty()
    } else {
        seq![(name, message, lower_bound(min), max)]
    }
}

/// The report entry of a length rule on an optional text; an absent text
/// passes.
pub open spec fn opt_length_failure(
    s: Option<Seq<char>>,
    min: usize,
    max: Option<usize>,
    name: Seq<char>,
    message: Option<Seq<char>>,
) -> Seq<FailureView> {
    match s {
        Some(t) => length_failure(t, min, max, name, message),
        None => Seq::empty(),
    }
}

/// Checks the length rule on a text.
pub fn check_length(s: &str, min: usize, max: Option<usize>) -> (ok: bool)
    ensures
        ok == length_ok(s@, min as nat, match max {
            Some(m) => Some(m as nat),
            None => None,
        }),
{
    let n = s.unicode_len();
    if n < min {
        return false;
    }
    match max {
        Some(m) => n <= m,
        None => true,
    }
}

/// Checks the length rule on an optional text; an absent one passes.
pub fn check_opt_length(s: &Option<String>, min: usize, max: Option<usize>) -> (ok: bool)
    ensures
        ok == opt_length_ok(opt_text(*s), min as nat, match max {
            Some(m) => Some(m as nat),
            None => None,
        }),
{
    match s {
        Some(t) => check_length(t.as_str(), min, max),
        None => true,
    }
}

/// Checks the length rule on the text of field `field` and appends the
/// broken rule to the report when it does not hold.
pub(crate) fn check_field(
    errs: &mut Vec<FieldError>,
    s: &str,
    min: usize,
    max: Option<usize>,
    field: &'static str,
    message: Option<&'static str>,
)
    ensures
        failures_view(final(errs)@) == failures_view(old(errs)@) + length_failure(s@, min, max, field@, opt_str(message)),
{
    let ok = check_length(s, min, max);
    record(errs, ok, field, message, min, max);
}

/// Checks the length rule on the optional text of field `field` and appends
/// the broken rule to the report when it does not hold.
pub(crate) fn check_opt_field(
    errs: &mut Vec<FieldError>,
    s: &Option<String>,
    min: usize,
    max: Option<usize>,
    field: &'static str,
    message: Option<&'static str>,
)
    ensures
        failures_view(final(errs)@) == failures_view(old(errs)@) + opt_length_failure(opt_text(*s), min, max, field@, opt_str(message)),
{
    let ok = check_opt_length(s, min, max);
    record(errs, ok, field, message, min, max);
}

/// Appends the broken rule to the report when `ok` is false.
fn record(
    errs: &mut Vec<FieldError>,
    ok: bool,
    field: &'static str,
    message: Option<&'static str>,
    min: usize,
    max: Option<usize>,
)
    ensures
        failures_view(final(errs)@) == failures_view(old(errs)@) + (if ok {
            Seq::<FailureView>::empty()
        } else {
            seq![(field@, opt_str(message), lower_bound(min), max)]
        }),
{
    let ghost before = errs@;
    if !ok {
        let lower = if min == 0 {
            None
        } else {
            Some(min)
        };
        let e = FieldError { field, message, min: lower, max };
        errs.push(e);
        assert(failures_view(errs@) =~= failures_view(before) + seq![failure_view(e)]);
    } else {
        assert(failures_view(errs@) =~= failures_view(before) + Seq::<FailureView>::empty());
    }
}

/// Turns a finished report into the result of a validation: success when no
/// rule was broken.
pub(crate) fn finish(errs: Vec<FieldError>) -> (r: Result<(), ValidationErrors>)
    ensures
        reports(r, failures_view(errs@)),
{
    if errs.len() == 0 {
        Ok(())
    } else {
        Err(ValidationErrors { fields: errs })
    }
}

} // verus!

//! Checks on the text fields of requests.
use vstd::prelude::*;

verus! {

/// The request field that a check is about.
#[derive(Clone, Copy, Debug, PartialEq, Eq, Structural)]
pub enum Field {
    Email,
    Token,
    Username,
    Password,
}

/// What a field must satisfy.
#[derive(Clone, Copy, Debug, PartialEq, Eq, Structural)]
pub enum Rule {
    /// An email address by the HTML5 definition.
    Email,
    /// Between `min` and `max` characters, both included.
    Length { min: u64, max: u64 },
}

/// A field whose value breaks a rule.
#[derive(Clone, Debug, PartialEq, Eq)]
pub struct FieldViolation {
    pub field: Field,
    pub rule: Rule,
    pub value: String,
}

impl View for FieldViolation {
    type V = (Field, Rule, Seq<char>);

    open spec fn view(&self) -> (Field, Rule, Seq<char>) {
        (self.field, self.rule, self.value@)
    }
}

/// The rules that a request breaks, in the order of its fields.
#[derive(Clone, Debug, PartialEq, Eq)]
pub struct RequestInvalidity {
    pub violations: Vec<FieldViolation>,
}

pub open spec fn violation_views(s: Seq<FieldViolation>) -> Seq<(Field, Rule, Seq<char>)> {
    s.map_values(|v: FieldViolation| v@)
}

impl View for RequestInvalidity {
    type V = Seq<(Field, Rule, Seq<char>)>;

    open spec fn view(&self) -> Seq<(Field, Rule, Seq<char>)> {
        violation_views(self.violations@)
    }
}

/// Whether a text is an email address as `validator::ValidateEmail` decides
/// it: the HTML5 address grammar, with a local part of at most 64 and a
/// domain of at most 255 characters, the domain also as an IP literal or an
/// internationalized name.
pub uninterp spec fn is_email_address(text: Seq<char>) -> bool;

/// Whether a text satisfies a rule.
pub open spec fn satisfies(rule: Rule, text: Seq<char>) -> bool {
    match rule {
        Rule::Email => is_email_address(text),
        Rule::Length { min, max } => min <= text.len() <= max,
    }
}

/// Whether a text is refused as an email address on sight: it is empty or
/// has no `@`.
pub open spec fn lacks_email_shape(text: Seq<char>) -> bool {
    text.len() == 0 || !text.contains('@')
}

/// The violation a field's value makes of a rule: none, or one.
pub open spec fn check(field: Field, rule: Rule, text: Seq<char>) -> Seq<(Field, Rule, Seq<char>)> {
    if satisfies(rule, text) {
        Seq::empty()
    } else {
        seq![(field, rule, text)]
    }
}

/// `validator::ValidateEmail::validate_email` on a text. The result is named
/// `is_email_address`; as the source shows, an empty text or one without `@`
/// is refused.
#[verifier::external_body]
fn validate_email_text(text: &str) -> (valid: bool)
    ensures
        valid == is_email_address(text@),
        lacks_email_shape(text@) ==> !valid,
{
    validator::ValidateEmail::validate_email(&text)
}

/// `validator::ValidateLength::validate_length` on a text with a minimum and
/// a maximum and no exact length: the source counts the text's characters
/// and accepts a count within both bounds.
#[verifier::external_body]
fn validate_length_text(text: &str, min: u64, max: u64) -> (valid: bool)
    ensures
        valid == (min <= text@.len() <= max),
{
    validator::ValidateLength::<u64>::validate_length(text, Some(min), Some(max), None)
}

/// Checks one field, adding its violation, if any, to `violations`.
pub fn check_field(field: Field, rule: Rule, text: &str, violations: &mut Vec<FieldViolation>)
    ensures
        violation_views(final(violations)@) == violation_views(old(violations)@) + check(
            field,
            rule,
            text@,
        ),
        rule == Rule::Email && lacks_email_shape(text@) ==> !satisfies(rule, text@),
{
    let valid = match rule {
        Rule::Email => validate_email_text(text),
        Rule::Length { min, max } => validate_length_text(text, min, max),
    };
    if !valid {
        let ghost before = violations@;
        violations.push(FieldViolation { field, rule, value: text.to_owned() });
        assert(violation_views(violations@) =~= violation_views(before) + check(field, rule, text@));
    } else {
        assert(check(field, rule, text@) =~= Seq::empty());
        assert(violation_views(violations@) =~= violation_views(violations@) + check(
            field,
            rule,
            text@,
        ));
    }
}

/// The result of a request's checks: `Ok` when nothing was violated.
pub fn into_validation_result(violations: Vec<FieldViolation>) -> (r: Result<(), RequestInvalidity>)
    ensures
        r is Ok <==> violations@.len() == 0,
        r matches Err(inv) ==> inv.violations@ == violations@,
{
    if violations.len() == 0 {
        Ok(())
    } else {
        Err(RequestInvalidity { violations })
    }
}

} // verus!

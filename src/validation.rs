use vstd::prelude::*;
use email_address::EmailAddress;
use crate::api_error::{ApiError, ApiErrorTypeView, fresh_error};
use crate::date_range::DateRange;
use crate::text::{decimal, decimal_string, grapheme_count, push_decimal, str_len};

verus! {

/// Bounds on a length.
#[derive(Debug, Clone, Copy, Default, PartialEq, Eq, Structural)]
pub struct Length {
    pub min: usize,
    pub max: usize,
}

/// A failed rule: the field it was about and why.
#[derive(Debug, Clone, Default)]
pub struct ValidationResponse {
    pub field: String,
    pub message: String,
}

impl View for ValidationResponse {
    type V = (Seq<char>, Seq<char>);

    open spec fn view(&self) -> (Seq<char>, Seq<char>) {
        (self.field@, self.message@)
    }
}

/// A rule to check.
#[derive(Debug, Clone)]
pub enum ValidationType {
    /// No rule: always passes.
    NoCheck,
    /// A string whose grapheme count must lie in `min..=max`.
    StringLength(String, usize, usize),
    /// A range that must be ordered and must not start in the past.
    DateRange(DateRange),
    /// A string that must be an e-mail address.
    Email(String),
    /// A count that must lie in `min..=max`.
    Count(usize, usize, usize),
}

/// Rust's debug notation of a string: quoted, with escapes.
pub uninterp spec fn debug_of(s: Seq<char>) -> Seq<char>;

/// Relies on the `Debug` formatting of `str`.
#[verifier::external_body]
pub(crate) fn debug_text(s: &str) -> (r: String)
    ensures
        r@ == debug_of(s@),
{
    format!("{:?}", s)
}

/// Text form of a rule.
pub open spec fn rule_text(t: ValidationType) -> Seq<char> {
    match t {
        ValidationType::NoCheck => "None"@,
        ValidationType::StringLength(v, min, max) => "StringLength - value: "@ + v@ + ", min: "@
            + decimal(min as nat) + ", max: "@ + decimal(max as nat),
        ValidationType::DateRange(d) => "DateRange - DateRange { start_date: "@ + decimal(d.start_date as nat)
            + ", end_date: "@ + decimal(d.end_date as nat) + " }"@,
        ValidationType::Email(v) => "Email - "@ + debug_of(v@),
        ValidationType::Count(v, min, max) => "Count - value: "@ + decimal(v as nat) + ", min: "@
            + decimal(min as nat) + ", max: "@ + decimal(max as nat),
    }
}

impl ValidationType {
    /// Text form (`Count - value: 3, min: 1, max: 5`, ...).
    pub fn to_text(&self) -> (r: String)
        ensures
            r@ == rule_text(*self),
    {
        match self {
            ValidationType::NoCheck => String::from_str("None"),
            ValidationType::StringLength(v, min, max) => {
                let mut s = String::from_str("StringLength - value: ");
                s.append(v.as_str());
                s.append(", min: ");
                push_decimal(&mut s, *min as u64);
                s.append(", max: ");
                push_decimal(&mut s, *max as u64);
                s
            },
            ValidationType::DateRange(d) => {
                let mut s = String::from_str("DateRange - DateRange { start_date: ");
                push_decimal(&mut s, d.start_date);
                s.append(", end_date: ");
                push_decimal(&mut s, d.end_date);
                s.append(" }");
                s
            },
            ValidationType::Email(v) => {
                let mut s = String::from_str("Email - ");
                s.append(debug_text(v.as_str()).as_str());
                s
            },
            ValidationType::Count(v, min, max) => {
                let mut s = String::from_str("Count - value: ");
                push_decimal(&mut s, *v as u64);
                s.append(", min: ");
                push_decimal(&mut s, *min as u64);
                s.append(", max: ");
                push_decimal(&mut s, *max as u64);
                s
            },
        }
    }
}

/// A rule together with the name of the field it checks.
#[derive(Debug, Clone)]
pub struct ValidateField(pub ValidationType, pub String);

impl Default for ValidationType {
    fn default() -> (r: Self)
        ensures
            r is NoCheck,
    {
        ValidationType::NoCheck
    }
}

impl Default for ValidateField {
    fn default() -> (r: Self)
        ensures
            r.0 is NoCheck,
            r.1@ == Seq::<char>::empty(),
    {
        ValidateField(ValidationType::NoCheck, String::new())
    }
}

/// What is wrong with an e-mail address, as its parser words it; `None` for
/// a valid address.
pub uninterp spec fn email_problem(s: Seq<char>) -> Option<Seq<char>>;

/// Relies on `EmailAddress::from_str`, and on the `Display` of its error for
/// the wording.
#[verifier::external_body]
fn check_email(value: &str) -> (r: Option<String>)
    ensures
        r is None <==> email_problem(value@) is None,
        r matches Some(m) ==> email_problem(value@) == Some(m@),
{
    <EmailAddress as std::str::FromStr>::from_str(value).err().map(|e| e.to_string())
}

/// Relies on `ic_cdk::api::time`: the host's clock in nanoseconds. Nothing is
/// known of the value.
#[verifier::external_body]
fn host_time() -> (r: u64) {
    ic_cdk::api::time()
}

/// Message for a length or count outside `min..=max`, if it is.
pub open spec fn bounds_message(n: int, min: usize, max: usize, low: Seq<char>, high: Seq<char>) -> Option<Seq<char>> {
    if n < min {
        Some(low + decimal(min as nat))
    } else if n > max {
        Some(high + decimal(max as nat))
    } else {
        None
    }
}

/// Message for a rule that fails at time `now`, if it does.
pub open spec fn rule_message(t: ValidationType, now: u64) -> Option<Seq<char>> {
    match t {
        ValidationType::NoCheck => None,
        ValidationType::StringLength(v, min, max) => bounds_message(
            grapheme_count(v@) as int, min, max,
            "Minimum required length is "@, "Maximum length is "@,
        ),
        ValidationType::DateRange(d) => if d.start_date > d.end_date {
            Some("The start_date is after the end_date"@)
        } else if d.start_date < now {
            Some("The start_date can't be in the past"@)
        } else {
            None
        },
        ValidationType::Email(v) => email_problem(v@),
        ValidationType::Count(v, min, max) => bounds_message(
            v as int, min, max,
            "Minimum size length is "@, "Maximum size is "@,
        ),
    }
}

/// The (field, message) pairs of the failing rules, in order.
pub open spec fn failures(fields: Seq<ValidateField>, now: u64) -> Seq<(Seq<char>, Seq<char>)>
    decreases fields.len(),
{
    if fields.len() == 0 {
        Seq::empty()
    } else {
        let rest = failures(fields.drop_last(), now);
        let f = fields.last();
        match rule_message(f.0, now) {
            Some(m) => rest.push((f.1@, m)),
            None => rest,
        }
    }
}

/// `r` reports exactly the failures `fs`: success when there are none,
/// otherwise one validation error that lists them all.
pub open spec fn reports(r: Result<(), ApiError>, fs: Seq<(Seq<char>, Seq<char>)>) -> bool {
    if fs.len() == 0 {
        r is Ok
    } else {
        r matches Err(e) && e@ == fresh_error(ApiErrorTypeView::ValidationError(fs), Seq::empty())
    }
}

/// Some rule reads the clock.
pub open spec fn reads_clock(fields: Seq<ValidateField>) -> bool {
    exists|i: int| 0 <= i < fields.len() && fields[i].0 is DateRange
}

/// A rule set that checks every rule and reports all failures at once.
pub struct Validator {
    fields: Vec<ValidateField>,
}

impl View for Validator {
    type V = Seq<ValidateField>;

    closed spec fn view(&self) -> Seq<ValidateField> {
        self.fields@
    }
}

proof fn lemma_failures_ignore_clock(fields: Seq<ValidateField>, now: u64)
    requires
        !reads_clock(fields),
    ensures
        failures(fields, now) == failures(fields, 0),
    decreases fields.len(),
{
    if fields.len() > 0 {
        assert(!reads_clock(fields.drop_last())) by {
            if reads_clock(fields.drop_last()) {
                let i = choose|i: int| 0 <= i < fields.drop_last().len() && fields.drop_last()[i].0 is DateRange;
                assert(fields[i] == fields.drop_last()[i]);
            }
        }
        lemma_failures_ignore_clock(fields.drop_last(), now);
        assert(!(fields[fields.len() - 1].0 is DateRange));
    }
}

impl Validator {
    pub fn new(fields: Vec<ValidateField>) -> (r: Self)
        ensures
            r@ == fields@,
    {
        Validator { fields }
    }

    /// Checks every rule against the host clock; a rule set without date
    /// ranges does not read the clock.
    pub fn validate(&self) -> (r: Result<(), ApiError>)
        ensures
            exists|now: u64| reports(r, failures(self@, now)),
            !reads_clock(self@) ==> reports(r, failures(self@, 0)),
    {
        let mut clock = false;
        let mut i: usize = 0;
        while i < self.fields.len()
            invariant
                i <= self@.len(),
                self@ == self.fields@,
                clock <==> exists|j: int| 0 <= j < i && self@[j].0 is DateRange,
            decreases self@.len() - i,
        {
            if let ValidationType::DateRange(_) = &self.fields[i].0 {
                clock = true;
            }
            i = i + 1;
        }
        let now = if clock { host_time() } else { 0 };
        let r = self.validate_at(now);
        proof {
            if !reads_clock(self@) {
                lemma_failures_ignore_clock(self@, now);
            }
        }
        r
    }

    /// Checks every rule, taking `now` as the current time.
    pub fn validate_at(&self, now: u64) -> (r: Result<(), ApiError>)
        ensures
            reports(r, failures(self@, now)),
    {
        let mut errors: Vec<ValidationResponse> = Vec::new();
        let mut i: usize = 0;
        while i < self.fields.len()
            invariant
                i <= self@.len(),
                self@ == self.fields@,
                errors@.map_values(|v: ValidationResponse| v@) == failures(self@.subrange(0, i as int), now),
            decreases self@.len() - i,
        {
            let outcome = Self::validate_field(&self.fields[i], now);
            proof {
                let pre = self@.subrange(0, i as int + 1);
                assert(pre.drop_last() =~= self@.subrange(0, i as int));
                assert(pre.last() == self@[i as int]);
            }
            match outcome {
                Err(e) => {
                    errors.push(e);
                    proof {
                        assert(errors@.map_values(|v: ValidationResponse| v@)
                            =~= failures(self@.subrange(0, i as int + 1), now));
                    }
                },
                Ok(()) => {},
            }
            i = i + 1;
        }
        proof {
            assert(self@.subrange(0, self@.len() as int) =~= self@);
        }
        if errors.len() > 0 {
            return Err(ApiError::validation_response(errors));
        }
        Ok(())
    }

    /// Checks one rule at time `now`.
    pub fn validate_field(validation_field: &ValidateField, now: u64) -> (r: Result<(), ValidationResponse>)
        ensures
            rule_message(validation_field.0, now) is None <==> r is Ok,
            r matches Err(e) ==> e@ == (validation_field.1@, rule_message(validation_field.0, now)->Some_0),
    {
        let field = &validation_field.1;
        match &validation_field.0 {
            ValidationType::NoCheck => Ok(()),
            ValidationType::StringLength(value, min, max) => Self::validate_string_length(value.as_str(), *min, *max, field),
            ValidationType::DateRange(value) => Self::validate_date_range(value, now, field),
            ValidationType::Email(value) => Self::validate_email(value.as_str(), field),
            ValidationType::Count(value, min, max) => Self::validate_count(*value, *min, *max, field),
        }
    }

    /// Grapheme count of `value` within `min..=max`.
    pub fn validate_string_length(value: &str, min: usize, max: usize, field: &String) -> (r: Result<(), ValidationResponse>)
        ensures
            bounds_message(grapheme_count(value@) as int, min, max, "Minimum required length is "@, "Maximum length is "@) is None <==> r is Ok,
            r matches Err(e) ==> e@ == (field@, bounds_message(grapheme_count(value@) as int, min, max, "Minimum required length is "@, "Maximum length is "@)->Some_0),
    {
        let len = str_len(value);
        Self::length_response(len, min, max, "Minimum required length is ", "Maximum length is ", field)
    }

    /// `value` within `min..=max`.
    pub fn validate_count(value: usize, min: usize, max: usize, field: &String) -> (r: Result<(), ValidationResponse>)
        ensures
            bounds_message(value as int, min, max, "Minimum size length is "@, "Maximum size is "@) is None <==> r is Ok,
            r matches Err(e) ==> e@ == (field@, bounds_message(value as int, min, max, "Minimum size length is "@, "Maximum size is "@)->Some_0),
    {
        Self::length_response(value, min, max, "Minimum size length is ", "Maximum size is ", field)
    }

    fn length_response(n: usize, min: usize, max: usize, low: &str, high: &str, field: &String) -> (r: Result<(), ValidationResponse>)
        ensures
            bounds_message(n as int, min, max, low@, high@) is None <==> r is Ok,
            r matches Err(e) ==> e@ == (field@, bounds_message(n as int, min, max, low@, high@)->Some_0),
    {
        if n < min {
            let mut message = String::from_str(low);
            message.append(decimal_string(min as u64).as_str());
            return Err(ValidationResponse { field: field.clone(), message });
        }
        if n > max {
            let mut message = String::from_str(high);
            message.append(decimal_string(max as u64).as_str());
            return Err(ValidationResponse { field: field.clone(), message });
        }
        Ok(())
    }

    /// `value` parses as an e-mail address.
    pub fn validate_email(value: &str, field: &String) -> (r: Result<(), ValidationResponse>)
        ensures
            email_problem(value@) is None <==> r is Ok,
            r matches Err(e) ==> e@ == (field@, email_problem(value@)->Some_0),
    {
        let problem = check_email(value);
        Self::email_response(problem, field)
    }

    /// The outcome of an e-mail rule, given what the parser found wrong, if anything.
    pub fn email_response(problem: Option<String>, field: &String) -> (r: Result<(), ValidationResponse>)
        ensures
            problem is None <==> r is Ok,
            r matches Err(e) ==> problem matches Some(m) && e@ == (field@, m@),
    {
        match problem {
            Some(message) => Err(ValidationResponse { field: field.clone(), message }),
            None => Ok(()),
        }
    }

    /// The range is ordered and does not start before `now`.
    pub fn validate_date_range(value: &DateRange, now: u64, field: &String) -> (r: Result<(), ValidationResponse>)
        ensures
            rule_message(ValidationType::DateRange(*value), now) is None <==> r is Ok,
            r matches Err(e) ==> e@ == (field@, rule_message(ValidationType::DateRange(*value), now)->Some_0),
    {
        if value.start_date() > value.end_date() {
            return Err(ValidationResponse {
                field: field.clone(),
                message: String::from_str("The start_date is after the end_date"),
            });
        }
        if value.start_date() < now {
            return Err(ValidationResponse {
                field: field.clone(),
                message: String::from_str("The start_date can't be in the past"),
            });
        }
        Ok(())
    }
}

/// A rule set with one failing length rule and one failing e-mail rule
/// reports two entries, one per rule, not one.
pub proof fn lemma_failures_are_collected(
    length_rule: ValidateField,
    email_rule: ValidateField,
    now: u64,
)
    requires
        length_rule.0 matches ValidationType::StringLength(v, min, max)
            && (grapheme_count(v@) < min || grapheme_count(v@) > max),
        email_rule.0 matches ValidationType::Email(e) && email_problem(e@) is Some,
    ensures
        failures(seq![length_rule, email_rule], now).len() == 2,
{
    let fs = seq![length_rule, email_rule];
    assert(fs.drop_last() =~= seq![length_rule]);
    assert(seq![length_rule].drop_last() =~= Seq::<ValidateField>::empty());
    assert(rule_message(length_rule.0, now) is Some);
    assert(rule_message(email_rule.0, now) is Some);
    assert(failures(Seq::<ValidateField>::empty(), now).len() == 0);
    assert(failures(seq![length_rule], now).len() == 1);
}

} // verus!

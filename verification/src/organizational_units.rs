//! Organizational units: company codes, plants, storage locations,
//! purchasing and sales organizations, controlling areas.
//!
//! ```text
//! CompanyCode
//!   ├── Plant
//!   │     └── StorageLocation
//!   ├── PurchasingOrganization
//!   └── SalesOrganization
//! ```

use vstd::prelude::*;

use crate::extensions::{Extensions, JsonEntries};
use crate::primitives::{
    random_uuid, is_random_uuid, CompanyCodeValue, CountryCodeValue, CurrencyCodeValue, PlantValue,
    StorageLocationValue, Uuid,
};
use crate::time::{read_clock, Timestamp, UtcDate};
use crate::validation::{
    check_field, check_opt_field, failures_view, finish, length_failure, opt_length_failure, opt_text,
    reports, FailureView, FieldError, ValidationErrors,
};

verus! {

// ---------------------------------------------------------------------------
// Validity ranges
// ---------------------------------------------------------------------------

/// A range of days on which a unit is in force; without an end day it runs
/// on indefinitely. Both ends belong to the range.
#[derive(Clone, Copy, Debug, PartialEq, Eq, Structural)]
pub struct ValidityRange {
    pub valid_from: UtcDate,
    pub valid_to: Option<UtcDate>,
}

impl ValidityRange {
    /// The range holds on `date`: not before its first day and, where it has
    /// an end, not after its last.
    pub open spec fn covers(self, date: UtcDate) -> bool {
        &&& self.valid_from.days_from_ce <= date.days_from_ce
        &&& match self.valid_to {
            Some(to) => date.days_from_ce <= to.days_from_ce,
            None => true,
        }
    }

    /// The overlap of two ranges: it starts on the later first day, ends on
    /// the earlier last day (if either has one), and exists only when it
    /// does not end before it starts.
    pub open spec fn overlap(self, other: ValidityRange) -> Option<ValidityRange> {
        let from = if self.valid_from.days_from_ce >= other.valid_from.days_from_ce {
            self.valid_from
        } else {
            other.valid_from
        };
        let to = match (self.valid_to, other.valid_to) {
            (Some(t1), Some(t2)) => Some(if t1.days_from_ce <= t2.days_from_ce { t1 } else { t2 }),
            (Some(t), None) => Some(t),
            (None, Some(t)) => Some(t),
            (None, None) => None,
        };
        match to {
            Some(t) => if from.days_from_ce <= t.days_from_ce {
                Some(ValidityRange { valid_from: from, valid_to: to })
            } else {
                None
            },
            None => Some(ValidityRange { valid_from: from, valid_to: to }),
        }
    }

    /// A range from `valid_from` to `valid_to`.
    pub fn new(valid_from: UtcDate, valid_to: Option<UtcDate>) -> (r: ValidityRange)
        ensures
            r.valid_from == valid_from,
            r.valid_to == valid_to,
    {
        ValidityRange { valid_from, valid_to }
    }

    /// Whether the range holds on `date`.
    pub fn is_valid_at(&self, date: UtcDate) -> (b: bool)
        ensures
            b == self.covers(date),
    {
        if date.days_from_ce < self.valid_from.days_from_ce {
            return false;
        }
        if let Some(valid_to) = self.valid_to {
            if date.days_from_ce > valid_to.days_from_ce {
                return false;
            }
        }
        true
    }

    /// Whether the range holds today (by the clock); the answer is the one
    /// `is_valid_at` gives for some day.
    pub fn is_currently_valid(&self) -> (b: bool)
        ensures
            exists|today: UtcDate| b == self.covers(today),
    {
        let reading = read_clock();
        let b = self.is_valid_at(reading.today);
        assert(b == self.covers(reading.today));
        b
    }

    /// The overlap of this range with `other`, if they share a day bound.
    pub fn intersection(&self, other: &ValidityRange) -> (r: Option<ValidityRange>)
        ensures
            r == self.overlap(*other),
    {
        let valid_from = if self.valid_from.days_from_ce >= other.valid_from.days_from_ce {
            self.valid_from
        } else {
            other.valid_from
        };
        let valid_to = match (self.valid_to, other.valid_to) {
            (Some(t1), Some(t2)) => Some(if t1.days_from_ce <= t2.days_from_ce { t1 } else { t2 }),
            (Some(t), None) => Some(t),
            (None, Some(t)) => Some(t),
            (None, None) => None,
        };
        let end = match valid_to {
            Some(t) => t,
            None => valid_from,
        };
        if valid_from.days_from_ce <= end.days_from_ce {
            Some(ValidityRange::new(valid_from, valid_to))
        } else {
            None
        }
    }
}

/// The days chrono's calendar holds: January 1 of 262144 BC up to
/// December 31 of 262142.
pub open spec fn in_calendar(date: UtcDate) -> bool {
    -95746129 <= date.days_from_ce <= 95745399
}

/// How chrono displays a UTC date (`Date<Utc>`'s `Display`).
pub uninterp spec fn utc_date_display(days_from_ce: i32) -> Seq<char>;

/// How chrono formats a date with the pattern `%Y-%m-%d`.
pub uninterp spec fn ymd_format(days_from_ce: i32) -> Seq<char>;

/// `Date<Utc>`'s `Display` in chrono (`to_string` of the date built with
/// `NaiveDate::from_num_days_from_ce_opt`, which holds every day of the
/// calendar). The text is named, not spelled out.
#[verifier::external_body]
#[allow(deprecated)]
fn display_utc_date(date: UtcDate) -> (s: String)
    requires
        in_calendar(date),
    ensures
        s@ == utc_date_display(date.days_from_ce),
{
    let naive = chrono::NaiveDate::from_num_days_from_ce_opt(date.days_from_ce).unwrap();
    chrono::Date::<chrono::Utc>::from_utc(naive, chrono::Utc).to_string()
}

/// `NaiveDate::format("%Y-%m-%d")` in chrono, turned into a `String`. The
/// text is named, not spelled out.
#[verifier::external_body]
fn format_ymd(date: UtcDate) -> (s: String)
    requires
        in_calendar(date),
    ensures
        s@ == ymd_format(date.days_from_ce),
{
    let naive = chrono::NaiveDate::from_num_days_from_ce_opt(date.days_from_ce).unwrap();
    naive.format("%Y-%m-%d").to_string()
}

/// The text of a range from the texts of its ends: "valid from", the first
/// day, "to", and the last day or "unlimited".
pub open spec fn validity_text_of(from_text: Seq<char>, to_text: Option<Seq<char>>) -> Seq<char> {
    "valid from "@ + from_text + " to "@ + match to_text {
        Some(t) => t,
        None => "unlimited"@,
    }
}

/// The text of a range reads "valid from", its first day, "to" and its last
/// day; a range without a last day reads "unlimited" there.
pub proof fn lemma_validity_text_shape(from_text: Seq<char>, to_text: Seq<char>)
    ensures
        validity_text_of(from_text, None) == "valid from "@ + from_text + " to unlimited"@,
        validity_text_of(from_text, Some(to_text)) == "valid from "@ + from_text + " to "@ + to_text,
{
    reveal_strlit("valid from ");
    reveal_strlit(" to ");
    reveal_strlit("unlimited");
    reveal_strlit(" to unlimited");
    assert(" to "@ + "unlimited"@ =~= " to unlimited"@);
    assert(validity_text_of(from_text, None) =~= "valid from "@ + from_text + " to unlimited"@);
}

/// Joins the texts of a range's ends into the text of the range.
pub fn validity_text(from_text: &str, to_text: Option<&str>) -> (s: String)
    ensures
        s@ == validity_text_of(from_text@, match to_text {
            Some(t) => Some(t@),
            None => None,
        }),
{
    let mut s = "valid from ".to_owned();
    s.append(from_text);
    s.append(" to ");
    match to_text {
        Some(t) => s.append(t),
        None => s.append("unlimited"),
    }
    s
}

impl ValidityRange {
    /// The text of the range: the first day as chrono displays a UTC date,
    /// the last day formatted as `%Y-%m-%d`.
    pub open spec fn display_text(self) -> Seq<char> {
        validity_text_of(utc_date_display(self.valid_from.days_from_ce), match self.valid_to {
            Some(to) => Some(ymd_format(to.days_from_ce)),
            None => None,
        })
    }

    /// The range as text, in the form of [`ValidityRange::display_text`].
    pub fn to_string(&self) -> (s: String)
        requires
            in_calendar(self.valid_from),
            self.valid_to matches Some(to) ==> in_calendar(to),
        ensures
            s@ == self.display_text(),
    {
        let from = display_utc_date(self.valid_from);
        match self.valid_to {
            Some(to) => {
                let end = format_ymd(to);
                validity_text(from.as_str(), Some(end.as_str()))
            },
            None => validity_text(from.as_str(), None),
        }
    }
}

impl Default for ValidityRange {
    /// A range from today (by the clock) with no end.
    fn default() -> (r: ValidityRange)
        ensures
            r.valid_to is None,
    {
        let reading = read_clock();
        ValidityRange { valid_from: reading.today, valid_to: None }
    }
}

/// A day lies in the overlap of two ranges exactly when it lies in both; when
/// they have no overlap, no day lies in both.
pub proof fn lemma_overlap_covers_both(a: ValidityRange, b: ValidityRange, date: UtcDate)
    ensures
        (a.covers(date) && b.covers(date)) <==> match a.overlap(b) {
            Some(r) => r.covers(date),
            None => false,
        },
{
}

/// A range holds on a day exactly when the day is not before its first day
/// and, where it has a last day, not after that one: both ends belong to the
/// range, and a range that ended before the day does not hold on it.
pub proof fn lemma_range_covers_exactly(r: ValidityRange, date: UtcDate)
    ensures
        r.covers(date) <==> (r.valid_from.days_from_ce <= date.days_from_ce
            && (r.valid_to matches Some(t) ==> date.days_from_ce <= t.days_from_ce)),
        r.covers(r.valid_from) <== (r.valid_to matches Some(t) ==> r.valid_from.days_from_ce <= t.days_from_ce),
        r.valid_to matches Some(t) && t.days_from_ce < date.days_from_ce ==> !r.covers(date),
{
}

/// The overlap does not depend on the order of the two ranges.
pub proof fn lemma_overlap_commutes(a: ValidityRange, b: ValidityRange)
    ensures
        a.overlap(b) == b.overlap(a),
{
}

/// A range that holds on at least one day overlaps itself in full.
pub proof fn lemma_overlap_with_itself(a: ValidityRange)
    requires
        a.valid_to matches Some(t) ==> a.valid_from.days_from_ce <= t.days_from_ce,
    ensures
        a.overlap(a) == Some(a),
{
}

/// The overlap lies within each of the two ranges.
pub proof fn lemma_overlap_within(a: ValidityRange, b: ValidityRange, date: UtcDate)
    requires
        a.overlap(b) matches Some(r) && r.covers(date),
    ensures
        a.covers(date),
        b.covers(date),
{
}

// ---------------------------------------------------------------------------
// Errors
// ---------------------------------------------------------------------------

/// Errors of the organizational units.
#[derive(Clone, Debug, PartialEq, Eq)]
pub enum OrganizationalUnitsError {
    CompanyCodeNotFound { code: String },
    PlantNotFound { code: String },
    StorageLocationNotFound { code: String },
    PurchasingOrgNotFound { code: String },
    SalesOrgNotFound { code: String },
    ControllingAreaNotFound { code: String },
    HierarchyValidationFailed { message: String },
    ValidityValidationFailed { message: String },
    InvalidCompanyCodeFormat { code: String },
    InvalidPlantFormat { code: String },
    InvalidStorageLocationFormat { code: String },
}

/// The outcome of an operation that may fail with such an error.
pub type OrganizationalUnitsResult<T> = Result<T, OrganizationalUnitsError>;

// ---------------------------------------------------------------------------
// Company code (T001)
// ---------------------------------------------------------------------------

/// The message of the rule that a company code has four characters.
pub const COMPANY_CODE_LENGTH_MESSAGE: &'static str = "公司代码必须为4位";

/// The message of the rule that a plant code has four characters.
pub const PLANT_CODE_LENGTH_MESSAGE: &'static str = "工厂代码必须为4位";

/// A company code: a legal entity.
#[derive(Clone, Debug, PartialEq, Eq)]
pub struct CompanyCode {
    /// Four characters.
    pub code: CompanyCodeValue,
    /// Not empty.
    pub tenant_id: String,
    /// One to 100 characters.
    pub name: String,
    /// At most 200 characters.
    pub street_address: Option<String>,
    /// At most 50 characters.
    pub city: Option<String>,
    /// At most 20 characters.
    pub postal_code: Option<String>,
    /// Two or three characters.
    pub country: CountryCodeValue,
    pub currency_code: CurrencyCodeValue,
    pub fiscal_year_variant: Option<String>,
    pub created_at: Timestamp,
    pub updated_at: Timestamp,
    pub extensions: Extensions,
    pub deleted: bool,
}

/// The fields of a company code that break their rule, in declaration order.
pub open spec fn company_code_failures(
    code: Seq<char>,
    tenant_id: Seq<char>,
    name: Seq<char>,
    street_address: Option<Seq<char>>,
    city: Option<Seq<char>>,
    postal_code: Option<Seq<char>>,
    country: Seq<char>,
) -> Seq<FailureView> {
    Seq::empty()
        + length_failure(code, 4, Some(4), "code"@, Some(COMPANY_CODE_LENGTH_MESSAGE@))
        + length_failure(tenant_id, 1, None, "tenant_id"@, None)
        + length_failure(name, 1, Some(100), "name"@, None)
        + opt_length_failure(street_address, 0, Some(200), "street_address"@, None)
        + opt_length_failure(city, 0, Some(50), "city"@, None)
        + opt_length_failure(postal_code, 0, Some(20), "postal_code"@, None)
        + length_failure(country, 2, Some(3), "country"@, None)
}

/// The rules behind [`company_code_failures`], stated on the lengths of the texts in
/// characters: nothing is reported exactly when every field keeps its bounds,
/// and a field that breaks them is reported with the rule's message and
/// bounds.
pub proof fn lemma_company_code_rules(code: Seq<char>, tenant_id: Seq<char>, name: Seq<char>, street_address: Option<Seq<char>>, city: Option<Seq<char>>, postal_code: Option<Seq<char>>, country: Seq<char>)
    ensures
        company_code_failures(code, tenant_id, name, street_address, city, postal_code, country).len() == 0 <==> (
            (4 <= code.len() && code.len() <= 4)
            && (1 <= tenant_id.len())
            && (1 <= name.len() && name.len() <= 100)
            && (street_address matches Some(t) ==> t.len() <= 200)
            && (city matches Some(t) ==> t.len() <= 50)
            && (postal_code matches Some(t) ==> t.len() <= 20)
            && (2 <= country.len() && country.len() <= 3)
        ),
        !(4 <= code.len() && code.len() <= 4) ==> company_code_failures(code, tenant_id, name, street_address, city, postal_code, country).contains(("code"@, Some("公司代码必须为4位"@), Some(4usize), Some(4usize))),
        !(1 <= tenant_id.len()) ==> company_code_failures(code, tenant_id, name, street_address, city, postal_code, country).contains(("tenant_id"@, None, Some(1usize), None)),
        !(1 <= name.len() && name.len() <= 100) ==> company_code_failures(code, tenant_id, name, street_address, city, postal_code, country).contains(("name"@, None, Some(1usize), Some(100usize))),
        (street_address matches Some(t) && !(t.len() <= 200)) ==> company_code_failures(code, tenant_id, name, street_address, city, postal_code, country).contains(("street_address"@, None, None, Some(200usize))),
        (city matches Some(t) && !(t.len() <= 50)) ==> company_code_failures(code, tenant_id, name, street_address, city, postal_code, country).contains(("city"@, None, None, Some(50usize))),
        (postal_code matches Some(t) && !(t.len() <= 20)) ==> company_code_failures(code, tenant_id, name, street_address, city, postal_code, country).contains(("postal_code"@, None, None, Some(20usize))),
        !(2 <= country.len() && country.len() <= 3) ==> company_code_failures(code, tenant_id, name, street_address, city, postal_code, country).contains(("country"@, None, Some(2usize), Some(3usize))),
{
    broadcast use vstd::seq_lib::lemma_seq_concat_contains_all_elements;
    assert({ let e: FailureView = ("code"@, Some("公司代码必须为4位"@), Some(4usize), Some(4usize)); seq![e][0] == e });
    assert({ let e: FailureView = ("tenant_id"@, None, Some(1usize), None); seq![e][0] == e });
    assert({ let e: FailureView = ("name"@, None, Some(1usize), Some(100usize)); seq![e][0] == e });
    assert({ let e: FailureView = ("street_address"@, None, None, Some(200usize)); seq![e][0] == e });
    assert({ let e: FailureView = ("city"@, None, None, Some(50usize)); seq![e][0] == e });
    assert({ let e: FailureView = ("postal_code"@, None, None, Some(20usize)); seq![e][0] == e });
    assert({ let e: FailureView = ("country"@, None, Some(2usize), Some(3usize)); seq![e][0] == e });
}

impl CompanyCode {
    /// The fields of this company code that break their rule.
    pub open spec fn rule_failures(self) -> Seq<FailureView> {
        company_code_failures(
            self.code@,
            self.tenant_id@,
            self.name@,
            opt_text(self.street_address),
            opt_text(self.city),
            opt_text(self.postal_code),
            self.country@,
        )
    }

    /// Checks every field rule.
    pub fn validate(&self) -> (r: Result<(), ValidationErrors>)
        ensures
            reports(r, self.rule_failures()),
    {
        let mut errs: Vec<FieldError> = Vec::new();
        assert(failures_view(errs@) =~= Seq::empty());
        check_field(&mut errs, self.code.as_str(), 4, Some(4), "code", Some(COMPANY_CODE_LENGTH_MESSAGE));
        check_field(&mut errs, self.tenant_id.as_str(), 1, None, "tenant_id", None);
        check_field(&mut errs, self.name.as_str(), 1, Some(100), "name", None);
        check_opt_field(&mut errs, &self.street_address, 0, Some(200), "street_address", None);
        check_opt_field(&mut errs, &self.city, 0, Some(50), "city", None);
        check_opt_field(&mut errs, &self.postal_code, 0, Some(20), "postal_code", None);
        check_field(&mut errs, self.country.as_str(), 2, Some(3), "country", None);
        finish(errs)
    }

    /// A new company code, stamped with the current time; refused when a
    /// field breaks its rule.
    pub fn new(
        tenant_id: String,
        code: CompanyCodeValue,
        name: String,
        country: CountryCodeValue,
        currency_code: CurrencyCodeValue,
    ) -> (r: Result<CompanyCode, ValidationErrors>)
        ensures
            reports(r, company_code_failures(code@, tenant_id@, name@, None, None, None, country@)),
            match r {
                Ok(c) => {
                    &&& c.code == code
                    &&& c.tenant_id == tenant_id
                    &&& c.name == name
                    &&& c.street_address is None
                    &&& c.city is None
                    &&& c.postal_code is None
                    &&& c.country == country
                    &&& c.currency_code == currency_code
                    &&& c.fiscal_year_variant is None
                    &&& c.created_at == c.updated_at
                    &&& c.extensions@ == JsonEntries::empty()
                    &&& !c.deleted
                },
                Err(_) => true,
            },
    {
        let now = read_clock().instant;
        let company = CompanyCode {
            code,
            tenant_id,
            name,
            street_address: None,
            city: None,
            postal_code: None,
            country,
            currency_code,
            fiscal_year_variant: None,
            created_at: now,
            updated_at: now,
            extensions: Extensions::new(),
            deleted: false,
        };
        match company.validate() {
            Ok(()) => Ok(company),
            Err(e) => Err(e),
        }
    }

    /// Marks the company code as deleted and stamps the change.
    pub fn mark_deleted(&mut self)
        ensures
            *final(self) == (CompanyCode { deleted: true, updated_at: final(self).updated_at, ..*old(self) }),
    {
        self.deleted = true;
        self.updated_at = read_clock().instant;
    }

    /// Renames the company code; a name outside one to 100 characters is
    /// refused and leaves the company code as it was.
    pub fn update_name(&mut self, name: String) -> (r: Result<(), ValidationErrors>)
        ensures
            reports(r, length_failure(name@, 1, Some(100), "name"@, None)),
            r is Ok <==> 1 <= name@.len() <= 100,
            r matches Err(e) ==> e.failures() == seq![("name"@, None::<Seq<char>>, Some(1usize), Some(100usize))],
            r is Ok ==> *final(self) == (CompanyCode { name: name, updated_at: final(self).updated_at, ..*old(self) }),
            r is Err ==> *final(self) == *old(self),
    {
        let mut errs: Vec<FieldError> = Vec::new();
        assert(failures_view(errs@) =~= Seq::empty());
        check_field(&mut errs, name.as_str(), 1, Some(100), "name", None);
        assert(failures_view(errs@) =~= length_failure(name@, 1, Some(100), "name"@, None));
        match finish(errs) {
            Ok(()) => {
                self.name = name;
                self.updated_at = read_clock().instant;
                Ok(())
            },
            Err(e) => Err(e),
        }
    }
}

// ---------------------------------------------------------------------------
// Plant (T001W)
// ---------------------------------------------------------------------------

/// A plant or production site.
#[derive(Clone, Debug, PartialEq, Eq)]
pub struct Plant {
    /// Four characters.
    pub code: PlantValue,
    /// Not empty.
    pub tenant_id: String,
    /// Not empty; the company code that owns the plant.
    pub company_code: CompanyCodeValue,
    /// One to 100 characters.
    pub name: String,
    /// At most 50 characters.
    pub city: Option<String>,
    /// Two or three characters.
    pub country: CountryCodeValue,
    pub region: Option<String>,
    pub validity: ValidityRange,
    pub created_at: Timestamp,
    pub updated_at: Timestamp,
    pub extensions: Extensions,
    pub deleted: bool,
}

/// The fields of a plant that break their rule, in declaration order.
pub open spec fn plant_failures(
    code: Seq<char>,
    tenant_id: Seq<char>,
    company_code: Seq<char>,
    name: Seq<char>,
    city: Option<Seq<char>>,
    country: Seq<char>,
) -> Seq<FailureView> {
    Seq::empty()
        + length_failure(code, 4, Some(4), "code"@, Some(PLANT_CODE_LENGTH_MESSAGE@))
        + length_failure(tenant_id, 1, None, "tenant_id"@, None)
        + length_failure(company_code, 1, None, "company_code"@, None)
        + length_failure(name, 1, Some(100), "name"@, None)
        + opt_length_failure(city, 0, Some(50), "city"@, None)
        + length_failure(country, 2, Some(3), "country"@, None)
}

/// The rules behind [`plant_failures`], stated on the lengths of the texts in
/// characters: nothing is reported exactly when every field keeps its bounds,
/// and a field that breaks them is reported with the rule's message and
/// bounds.
pub proof fn lemma_plant_rules(code: Seq<char>, tenant_id: Seq<char>, company_code: Seq<char>, name: Seq<char>, city: Option<Seq<char>>, country: Seq<char>)
    ensures
        plant_failures(code, tenant_id, company_code, name, city, country).len() == 0 <==> (
            (4 <= code.len() && code.len() <= 4)
            && (1 <= tenant_id.len())
            && (1 <= company_code.len())
            && (1 <= name.len() && name.len() <= 100)
            && (city matches Some(t) ==> t.len() <= 50)
            && (2 <= country.len() && country.len() <= 3)
        ),
        !(4 <= code.len() && code.len() <= 4) ==> plant_failures(code, tenant_id, company_code, name, city, country).contains(("code"@, Some("工厂代码必须为4位"@), Some(4usize), Some(4usize))),
        !(1 <= tenant_id.len()) ==> plant_failures(code, tenant_id, company_code, name, city, country).contains(("tenant_id"@, None, Some(1usize), None)),
        !(1 <= company_code.len()) ==> plant_failures(code, tenant_id, company_code, name, city, country).contains(("company_code"@, None, Some(1usize), None)),
        !(1 <= name.len() && name.len() <= 100) ==> plant_failures(code, tenant_id, company_code, name, city, country).contains(("name"@, None, Some(1usize), Some(100usize))),
        (city matches Some(t) && !(t.len() <= 50)) ==> plant_failures(code, tenant_id, company_code, name, city, country).contains(("city"@, None, None, Some(50usize))),
        !(2 <= country.len() && country.len() <= 3) ==> plant_failures(code, tenant_id, company_code, name, city, country).contains(("country"@, None, Some(2usize), Some(3usize))),
{
    broadcast use vstd::seq_lib::lemma_seq_concat_contains_all_elements;
    assert({ let e: FailureView = ("code"@, Some("工厂代码必须为4位"@), Some(4usize), Some(4usize)); seq![e][0] == e });
    assert({ let e: FailureView = ("tenant_id"@, None, Some(1usize), None); seq![e][0] == e });
    assert({ let e: FailureView = ("company_code"@, None, Some(1usize), None); seq![e][0] == e });
    assert({ let e: FailureView = ("name"@, None, Some(1usize), Some(100usize)); seq![e][0] == e });
    assert({ let e: FailureView = ("city"@, None, None, Some(50usize)); seq![e][0] == e });
    assert({ let e: FailureView = ("country"@, None, Some(2usize), Some(3usize)); seq![e][0] == e });
}

impl Plant {
    /// The fields of this plant that break their rule.
    pub open spec fn rule_failures(self) -> Seq<FailureView> {
        plant_failures(
            self.code@,
            self.tenant_id@,
            self.company_code@,
            self.name@,
            opt_text(self.city),
            self.country@,
        )
    }

    /// Checks every field rule.
    pub fn validate(&self) -> (r: Result<(), ValidationErrors>)
        ensures
            reports(r, self.rule_failures()),
    {
        let mut errs: Vec<FieldError> = Vec::new();
        assert(failures_view(errs@) =~= Seq::empty());
        check_field(&mut errs, self.code.as_str(), 4, Some(4), "code", Some(PLANT_CODE_LENGTH_MESSAGE));
        check_field(&mut errs, self.tenant_id.as_str(), 1, None, "tenant_id", None);
        check_field(&mut errs, self.company_code.as_str(), 1, None, "company_code", None);
        check_field(&mut errs, self.name.as_str(), 1, Some(100), "name", None);
        check_opt_field(&mut errs, &self.city, 0, Some(50), "city", None);
        check_field(&mut errs, self.country.as_str(), 2, Some(3), "country", None);
        finish(errs)
    }

    /// A new plant, stamped with the current time. Without a first day it is
    /// valid from today; refused when a field breaks its rule.
    pub fn new(
        tenant_id: String,
        company_code: CompanyCodeValue,
        code: PlantValue,
        name: String,
        city: String,
        country: CountryCodeValue,
        valid_from: Option<UtcDate>,
        valid_to: Option<UtcDate>,
    ) -> (r: Result<Plant, ValidationErrors>)
        ensures
            reports(r, plant_failures(code@, tenant_id@, company_code@, name@, Some(city@), country@)),
            match r {
                Ok(p) => {
                    &&& p.code == code
                    &&& p.tenant_id == tenant_id
                    &&& p.company_code == company_code
                    &&& p.name == name
                    &&& p.city == Some(city)
                    &&& p.country == country
                    &&& p.region is None
                    &&& (valid_from matches Some(d) ==> p.validity.valid_from == d)
                    &&& (valid_from is None ==> p.validity.valid_from.days_from_ce
                        == p.created_at.secs / 86400 + 719163)
                    &&& p.validity.valid_to == valid_to
                    &&& p.created_at == p.updated_at
                    &&& p.extensions@ == JsonEntries::empty()
                    &&& !p.deleted
                },
                Err(_) => true,
            },
    {
        let reading = read_clock();
        let now = reading.instant;
        let first = match valid_from {
            Some(d) => d,
            None => reading.today,
        };
        let plant = Plant {
            code,
            tenant_id,
            company_code,
            name,
            city: Some(city),
            country,
            region: None,
            validity: ValidityRange::new(first, valid_to),
            created_at: now,
            updated_at: now,
            extensions: Extensions::new(),
            deleted: false,
        };
        match plant.validate() {
            Ok(()) => Ok(plant),
            Err(e) => Err(e),
        }
    }

    /// Whether the plant's validity range holds on `date` (deletion is not
    /// looked at).
    pub fn is_valid_at(&self, date: UtcDate) -> (b: bool)
        ensures
            b == self.validity.covers(date),
    {
        self.validity.is_valid_at(date)
    }

    /// Whether the plant is not deleted and its range holds today (by the
    /// clock).
    pub fn is_currently_valid(&self) -> (b: bool)
        ensures
            b ==> !self.deleted,
            exists|today: UtcDate| b == (!self.deleted && #[trigger] self.validity.covers(today)),
    {
        let reading = read_clock();
        let in_range = self.validity.is_valid_at(reading.today);
        let b = !self.deleted && in_range;
        assert(b == (!self.deleted && self.validity.covers(reading.today)));
        b
    }

    /// Marks the plant as deleted and stamps the change.
    pub fn mark_deleted(&mut self)
        ensures
            *final(self) == (Plant { deleted: true, updated_at: final(self).updated_at, ..*old(self) }),
    {
        self.deleted = true;
        self.updated_at = read_clock().instant;
    }

    /// Replaces the validity range and stamps the change.
    pub fn update_validity(&mut self, valid_from: UtcDate, valid_to: Option<UtcDate>)
        ensures
            *final(self) == (Plant {
                validity: ValidityRange { valid_from: valid_from, valid_to: valid_to },
                updated_at: final(self).updated_at,
                ..*old(self)
            }),
    {
        self.validity = ValidityRange::new(valid_from, valid_to);
        self.updated_at = read_clock().instant;
    }
}

// ---------------------------------------------------------------------------
// Storage location (T001L)
// ---------------------------------------------------------------------------

/// A storage location inside a plant.
#[derive(Clone, Debug, PartialEq, Eq)]
pub struct StorageLocation {
    /// Four characters.
    pub code: StorageLocationValue,
    /// Not empty.
    pub tenant_id: String,
    /// Not empty; the plant that holds the location.
    pub plant_code: PlantValue,
    /// One to 50 characters.
    pub name: String,
    pub address: Option<String>,
    pub created_at: Timestamp,
    pub updated_at: Timestamp,
    pub extensions: Extensions,
    pub deleted: bool,
}

/// The fields of a storage location that break their rule, in declaration
/// order.
pub open spec fn storage_location_failures(
    code: Seq<char>,
    tenant_id: Seq<char>,
    plant_code: Seq<char>,
    name: Seq<char>,
) -> Seq<FailureView> {
    Seq::empty()
        + length_failure(code, 4, Some(4), "code"@, None)
        + length_failure(tenant_id, 1, None, "tenant_id"@, None)
        + length_failure(plant_code, 1, None, "plant_code"@, None)
        + length_failure(name, 1, Some(50), "name"@, None)
}

/// The rules behind [`storage_location_failures`], stated on the lengths of the texts in
/// characters: nothing is reported exactly when every field keeps its bounds,
/// and a field that breaks them is reported with the rule's message and
/// bounds.
pub proof fn lemma_storage_location_rules(code: Seq<char>, tenant_id: Seq<char>, plant_code: Seq<char>, name: Seq<char>)
    ensures
        storage_location_failures(code, tenant_id, plant_code, name).len() == 0 <==> (
            (4 <= code.len() && code.len() <= 4)
            && (1 <= tenant_id.len())
            && (1 <= plant_code.len())
            && (1 <= name.len() && name.len() <= 50)
        ),
        !(4 <= code.len() && code.len() <= 4) ==> storage_location_failures(code, tenant_id, plant_code, name).contains(("code"@, None, Some(4usize), Some(4usize))),
        !(1 <= tenant_id.len()) ==> storage_location_failures(code, tenant_id, plant_code, name).contains(("tenant_id"@, None, Some(1usize), None)),
        !(1 <= plant_code.len()) ==> storage_location_failures(code, tenant_id, plant_code, name).contains(("plant_code"@, None, Some(1usize), None)),
        !(1 <= name.len() && name.len() <= 50) ==> storage_location_failures(code, tenant_id, plant_code, name).contains(("name"@, None, Some(1usize), Some(50usize))),
{
    broadcast use vstd::seq_lib::lemma_seq_concat_contains_all_elements;
    assert({ let e: FailureView = ("code"@, None, Some(4usize), Some(4usize)); seq![e][0] == e });
    assert({ let e: FailureView = ("tenant_id"@, None, Some(1usize), None); seq![e][0] == e });
    assert({ let e: FailureView = ("plant_code"@, None, Some(1usize), None); seq![e][0] == e });
    assert({ let e: FailureView = ("name"@, None, Some(1usize), Some(50usize)); seq![e][0] == e });
}

impl StorageLocation {
    /// The fields of this storage location that break their rule.
    pub open spec fn rule_failures(self) -> Seq<FailureView> {
        storage_location_failures(self.code@, self.tenant_id@, self.plant_code@, self.name@)
    }

    /// Checks every field rule.
    pub fn validate(&self) -> (r: Result<(), ValidationErrors>)
        ensures
            reports(r, self.rule_failures()),
    {
        let mut errs: Vec<FieldError> = Vec::new();
        assert(failures_view(errs@) =~= Seq::empty());
        check_field(&mut errs, self.code.as_str(), 4, Some(4), "code", None);
        check_field(&mut errs, self.tenant_id.as_str(), 1, None, "tenant_id", None);
        check_field(&mut errs, self.plant_code.as_str(), 1, None, "plant_code", None);
        check_field(&mut errs, self.name.as_str(), 1, Some(50), "name", None);
        finish(errs)
    }

    /// A new storage location, stamped with the current time; refused when a
    /// field breaks its rule.
    pub fn new(
        tenant_id: String,
        plant_code: PlantValue,
        code: StorageLocationValue,
        name: String,
    ) -> (r: Result<StorageLocation, ValidationErrors>)
        ensures
            reports(r, storage_location_failures(code@, tenant_id@, plant_code@, name@)),
            match r {
                Ok(s) => {
                    &&& s.code == code
                    &&& s.tenant_id == tenant_id
                    &&& s.plant_code == plant_code
                    &&& s.name == name
                    &&& s.address is None
                    &&& s.created_at == s.updated_at
                    &&& s.extensions@ == JsonEntries::empty()
                    &&& !s.deleted
                },
                Err(_) => true,
            },
    {
        let now = read_clock().instant;
        let storage = StorageLocation {
            code,
            tenant_id,
            plant_code,
            name,
            address: None,
            created_at: now,
            updated_at: now,
            extensions: Extensions::new(),
            deleted: false,
        };
        match storage.validate() {
            Ok(()) => Ok(storage),
            Err(e) => Err(e),
        }
    }

    /// Marks the storage location as deleted and stamps the change.
    pub fn mark_deleted(&mut self)
        ensures
            *final(self) == (StorageLocation { deleted: true, updated_at: final(self).updated_at, ..*old(self) }),
    {
        self.deleted = true;
        self.updated_at = read_clock().instant;
    }
}

// ---------------------------------------------------------------------------
// Purchasing organization (T024E)
// ---------------------------------------------------------------------------

/// A purchasing organization.
#[derive(Clone, Debug, PartialEq, Eq)]
pub struct PurchasingOrganization {
    /// Four characters.
    pub code: String,
    /// Not empty.
    pub tenant_id: String,
    /// Not empty.
    pub company_code: CompanyCodeValue,
    /// One to 100 characters.
    pub name: String,
    pub cross_company: bool,
    pub created_at: Timestamp,
    pub updated_at: Timestamp,
    pub extensions: Extensions,
    pub deleted: bool,
}

/// The fields of a purchasing or sales organization that break their rule,
/// in declaration order (both have the same rules).
pub open spec fn organization_failures(
    code: Seq<char>,
    tenant_id: Seq<char>,
    company_code: Seq<char>,
    name: Seq<char>,
) -> Seq<FailureView> {
    Seq::empty()
        + length_failure(code, 4, Some(4), "code"@, None)
        + length_failure(tenant_id, 1, None, "tenant_id"@, None)
        + length_failure(company_code, 1, None, "company_code"@, None)
        + length_failure(name, 1, Some(100), "name"@, None)
}

/// The rules behind [`organization_failures`], stated on the lengths of the texts in
/// characters: nothing is reported exactly when every field keeps its bounds,
/// and a field that breaks them is reported with the rule's message and
/// bounds.
pub proof fn lemma_organization_rules(code: Seq<char>, tenant_id: Seq<char>, company_code: Seq<char>, name: Seq<char>)
    ensures
        organization_failures(code, tenant_id, company_code, name).len() == 0 <==> (
            (4 <= code.len() && code.len() <= 4)
            && (1 <= tenant_id.len())
            && (1 <= company_code.len())
            && (1 <= name.len() && name.len() <= 100)
        ),
        !(4 <= code.len() && code.len() <= 4) ==> organization_failures(code, tenant_id, company_code, name).contains(("code"@, None, Some(4usize), Some(4usize))),
        !(1 <= tenant_id.len()) ==> organization_failures(code, tenant_id, company_code, name).contains(("tenant_id"@, None, Some(1usize), None)),
        !(1 <= company_code.len()) ==> organization_failures(code, tenant_id, company_code, name).contains(("company_code"@, None, Some(1usize), None)),
        !(1 <= name.len() && name.len() <= 100) ==> organization_failures(code, tenant_id, company_code, name).contains(("name"@, None, Some(1usize), Some(100usize))),
{
    broadcast use vstd::seq_lib::lemma_seq_concat_contains_all_elements;
    assert({ let e: FailureView = ("code"@, None, Some(4usize), Some(4usize)); seq![e][0] == e });
    assert({ let e: FailureView = ("tenant_id"@, None, Some(1usize), None); seq![e][0] == e });
    assert({ let e: FailureView = ("company_code"@, None, Some(1usize), None); seq![e][0] == e });
    assert({ let e: FailureView = ("name"@, None, Some(1usize), Some(100usize)); seq![e][0] == e });
}

/// Checks the rules shared by purchasing and sales organizations.
fn validate_organization(code: &str, tenant_id: &str, company_code: &str, name: &str) -> (r: Result<(), ValidationErrors>)
    ensures
        reports(r, organization_failures(code@, tenant_id@, company_code@, name@)),
{
    let mut errs: Vec<FieldError> = Vec::new();
    assert(failures_view(errs@) =~= Seq::empty());
    check_field(&mut errs, code, 4, Some(4), "code", None);
    check_field(&mut errs, tenant_id, 1, None, "tenant_id", None);
    check_field(&mut errs, company_code, 1, None, "company_code", None);
    check_field(&mut errs, name, 1, Some(100), "name", None);
    finish(errs)
}

impl PurchasingOrganization {
    /// The fields of this organization that break their rule.
    pub open spec fn rule_failures(self) -> Seq<FailureView> {
        organization_failures(self.code@, self.tenant_id@, self.company_code@, self.name@)
    }

    /// Checks every field rule.
    pub fn validate(&self) -> (r: Result<(), ValidationErrors>)
        ensures
            reports(r, self.rule_failures()),
    {
        validate_organization(self.code.as_str(), self.tenant_id.as_str(), self.company_code.as_str(), self.name.as_str())
    }

    /// A new purchasing organization, not cross-company, stamped with the
    /// current time; refused when a field breaks its rule.
    pub fn new(
        tenant_id: String,
        company_code: CompanyCodeValue,
        code: String,
        name: String,
    ) -> (r: Result<PurchasingOrganization, ValidationErrors>)
        ensures
            reports(r, organization_failures(code@, tenant_id@, company_code@, name@)),
            match r {
                Ok(o) => {
                    &&& o.code == code
                    &&& o.tenant_id == tenant_id
                    &&& o.company_code == company_code
                    &&& o.name == name
                    &&& !o.cross_company
                    &&& o.created_at == o.updated_at
                    &&& o.extensions@ == JsonEntries::empty()
                    &&& !o.deleted
                },
                Err(_) => true,
            },
    {
        let now = read_clock().instant;
        let org = PurchasingOrganization {
            code,
            tenant_id,
            company_code,
            name,
            cross_company: false,
            created_at: now,
            updated_at: now,
            extensions: Extensions::new(),
            deleted: false,
        };
        match org.validate() {
            Ok(()) => Ok(org),
            Err(e) => Err(e),
        }
    }

    /// Marks the organization as deleted and stamps the change.
    pub fn mark_deleted(&mut self)
        ensures
            *final(self) == (PurchasingOrganization { deleted: true, updated_at: final(self).updated_at, ..*old(self) }),
    {
        self.deleted = true;
        self.updated_at = read_clock().instant;
    }
}

// ---------------------------------------------------------------------------
// Sales organization (TVKO)
// ---------------------------------------------------------------------------

/// A sales organization.
#[derive(Clone, Debug, PartialEq, Eq)]
pub struct SalesOrganization {
    /// Four characters.
    pub code: String,
    /// Not empty.
    pub tenant_id: String,
    /// Not empty.
    pub company_code: CompanyCodeValue,
    /// One to 100 characters.
    pub name: String,
    pub sales_channel: Option<String>,
    pub created_at: Timestamp,
    pub updated_at: Timestamp,
    pub extensions: Extensions,
    pub deleted: bool,
}

impl SalesOrganization {
    /// The fields of this organization that break their rule.
    pub open spec fn rule_failures(self) -> Seq<FailureView> {
        organization_failures(self.code@, self.tenant_id@, self.company_code@, self.name@)
    }

    /// Checks every field rule.
    pub fn validate(&self) -> (r: Result<(), ValidationErrors>)
        ensures
            reports(r, self.rule_failures()),
    {
        validate_organization(self.code.as_str(), self.tenant_id.as_str(), self.company_code.as_str(), self.name.as_str())
    }

    /// A new sales organization without a sales channel, stamped with the
    /// current time; refused when a field breaks its rule.
    pub fn new(
        tenant_id: String,
        company_code: CompanyCodeValue,
        code: String,
        name: String,
    ) -> (r: Result<SalesOrganization, ValidationErrors>)
        ensures
            reports(r, organization_failures(code@, tenant_id@, company_code@, name@)),
            match r {
                Ok(o) => {
                    &&& o.code == code
                    &&& o.tenant_id == tenant_id
                    &&& o.company_code == company_code
                    &&& o.name == name
                    &&& o.sales_channel is None
                    &&& o.created_at == o.updated_at
                    &&& o.extensions@ == JsonEntries::empty()
                    &&& !o.deleted
                },
                Err(_) => true,
            },
    {
        let now = read_clock().instant;
        let org = SalesOrganization {
            code,
            tenant_id,
            company_code,
            name,
            sales_channel: None,
            created_at: now,
            updated_at: now,
            extensions: Extensions::new(),
            deleted: false,
        };
        match org.validate() {
            Ok(()) => Ok(org),
            Err(e) => Err(e),
        }
    }

    /// Marks the organization as deleted and stamps the change.
    pub fn mark_deleted(&mut self)
        ensures
            *final(self) == (SalesOrganization { deleted: true, updated_at: final(self).updated_at, ..*old(self) }),
    {
        self.deleted = true;
        self.updated_at = read_clock().instant;
    }
}

// ---------------------------------------------------------------------------
// Controlling area
// ---------------------------------------------------------------------------

/// A controlling area, the frame of cost accounting.
#[derive(Clone, Debug, PartialEq, Eq)]
pub struct ControllingArea {
    /// Four characters.
    pub code: String,
    /// Not empty.
    pub tenant_id: String,
    /// One to 100 characters.
    pub name: String,
    pub currency_code: CurrencyCodeValue,
    pub active: bool,
    pub created_at: Timestamp,
    pub updated_at: Timestamp,
    pub extensions: Extensions,
    pub deleted: bool,
}

/// The fields of a controlling area that break their rule, in declaration
/// order.
pub open spec fn controlling_area_failures(code: Seq<char>, tenant_id: Seq<char>, name: Seq<char>) -> Seq<FailureView> {
    Seq::empty()
        + length_failure(code, 4, Some(4), "code"@, None)
        + length_failure(tenant_id, 1, None, "tenant_id"@, None)
        + length_failure(name, 1, Some(100), "name"@, None)
}

/// The rules behind [`controlling_area_failures`], stated on the lengths of the texts in
/// characters: nothing is reported exactly when every field keeps its bounds,
/// and a field that breaks them is reported with the rule's message and
/// bounds.
pub proof fn lemma_controlling_area_rules(code: Seq<char>, tenant_id: Seq<char>, name: Seq<char>)
    ensures
        controlling_area_failures(code, tenant_id, name).len() == 0 <==> (
            (4 <= code.len() && code.len() <= 4)
            && (1 <= tenant_id.len())
            && (1 <= name.len() && name.len() <= 100)
        ),
        !(4 <= code.len() && code.len() <= 4) ==> controlling_area_failures(code, tenant_id, name).contains(("code"@, None, Some(4usize), Some(4usize))),
        !(1 <= tenant_id.len()) ==> controlling_area_failures(code, tenant_id, name).contains(("tenant_id"@, None, Some(1usize), None)),
        !(1 <= name.len() && name.len() <= 100) ==> controlling_area_failures(code, tenant_id, name).contains(("name"@, None, Some(1usize), Some(100usize))),
{
    broadcast use vstd::seq_lib::lemma_seq_concat_contains_all_elements;
    assert({ let e: FailureView = ("code"@, None, Some(4usize), Some(4usize)); seq![e][0] == e });
    assert({ let e: FailureView = ("tenant_id"@, None, Some(1usize), None); seq![e][0] == e });
    assert({ let e: FailureView = ("name"@, None, Some(1usize), Some(100usize)); seq![e][0] == e });
}

impl ControllingArea {
    /// The fields of this controlling area that break their rule.
    pub open spec fn rule_failures(self) -> Seq<FailureView> {
        controlling_area_failures(self.code@, self.tenant_id@, self.name@)
    }

    /// Checks every field rule.
    pub fn validate(&self) -> (r: Result<(), ValidationErrors>)
        ensures
            reports(r, self.rule_failures()),
    {
        let mut errs: Vec<FieldError> = Vec::new();
        assert(failures_view(errs@) =~= Seq::empty());
        check_field(&mut errs, self.code.as_str(), 4, Some(4), "code", None);
        check_field(&mut errs, self.tenant_id.as_str(), 1, None, "tenant_id", None);
        check_field(&mut errs, self.name.as_str(), 1, Some(100), "name", None);
        finish(errs)
    }

    /// A new, active controlling area stamped with the current time; refused
    /// when a field breaks its rule.
    pub fn new(
        tenant_id: String,
        code: String,
        name: String,
        currency_code: CurrencyCodeValue,
    ) -> (r: Result<ControllingArea, ValidationErrors>)
        ensures
            reports(r, controlling_area_failures(code@, tenant_id@, name@)),
            match r {
                Ok(a) => {
                    &&& a.code == code
                    &&& a.tenant_id == tenant_id
                    &&& a.name == name
                    &&& a.currency_code == currency_code
                    &&& a.active
                    &&& a.created_at == a.updated_at
                    &&& a.extensions@ == JsonEntries::empty()
                    &&& !a.deleted
                },
                Err(_) => true,
            },
    {
        let now = read_clock().instant;
        let area = ControllingArea {
            code,
            tenant_id,
            name,
            currency_code,
            active: true,
            created_at: now,
            updated_at: now,
            extensions: Extensions::new(),
            deleted: false,
        };
        match area.validate() {
            Ok(()) => Ok(area),
            Err(e) => Err(e),
        }
    }

    /// Marks the controlling area as deleted and stamps the change.
    pub fn mark_deleted(&mut self)
        ensures
            *final(self) == (ControllingArea { deleted: true, updated_at: final(self).updated_at, ..*old(self) }),
    {
        self.deleted = true;
        self.updated_at = read_clock().instant;
    }

    /// Deactivates the controlling area and stamps the change.
    pub fn deactivate(&mut self)
        ensures
            *final(self) == (ControllingArea { active: false, updated_at: final(self).updated_at, ..*old(self) }),
    {
        self.active = false;
        self.updated_at = read_clock().instant;
    }

    /// Activates the controlling area and stamps the change.
    pub fn activate(&mut self)
        ensures
            *final(self) == (ControllingArea { active: true, updated_at: final(self).updated_at, ..*old(self) }),
    {
        self.active = true;
        self.updated_at = read_clock().instant;
    }
}

// ---------------------------------------------------------------------------
// Change events
// ---------------------------------------------------------------------------

/// The kind of change an event reports.
#[derive(Clone, Copy, Debug, PartialEq, Eq, Structural)]
pub enum ChangeEventType {
    Created,
    Updated,
    Deleted,
    Blocked,
    Unblocked,
    ValidityChanged,
}

/// One changed field with its value before and after.
#[derive(Clone, Debug, PartialEq, Eq)]
pub struct FieldDelta {
    pub field_name: String,
    pub old_value: Option<serde_json::Value>,
    pub new_value: Option<serde_json::Value>,
}

/// The header every change event carries.
#[derive(Clone, Debug, PartialEq, Eq)]
pub struct ChangeEventHeader {
    pub event_id: Uuid,
    pub tenant_id: String,
    pub timestamp: Timestamp,
    pub actor_id: String,
    pub event_type: ChangeEventType,
    pub version: i32,
    pub correlation_id: Option<Uuid>,
}

impl ChangeEventHeader {
    /// A header of version 1 with a fresh random identifier, stamped with the
    /// current time and without a correlation identifier.
    pub fn new(tenant_id: String, actor_id: String, event_type: ChangeEventType) -> (h: ChangeEventHeader)
        ensures
            is_random_uuid(h.event_id),
            h.tenant_id == tenant_id,
            h.actor_id == actor_id,
            h.event_type == event_type,
            h.version == 1,
            h.correlation_id is None,
    {
        ChangeEventHeader {
            event_id: random_uuid(),
            tenant_id,
            timestamp: read_clock().instant,
            actor_id,
            event_type,
            version: 1,
            correlation_id: None,
        }
    }
}

/// A change of a company code.
#[derive(Clone, Debug)]
pub struct CompanyCodeChangedEvent {
    pub header: ChangeEventHeader,
    pub code: CompanyCodeValue,
    pub changes: Vec<FieldDelta>,
    pub snapshot: Option<CompanyCode>,
}

/// A change of a plant.
#[derive(Clone, Debug)]
pub struct PlantChangedEvent {
    pub header: ChangeEventHeader,
    pub code: PlantValue,
    pub changes: Vec<FieldDelta>,
    pub validity_change: Option<ValidityRange>,
    pub snapshot: Option<Plant>,
}

/// A change of a storage location.
#[derive(Clone, Debug)]
pub struct StorageLocationChangedEvent {
    pub header: ChangeEventHeader,
    pub code: StorageLocationValue,
    pub plant_code: PlantValue,
    pub changes: Vec<FieldDelta>,
    pub snapshot: Option<StorageLocation>,
}

} // verus!

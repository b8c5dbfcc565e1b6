//! Cost accounting master data: cost centers, profit centers and cost
//! elements, each valid over a range of time.

use vstd::prelude::*;

use crate::extensions::{Extensions, JsonEntries};
use crate::primitives::{random_uuid, is_random_uuid, AccountCode, CompanyCodeValue, CostCenterValue, Uuid};
use crate::time::{read_clock, Timestamp};
use crate::validation::{
    check_field, check_opt_field, failures_view, finish, length_failure, opt_length_failure, opt_text,
    reports, FailureView, FieldError, ValidationErrors,
};

verus! {

// ---------------------------------------------------------------------------
// Errors
// ---------------------------------------------------------------------------

/// Errors of the cost accounting master data.
#[derive(Clone, Debug, PartialEq, Eq)]
pub enum CostCenterError {
    CostCenterNotFound { code: String },
    ProfitCenterNotFound { code: String },
    CostElementNotFound { code: String },
    InvalidCostCenterCode { code: String },
    ValidationFailed { message: String },
    ValidityConflict { message: String },
}

/// The outcome of an operation that may fail with such an error.
pub type CostCenterResult<T> = Result<T, CostCenterError>;

// ---------------------------------------------------------------------------
// Validity ranges
// ---------------------------------------------------------------------------

/// A span of time in which an object is in force; without an end it runs on
/// indefinitely. Both ends belong to the span.
#[derive(Clone, Copy, Debug, PartialEq, Eq, Structural)]
pub struct ValidityRange {
    pub valid_from: Timestamp,
    pub valid_to: Option<Timestamp>,
}

impl ValidityRange {
    /// The span holds at `at`: not before its start and, where it has an end,
    /// not after it.
    pub open spec fn covers(self, at: Timestamp) -> bool {
        &&& !at.precedes(self.valid_from)
        &&& match self.valid_to {
            Some(to) => !to.precedes(at),
            None => true,
        }
    }

    /// A span from `valid_from` to `valid_to`.
    pub fn new(valid_from: Timestamp, valid_to: Option<Timestamp>) -> (r: ValidityRange)
        ensures
            r.valid_from == valid_from,
            r.valid_to == valid_to,
    {
        ValidityRange { valid_from, valid_to }
    }

    /// Whether the span holds at `date`.
    pub fn is_valid_at(&self, date: Timestamp) -> (b: bool)
        ensures
            b == self.covers(date),
    {
        if date.is_before(&self.valid_from) {
            return false;
        }
        if let Some(valid_to) = self.valid_to {
            if valid_to.is_before(&date) {
                return false;
            }
        }
        true
    }

    /// Whether the span holds now (by the clock); the answer is the one
    /// `is_valid_at` gives for some instant.
    pub fn is_currently_valid(&self) -> (b: bool)
        ensures
            exists|now: Timestamp| b == #[trigger] self.covers(now),
    {
        let reading = read_clock();
        let b = self.is_valid_at(reading.instant);
        assert(b == self.covers(reading.instant));
        b
    }
}

impl Default for ValidityRange {
    /// A span from now (by the clock) with no end.
    fn default() -> (r: ValidityRange)
        ensures
            r.valid_to is None,
    {
        ValidityRange { valid_from: read_clock().instant, valid_to: None }
    }
}

// ---------------------------------------------------------------------------
// Cost center (CSKS)
// ---------------------------------------------------------------------------

/// The category of a cost center.
#[derive(Clone, Copy, Debug, PartialEq, Eq, Structural)]
pub enum CostCenterCategory {
    Production,
    Administration,
    Sales,
    Research,
    Service,
}

/// A cost center, the basic unit of cost control.
#[derive(Clone, Debug, PartialEq, Eq)]
pub struct CostCenter {
    /// Not empty.
    pub code: CostCenterValue,
    /// Not empty.
    pub tenant_id: String,
    /// Four characters.
    pub controlling_area: String,
    /// One to 100 characters.
    pub name: String,
    pub category: CostCenterCategory,
    /// At most 50 characters.
    pub responsible_person: Option<String>,
    /// At most 50 characters.
    pub department: Option<String>,
    /// Four characters.
    pub company_code: Option<CompanyCodeValue>,
    pub profit_center: Option<String>,
    pub validity: ValidityRange,
    pub locked: bool,
    pub created_at: Timestamp,
    pub updated_at: Timestamp,
    pub extensions: Extensions,
    pub deleted: bool,
}

/// The fields of a cost center that break their rule, in declaration order.
pub open spec fn cost_center_failures(
    code: Seq<char>,
    tenant_id: Seq<char>,
    controlling_area: Seq<char>,
    name: Seq<char>,
    responsible_person: Option<Seq<char>>,
    department: Option<Seq<char>>,
    company_code: Option<Seq<char>>,
) -> Seq<FailureView> {
    Seq::empty()
        + length_failure(code, 1, None, "code"@, None)
        + length_failure(tenant_id, 1, None, "tenant_id"@, None)
        + length_failure(controlling_area, 4, Some(4), "controlling_area"@, None)
        + length_failure(name, 1, Some(100), "name"@, None)
        + opt_length_failure(responsible_person, 0, Some(50), "responsible_person"@, None)
        + opt_length_failure(department, 0, Some(50), "department"@, None)
        + opt_length_failure(company_code, 4, Some(4), "company_code"@, None)
}

/// The rules behind [`cost_center_failures`], stated on the lengths of the texts in
/// characters: nothing is reported exactly when every field keeps its bounds,
/// and a field that breaks them is reported with the rule's message and
/// bounds.
pub proof fn lemma_cost_center_rules(code: Seq<char>, tenant_id: Seq<char>, controlling_area: Seq<char>, name: Seq<char>, responsible_person: Option<Seq<char>>, department: Option<Seq<char>>, company_code: Option<Seq<char>>)
    ensures
        cost_center_failures(code, tenant_id, controlling_area, name, responsible_person, department, company_code).len() == 0 <==> (
            (1 <= code.len())
            && (1 <= tenant_id.len())
            && (4 <= controlling_area.len() && controlling_area.len() <= 4)
            && (1 <= name.len() && name.len() <= 100)
            && (responsible_person matches Some(t) ==> t.len() <= 50)
            && (department matches Some(t) ==> t.len() <= 50)
            && (company_code matches Some(t) ==> 4 <= t.len() && t.len() <= 4)
        ),
        !(1 <= code.len()) ==> cost_center_failures(code, tenant_id, controlling_area, name, responsible_person, department, company_code).contains(("code"@, None, Some(1usize), None)),
        !(1 <= tenant_id.len()) ==> cost_center_failures(code, tenant_id, controlling_area, name, responsible_person, department, company_code).contains(("tenant_id"@, None, Some(1usize), None)),
        !(4 <= controlling_area.len() && controlling_area.len() <= 4) ==> cost_center_failures(code, tenant_id, controlling_area, name, responsible_person, department, company_code).contains(("controlling_area"@, None, Some(4usize), Some(4usize))),
        !(1 <= name.len() && name.len() <= 100) ==> cost_center_failures(code, tenant_id, controlling_area, name, responsible_person, department, company_code).contains(("name"@, None, Some(1usize), Some(100usize))),
        (responsible_person matches Some(t) && !(t.len() <= 50)) ==> cost_center_failures(code, tenant_id, controlling_area, name, responsible_person, department, company_code).contains(("responsible_person"@, None, None, Some(50usize))),
        (department matches Some(t) && !(t.len() <= 50)) ==> cost_center_failures(code, tenant_id, controlling_area, name, responsible_person, department, company_code).contains(("department"@, None, None, Some(50usize))),
        (company_code matches Some(t) && !(4 <= t.len() && t.len() <= 4)) ==> cost_center_failures(code, tenant_id, controlling_area, name, responsible_person, department, company_code).contains(("company_code"@, None, Some(4usize), Some(4usize))),
{
    broadcast use vstd::seq_lib::lemma_seq_concat_contains_all_elements;
    assert({ let e: FailureView = ("code"@, None, Some(1usize), None); seq![e][0] == e });
    assert({ let e: FailureView = ("tenant_id"@, None, Some(1usize), None); seq![e][0] == e });
    assert({ let e: FailureView = ("controlling_area"@, None, Some(4usize), Some(4usize)); seq![e][0] == e });
    assert({ let e: FailureView = ("name"@, None, Some(1usize), Some(100usize)); seq![e][0] == e });
    assert({ let e: FailureView = ("responsible_person"@, None, None, Some(50usize)); seq![e][0] == e });
    assert({ let e: FailureView = ("department"@, None, None, Some(50usize)); seq![e][0] == e });
    assert({ let e: FailureView = ("company_code"@, None, Some(4usize), Some(4usize)); seq![e][0] == e });
}

impl CostCenter {
    /// The fields of this cost center that break their rule.
    pub open spec fn rule_failures(self) -> Seq<FailureView> {
        cost_center_failures(
            self.code@,
            self.tenant_id@,
            self.controlling_area@,
            self.name@,
            opt_text(self.responsible_person),
            opt_text(self.department),
            opt_text(self.company_code),
        )
    }

    /// The cost center may be used at `at`: neither deleted nor locked, and
    /// its validity span holds.
    pub open spec fn usable_at(self, at: Timestamp) -> bool {
        !self.deleted && !self.locked && self.validity.covers(at)
    }

    /// Checks every field rule.
    pub fn validate(&self) -> (r: Result<(), ValidationErrors>)
        ensures
            reports(r, self.rule_failures()),
    {
        let mut errs: Vec<FieldError> = Vec::new();
        assert(failures_view(errs@) =~= Seq::empty());
        check_field(&mut errs, self.code.as_str(), 1, None, "code", None);
        check_field(&mut errs, self.tenant_id.as_str(), 1, None, "tenant_id", None);
        check_field(&mut errs, self.controlling_area.as_str(), 4, Some(4), "controlling_area", None);
        check_field(&mut errs, self.name.as_str(), 1, Some(100), "name", None);
        check_opt_field(&mut errs, &self.responsible_person, 0, Some(50), "responsible_person", None);
        check_opt_field(&mut errs, &self.department, 0, Some(50), "department", None);
        check_opt_field(&mut errs, &self.company_code, 4, Some(4), "company_code", None);
        finish(errs)
    }

    /// A new, unlocked cost center stamped with the current time and valid
    /// from now on; refused when a field breaks its rule.
    pub fn new(
        tenant_id: String,
        code: CostCenterValue,
        controlling_area: String,
        name: String,
        category: CostCenterCategory,
    ) -> (r: Result<CostCenter, ValidationErrors>)
        ensures
            reports(r, cost_center_failures(code@, tenant_id@, controlling_area@, name@, None, None, None)),
            match r {
                Ok(c) => {
                    &&& c.code == code
                    &&& c.tenant_id == tenant_id
                    &&& c.controlling_area == controlling_area
                    &&& c.name == name
                    &&& c.category == category
                    &&& c.responsible_person is None
                    &&& c.department is None
                    &&& c.company_code is None
                    &&& c.profit_center is None
                    &&& c.validity.valid_to is None
                    &&& !c.locked
                    &&& c.created_at == c.updated_at
                    &&& c.extensions@ == JsonEntries::empty()
                    &&& !c.deleted
                },
                Err(_) => true,
            },
    {
        let now = read_clock().instant;
        let cost_center = CostCenter {
            code,
            tenant_id,
            controlling_area,
            name,
            category,
            responsible_person: None,
            department: None,
            company_code: None,
            profit_center: None,
            validity: ValidityRange::default(),
            locked: false,
            created_at: now,
            updated_at: now,
            extensions: Extensions::new(),
            deleted: false,
        };
        match cost_center.validate() {
            Ok(()) => Ok(cost_center),
            Err(e) => Err(e),
        }
    }

    /// Marks the cost center as deleted and stamps the change.
    pub fn mark_deleted(&mut self)
        ensures
            *final(self) == (CostCenter { deleted: true, updated_at: final(self).updated_at, ..*old(self) }),
    {
        self.deleted = true;
        self.updated_at = read_clock().instant;
    }

    /// Locks the cost center and stamps the change.
    pub fn lock(&mut self)
        ensures
            *final(self) == (CostCenter { locked: true, updated_at: final(self).updated_at, ..*old(self) }),
    {
        self.locked = true;
        self.updated_at = read_clock().instant;
    }

    /// Unlocks the cost center and stamps the change.
    pub fn unlock(&mut self)
        ensures
            *final(self) == (CostCenter { locked: false, updated_at: final(self).updated_at, ..*old(self) }),
    {
        self.locked = false;
        self.updated_at = read_clock().instant;
    }

    /// Whether the cost center may be used at `date`.
    pub fn is_valid_at(&self, date: Timestamp) -> (b: bool)
        ensures
            b == self.usable_at(date),
    {
        !self.deleted && !self.locked && self.validity.is_valid_at(date)
    }

    /// Whether the cost center may be used now (by the clock).
    pub fn is_currently_valid(&self) -> (b: bool)
        ensures
            exists|now: Timestamp| b == #[trigger] self.usable_at(now),
    {
        let reading = read_clock();
        let b = self.is_valid_at(reading.instant);
        assert(b == self.usable_at(reading.instant));
        b
    }

    /// Replaces the validity span and stamps the change.
    pub fn update_validity(&mut self, valid_from: Timestamp, valid_to: Option<Timestamp>)
        ensures
            *final(self) == (CostCenter {
                validity: ValidityRange { valid_from: valid_from, valid_to: valid_to },
                updated_at: final(self).updated_at,
                ..*old(self)
            }),
    {
        self.validity = ValidityRange::new(valid_from, valid_to);
        self.updated_at = read_clock().instant;
    }

    /// Assigns the cost center to a profit center and stamps the change.
    pub fn assign_profit_center(&mut self, profit_center: String)
        ensures
            *final(self) == (CostCenter {
                profit_center: Some(profit_center),
                updated_at: final(self).updated_at,
                ..*old(self)
            }),
    {
        self.profit_center = Some(profit_center);
        self.updated_at = read_clock().instant;
    }
}

/// A locked or deleted cost center may be used at no instant; once unlocked,
/// a cost center that is not deleted may be used exactly within its validity
/// span. Each state is the one `lock`, `unlock` and `mark_deleted` leave,
/// whatever time stamp they put on it.
pub proof fn lemma_cost_center_lock_blocks_use(c: CostCenter, stamp: Timestamp, at: Timestamp)
    ensures
        !(CostCenter { locked: true, updated_at: stamp, ..c }).usable_at(at),
        !(CostCenter { deleted: true, updated_at: stamp, ..c }).usable_at(at),
        (CostCenter { locked: false, updated_at: stamp, ..c }).usable_at(at) <==> (!c.deleted && c.validity.covers(at)),
{
}

// ---------------------------------------------------------------------------
// Profit center (CEPC)
// ---------------------------------------------------------------------------

/// A profit center, a unit responsible for profit.
#[derive(Clone, Debug, PartialEq, Eq)]
pub struct ProfitCenter {
    /// Four to ten characters.
    pub code: String,
    /// Not empty.
    pub tenant_id: String,
    /// Four characters.
    pub controlling_area: String,
    /// One to 100 characters.
    pub name: String,
    /// At most 50 characters.
    pub responsible_person: Option<String>,
    pub parent_profit_center: Option<String>,
    /// Four characters.
    pub company_code: Option<CompanyCodeValue>,
    pub validity: ValidityRange,
    pub locked: bool,
    pub created_at: Timestamp,
    pub updated_at: Timestamp,
    pub extensions: Extensions,
    pub deleted: bool,
}

/// The fields of a profit center that break their rule, in declaration
/// order.
pub open spec fn profit_center_failures(
    code: Seq<char>,
    tenant_id: Seq<char>,
    controlling_area: Seq<char>,
    name: Seq<char>,
    responsible_person: Option<Seq<char>>,
    company_code: Option<Seq<char>>,
) -> Seq<FailureView> {
    Seq::empty()
        + length_failure(code, 4, Some(10), "code"@, None)
        + length_failure(tenant_id, 1, None, "tenant_id"@, None)
        + length_failure(controlling_area, 4, Some(4), "controlling_area"@, None)
        + length_failure(name, 1, Some(100), "name"@, None)
        + opt_length_failure(responsible_person, 0, Some(50), "responsible_person"@, None)
        + opt_length_failure(company_code, 4, Some(4), "company_code"@, None)
}

/// The rules behind [`profit_center_failures`], stated on the lengths of the texts in
/// characters: nothing is reported exactly when every field keeps its bounds,
/// and a field that breaks them is reported with the rule's message and
/// bounds.
pub proof fn lemma_profit_center_rules(code: Seq<char>, tenant_id: Seq<char>, controlling_area: Seq<char>, name: Seq<char>, responsible_person: Option<Seq<char>>, company_code: Option<Seq<char>>)
    ensures
        profit_center_failures(code, tenant_id, controlling_area, name, responsible_person, company_code).len() == 0 <==> (
            (4 <= code.len() && code.len() <= 10)
            && (1 <= tenant_id.len())
            && (4 <= controlling_area.len() && controlling_area.len() <= 4)
            && (1 <= name.len() && name.len() <= 100)
            && (responsible_person matches Some(t) ==> t.len() <= 50)
            && (company_code matches Some(t) ==> 4 <= t.len() && t.len() <= 4)
        ),
        !(4 <= code.len() && code.len() <= 10) ==> profit_center_failures(code, tenant_id, controlling_area, name, responsible_person, company_code).contains(("code"@, None, Some(4usize), Some(10usize))),
        !(1 <= tenant_id.len()) ==> profit_center_failures(code, tenant_id, controlling_area, name, responsible_person, company_code).contains(("tenant_id"@, None, Some(1usize), None)),
        !(4 <= controlling_area.len() && controlling_area.len() <= 4) ==> profit_center_failures(code, tenant_id, controlling_area, name, responsible_person, company_code).contains(("controlling_area"@, None, Some(4usize), Some(4usize))),
        !(1 <= name.len() && name.len() <= 100) ==> profit_center_failures(code, tenant_id, controlling_area, name, responsible_person, company_code).contains(("name"@, None, Some(1usize), Some(100usize))),
        (responsible_person matches Some(t) && !(t.len() <= 50)) ==> profit_center_failures(code, tenant_id, controlling_area, name, responsible_person, company_code).contains(("responsible_person"@, None, None, Some(50usize))),
        (company_code matches Some(t) && !(4 <= t.len() && t.len() <= 4)) ==> profit_center_failures(code, tenant_id, controlling_area, name, responsible_person, company_code).contains(("company_code"@, None, Some(4usize), Some(4usize))),
{
    broadcast use vstd::seq_lib::lemma_seq_concat_contains_all_elements;
    assert({ let e: FailureView = ("code"@, None, Some(4usize), Some(10usize)); seq![e][0] == e });
    assert({ let e: FailureView = ("tenant_id"@, None, Some(1usize), None); seq![e][0] == e });
    assert({ let e: FailureView = ("controlling_area"@, None, Some(4usize), Some(4usize)); seq![e][0] == e });
    assert({ let e: FailureView = ("name"@, None, Some(1usize), Some(100usize)); seq![e][0] == e });
    assert({ let e: FailureView = ("responsible_person"@, None, None, Some(50usize)); seq![e][0] == e });
    assert({ let e: FailureView = ("company_code"@, None, Some(4usize), Some(4usize)); seq![e][0] == e });
}

impl ProfitCenter {
    /// The fields of this profit center that break their rule.
    pub open spec fn rule_failures(self) -> Seq<FailureView> {
        profit_center_failures(
            self.code@,
            self.tenant_id@,
            self.controlling_area@,
            self.name@,
            opt_text(self.responsible_person),
            opt_text(self.company_code),
        )
    }

    /// The profit center may be used at `at`: neither deleted nor locked, and
    /// its validity span holds.
    pub open spec fn usable_at(self, at: Timestamp) -> bool {
        !self.deleted && !self.locked && self.validity.covers(at)
    }

    /// Checks every field rule.
    pub fn validate(&self) -> (r: Result<(), ValidationErrors>)
        ensures
            reports(r, self.rule_failures()),
    {
        let mut errs: Vec<FieldError> = Vec::new();
        assert(failures_view(errs@) =~= Seq::empty());
        check_field(&mut errs, self.code.as_str(), 4, Some(10), "code", None);
        check_field(&mut errs, self.tenant_id.as_str(), 1, None, "tenant_id", None);
        check_field(&mut errs, self.controlling_area.as_str(), 4, Some(4), "controlling_area", None);
        check_field(&mut errs, self.name.as_str(), 1, Some(100), "name", None);
        check_opt_field(&mut errs, &self.responsible_person, 0, Some(50), "responsible_person", None);
        check_opt_field(&mut errs, &self.company_code, 4, Some(4), "company_code", None);
        finish(errs)
    }

    /// A new, unlocked profit center stamped with the current time and valid
    /// from now on; refused when a field breaks its rule.
    pub fn new(
        tenant_id: String,
        code: String,
        controlling_area: String,
        name: String,
    ) -> (r: Result<ProfitCenter, ValidationErrors>)
        ensures
            reports(r, profit_center_failures(code@, tenant_id@, controlling_area@, name@, None, None)),
            match r {
                Ok(p) => {
                    &&& p.code == code
                    &&& p.tenant_id == tenant_id
                    &&& p.controlling_area == controlling_area
                    &&& p.name == name
                    &&& p.responsible_person is None
                    &&& p.parent_profit_center is None
                    &&& p.company_code is None
                    &&& p.validity.valid_to is None
                    &&& !p.locked
                    &&& p.created_at == p.updated_at
                    &&& p.extensions@ == JsonEntries::empty()
                    &&& !p.deleted
                },
                Err(_) => true,
            },
    {
        let now = read_clock().instant;
        let profit_center = ProfitCenter {
            code,
            tenant_id,
            controlling_area,
            name,
            responsible_person: None,
            parent_profit_center: None,
            company_code: None,
            validity: ValidityRange::default(),
            locked: false,
            created_at: now,
            updated_at: now,
            extensions: Extensions::new(),
            deleted: false,
        };
        match profit_center.validate() {
            Ok(()) => Ok(profit_center),
            Err(e) => Err(e),
        }
    }

    /// Marks the profit center as deleted and stamps the change.
    pub fn mark_deleted(&mut self)
        ensures
            *final(self) == (ProfitCenter { deleted: true, updated_at: final(self).updated_at, ..*old(self) }),
    {
        self.deleted = true;
        self.updated_at = read_clock().instant;
    }

    /// Locks the profit center and stamps the change.
    pub fn lock(&mut self)
        ensures
            *final(self) == (ProfitCenter { locked: true, updated_at: final(self).updated_at, ..*old(self) }),
    {
        self.locked = true;
        self.updated_at = read_clock().instant;
    }

    /// Unlocks the profit center and stamps the change.
    pub fn unlock(&mut self)
        ensures
            *final(self) == (ProfitCenter { locked: false, updated_at: final(self).updated_at, ..*old(self) }),
    {
        self.locked = false;
        self.updated_at = read_clock().instant;
    }

    /// Whether the profit center may be used at `date`.
    pub fn is_valid_at(&self, date: Timestamp) -> (b: bool)
        ensures
            b == self.usable_at(date),
    {
        !self.deleted && !self.locked && self.validity.is_valid_at(date)
    }

    /// Whether the profit center may be used now (by the clock).
    pub fn is_currently_valid(&self) -> (b: bool)
        ensures
            exists|now: Timestamp| b == #[trigger] self.usable_at(now),
    {
        let reading = read_clock();
        let b = self.is_valid_at(reading.instant);
        assert(b == self.usable_at(reading.instant));
        b
    }

    /// Replaces the validity span and stamps the change.
    pub fn update_validity(&mut self, valid_from: Timestamp, valid_to: Option<Timestamp>)
        ensures
            *final(self) == (ProfitCenter {
                validity: ValidityRange { valid_from: valid_from, valid_to: valid_to },
                updated_at: final(self).updated_at,
                ..*old(self)
            }),
    {
        self.validity = ValidityRange::new(valid_from, valid_to);
        self.updated_at = read_clock().instant;
    }

    /// Sets the parent profit center and stamps the change.
    pub fn set_parent(&mut self, parent: String)
        ensures
            *final(self) == (ProfitCenter {
                parent_profit_center: Some(parent),
                updated_at: final(self).updated_at,
                ..*old(self)
            }),
    {
        self.parent_profit_center = Some(parent);
        self.updated_at = read_clock().instant;
    }
}

/// A locked or deleted profit center may be used at no instant; once
/// unlocked, a profit center that is not deleted may be used exactly within
/// its validity span.
pub proof fn lemma_profit_center_lock_blocks_use(p: ProfitCenter, stamp: Timestamp, at: Timestamp)
    ensures
        !(ProfitCenter { locked: true, updated_at: stamp, ..p }).usable_at(at),
        !(ProfitCenter { deleted: true, updated_at: stamp, ..p }).usable_at(at),
        (ProfitCenter { locked: false, updated_at: stamp, ..p }).usable_at(at) <==> (!p.deleted && p.validity.covers(at)),
{
}

// ---------------------------------------------------------------------------
// Cost element (CSKB)
// ---------------------------------------------------------------------------

/// The category of a cost element.
#[derive(Clone, Copy, Debug, PartialEq, Eq, Structural)]
pub enum CostElementCategory {
    /// A primary cost element, mirroring a general ledger account.
    Primary,
    /// A secondary cost element, for internal allocation.
    Secondary,
    /// A revenue element.
    Revenue,
}

/// A cost element, the basic classification of costs.
#[derive(Clone, Debug, PartialEq, Eq)]
pub struct CostElement {
    /// Not empty.
    pub code: AccountCode,
    /// Not empty.
    pub tenant_id: String,
    /// Four characters.
    pub controlling_area: String,
    /// One to 100 characters.
    pub name: String,
    pub category: CostElementCategory,
    /// Only primary cost elements carry one.
    pub gl_account: Option<AccountCode>,
    pub validity: ValidityRange,
    pub created_at: Timestamp,
    pub updated_at: Timestamp,
    pub extensions: Extensions,
    pub deleted: bool,
}

/// The fields of a cost element that break their rule, in declaration order.
pub open spec fn cost_element_failures(
    code: Seq<char>,
    tenant_id: Seq<char>,
    controlling_area: Seq<char>,
    name: Seq<char>,
) -> Seq<FailureView> {
    Seq::empty()
        + length_failure(code, 1, None, "code"@, None)
        + length_failure(tenant_id, 1, None, "tenant_id"@, None)
        + length_failure(controlling_area, 4, Some(4), "controlling_area"@, None)
        + length_failure(name, 1, Some(100), "name"@, None)
}

/// The rules behind [`cost_element_failures`], stated on the lengths of the texts in
/// characters: nothing is reported exactly when every field keeps its bounds,
/// and a field that breaks them is reported with the rule's message and
/// bounds.
pub proof fn lemma_cost_element_rules(code: Seq<char>, tenant_id: Seq<char>, controlling_area: Seq<char>, name: Seq<char>)
    ensures
        cost_element_failures(code, tenant_id, controlling_area, name).len() == 0 <==> (
            (1 <= code.len())
            && (1 <= tenant_id.len())
            && (4 <= controlling_area.len() && controlling_area.len() <= 4)
            && (1 <= name.len() && name.len() <= 100)
        ),
        !(1 <= code.len()) ==> cost_element_failures(code, tenant_id, controlling_area, name).contains(("code"@, None, Some(1usize), None)),
        !(1 <= tenant_id.len()) ==> cost_element_failures(code, tenant_id, controlling_area, name).contains(("tenant_id"@, None, Some(1usize), None)),
        !(4 <= controlling_area.len() && controlling_area.len() <= 4) ==> cost_element_failures(code, tenant_id, controlling_area, name).contains(("controlling_area"@, None, Some(4usize), Some(4usize))),
        !(1 <= name.len() && name.len() <= 100) ==> cost_element_failures(code, tenant_id, controlling_area, name).contains(("name"@, None, Some(1usize), Some(100usize))),
{
    broadcast use vstd::seq_lib::lemma_seq_concat_contains_all_elements;
    assert({ let e: FailureView = ("code"@, None, Some(1usize), None); seq![e][0] == e });
    assert({ let e: FailureView = ("tenant_id"@, None, Some(1usize), None); seq![e][0] == e });
    assert({ let e: FailureView = ("controlling_area"@, None, Some(4usize), Some(4usize)); seq![e][0] == e });
    assert({ let e: FailureView = ("name"@, None, Some(1usize), Some(100usize)); seq![e][0] == e });
}

/// The message of the refusal to link a general ledger account to a cost
/// element that is not primary.
pub open spec fn gl_link_refusal() -> Seq<char> {
    "Only primary cost elements can be linked to GL accounts"@
}

impl CostElement {
    /// The fields of this cost element that break their rule.
    pub open spec fn rule_failures(self) -> Seq<FailureView> {
        cost_element_failures(self.code@, self.tenant_id@, self.controlling_area@, self.name@)
    }

    /// The cost element may be used at `at`: not deleted, and its validity
    /// span holds.
    pub open spec fn usable_at(self, at: Timestamp) -> bool {
        !self.deleted && self.validity.covers(at)
    }

    /// Checks every field rule.
    pub fn validate(&self) -> (r: Result<(), ValidationErrors>)
        ensures
            reports(r, self.rule_failures()),
    {
        let mut errs: Vec<FieldError> = Vec::new();
        assert(failures_view(errs@) =~= Seq::empty());
        check_field(&mut errs, self.code.as_str(), 1, None, "code", None);
        check_field(&mut errs, self.tenant_id.as_str(), 1, None, "tenant_id", None);
        check_field(&mut errs, self.controlling_area.as_str(), 4, Some(4), "controlling_area", None);
        check_field(&mut errs, self.name.as_str(), 1, Some(100), "name", None);
        finish(errs)
    }

    /// A new cost element without a general ledger account, stamped with the
    /// current time and valid from now on; refused when a field breaks its
    /// rule.
    pub fn new(
        tenant_id: String,
        code: AccountCode,
        controlling_area: String,
        name: String,
        category: CostElementCategory,
    ) -> (r: Result<CostElement, ValidationErrors>)
        ensures
            reports(r, cost_element_failures(code@, tenant_id@, controlling_area@, name@)),
            match r {
                Ok(e) => {
                    &&& e.code == code
                    &&& e.tenant_id == tenant_id
                    &&& e.controlling_area == controlling_area
                    &&& e.name == name
                    &&& e.category == category
                    &&& e.gl_account is None
                    &&& e.validity.valid_to is None
                    &&& e.created_at == e.updated_at
                    &&& e.extensions@ == JsonEntries::empty()
                    &&& !e.deleted
                },
                Err(_) => true,
            },
    {
        let now = read_clock().instant;
        let cost_element = CostElement {
            code,
            tenant_id,
            controlling_area,
            name,
            category,
            gl_account: None,
            validity: ValidityRange::default(),
            created_at: now,
            updated_at: now,
            extensions: Extensions::new(),
            deleted: false,
        };
        match cost_element.validate() {
            Ok(()) => Ok(cost_element),
            Err(e) => Err(e),
        }
    }

    /// Marks the cost element as deleted and stamps the change.
    pub fn mark_deleted(&mut self)
        ensures
            *final(self) == (CostElement { deleted: true, updated_at: final(self).updated_at, ..*old(self) }),
    {
        self.deleted = true;
        self.updated_at = read_clock().instant;
    }

    /// Whether the cost element may be used at `date`.
    pub fn is_valid_at(&self, date: Timestamp) -> (b: bool)
        ensures
            b == self.usable_at(date),
    {
        !self.deleted && self.validity.is_valid_at(date)
    }

    /// Whether the cost element may be used now (by the clock).
    pub fn is_currently_valid(&self) -> (b: bool)
        ensures
            exists|now: Timestamp| b == #[trigger] self.usable_at(now),
    {
        let reading = read_clock();
        let b = self.is_valid_at(reading.instant);
        assert(b == self.usable_at(reading.instant));
        b
    }

    /// Replaces the validity span and stamps the change.
    pub fn update_validity(&mut self, valid_from: Timestamp, valid_to: Option<Timestamp>)
        ensures
            *final(self) == (CostElement {
                validity: ValidityRange { valid_from: valid_from, valid_to: valid_to },
                updated_at: final(self).updated_at,
                ..*old(self)
            }),
    {
        self.validity = ValidityRange::new(valid_from, valid_to);
        self.updated_at = read_clock().instant;
    }

    /// Links a general ledger account. Only a primary cost element takes one;
    /// any other is refused and left as it was.
    pub fn link_gl_account(&mut self, gl_account: AccountCode) -> (r: Result<(), CostCenterError>)
        ensures
            r is Ok <==> old(self).category == CostElementCategory::Primary,
            r is Ok ==> *final(self) == (CostElement {
                gl_account: Some(gl_account),
                updated_at: final(self).updated_at,
                ..*old(self)
            }),
            match r {
                Err(CostCenterError::ValidationFailed { message }) => message@ == gl_link_refusal() && *final(self) == *old(self),
                Err(_) => false,
                Ok(()) => true,
            },
    {
        match self.category {
            CostElementCategory::Primary => {},
            _ => {
                return Err(CostCenterError::ValidationFailed {
                    message: "Only primary cost elements can be linked to GL accounts".to_owned(),
                });
            },
        }
        self.gl_account = Some(gl_account);
        self.updated_at = read_clock().instant;
        Ok(())
    }
}

/// A cost center may be used at an instant exactly when it is neither deleted nor locked
/// and the instant lies between the first and, where there is one, the last
/// instant of its validity span, both included (instants ordered by second,
/// then nanosecond); so one whose span ended before the instant cannot be
/// used.
pub proof fn lemma_cost_center_usable_exactly(c: CostCenter, at: Timestamp)
    ensures
        c.usable_at(at) <==> (
            !c.deleted && !c.locked
            && (c.validity.valid_from.secs < at.secs
                || (c.validity.valid_from.secs == at.secs && c.validity.valid_from.nanos <= at.nanos))
            && (c.validity.valid_to matches Some(t) ==> (at.secs < t.secs || (at.secs == t.secs && at.nanos <= t.nanos)))
        ),
        c.validity.valid_to matches Some(t) && (t.secs < at.secs || (t.secs == at.secs && t.nanos < at.nanos))
            ==> !c.usable_at(at),
{
}

/// A profit center may be used at an instant exactly when it is neither deleted nor locked
/// and the instant lies between the first and, where there is one, the last
/// instant of its validity span, both included (instants ordered by second,
/// then nanosecond); so one whose span ended before the instant cannot be
/// used.
pub proof fn lemma_profit_center_usable_exactly(p: ProfitCenter, at: Timestamp)
    ensures
        p.usable_at(at) <==> (
            !p.deleted && !p.locked
            && (p.validity.valid_from.secs < at.secs
                || (p.validity.valid_from.secs == at.secs && p.validity.valid_from.nanos <= at.nanos))
            && (p.validity.valid_to matches Some(t) ==> (at.secs < t.secs || (at.secs == t.secs && at.nanos <= t.nanos)))
        ),
        p.validity.valid_to matches Some(t) && (t.secs < at.secs || (t.secs == at.secs && t.nanos < at.nanos))
            ==> !p.usable_at(at),
{
}

/// A cost element (which cannot be locked) may be used at an instant exactly
/// when it is not deleted and the instant lies between the first and, where there is one, the last
/// instant of its validity span, both included (instants ordered by second,
/// then nanosecond); so one whose span ended before the instant cannot be
/// used.
pub proof fn lemma_cost_element_usable_exactly(e: CostElement, at: Timestamp)
    ensures
        e.usable_at(at) <==> (
            !e.deleted
            && (e.validity.valid_from.secs < at.secs
                || (e.validity.valid_from.secs == at.secs && e.validity.valid_from.nanos <= at.nanos))
            && (e.validity.valid_to matches Some(t) ==> (at.secs < t.secs || (at.secs == t.secs && at.nanos <= t.nanos)))
        ),
        e.validity.valid_to matches Some(t) && (t.secs < at.secs || (t.secs == at.secs && t.nanos < at.nanos))
            ==> !e.usable_at(at),
{
}

// ---------------------------------------------------------------------------
// Change events
// ---------------------------------------------------------------------------

/// The kind of change an event reports.
#[derive(Clone, Copy, Debug, PartialEq, Eq, Structural)]
pub enum ChangeEventType {
    Created,
    Updated,
    Deleted,
    Locked,
    Unlocked,
    ValidityChanged,
}

/// One changed field with its value before and after.
#[derive(Clone, Debug, PartialEq, Eq)]
pub struct FieldDelta {
    pub field_name: String,
    pub old_value: Option<serde_json::Value>,
    pub new_value: Option<serde_json::Value>,
}

/// The header every change event carries.
#[derive(Clone, Debug, PartialEq, Eq)]
pub struct ChangeEventHeader {
    pub event_id: Uuid,
    pub tenant_id: String,
    pub timestamp: Timestamp,
    pub actor_id: String,
    pub event_type: ChangeEventType,
    pub version: i32,
    pub correlation_id: Option<Uuid>,
}

impl ChangeEventHeader {
    /// A header of version 1 with a fresh random identifier, stamped with the
    /// current time and without a correlation identifier.
    pub fn new(tenant_id: String, actor_id: String, event_type: ChangeEventType) -> (h: ChangeEventHeader)
        ensures
            is_random_uuid(h.event_id),
            h.tenant_id == tenant_id,
            h.actor_id == actor_id,
            h.event_type == event_type,
            h.version == 1,
            h.correlation_id is None,
    {
        ChangeEventHeader {
            event_id: random_uuid(),
            tenant_id,
            timestamp: read_clock().instant,
            actor_id,
            event_type,
            version: 1,
            correlation_id: None,
        }
    }
}

/// A change of a cost center.
#[derive(Clone, Debug)]
pub struct CostCenterChangedEvent {
    pub header: ChangeEventHeader,
    pub code: CostCenterValue,
    pub changes: Vec<FieldDelta>,
    pub validity_change: Option<ValidityRange>,
    pub snapshot: Option<CostCenter>,
}

/// A change of a profit center.
#[derive(Clone, Debug)]
pub struct ProfitCenterChangedEvent {
    pub header: ChangeEventHeader,
    pub code: String,
    pub changes: Vec<FieldDelta>,
    pub validity_change: Option<ValidityRange>,
    pub snapshot: Option<ProfitCenter>,
}

/// A change of a cost element.
#[derive(Clone, Debug)]
pub struct CostElementChangedEvent {
    pub header: ChangeEventHeader,
    pub code: AccountCode,
    pub changes: Vec<FieldDelta>,
    pub snapshot: Option<CostElement>,
}

} // verus!

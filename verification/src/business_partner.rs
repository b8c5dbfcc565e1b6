//! Business partners: one core entity per partner, with customer and
//! supplier roles attached to it.

use vstd::prelude::*;

use crate::extensions::{Extensions, JsonEntries};
use crate::primitives::{random_uuid, is_random_uuid, AccountCode, Money, Uuid};
use crate::time::{read_clock, Timestamp};
use crate::validation::{
    check_field, check_opt_field, failures_view, finish, length_failure, opt_length_failure, opt_text,
    reports, FailureView, FieldError, ValidationErrors, ValidationResult,
};

verus! {

// ---------------------------------------------------------------------------
// Errors
// ---------------------------------------------------------------------------

/// Errors of the business partner data.
#[derive(Clone, Debug, PartialEq, Eq)]
pub enum BusinessPartnerError {
    PartnerNotFound { id: String },
    CustomerRoleNotFound { partner_id: String },
    SupplierRoleNotFound { partner_id: String },
    InvalidPartnerId { id: String },
    ValidationFailed { message: String },
    RoleConflict { message: String },
}

/// The outcome of an operation on business partner data.
pub type BusinessPartnerResult<T> = Result<T, BusinessPartnerError>;

// ---------------------------------------------------------------------------
// Partner and address
// ---------------------------------------------------------------------------

/// Whether a partner is a person or an organization.
#[derive(Clone, Copy, Debug, PartialEq, Eq, Structural)]
pub enum PartnerType {
    Person,
    Organization,
}

/// A postal address.
#[derive(Clone, Debug, PartialEq, Eq)]
pub struct Address {
    /// At most 200 characters.
    pub street: Option<String>,
    /// At most 50 characters.
    pub city: Option<String>,
    /// At most 20 characters.
    pub postal_code: Option<String>,
    /// Two or three characters (ISO 3166).
    pub country: String,
    pub region: Option<String>,
}

/// The fields of an address that break their rule, in declaration order.
pub open spec fn address_failures(
    street: Option<Seq<char>>,
    city: Option<Seq<char>>,
    postal_code: Option<Seq<char>>,
    country: Seq<char>,
) -> Seq<FailureView> {
    Seq::empty()
        + opt_length_failure(street, 0, Some(200), "street"@, None)
        + opt_length_failure(city, 0, Some(50), "city"@, None)
        + opt_length_failure(postal_code, 0, Some(20), "postal_code"@, None)
        + length_failure(country, 2, Some(3), "country"@, None)
}

/// The rules behind [`address_failures`], stated on the lengths of the texts in
/// characters: nothing is reported exactly when every field keeps its bounds,
/// and a field that breaks them is reported with the rule's message and
/// bounds.
pub proof fn lemma_address_rules(street: Option<Seq<char>>, city: Option<Seq<char>>, postal_code: Option<Seq<char>>, country: Seq<char>)
    ensures
        address_failures(street, city, postal_code, country).len() == 0 <==> (
            (street matches Some(t) ==> t.len() <= 200)
            && (city matches Some(t) ==> t.len() <= 50)
            && (postal_code matches Some(t) ==> t.len() <= 20)
            && (2 <= country.len() && country.len() <= 3)
        ),
        (street matches Some(t) && !(t.len() <= 200)) ==> address_failures(street, city, postal_code, country).contains(("street"@, None, None, Some(200usize))),
        (city matches Some(t) && !(t.len() <= 50)) ==> address_failures(street, city, postal_code, country).contains(("city"@, None, None, Some(50usize))),
        (postal_code matches Some(t) && !(t.len() <= 20)) ==> address_failures(street, city, postal_code, country).contains(("postal_code"@, None, None, Some(20usize))),
        !(2 <= country.len() && country.len() <= 3) ==> address_failures(street, city, postal_code, country).contains(("country"@, None, Some(2usize), Some(3usize))),
{
    broadcast use vstd::seq_lib::lemma_seq_concat_contains_all_elements;
    assert({ let e: FailureView = ("street"@, None, None, Some(200usize)); seq![e][0] == e });
    assert({ let e: FailureView = ("city"@, None, None, Some(50usize)); seq![e][0] == e });
    assert({ let e: FailureView = ("postal_code"@, None, None, Some(20usize)); seq![e][0] == e });
    assert({ let e: FailureView = ("country"@, None, Some(2usize), Some(3usize)); seq![e][0] == e });
}

impl Address {
    /// The fields of this address that break their rule.
    pub open spec fn rule_failures(self) -> Seq<FailureView> {
        address_failures(opt_text(self.street), opt_text(self.city), opt_text(self.postal_code), self.country@)
    }

    /// An address that names only its country.
    pub fn new(country: String) -> (a: Address)
        ensures
            a.country == country,
            a.street is None,
            a.city is None,
            a.postal_code is None,
            a.region is None,
    {
        Address { street: None, city: None, postal_code: None, country, region: None }
    }

    /// Checks every field rule.
    pub fn validate(&self) -> (r: Result<(), ValidationErrors>)
        ensures
            reports(r, self.rule_failures()),
    {
        let mut errs: Vec<FieldError> = Vec::new();
        assert(failures_view(errs@) =~= Seq::empty());
        check_opt_field(&mut errs, &self.street, 0, Some(200), "street", None);
        check_opt_field(&mut errs, &self.city, 0, Some(50), "city", None);
        check_opt_field(&mut errs, &self.postal_code, 0, Some(20), "postal_code", None);
        check_field(&mut errs, self.country.as_str(), 2, Some(3), "country", None);
        finish(errs)
    }
}

/// A business partner: a customer, a supplier or another party.
#[derive(Clone, Debug, PartialEq, Eq)]
pub struct BusinessPartner {
    /// At least one character.
    pub id: String,
    /// At least one character.
    pub tenant_id: String,
    /// One to 200 characters.
    pub name: String,
    pub partner_type: PartnerType,
    pub address: Address,
    /// At most 50 characters.
    pub tax_number: Option<String>,
    /// Two or three characters (ISO 639).
    pub language: Option<String>,
    pub created_at: Timestamp,
    pub updated_at: Timestamp,
    pub extensions: Extensions,
    pub deleted: bool,
}

/// The fields of a business partner that break their rule, in declaration
/// order. The address is not looked into.
pub open spec fn partner_failures(
    id: Seq<char>,
    tenant_id: Seq<char>,
    name: Seq<char>,
    tax_number: Option<Seq<char>>,
    language: Option<Seq<char>>,
) -> Seq<FailureView> {
    Seq::empty()
        + length_failure(id, 1, None, "id"@, None)
        + length_failure(tenant_id, 1, None, "tenant_id"@, None)
        + length_failure(name, 1, Some(200), "name"@, None)
        + opt_length_failure(tax_number, 0, Some(50), "tax_number"@, None)
        + opt_length_failure(language, 2, Some(3), "language"@, None)
}

/// The rules behind [`partner_failures`], stated on the lengths of the texts in
/// characters: nothing is reported exactly when every field keeps its bounds,
/// and a field that breaks them is reported with the rule's message and
/// bounds.
pub proof fn lemma_partner_rules(id: Seq<char>, tenant_id: Seq<char>, name: Seq<char>, tax_number: Option<Seq<char>>, language: Option<Seq<char>>)
    ensures
        partner_failures(id, tenant_id, name, tax_number, language).len() == 0 <==> (
            (1 <= id.len())
            && (1 <= tenant_id.len())
            && (1 <= name.len() && name.len() <= 200)
            && (tax_number matches Some(t) ==> t.len() <= 50)
            && (language matches Some(t) ==> 2 <= t.len() && t.len() <= 3)
        ),
        !(1 <= id.len()) ==> partner_failures(id, tenant_id, name, tax_number, language).contains(("id"@, None, Some(1usize), None)),
        !(1 <= tenant_id.len()) ==> partner_failures(id, tenant_id, name, tax_number, language).contains(("tenant_id"@, None, Some(1usize), None)),
        !(1 <= name.len() && name.len() <= 200) ==> partner_failures(id, tenant_id, name, tax_number, language).contains(("name"@, None, Some(1usize), Some(200usize))),
        (tax_number matches Some(t) && !(t.len() <= 50)) ==> partner_failures(id, tenant_id, name, tax_number, language).contains(("tax_number"@, None, None, Some(50usize))),
        (language matches Some(t) && !(2 <= t.len() && t.len() <= 3)) ==> partner_failures(id, tenant_id, name, tax_number, language).contains(("language"@, None, Some(2usize), Some(3usize))),
{
    broadcast use vstd::seq_lib::lemma_seq_concat_contains_all_elements;
    assert({ let e: FailureView = ("id"@, None, Some(1usize), None); seq![e][0] == e });
    assert({ let e: FailureView = ("tenant_id"@, None, Some(1usize), None); seq![e][0] == e });
    assert({ let e: FailureView = ("name"@, None, Some(1usize), Some(200usize)); seq![e][0] == e });
    assert({ let e: FailureView = ("tax_number"@, None, None, Some(50usize)); seq![e][0] == e });
    assert({ let e: FailureView = ("language"@, None, Some(2usize), Some(3usize)); seq![e][0] == e });
}

impl BusinessPartner {
    /// The fields of this partner that break their rule.
    pub open spec fn rule_failures(self) -> Seq<FailureView> {
        partner_failures(self.id@, self.tenant_id@, self.name@, opt_text(self.tax_number), opt_text(self.language))
    }

    /// Checks every field rule.
    pub fn validate(&self) -> (r: Result<(), ValidationErrors>)
        ensures
            reports(r, self.rule_failures()),
    {
        let mut errs: Vec<FieldError> = Vec::new();
        assert(failures_view(errs@) =~= Seq::empty());
        check_field(&mut errs, self.id.as_str(), 1, None, "id", None);
        check_field(&mut errs, self.tenant_id.as_str(), 1, None, "tenant_id", None);
        check_field(&mut errs, self.name.as_str(), 1, Some(200), "name", None);
        check_opt_field(&mut errs, &self.tax_number, 0, Some(50), "tax_number", None);
        check_opt_field(&mut errs, &self.language, 2, Some(3), "language", None);
        finish(errs)
    }

    /// A new partner located in China and speaking Chinese, stamped with the
    /// current time. The field rules are not checked here, so it always
    /// succeeds.
    pub fn new(
        tenant_id: String,
        id: String,
        name: String,
        partner_type: PartnerType,
    ) -> (r: ValidationResult<BusinessPartner>)
        ensures
            match r {
                Ok(p) => {
                    &&& p.id == id
                    &&& p.tenant_id == tenant_id
                    &&& p.name == name
                    &&& p.partner_type == partner_type
                    &&& p.address.country@ == "CN"@
                    &&& p.address.street is None
                    &&& p.address.city is None
                    &&& p.address.postal_code is None
                    &&& p.address.region is None
                    &&& p.tax_number is None
                    &&& p.language matches Some(l) && l@ == "zh"@
                    &&& p.created_at == p.updated_at
                    &&& p.extensions@ == JsonEntries::empty()
                    &&& !p.deleted
                },
                Err(_) => false,
            },
    {
        let now = read_clock().instant;
        Ok(BusinessPartner {
            id,
            tenant_id,
            name,
            partner_type,
            address: Address::new("CN".to_owned()),
            tax_number: None,
            language: Some("zh".to_owned()),
            created_at: now,
            updated_at: now,
            extensions: Extensions::new(),
            deleted: false,
        })
    }

    /// Marks the partner as deleted and stamps the change.
    pub fn mark_deleted(&mut self)
        ensures
            *final(self) == (BusinessPartner { deleted: true, updated_at: final(self).updated_at, ..*old(self) }),
    {
        self.deleted = true;
        self.updated_at = read_clock().instant;
    }

    /// Renames the partner and stamps the change; the name is not checked,
    /// so it always succeeds.
    pub fn update_name(&mut self, name: String) -> (r: ValidationResult<()>)
        ensures
            r is Ok,
            *final(self) == (BusinessPartner { name: name, updated_at: final(self).updated_at, ..*old(self) }),
    {
        self.name = name;
        self.updated_at = read_clock().instant;
        Ok(())
    }

    /// Replaces the address and stamps the change; the address is not
    /// checked, so it always succeeds.
    pub fn update_address(&mut self, address: Address) -> (r: ValidationResult<()>)
        ensures
            r is Ok,
            *final(self) == (BusinessPartner { address: address, updated_at: final(self).updated_at, ..*old(self) }),
    {
        self.address = address;
        self.updated_at = read_clock().instant;
        Ok(())
    }
}

// ---------------------------------------------------------------------------
// Blocking
// ---------------------------------------------------------------------------

/// Which business is blocked with a partner.
#[derive(Clone, Copy, Debug, PartialEq, Eq, Structural)]
pub enum BlockStatus {
    Unblocked,
    OrderBlocked,
    DeliveryBlocked,
    InvoiceBlocked,
    FullyBlocked,
}

impl Default for BlockStatus {
    /// Nothing is blocked.
    fn default() -> (r: BlockStatus)
        ensures
            r == BlockStatus::Unblocked,
    {
        BlockStatus::Unblocked
    }
}

/// Any status but `Unblocked` blocks something.
pub open spec fn blocks_something(status: BlockStatus) -> bool {
    status != BlockStatus::Unblocked
}

/// Only the status `Unblocked` leaves a partner unblocked: blocking orders,
/// deliveries, invoices or everything each counts as blocked.
pub proof fn lemma_blocked_unless_unblocked(status: BlockStatus)
    ensures
        !blocks_something(status) <==> status is Unblocked,
        !blocks_something(BlockStatus::Unblocked),
        blocks_something(BlockStatus::OrderBlocked),
        blocks_something(BlockStatus::DeliveryBlocked),
        blocks_something(BlockStatus::InvoiceBlocked),
        blocks_something(BlockStatus::FullyBlocked),
{
}

/// After a customer's block status is set, the customer is blocked exactly
/// when the new status is not `Unblocked`, whatever it was before.
pub proof fn lemma_customer_block_status_decides(c: CustomerRole, status: BlockStatus, stamp: Timestamp)
    ensures
        blocks_something((CustomerRole { block_status: status, updated_at: stamp, ..c }).block_status)
            <==> !(status is Unblocked),
{
}

/// After a supplier's block status is set, the supplier is blocked exactly
/// when the new status is not `Unblocked`, whatever it was before.
pub proof fn lemma_supplier_block_status_decides(r: SupplierRole, status: BlockStatus, stamp: Timestamp)
    ensures
        blocks_something((SupplierRole { block_status: status, updated_at: stamp, ..r }).block_status)
            <==> !(status is Unblocked),
{
}

// ---------------------------------------------------------------------------
// Customer role (KNA1)
// ---------------------------------------------------------------------------

/// The customer role of a partner.
#[derive(Clone, Debug, PartialEq, Eq)]
pub struct CustomerRole {
    pub partner_id: String,
    pub tenant_id: String,
    pub sales_org: String,
    pub payment_terms: String,
    pub credit_limit: Money,
    pub block_status: BlockStatus,
    pub customer_group: Option<String>,
    pub price_group: Option<String>,
    pub created_at: Timestamp,
    pub updated_at: Timestamp,
    pub extensions: Extensions,
    pub deleted: bool,
}

impl CustomerRole {
    /// A new, unblocked customer role stamped with the current time; nothing
    /// is checked, so it always succeeds.
    pub fn new(
        tenant_id: String,
        partner_id: String,
        sales_org: String,
        payment_terms: String,
        credit_limit: Money,
    ) -> (r: ValidationResult<CustomerRole>)
        ensures
            match r {
                Ok(c) => {
                    &&& c.partner_id == partner_id
                    &&& c.tenant_id == tenant_id
                    &&& c.sales_org == sales_org
                    &&& c.payment_terms == payment_terms
                    &&& c.credit_limit == credit_limit
                    &&& c.block_status == BlockStatus::Unblocked
                    &&& c.customer_group is None
                    &&& c.price_group is None
                    &&& c.created_at == c.updated_at
                    &&& c.extensions@ == JsonEntries::empty()
                    &&& !c.deleted
                },
                Err(_) => false,
            },
    {
        let now = read_clock().instant;
        Ok(CustomerRole {
            partner_id,
            tenant_id,
            sales_org,
            payment_terms,
            credit_limit,
            block_status: BlockStatus::Unblocked,
            customer_group: None,
            price_group: None,
            created_at: now,
            updated_at: now,
            extensions: Extensions::new(),
            deleted: false,
        })
    }

    /// Marks the role as deleted and stamps the change.
    pub fn mark_deleted(&mut self)
        ensures
            *final(self) == (CustomerRole { deleted: true, updated_at: final(self).updated_at, ..*old(self) }),
    {
        self.deleted = true;
        self.updated_at = read_clock().instant;
    }

    /// Replaces the credit limit and stamps the change.
    pub fn update_credit_limit(&mut self, credit_limit: Money)
        ensures
            *final(self) == (CustomerRole { credit_limit: credit_limit, updated_at: final(self).updated_at, ..*old(self) }),
    {
        self.credit_limit = credit_limit;
        self.updated_at = read_clock().instant;
    }

    /// Sets the block status and stamps the change.
    pub fn set_block_status(&mut self, status: BlockStatus)
        ensures
            *final(self) == (CustomerRole { block_status: status, updated_at: final(self).updated_at, ..*old(self) }),
    {
        self.block_status = status;
        self.updated_at = read_clock().instant;
    }

    /// Whether anything is blocked with this customer: under every status but
    /// `Unblocked`.
    pub fn is_blocked(&self) -> (b: bool)
        ensures
            b == blocks_something(self.block_status),
            !b <==> self.block_status is Unblocked,
    {
        match self.block_status {
            BlockStatus::Unblocked => false,
            _ => true,
        }
    }
}

// ---------------------------------------------------------------------------
// Bank account
// ---------------------------------------------------------------------------

/// A bank account of a supplier.
#[derive(Clone, Debug, PartialEq, Eq)]
pub struct BankAccount {
    /// At most 20 characters.
    pub bank_code: String,
    /// At most 50 characters.
    pub account_number: String,
    /// At most 100 characters.
    pub account_holder: String,
    /// At most 34 characters.
    pub iban: Option<String>,
    /// At most 11 characters.
    pub swift_code: Option<String>,
    pub is_primary: bool,
}

/// The fields of a bank account that break their rule, in declaration order.
pub open spec fn bank_account_failures(
    bank_code: Seq<char>,
    account_number: Seq<char>,
    account_holder: Seq<char>,
    iban: Option<Seq<char>>,
    swift_code: Option<Seq<char>>,
) -> Seq<FailureView> {
    Seq::empty()
        + length_failure(bank_code, 0, Some(20), "bank_code"@, None)
        + length_failure(account_number, 0, Some(50), "account_number"@, None)
        + length_failure(account_holder, 0, Some(100), "account_holder"@, None)
        + opt_length_failure(iban, 0, Some(34), "iban"@, None)
        + opt_length_failure(swift_code, 0, Some(11), "swift_code"@, None)
}

/// The rules behind [`bank_account_failures`], stated on the lengths of the texts in
/// characters: nothing is reported exactly when every field keeps its bounds,
/// and a field that breaks them is reported with the rule's message and
/// bounds.
pub proof fn lemma_bank_account_rules(bank_code: Seq<char>, account_number: Seq<char>, account_holder: Seq<char>, iban: Option<Seq<char>>, swift_code: Option<Seq<char>>)
    ensures
        bank_account_failures(bank_code, account_number, account_holder, iban, swift_code).len() == 0 <==> (
            (bank_code.len() <= 20)
            && (account_number.len() <= 50)
            && (account_holder.len() <= 100)
            && (iban matches Some(t) ==> t.len() <= 34)
            && (swift_code matches Some(t) ==> t.len() <= 11)
        ),
        !(bank_code.len() <= 20) ==> bank_account_failures(bank_code, account_number, account_holder, iban, swift_code).contains(("bank_code"@, None, None, Some(20usize))),
        !(account_number.len() <= 50) ==> bank_account_failures(bank_code, account_number, account_holder, iban, swift_code).contains(("account_number"@, None, None, Some(50usize))),
        !(account_holder.len() <= 100) ==> bank_account_failures(bank_code, account_number, account_holder, iban, swift_code).contains(("account_holder"@, None, None, Some(100usize))),
        (iban matches Some(t) && !(t.len() <= 34)) ==> bank_account_failures(bank_code, account_number, account_holder, iban, swift_code).contains(("iban"@, None, None, Some(34usize))),
        (swift_code matches Some(t) && !(t.len() <= 11)) ==> bank_account_failures(bank_code, account_number, account_holder, iban, swift_code).contains(("swift_code"@, None, None, Some(11usize))),
{
    broadcast use vstd::seq_lib::lemma_seq_concat_contains_all_elements;
    assert({ let e: FailureView = ("bank_code"@, None, None, Some(20usize)); seq![e][0] == e });
    assert({ let e: FailureView = ("account_number"@, None, None, Some(50usize)); seq![e][0] == e });
    assert({ let e: FailureView = ("account_holder"@, None, None, Some(100usize)); seq![e][0] == e });
    assert({ let e: FailureView = ("iban"@, None, None, Some(34usize)); seq![e][0] == e });
    assert({ let e: FailureView = ("swift_code"@, None, None, Some(11usize)); seq![e][0] == e });
}

/// A copy of an optional text.
fn copy_opt_text(s: &Option<String>) -> (r: Option<String>)
    ensures
        r == *s,
{
    match s {
        Some(t) => Some(t.clone()),
        None => None,
    }
}

impl BankAccount {
    /// The fields of this account that break their rule.
    pub open spec fn rule_failures(self) -> Seq<FailureView> {
        bank_account_failures(
            self.bank_code@,
            self.account_number@,
            self.account_holder@,
            opt_text(self.iban),
            opt_text(self.swift_code),
        )
    }

    /// Checks every field rule.
    pub fn validate(&self) -> (r: Result<(), ValidationErrors>)
        ensures
            reports(r, self.rule_failures()),
    {
        let mut errs: Vec<FieldError> = Vec::new();
        assert(failures_view(errs@) =~= Seq::empty());
        check_field(&mut errs, self.bank_code.as_str(), 0, Some(20), "bank_code", None);
        check_field(&mut errs, self.account_number.as_str(), 0, Some(50), "account_number", None);
        check_field(&mut errs, self.account_holder.as_str(), 0, Some(100), "account_holder", None);
        check_opt_field(&mut errs, &self.iban, 0, Some(34), "iban", None);
        check_opt_field(&mut errs, &self.swift_code, 0, Some(11), "swift_code", None);
        finish(errs)
    }

    /// A new, non-primary account without IBAN or SWIFT code; nothing is
    /// checked, so it always succeeds.
    pub fn new(bank_code: String, account_number: String, account_holder: String) -> (r: ValidationResult<BankAccount>)
        ensures
            match r {
                Ok(a) => {
                    &&& a.bank_code == bank_code
                    &&& a.account_number == account_number
                    &&& a.account_holder == account_holder
                    &&& a.iban is None
                    &&& a.swift_code is None
                    &&& !a.is_primary
                },
                Err(_) => false,
            },
    {
        Ok(BankAccount { bank_code, account_number, account_holder, iban: None, swift_code: None, is_primary: false })
    }

    /// A copy of this account with the primary flag set as given.
    fn with_primary(&self, primary: bool) -> (a: BankAccount)
        ensures
            a == (BankAccount { is_primary: primary, ..*self }),
    {
        BankAccount {
            bank_code: self.bank_code.clone(),
            account_number: self.account_number.clone(),
            account_holder: self.account_holder.clone(),
            iban: copy_opt_text(&self.iban),
            swift_code: copy_opt_text(&self.swift_code),
            is_primary: primary,
        }
    }
}

// ---------------------------------------------------------------------------
// Supplier role (LFA1)
// ---------------------------------------------------------------------------

/// The supplier role of a partner.
#[derive(Clone, Debug, PartialEq, Eq)]
pub struct SupplierRole {
    pub partner_id: String,
    pub tenant_id: String,
    pub purchasing_org: String,
    pub bank_accounts: Vec<BankAccount>,
    /// The reconciliation account in the general ledger.
    pub reconciliation_account: AccountCode,
    pub payment_terms: String,
    pub supplier_group: Option<String>,
    pub block_status: BlockStatus,
    pub created_at: Timestamp,
    pub updated_at: Timestamp,
    pub extensions: Extensions,
    pub deleted: bool,
}

/// The message of the refusal to make a bank account primary that is not
/// there.
pub open spec fn bad_account_index_message() -> Seq<char> {
    "Invalid bank account index"@
}

impl SupplierRole {
    /// A new, unblocked supplier role without bank accounts, stamped with the
    /// current time; nothing is checked, so it always succeeds.
    pub fn new(
        tenant_id: String,
        partner_id: String,
        purchasing_org: String,
        reconciliation_account: AccountCode,
        payment_terms: String,
    ) -> (r: ValidationResult<SupplierRole>)
        ensures
            match r {
                Ok(s) => {
                    &&& s.partner_id == partner_id
                    &&& s.tenant_id == tenant_id
                    &&& s.purchasing_org == purchasing_org
                    &&& s.bank_accounts@.len() == 0
                    &&& s.reconciliation_account == reconciliation_account
                    &&& s.payment_terms == payment_terms
                    &&& s.supplier_group is None
                    &&& s.block_status == BlockStatus::Unblocked
                    &&& s.created_at == s.updated_at
                    &&& s.extensions@ == JsonEntries::empty()
                    &&& !s.deleted
                },
                Err(_) => false,
            },
    {
        let now = read_clock().instant;
        Ok(SupplierRole {
            partner_id,
            tenant_id,
            purchasing_org,
            bank_accounts: Vec::new(),
            reconciliation_account,
            payment_terms,
            supplier_group: None,
            block_status: BlockStatus::Unblocked,
            created_at: now,
            updated_at: now,
            extensions: Extensions::new(),
            deleted: false,
        })
    }

    /// Marks the role as deleted and stamps the change.
    pub fn mark_deleted(&mut self)
        ensures
            *final(self) == (SupplierRole { deleted: true, updated_at: final(self).updated_at, ..*old(self) }),
    {
        self.deleted = true;
        self.updated_at = read_clock().instant;
    }

    /// Appends a bank account and stamps the change; the account is not
    /// checked, so it always succeeds.
    pub fn add_bank_account(&mut self, account: BankAccount) -> (r: ValidationResult<()>)
        ensures
            r is Ok,
            final(self).bank_accounts@ == old(self).bank_accounts@.push(account),
            *final(self) == (SupplierRole {
                bank_accounts: final(self).bank_accounts,
                updated_at: final(self).updated_at,
                ..*old(self)
            }),
    {
        self.bank_accounts.push(account);
        self.updated_at = read_clock().instant;
        Ok(())
    }

    /// Makes the account at `index` the only primary one and stamps the
    /// change. An index past the accounts is refused and changes nothing.
    pub fn set_primary_bank_account(&mut self, index: usize) -> (r: BusinessPartnerResult<()>)
        ensures
            r is Ok <==> index < old(self).bank_accounts@.len(),
            match r {
                Ok(()) => {
                    &&& final(self).bank_accounts@.len() == old(self).bank_accounts@.len()
                    &&& forall|j: int| 0 <= j < old(self).bank_accounts@.len() ==>
                        #[trigger] final(self).bank_accounts@[j]
                            == (BankAccount { is_primary: j == index, ..old(self).bank_accounts@[j] })
                    &&& *final(self) == (SupplierRole {
                        bank_accounts: final(self).bank_accounts,
                        updated_at: final(self).updated_at,
                        ..*old(self)
                    })
                },
                Err(BusinessPartnerError::ValidationFailed { message }) => message@ == bad_account_index_message()
                    && *final(self) == *old(self),
                Err(_) => false,
            },
    {
        let n = self.bank_accounts.len();
        if index >= n {
            return Err(BusinessPartnerError::ValidationFailed { message: "Invalid bank account index".to_owned() });
        }
        let ghost before = self.bank_accounts@;
        let ghost start = *self;
        let mut i: usize = 0;
        while i < n
            invariant
                *self == (SupplierRole { bank_accounts: self.bank_accounts, ..start }),
                start == *old(self),
                before == old(self).bank_accounts@,
                index < n,
                n == before.len(),
                self.bank_accounts@.len() == n,
                0 <= i <= n,
                forall|j: int| 0 <= j < i ==>
                    #[trigger] self.bank_accounts@[j] == (BankAccount { is_primary: j == index, ..before[j] }),
                forall|j: int| i <= j < n ==> #[trigger] self.bank_accounts@[j] == before[j],
            decreases n - i,
        {
            let updated = self.bank_accounts[i].with_primary(i == index);
            self.bank_accounts.set(i, updated);
            i = i + 1;
        }
        self.updated_at = read_clock().instant;
        Ok(())
    }

    /// Sets the block status and stamps the change.
    pub fn set_block_status(&mut self, status: BlockStatus)
        ensures
            *final(self) == (SupplierRole { block_status: status, updated_at: final(self).updated_at, ..*old(self) }),
    {
        self.block_status = status;
        self.updated_at = read_clock().instant;
    }

    /// Whether anything is blocked with this supplier: under every status but
    /// `Unblocked`.
    pub fn is_blocked(&self) -> (b: bool)
        ensures
            b == blocks_something(self.block_status),
            !b <==> self.block_status is Unblocked,
    {
        match self.block_status {
            BlockStatus::Unblocked => false,
            _ => true,
        }
    }
}

/// After a primary account is chosen, it is the one and only primary
/// account.
pub proof fn lemma_single_primary(accounts: Seq<BankAccount>, index: int)
    requires
        0 <= index < accounts.len(),
        forall|j: int| 0 <= j < accounts.len() ==> #[trigger] accounts[j].is_primary == (j == index),
    ensures
        accounts[index].is_primary,
        forall|j: int, k: int|
            0 <= j < accounts.len() && 0 <= k < accounts.len() && #[trigger] accounts[j].is_primary
                && #[trigger] accounts[k].is_primary ==> j == k,
{
}

// ---------------------------------------------------------------------------
// Change events
// ---------------------------------------------------------------------------

/// The kind of change an event reports.
#[derive(Clone, Copy, Debug, PartialEq, Eq, Structural)]
pub enum ChangeEventType {
    Created,
    Updated,
    Deleted,
    Blocked,
    Unblocked,
}

/// One changed field with its value before and after.
#[derive(Clone, Debug, PartialEq, Eq)]
pub struct FieldDelta {
    pub field_name: String,
    pub old_value: Option<serde_json::Value>,
    pub new_value: Option<serde_json::Value>,
}

/// The header every change event carries.
#[derive(Clone, Debug, PartialEq, Eq)]
pub struct ChangeEventHeader {
    pub event_id: Uuid,
    pub tenant_id: String,
    pub timestamp: Timestamp,
    pub actor_id: String,
    pub event_type: ChangeEventType,
    pub version: i32,
    pub correlation_id: Option<Uuid>,
}

impl ChangeEventHeader {
    /// A header of version 1 with a fresh random identifier, stamped with the
    /// current time and without a correlation identifier.
    pub fn new(tenant_id: String, actor_id: String, event_type: ChangeEventType) -> (h: ChangeEventHeader)
        ensures
            is_random_uuid(h.event_id),
            h.tenant_id == tenant_id,
            h.actor_id == actor_id,
            h.event_type == event_type,
            h.version == 1,
            h.correlation_id is None,
    {
        ChangeEventHeader {
            event_id: random_uuid(),
            tenant_id,
            timestamp: read_clock().instant,
            actor_id,
            event_type,
            version: 1,
            correlation_id: None,
        }
    }
}

/// A change of a business partner.
#[derive(Clone, Debug)]
pub struct BusinessPartnerChangedEvent {
    pub header: ChangeEventHeader,
    pub partner_id: String,
    pub changes: Vec<FieldDelta>,
    pub snapshot: Option<BusinessPartner>,
}

/// A change of a customer role.
#[derive(Clone, Debug)]
pub struct CustomerRoleChangedEvent {
    pub header: ChangeEventHeader,
    pub partner_id: String,
    pub changes: Vec<FieldDelta>,
    pub snapshot: Option<CustomerRole>,
}

/// A change of a supplier role.
#[derive(Clone, Debug)]
pub struct SupplierRoleChangedEvent {
    pub header: ChangeEventHeader,
    pub partner_id: String,
    pub changes: Vec<FieldDelta>,
    pub snapshot: Option<SupplierRole>,
}

} // verus!

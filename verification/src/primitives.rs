//! Value types shared by the master data: codes, money, quantities and
//! identifiers.

use vstd::prelude::*;

verus! {

/// Cost center code.
pub type CostCenterValue = String;

/// Company code.
pub type CompanyCodeValue = String;

/// General ledger account code.
pub type AccountCode = String;

/// Material number.
pub type MaterialNumber = String;

/// Unit of measure.
pub type UnitOfMeasure = String;

/// Plant code.
pub type PlantValue = String;

/// Storage location code.
pub type StorageLocationValue = String;

/// Country code (ISO 3166).
pub type CountryCodeValue = String;

/// Currency code (ISO 4217).
pub type CurrencyCodeValue = String;

/// A universally unique identifier, as its 128 bits read big-endian.
pub type Uuid = u128;

/// An amount of money in hundredths of its currency unit.
#[derive(Clone, Debug, PartialEq, Eq)]
pub struct Money {
    pub amount: i64,
    pub currency: CurrencyCodeValue,
}

impl Money {
    /// An amount in the given currency.
    pub fn new(amount: i64, currency: CurrencyCodeValue) -> (m: Money)
        ensures
            m.amount == amount,
            m.currency == currency,
    {
        Money { amount, currency }
    }
}

/// A quantity in thousandths of its unit of measure; never negative.
#[derive(Clone, Debug, PartialEq, Eq)]
pub struct Quantity {
    pub value: u64,
    pub unit: UnitOfMeasure,
}

impl Quantity {
    /// A quantity of `value` thousandths of `unit`.
    pub fn new(value: u64, unit: UnitOfMeasure) -> (q: Quantity)
        ensures
            q.value == value,
            q.unit == unit,
    {
        Quantity { value, unit }
    }

    /// The amount, in thousandths of the unit.
    pub fn value(&self) -> (v: u64)
        ensures
            v == self.value,
    {
        self.value
    }

    /// The unit of measure.
    pub fn unit(&self) -> (u: &UnitOfMeasure)
        ensures
            *u == self.unit,
    {
        &self.unit
    }
}

/// Whether a 128-bit identifier is a random (version 4) identifier of the
/// RFC 4122 variant.
pub open spec fn is_random_uuid(id: u128) -> bool {
    &&& (id >> 76u128) & 0xfu128 == 4
    &&& (id >> 62u128) & 0x3u128 == 2
}

/// `uuid::Uuid::new_v4`, read as a `u128`. Its source masks random bits so
/// that the version nibble is 4 and the variant bits are `10`; nothing else
/// is claimed of the outcome.
#[verifier::external_body]
pub(crate) fn random_uuid() -> (id: Uuid)
    ensures
        is_random_uuid(id),
{
    uuid::Uuid::new_v4().as_u128()
}

} // verus!

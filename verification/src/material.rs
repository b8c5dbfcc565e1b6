//! Material master data in three levels: the material itself, its data per
//! plant, and its stock per storage location.

use vstd::prelude::*;

use crate::extensions::{Extensions, JsonEntries};
use crate::primitives::{
    random_uuid, is_random_uuid, MaterialNumber, PlantValue, Quantity, StorageLocationValue,
    UnitOfMeasure, Uuid,
};
use crate::time::{read_clock, Timestamp};
use crate::validation::{
    check_field, check_opt_field, failures_view, finish, length_failure, opt_length_failure, opt_text,
    reports, FailureView, FieldError, ValidationErrors,
};

verus! {

// ---------------------------------------------------------------------------
// Errors
// ---------------------------------------------------------------------------

/// Errors of the material master data. Stock amounts are in thousandths of
/// the unit.
#[derive(Clone, Debug, PartialEq, Eq)]
pub enum MaterialError {
    MaterialNotFound { material_number: String },
    PlantDataNotFound { material_number: String, plant_code: String },
    StorageDataNotFound { material_number: String, plant_code: String, storage_location: String },
    InvalidMaterialNumber { material_number: String },
    ValidationFailed { message: String },
    InsufficientStock { available: u64, required: u64 },
}

/// The outcome of an operation that may fail with such an error.
pub type MaterialResult<T> = Result<T, MaterialError>;

// ---------------------------------------------------------------------------
// Classifications
// ---------------------------------------------------------------------------

/// The type of a material.
#[derive(Clone, Copy, Debug, PartialEq, Eq, Structural)]
pub enum MaterialType {
    RawMaterial,
    SemiFinished,
    FinishedProduct,
    TradingGoods,
    SparePart,
    Service,
    PackagingMaterial,
}

/// The planning procedure of a material in a plant.
#[derive(Clone, Copy, Debug, PartialEq, Eq, Structural)]
pub enum MrpType {
    /// No planning.
    ND,
    /// Planned independent requirements.
    PD,
    /// Material requirements planning.
    VB,
    /// Reorder point planning.
    VM,
}

/// How a material is procured.
#[derive(Clone, Copy, Debug, PartialEq, Eq, Structural)]
pub enum ProcurementType {
    InHouse,
    External,
    Both,
}

/// A special way of procuring a material.
#[derive(Clone, Copy, Debug, PartialEq, Eq, Structural)]
pub enum SpecialProcurementType {
    /// No special procurement.
    Standard,
    Subcontracting,
    ThirdParty,
}

impl Default for SpecialProcurementType {
    /// No special procurement.
    fn default() -> (r: SpecialProcurementType)
        ensures
            r == SpecialProcurementType::Standard,
    {
        SpecialProcurementType::Standard
    }
}

// ---------------------------------------------------------------------------
// Material (MARA)
// ---------------------------------------------------------------------------

/// The basic data of a material.
#[derive(Clone, Debug, PartialEq, Eq)]
pub struct Material {
    /// Not empty.
    pub material_number: MaterialNumber,
    /// Not empty.
    pub tenant_id: String,
    /// One to 200 characters.
    pub description: String,
    pub material_type: MaterialType,
    /// Not empty.
    pub base_unit: UnitOfMeasure,
    /// At most 20 characters.
    pub material_group: Option<String>,
    pub gross_weight: Option<Quantity>,
    pub net_weight: Option<Quantity>,
    pub volume: Option<Quantity>,
    pub size_unit: Option<UnitOfMeasure>,
    /// At most 100 characters.
    pub industry_standard_desc: Option<String>,
    pub created_at: Timestamp,
    pub updated_at: Timestamp,
    pub extensions: Extensions,
    pub deleted: bool,
}

/// The fields of a material that break their rule, in declaration order.
pub open spec fn material_failures(
    material_number: Seq<char>,
    tenant_id: Seq<char>,
    description: Seq<char>,
    base_unit: Seq<char>,
    material_group: Option<Seq<char>>,
    industry_standard_desc: Option<Seq<char>>,
) -> Seq<FailureView> {
    Seq::empty()
        + length_failure(material_number, 1, None, "material_number"@, None)
        + length_failure(tenant_id, 1, None, "tenant_id"@, None)
        + length_failure(description, 1, Some(200), "description"@, None)
        + length_failure(base_unit, 1, None, "base_unit"@, None)
        + opt_length_failure(material_group, 0, Some(20), "material_group"@, None)
        + opt_length_failure(industry_standard_desc, 0, Some(100), "industry_standard_desc"@, None)
}

/// The rules behind [`material_failures`], stated on the lengths of the texts in
/// characters: nothing is reported exactly when every field keeps its bounds,
/// and a field that breaks them is reported with the rule's message and
/// bounds.
pub proof fn lemma_material_rules(material_number: Seq<char>, tenant_id: Seq<char>, description: Seq<char>, base_unit: Seq<char>, material_group: Option<Seq<char>>, industry_standard_desc: Option<Seq<char>>)
    ensures
        material_failures(material_number, tenant_id, description, base_unit, material_group, industry_standard_desc).len() == 0 <==> (
            (1 <= material_number.len())
            && (1 <= tenant_id.len())
            && (1 <= description.len() && description.len() <= 200)
            && (1 <= base_unit.len())
            && (material_group matches Some(t) ==> t.len() <= 20)
            && (industry_standard_desc matches Some(t) ==> t.len() <= 100)
        ),
        !(1 <= material_number.len()) ==> material_failures(material_number, tenant_id, description, base_unit, material_group, industry_standard_desc).contains(("material_number"@, None, Some(1usize), None)),
        !(1 <= tenant_id.len()) ==> material_failures(material_number, tenant_id, description, base_unit, material_group, industry_standard_desc).contains(("tenant_id"@, None, Some(1usize), None)),
        !(1 <= description.len() && description.len() <= 200) ==> material_failures(material_number, tenant_id, description, base_unit, material_group, industry_standard_desc).contains(("description"@, None, Some(1usize), Some(200usize))),
        !(1 <= base_unit.len()) ==> material_failures(material_number, tenant_id, description, base_unit, material_group, industry_standard_desc).contains(("base_unit"@, None, Some(1usize), None)),
        (material_group matches Some(t) && !(t.len() <= 20)) ==> material_failures(material_number, tenant_id, description, base_unit, material_group, industry_standard_desc).contains(("material_group"@, None, None, Some(20usize))),
        (industry_standard_desc matches Some(t) && !(t.len() <= 100)) ==> material_failures(material_number, tenant_id, description, base_unit, material_group, industry_standard_desc).contains(("industry_standard_desc"@, None, None, Some(100usize))),
{
    broadcast use vstd::seq_lib::lemma_seq_concat_contains_all_elements;
    assert({ let e: FailureView = ("material_number"@, None, Some(1usize), None); seq![e][0] == e });
    assert({ let e: FailureView = ("tenant_id"@, None, Some(1usize), None); seq![e][0] == e });
    assert({ let e: FailureView = ("description"@, None, Some(1usize), Some(200usize)); seq![e][0] == e });
    assert({ let e: FailureView = ("base_unit"@, None, Some(1usize), None); seq![e][0] == e });
    assert({ let e: FailureView = ("material_group"@, None, None, Some(20usize)); seq![e][0] == e });
    assert({ let e: FailureView = ("industry_standard_desc"@, None, None, Some(100usize)); seq![e][0] == e });
}

impl Material {
    /// The fields of this material that break their rule.
    pub open spec fn rule_failures(self) -> Seq<FailureView> {
        material_failures(
            self.material_number@,
            self.tenant_id@,
            self.description@,
            self.base_unit@,
            opt_text(self.material_group),
            opt_text(self.industry_standard_desc),
        )
    }

    /// Checks every field rule.
    pub fn validate(&self) -> (r: Result<(), ValidationErrors>)
        ensures
            reports(r, self.rule_failures()),
    {
        let mut errs: Vec<FieldError> = Vec::new();
        assert(failures_view(errs@) =~= Seq::empty());
        check_field(&mut errs, self.material_number.as_str(), 1, None, "material_number", None);
        check_field(&mut errs, self.tenant_id.as_str(), 1, None, "tenant_id", None);
        check_field(&mut errs, self.description.as_str(), 1, Some(200), "description", None);
        check_field(&mut errs, self.base_unit.as_str(), 1, None, "base_unit", None);
        check_opt_field(&mut errs, &self.material_group, 0, Some(20), "material_group", None);
        check_opt_field(&mut errs, &self.industry_standard_desc, 0, Some(100), "industry_standard_desc", None);
        finish(errs)
    }

    /// A new material stamped with the current time; refused when a field
    /// breaks its rule.
    pub fn new(
        tenant_id: String,
        material_number: MaterialNumber,
        description: String,
        material_type: MaterialType,
        base_unit: UnitOfMeasure,
    ) -> (r: Result<Material, ValidationErrors>)
        ensures
            reports(r, material_failures(material_number@, tenant_id@, description@, base_unit@, None, None)),
            match r {
                Ok(m) => {
                    &&& m.material_number == material_number
                    &&& m.tenant_id == tenant_id
                    &&& m.description == description
                    &&& m.material_type == material_type
                    &&& m.base_unit == base_unit
                    &&& m.material_group is None
                    &&& m.gross_weight is None
                    &&& m.net_weight is None
                    &&& m.volume is None
                    &&& m.size_unit is None
                    &&& m.industry_standard_desc is None
                    &&& m.created_at == m.updated_at
                    &&& m.extensions@ == JsonEntries::empty()
                    &&& !m.deleted
                },
                Err(_) => true,
            },
    {
        let now = read_clock().instant;
        let material = Material {
            material_number,
            tenant_id,
            description,
            material_type,
            base_unit,
            material_group: None,
            gross_weight: None,
            net_weight: None,
            volume: None,
            size_unit: None,
            industry_standard_desc: None,
            created_at: now,
            updated_at: now,
            extensions: Extensions::new(),
            deleted: false,
        };
        match material.validate() {
            Ok(()) => Ok(material),
            Err(e) => Err(e),
        }
    }

    /// Marks the material as deleted and stamps the change.
    pub fn mark_deleted(&mut self)
        ensures
            *final(self) == (Material { deleted: true, updated_at: final(self).updated_at, ..*old(self) }),
    {
        self.deleted = true;
        self.updated_at = read_clock().instant;
    }

    /// Replaces the description, stamps the change, and then checks every
    /// field rule. The new description stays even when the check fails.
    pub fn update_description(&mut self, description: String) -> (r: Result<(), ValidationErrors>)
        ensures
            *final(self) == (Material { description: description, updated_at: final(self).updated_at, ..*old(self) }),
            reports(r, final(self).rule_failures()),
    {
        self.description = description;
        self.updated_at = read_clock().instant;
        self.validate()
    }

    /// Sets the gross and net weight and stamps the change.
    pub fn set_weight(&mut self, gross_weight: Quantity, net_weight: Quantity)
        ensures
            *final(self) == (Material {
                gross_weight: Some(gross_weight),
                net_weight: Some(net_weight),
                updated_at: final(self).updated_at,
                ..*old(self)
            }),
    {
        self.gross_weight = Some(gross_weight);
        self.net_weight = Some(net_weight);
        self.updated_at = read_clock().instant;
    }

    /// Sets the volume with its unit and stamps the change.
    pub fn set_volume(&mut self, volume: Quantity, unit: UnitOfMeasure)
        ensures
            *final(self) == (Material {
                volume: Some(volume),
                size_unit: Some(unit),
                updated_at: final(self).updated_at,
                ..*old(self)
            }),
    {
        self.volume = Some(volume);
        self.size_unit = Some(unit);
        self.updated_at = read_clock().instant;
    }
}

// ---------------------------------------------------------------------------
// Plant data (MARC)
// ---------------------------------------------------------------------------

/// The data of a material in one plant.
#[derive(Clone, Debug, PartialEq, Eq)]
pub struct MaterialPlantData {
    /// Not empty.
    pub material_number: MaterialNumber,
    /// Not empty.
    pub tenant_id: String,
    /// Not empty.
    pub plant_code: PlantValue,
    pub mrp_type: MrpType,
    pub procurement_type: ProcurementType,
    pub special_procurement: SpecialProcurementType,
    /// Planned delivery time in days.
    pub planned_delivery_time: Option<i32>,
    pub safety_stock: Option<Quantity>,
    pub minimum_lot_size: Option<Quantity>,
    pub maximum_lot_size: Option<Quantity>,
    pub fixed_lot_size: Option<Quantity>,
    pub reorder_point: Option<Quantity>,
    /// At most 50 characters.
    pub production_supervisor: Option<String>,
    /// At most one character.
    pub abc_indicator: Option<String>,
    pub created_at: Timestamp,
    pub updated_at: Timestamp,
    pub extensions: Extensions,
    pub deleted: bool,
}

/// The fields of a material's plant data that break their rule, in
/// declaration order.
pub open spec fn plant_data_failures(
    material_number: Seq<char>,
    tenant_id: Seq<char>,
    plant_code: Seq<char>,
    production_supervisor: Option<Seq<char>>,
    abc_indicator: Option<Seq<char>>,
) -> Seq<FailureView> {
    Seq::empty()
        + length_failure(material_number, 1, None, "material_number"@, None)
        + length_failure(tenant_id, 1, None, "tenant_id"@, None)
        + length_failure(plant_code, 1, None, "plant_code"@, None)
        + opt_length_failure(production_supervisor, 0, Some(50), "production_supervisor"@, None)
        + opt_length_failure(abc_indicator, 0, Some(1), "abc_indicator"@, None)
}

/// The rules behind [`plant_data_failures`], stated on the lengths of the texts in
/// characters: nothing is reported exactly when every field keeps its bounds,
/// and a field that breaks them is reported with the rule's message and
/// bounds.
pub proof fn lemma_plant_data_rules(material_number: Seq<char>, tenant_id: Seq<char>, plant_code: Seq<char>, production_supervisor: Option<Seq<char>>, abc_indicator: Option<Seq<char>>)
    ensures
        plant_data_failures(material_number, tenant_id, plant_code, production_supervisor, abc_indicator).len() == 0 <==> (
            (1 <= material_number.len())
            && (1 <= tenant_id.len())
            && (1 <= plant_code.len())
            && (production_supervisor matches Some(t) ==> t.len() <= 50)
            && (abc_indicator matches Some(t) ==> t.len() <= 1)
        ),
        !(1 <= material_number.len()) ==> plant_data_failures(material_number, tenant_id, plant_code, production_supervisor, abc_indicator).contains(("material_number"@, None, Some(1usize), None)),
        !(1 <= tenant_id.len()) ==> plant_data_failures(material_number, tenant_id, plant_code, production_supervisor, abc_indicator).contains(("tenant_id"@, None, Some(1usize), None)),
        !(1 <= plant_code.len()) ==> plant_data_failures(material_number, tenant_id, plant_code, production_supervisor, abc_indicator).contains(("plant_code"@, None, Some(1usize), None)),
        (production_supervisor matches Some(t) && !(t.len() <= 50)) ==> plant_data_failures(material_number, tenant_id, plant_code, production_supervisor, abc_indicator).contains(("production_supervisor"@, None, None, Some(50usize))),
        (abc_indicator matches Some(t) && !(t.len() <= 1)) ==> plant_data_failures(material_number, tenant_id, plant_code, production_supervisor, abc_indicator).contains(("abc_indicator"@, None, None, Some(1usize))),
{
    broadcast use vstd::seq_lib::lemma_seq_concat_contains_all_elements;
    assert({ let e: FailureView = ("material_number"@, None, Some(1usize), None); seq![e][0] == e });
    assert({ let e: FailureView = ("tenant_id"@, None, Some(1usize), None); seq![e][0] == e });
    assert({ let e: FailureView = ("plant_code"@, None, Some(1usize), None); seq![e][0] == e });
    assert({ let e: FailureView = ("production_supervisor"@, None, None, Some(50usize)); seq![e][0] == e });
    assert({ let e: FailureView = ("abc_indicator"@, None, None, Some(1usize)); seq![e][0] == e });
}

impl MaterialPlantData {
    /// The fields of this plant data that break their rule.
    pub open spec fn rule_failures(self) -> Seq<FailureView> {
        plant_data_failures(
            self.material_number@,
            self.tenant_id@,
            self.plant_code@,
            opt_text(self.production_supervisor),
            opt_text(self.abc_indicator),
        )
    }

    /// Checks every field rule.
    pub fn validate(&self) -> (r: Result<(), ValidationErrors>)
        ensures
            reports(r, self.rule_failures()),
    {
        let mut errs: Vec<FieldError> = Vec::new();
        assert(failures_view(errs@) =~= Seq::empty());
        check_field(&mut errs, self.material_number.as_str(), 1, None, "material_number", None);
        check_field(&mut errs, self.tenant_id.as_str(), 1, None, "tenant_id", None);
        check_field(&mut errs, self.plant_code.as_str(), 1, None, "plant_code", None);
        check_opt_field(&mut errs, &self.production_supervisor, 0, Some(50), "production_supervisor", None);
        check_opt_field(&mut errs, &self.abc_indicator, 0, Some(1), "abc_indicator", None);
        finish(errs)
    }

    /// New plant data without special procurement, lot sizes or stock
    /// levels, stamped with the current time; refused when a field breaks
    /// its rule.
    pub fn new(
        tenant_id: String,
        material_number: MaterialNumber,
        plant_code: PlantValue,
        mrp_type: MrpType,
        procurement_type: ProcurementType,
    ) -> (r: Result<MaterialPlantData, ValidationErrors>)
        ensures
            reports(r, plant_data_failures(material_number@, tenant_id@, plant_code@, None, None)),
            match r {
                Ok(d) => {
                    &&& d.material_number == material_number
                    &&& d.tenant_id == tenant_id
                    &&& d.plant_code == plant_code
                    &&& d.mrp_type == mrp_type
                    &&& d.procurement_type == procurement_type
                    &&& d.special_procurement == SpecialProcurementType::Standard
                    &&& d.planned_delivery_time is None
                    &&& d.safety_stock is None
                    &&& d.minimum_lot_size is None
                    &&& d.maximum_lot_size is None
                    &&& d.fixed_lot_size is None
                    &&& d.reorder_point is None
                    &&& d.production_supervisor is None
                    &&& d.abc_indicator is None
                    &&& d.created_at == d.updated_at
                    &&& d.extensions@ == JsonEntries::empty()
                    &&& !d.deleted
                },
                Err(_) => true,
            },
    {
        let now = read_clock().instant;
        let data = MaterialPlantData {
            material_number,
            tenant_id,
            plant_code,
            mrp_type,
            procurement_type,
            special_procurement: SpecialProcurementType::Standard,
            planned_delivery_time: None,
            safety_stock: None,
            minimum_lot_size: None,
            maximum_lot_size: None,
            fixed_lot_size: None,
            reorder_point: None,
            production_supervisor: None,
            abc_indicator: None,
            created_at: now,
            updated_at: now,
            extensions: Extensions::new(),
            deleted: false,
        };
        match data.validate() {
            Ok(()) => Ok(data),
            Err(e) => Err(e),
        }
    }

    /// Marks the plant data as deleted and stamps the change.
    pub fn mark_deleted(&mut self)
        ensures
            *final(self) == (MaterialPlantData { deleted: true, updated_at: final(self).updated_at, ..*old(self) }),
    {
        self.deleted = true;
        self.updated_at = read_clock().instant;
    }

    /// Sets the safety stock and stamps the change.
    pub fn set_safety_stock(&mut self, quantity: Quantity)
        ensures
            *final(self) == (MaterialPlantData {
                safety_stock: Some(quantity),
                updated_at: final(self).updated_at,
                ..*old(self)
            }),
    {
        self.safety_stock = Some(quantity);
        self.updated_at = read_clock().instant;
    }

    /// Sets the reorder point and stamps the change.
    pub fn set_reorder_point(&mut self, quantity: Quantity)
        ensures
            *final(self) == (MaterialPlantData {
                reorder_point: Some(quantity),
                updated_at: final(self).updated_at,
                ..*old(self)
            }),
    {
        self.reorder_point = Some(quantity);
        self.updated_at = read_clock().instant;
    }

    /// Sets the three lot sizes and stamps the change.
    pub fn set_lot_size(&mut self, min: Option<Quantity>, max: Option<Quantity>, fixed: Option<Quantity>)
        ensures
            *final(self) == (MaterialPlantData {
                minimum_lot_size: min,
                maximum_lot_size: max,
                fixed_lot_size: fixed,
                updated_at: final(self).updated_at,
                ..*old(self)
            }),
    {
        self.minimum_lot_size = min;
        self.maximum_lot_size = max;
        self.fixed_lot_size = fixed;
        self.updated_at = read_clock().instant;
    }
}

// ---------------------------------------------------------------------------
// Storage location data (MARD)
// ---------------------------------------------------------------------------

/// The stock of a material in one storage location.
#[derive(Clone, Debug, PartialEq, Eq)]
pub struct MaterialStorageData {
    /// Not empty.
    pub material_number: MaterialNumber,
    /// Not empty.
    pub tenant_id: String,
    /// Not empty.
    pub plant_code: PlantValue,
    /// Not empty.
    pub storage_location: StorageLocationValue,
    /// Stock free for use.
    pub unrestricted_stock: Quantity,
    /// Stock held for quality inspection.
    pub quality_inspection_stock: Option<Quantity>,
    /// Blocked stock.
    pub blocked_stock: Option<Quantity>,
    /// Stock in transit.
    pub in_transit_stock: Option<Quantity>,
    pub last_count_date: Option<Timestamp>,
    pub created_at: Timestamp,
    pub updated_at: Timestamp,
    pub extensions: Extensions,
    pub deleted: bool,
}

/// The fields of a material's storage data that break their rule, in
/// declaration order.
pub open spec fn storage_data_failures(
    material_number: Seq<char>,
    tenant_id: Seq<char>,
    plant_code: Seq<char>,
    storage_location: Seq<char>,
) -> Seq<FailureView> {
    Seq::empty()
        + length_failure(material_number, 1, None, "material_number"@, None)
        + length_failure(tenant_id, 1, None, "tenant_id"@, None)
        + length_failure(plant_code, 1, None, "plant_code"@, None)
        + length_failure(storage_location, 1, None, "storage_location"@, None)
}

/// The rules behind [`storage_data_failures`], stated on the lengths of the texts in
/// characters: nothing is reported exactly when every field keeps its bounds,
/// and a field that breaks them is reported with the rule's message and
/// bounds.
pub proof fn lemma_storage_data_rules(material_number: Seq<char>, tenant_id: Seq<char>, plant_code: Seq<char>, storage_location: Seq<char>)
    ensures
        storage_data_failures(material_number, tenant_id, plant_code, storage_location).len() == 0 <==> (
            (1 <= material_number.len())
            && (1 <= tenant_id.len())
            && (1 <= plant_code.len())
            && (1 <= storage_location.len())
        ),
        !(1 <= material_number.len()) ==> storage_data_failures(material_number, tenant_id, plant_code, storage_location).contains(("material_number"@, None, Some(1usize), None)),
        !(1 <= tenant_id.len()) ==> storage_data_failures(material_number, tenant_id, plant_code, storage_location).contains(("tenant_id"@, None, Some(1usize), None)),
        !(1 <= plant_code.len()) ==> storage_data_failures(material_number, tenant_id, plant_code, storage_location).contains(("plant_code"@, None, Some(1usize), None)),
        !(1 <= storage_location.len()) ==> storage_data_failures(material_number, tenant_id, plant_code, storage_location).contains(("storage_location"@, None, Some(1usize), None)),
{
    broadcast use vstd::seq_lib::lemma_seq_concat_contains_all_elements;
    assert({ let e: FailureView = ("material_number"@, None, Some(1usize), None); seq![e][0] == e });
    assert({ let e: FailureView = ("tenant_id"@, None, Some(1usize), None); seq![e][0] == e });
    assert({ let e: FailureView = ("plant_code"@, None, Some(1usize), None); seq![e][0] == e });
    assert({ let e: FailureView = ("storage_location"@, None, Some(1usize), None); seq![e][0] == e });
}

/// The stock left after taking `amount` out of `available`, if there is
/// enough.
pub open spec fn stock_after_withdrawal(available: u64, amount: u64) -> Option<u64> {
    if amount <= available {
        Some((available - amount) as u64)
    } else {
        None
    }
}

/// The stock after putting `amount` in on top of `available`, if the sum
/// can be held.
pub open spec fn stock_after_receipt(available: u64, amount: u64) -> Option<u64> {
    if available + amount <= u64::MAX {
        Some((available + amount) as u64)
    } else {
        None
    }
}

/// Adds an optional stock to a running total; a sum too large to hold
/// leaves the total as it was.
pub open spec fn add_or_keep(total: Quantity, extra: Option<Quantity>) -> Quantity {
    match extra {
        Some(q) => match stock_after_receipt(total.value, q.value) {
            Some(v) => Quantity { value: v, unit: total.unit },
            None => total,
        },
        None => total,
    }
}

/// The amount of an optional stock, nothing counting as zero.
pub open spec fn amount_of(q: Option<Quantity>) -> int {
    match q {
        Some(x) => x.value as int,
        None => 0,
    }
}

/// The quality inspection stock before a move: the one there, or zero in
/// the unit of the moved quantity.
pub open spec fn inspection_base(current: Option<Quantity>, unit: UnitOfMeasure) -> Quantity {
    match current {
        Some(q) => q,
        None => Quantity { value: 0, unit: unit },
    }
}

/// The message of the refusal to take in stock beyond what can be held.
pub open spec fn receipt_overflow_message() -> Seq<char> {
    "Failed to increase stock: quantity overflow"@
}

/// The message of the refusal to move stock into quality inspection beyond
/// what can be held.
pub open spec fn inspection_overflow_message() -> Seq<char> {
    "Failed to move to QI: quantity overflow"@
}

/// A copy of a quantity.
fn copy_quantity(q: &Quantity) -> (r: Quantity)
    ensures
        r == *q,
{
    Quantity::new(q.value, q.unit.clone())
}

impl MaterialStorageData {
    /// The fields of this storage data that break their rule.
    pub open spec fn rule_failures(self) -> Seq<FailureView> {
        storage_data_failures(self.material_number@, self.tenant_id@, self.plant_code@, self.storage_location@)
    }

    /// The total stock: unrestricted, then quality inspection, then blocked
    /// stock added on, each addition skipped when its sum cannot be held.
    pub open spec fn spec_total_stock(self) -> Quantity {
        add_or_keep(add_or_keep(self.unrestricted_stock, self.quality_inspection_stock), self.blocked_stock)
    }

    /// The unrestricted and quality inspection stock together can be held, so
    /// that the total stock counts both of them.
    pub open spec fn free_and_inspection_fit(self) -> bool {
        self.unrestricted_stock.value + amount_of(self.quality_inspection_stock) <= u64::MAX
    }

    /// Checks every field rule.
    pub fn validate(&self) -> (r: Result<(), ValidationErrors>)
        ensures
            reports(r, self.rule_failures()),
    {
        let mut errs: Vec<FieldError> = Vec::new();
        assert(failures_view(errs@) =~= Seq::empty());
        check_field(&mut errs, self.material_number.as_str(), 1, None, "material_number", None);
        check_field(&mut errs, self.tenant_id.as_str(), 1, None, "tenant_id", None);
        check_field(&mut errs, self.plant_code.as_str(), 1, None, "plant_code", None);
        check_field(&mut errs, self.storage_location.as_str(), 1, None, "storage_location", None);
        finish(errs)
    }

    /// New storage data holding `unrestricted_stock` and no other stock,
    /// stamped with the current time; refused when a field breaks its rule.
    pub fn new(
        tenant_id: String,
        material_number: MaterialNumber,
        plant_code: PlantValue,
        storage_location: StorageLocationValue,
        unrestricted_stock: Quantity,
    ) -> (r: Result<MaterialStorageData, ValidationErrors>)
        ensures
            reports(r, storage_data_failures(material_number@, tenant_id@, plant_code@, storage_location@)),
            match r {
                Ok(d) => {
                    &&& d.material_number == material_number
                    &&& d.tenant_id == tenant_id
                    &&& d.plant_code == plant_code
                    &&& d.storage_location == storage_location
                    &&& d.unrestricted_stock == unrestricted_stock
                    &&& d.quality_inspection_stock is None
                    &&& d.blocked_stock is None
                    &&& d.in_transit_stock is None
                    &&& d.last_count_date is None
                    &&& d.created_at == d.updated_at
                    &&& d.extensions@ == JsonEntries::empty()
                    &&& !d.deleted
                },
                Err(_) => true,
            },
    {
        let now = read_clock().instant;
        let data = MaterialStorageData {
            material_number,
            tenant_id,
            plant_code,
            storage_location,
            unrestricted_stock,
            quality_inspection_stock: None,
            blocked_stock: None,
            in_transit_stock: None,
            last_count_date: None,
            created_at: now,
            updated_at: now,
            extensions: Extensions::new(),
            deleted: false,
        };
        match data.validate() {
            Ok(()) => Ok(data),
            Err(e) => Err(e),
        }
    }

    /// Marks the storage data as deleted and stamps the change.
    pub fn mark_deleted(&mut self)
        ensures
            *final(self) == (MaterialStorageData { deleted: true, updated_at: final(self).updated_at, ..*old(self) }),
    {
        self.deleted = true;
        self.updated_at = read_clock().instant;
    }

    /// The total stock in the unit of the unrestricted stock; where no
    /// addition overflows, the sum of the unrestricted, quality inspection
    /// and blocked stock.
    pub fn total_stock(&self) -> (total: Quantity)
        ensures
            total == self.spec_total_stock(),
            self.unrestricted_stock.value + amount_of(self.quality_inspection_stock)
                + amount_of(self.blocked_stock) <= u64::MAX ==> total.value
                == self.unrestricted_stock.value + amount_of(self.quality_inspection_stock)
                + amount_of(self.blocked_stock),
            total.unit == self.unrestricted_stock.unit,
    {
        let mut total = copy_quantity(&self.unrestricted_stock);
        if let Some(qi) = &self.quality_inspection_stock {
            if let Some(v) = total.value.checked_add(qi.value) {
                total = Quantity::new(v, total.unit);
            }
        }
        if let Some(blocked) = &self.blocked_stock {
            if let Some(v) = total.value.checked_add(blocked.value) {
                total = Quantity::new(v, total.unit);
            }
        }
        total
    }

    /// The stock free for use.
    pub fn available_stock(&self) -> (q: &Quantity)
        ensures
            *q == self.unrestricted_stock,
    {
        &self.unrestricted_stock
    }

    /// Takes `quantity` into unrestricted stock (its unit is not looked at)
    /// and stamps the change; a sum that cannot be held is refused and
    /// changes nothing.
    pub fn increase_stock(&mut self, quantity: Quantity) -> (r: Result<(), MaterialError>)
        ensures
            r is Ok <==> stock_after_receipt(old(self).unrestricted_stock.value, quantity.value) is Some,
            match r {
                Ok(()) => *final(self) == (MaterialStorageData {
                    unrestricted_stock: Quantity {
                        value: stock_after_receipt(old(self).unrestricted_stock.value, quantity.value)->0,
                        unit: old(self).unrestricted_stock.unit,
                    },
                    updated_at: final(self).updated_at,
                    ..*old(self)
                }),
                Err(MaterialError::ValidationFailed { message }) => message@ == receipt_overflow_message()
                    && *final(self) == *old(self),
                Err(_) => false,
            },
    {
        match self.unrestricted_stock.value.checked_add(quantity.value) {
            Some(v) => {
                let unit = self.unrestricted_stock.unit.clone();
                self.unrestricted_stock = Quantity::new(v, unit);
                self.updated_at = read_clock().instant;
                Ok(())
            },
            None => Err(MaterialError::ValidationFailed {
                message: "Failed to increase stock: quantity overflow".to_owned(),
            }),
        }
    }

    /// Takes `quantity` out of unrestricted stock (its unit is not looked at)
    /// and stamps the change; more than is there is refused with the stock
    /// available and required, and changes nothing.
    pub fn decrease_stock(&mut self, quantity: Quantity) -> (r: Result<(), MaterialError>)
        ensures
            r is Ok <==> stock_after_withdrawal(old(self).unrestricted_stock.value, quantity.value) is Some,
            match r {
                Ok(()) => *final(self) == (MaterialStorageData {
                    unrestricted_stock: Quantity {
                        value: stock_after_withdrawal(old(self).unrestricted_stock.value, quantity.value)->0,
                        unit: old(self).unrestricted_stock.unit,
                    },
                    updated_at: final(self).updated_at,
                    ..*old(self)
                }),
                Err(MaterialError::InsufficientStock { available, required }) => available
                    == old(self).unrestricted_stock.value && required == quantity.value
                    && *final(self) == *old(self),
                Err(_) => false,
            },
    {
        if quantity.value > self.unrestricted_stock.value {
            return Err(MaterialError::InsufficientStock {
                available: self.unrestricted_stock.value,
                required: quantity.value,
            });
        }
        let v = self.unrestricted_stock.value - quantity.value;
        let unit = self.unrestricted_stock.unit.clone();
        self.unrestricted_stock = Quantity::new(v, unit);
        self.updated_at = read_clock().instant;
        Ok(())
    }

    /// Moves `quantity` from unrestricted stock into quality inspection
    /// (which starts at zero in the quantity's unit when there is none).
    /// Not enough unrestricted stock is refused and changes nothing. When the
    /// inspection stock cannot hold the sum, the move is refused after the
    /// unrestricted stock was already taken down and an empty inspection
    /// stock put in place. On success the sum of the two stocks is unchanged,
    /// and so is the total stock wherever the unrestricted and inspection
    /// stock together can be held.
    pub fn move_to_quality_inspection(&mut self, quantity: Quantity) -> (r: Result<(), MaterialError>)
        ensures
            r is Ok && old(self).free_and_inspection_fit() ==> final(self).spec_total_stock() == old(self).spec_total_stock(),
            match r {
                Ok(()) => {
                    &&& stock_after_withdrawal(old(self).unrestricted_stock.value, quantity.value) is Some
                    &&& stock_after_receipt(
                        inspection_base(old(self).quality_inspection_stock, quantity.unit).value,
                        quantity.value,
                    ) is Some
                    &&& *final(self) == (MaterialStorageData {
                        unrestricted_stock: Quantity {
                            value: stock_after_withdrawal(old(self).unrestricted_stock.value, quantity.value)->0,
                            unit: old(self).unrestricted_stock.unit,
                        },
                        quality_inspection_stock: Some(Quantity {
                            value: stock_after_receipt(
                                inspection_base(old(self).quality_inspection_stock, quantity.unit).value,
                                quantity.value,
                            )->0,
                            unit: inspection_base(old(self).quality_inspection_stock, quantity.unit).unit,
                        }),
                        updated_at: final(self).updated_at,
                        ..*old(self)
                    })
                    &&& final(self).unrestricted_stock.value + amount_of(final(self).quality_inspection_stock)
                        == old(self).unrestricted_stock.value + amount_of(old(self).quality_inspection_stock)
                },
                Err(MaterialError::InsufficientStock { available, required }) => {
                    &&& stock_after_withdrawal(old(self).unrestricted_stock.value, quantity.value) is None
                    &&& available == old(self).unrestricted_stock.value
                    &&& required == quantity.value
                    &&& *final(self) == *old(self)
                },
                Err(MaterialError::ValidationFailed { message }) => {
                    &&& stock_after_withdrawal(old(self).unrestricted_stock.value, quantity.value) is Some
                    &&& stock_after_receipt(
                        inspection_base(old(self).quality_inspection_stock, quantity.unit).value,
                        quantity.value,
                    ) is None
                    &&& message@ == inspection_overflow_message()
                    &&& *final(self) == (MaterialStorageData {
                        unrestricted_stock: Quantity {
                            value: stock_after_withdrawal(old(self).unrestricted_stock.value, quantity.value)->0,
                            unit: old(self).unrestricted_stock.unit,
                        },
                        quality_inspection_stock: Some(inspection_base(old(self).quality_inspection_stock, quantity.unit)),
                        updated_at: final(self).updated_at,
                        ..*old(self)
                    })
                },
                Err(_) => false,
            },
    {
        let amount = quantity.value;
        let taken = self.decrease_stock(copy_quantity(&quantity));
        match taken {
            Ok(()) => {},
            Err(e) => {
                return Err(e);
            },
        }
        let current = match &self.quality_inspection_stock {
            Some(s) => copy_quantity(s),
            None => Quantity::new(0, quantity.unit),
        };
        match current.value.checked_add(amount) {
            None => {
                self.quality_inspection_stock = Some(current);
                Err(MaterialError::ValidationFailed { message: "Failed to move to QI: quantity overflow".to_owned() })
            },
            Some(v) => {
                self.quality_inspection_stock = Some(Quantity::new(v, current.unit));
                self.updated_at = read_clock().instant;
                Ok(())
            },
        }
    }

    /// Releases `quantity` from quality inspection into unrestricted stock.
    /// Without inspection stock, or with less than `quantity` of it, the
    /// release is refused with the stock available and required and changes
    /// nothing. When unrestricted stock cannot hold the sum, the release is
    /// refused after the inspection stock was already taken down. On success
    /// the sum of the two stocks is unchanged, and so is the total stock
    /// wherever the unrestricted and inspection stock together can be held.
    pub fn release_from_quality_inspection(&mut self, quantity: Quantity) -> (r: Result<(), MaterialError>)
        ensures
            r is Ok && old(self).free_and_inspection_fit() ==> final(self).spec_total_stock() == old(self).spec_total_stock(),
            match r {
                Ok(()) => {
                    &&& old(self).quality_inspection_stock matches Some(qi)
                    &&& stock_after_withdrawal(qi.value, quantity.value) is Some
                    &&& stock_after_receipt(old(self).unrestricted_stock.value, quantity.value) is Some
                    &&& *final(self) == (MaterialStorageData {
                        quality_inspection_stock: Some(Quantity {
                            value: stock_after_withdrawal(qi.value, quantity.value)->0,
                            unit: qi.unit,
                        }),
                        unrestricted_stock: Quantity {
                            value: stock_after_receipt(old(self).unrestricted_stock.value, quantity.value)->0,
                            unit: old(self).unrestricted_stock.unit,
                        },
                        updated_at: final(self).updated_at,
                        ..*old(self)
                    })
                    &&& final(self).unrestricted_stock.value + amount_of(final(self).quality_inspection_stock)
                        == old(self).unrestricted_stock.value + amount_of(old(self).quality_inspection_stock)
                },
                Err(MaterialError::InsufficientStock { available, required }) => {
                    &&& required == quantity.value
                    &&& available == amount_of(old(self).quality_inspection_stock)
                    &&& match old(self).quality_inspection_stock {
                        Some(qi) => stock_after_withdrawal(qi.value, quantity.value) is None,
                        None => true,
                    }
                    &&& *final(self) == *old(self)
                },
                Err(MaterialError::ValidationFailed { message }) => {
                    &&& old(self).quality_inspection_stock matches Some(qi)
                    &&& stock_after_withdrawal(qi.value, quantity.value) is Some
                    &&& stock_after_receipt(old(self).unrestricted_stock.value, quantity.value) is None
                    &&& message@ == receipt_overflow_message()
                    &&& *final(self) == (MaterialStorageData {
                        quality_inspection_stock: Some(Quantity {
                            value: stock_after_withdrawal(qi.value, quantity.value)->0,
                            unit: qi.unit,
                        }),
                        ..*old(self)
                    })
                },
                Err(_) => false,
            },
    {
        let current = match &self.quality_inspection_stock {
            Some(s) => copy_quantity(s),
            None => {
                return Err(MaterialError::InsufficientStock { available: 0, required: quantity.value });
            },
        };
        if quantity.value > current.value {
            return Err(MaterialError::InsufficientStock { available: current.value, required: quantity.value });
        }
        let left = current.value - quantity.value;
        self.quality_inspection_stock = Some(Quantity::new(left, current.unit));
        self.increase_stock(quantity)
    }

    /// Records a stock count now and stamps the change.
    pub fn update_count_date(&mut self)
        ensures
            final(self).last_count_date is Some,
            *final(self) == (MaterialStorageData {
                last_count_date: final(self).last_count_date,
                updated_at: final(self).updated_at,
                ..*old(self)
            }),
    {
        self.last_count_date = Some(read_clock().instant);
        self.updated_at = read_clock().instant;
    }
}

/// Taking in an amount adds it to the stock, and is refused exactly when
/// the sum exceeds the largest amount a stock can hold; taking out an amount
/// subtracts it, and is refused exactly when it exceeds the stock.
pub proof fn lemma_stock_arithmetic(available: u64, amount: u64)
    ensures
        stock_after_receipt(available, amount) is None <==> available + amount > 0xffff_ffff_ffff_ffff,
        stock_after_receipt(available, amount) matches Some(v) ==> v == available + amount,
        stock_after_withdrawal(available, amount) is None <==> amount > available,
        stock_after_withdrawal(available, amount) matches Some(v) ==> v == available - amount,
{
}

/// Taking in an amount and then taking the same amount out leaves the
/// stock where it was.
pub proof fn lemma_receipt_then_withdrawal(available: u64, amount: u64)
    requires
        stock_after_receipt(available, amount) is Some,
    ensures
        stock_after_withdrawal(stock_after_receipt(available, amount)->0, amount) == Some(available),
{
}

/// Taking out an amount and then taking the same amount in leaves the
/// stock where it was.
pub proof fn lemma_withdrawal_then_receipt(available: u64, amount: u64)
    requires
        stock_after_withdrawal(available, amount) is Some,
    ensures
        stock_after_receipt(stock_after_withdrawal(available, amount)->0, amount) == Some(available),
{
}

/// A withdrawal is possible exactly when the amount does not exceed the
/// stock, and it never leaves more than there was.
pub proof fn lemma_withdrawal_bounds(available: u64, amount: u64)
    ensures
        stock_after_withdrawal(available, amount) is Some <==> amount <= available,
        stock_after_withdrawal(available, amount) matches Some(left) ==> left <= available,
{
}

// ---------------------------------------------------------------------------
// Change events
// ---------------------------------------------------------------------------

/// The kind of change an event reports.
#[derive(Clone, Copy, Debug, PartialEq, Eq, Structural)]
pub enum ChangeEventType {
    Created,
    Updated,
    Deleted,
    StockChanged,
}

/// One changed field with its value before and after.
#[derive(Clone, Debug, PartialEq, Eq)]
pub struct FieldDelta {
    pub field_name: String,
    pub old_value: Option<serde_json::Value>,
    pub new_value: Option<serde_json::Value>,
}

/// The header every change event carries.
#[derive(Clone, Debug, PartialEq, Eq)]
pub struct ChangeEventHeader {
    pub event_id: Uuid,
    pub tenant_id: String,
    pub timestamp: Timestamp,
    pub actor_id: String,
    pub event_type: ChangeEventType,
    pub version: i32,
    pub correlation_id: Option<Uuid>,
}

impl ChangeEventHeader {
    /// A header of version 1 with a fresh random identifier, stamped with the
    /// current time and without a correlation identifier.
    pub fn new(tenant_id: String, actor_id: String, event_type: ChangeEventType) -> (h: ChangeEventHeader)
        ensures
            is_random_uuid(h.event_id),
            h.tenant_id == tenant_id,
            h.actor_id == actor_id,
            h.event_type == event_type,
            h.version == 1,
            h.correlation_id is None,
    {
        ChangeEventHeader {
            event_id: random_uuid(),
            tenant_id,
            timestamp: read_clock().instant,
            actor_id,
            event_type,
            version: 1,
            correlation_id: None,
        }
    }
}

/// A change of a material.
#[derive(Clone, Debug)]
pub struct MaterialChangedEvent {
    pub header: ChangeEventHeader,
    pub material_number: MaterialNumber,
    pub changes: Vec<FieldDelta>,
    pub snapshot: Option<Material>,
}

/// A change of a material's plant data.
#[derive(Clone, Debug)]
pub struct MaterialPlantDataChangedEvent {
    pub header: ChangeEventHeader,
    pub material_number: MaterialNumber,
    pub plant_code: PlantValue,
    pub changes: Vec<FieldDelta>,
    pub snapshot: Option<MaterialPlantData>,
}

/// A movement of stock.
#[derive(Clone, Debug)]
pub struct StockChangedEvent {
    pub header: ChangeEventHeader,
    pub material_number: MaterialNumber,
    pub plant_code: PlantValue,
    pub storage_location: StorageLocationValue,
    pub quantity_delta: Quantity,
    pub movement_type: String,
    pub stock_after: Quantity,
}

} // verus!

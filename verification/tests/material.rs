use killer_master_data::validation::ValidationErrors;
use killer_master_data::material::{
    ChangeEventHeader, ChangeEventType, Material, MaterialError, MaterialPlantData, MaterialStorageData, MaterialType,
    MrpType, ProcurementType, SpecialProcurementType,
};
use killer_master_data::primitives::Quantity;

fn names(e: &ValidationErrors) -> Vec<&'static str> {
    e.fields.iter().map(|f| f.field).collect()
}

fn s(text: &str) -> String {
    text.to_string()
}

fn q(value: u64, unit: &str) -> Quantity {
    Quantity::new(value, s(unit))
}

fn storage(stock: u64) -> MaterialStorageData {
    MaterialStorageData::new(s("t"), s("MAT-001"), s("1000"), s("0001"), q(stock, "EA")).unwrap()
}

#[test]
fn material_from_the_documentation() {
    let m = Material::new(s("tenant-001"), s("MAT-001"), s("示例物料"), MaterialType::FinishedProduct, s("EA"))
        .expect("Failed to create material");
    assert_eq!(m.base_unit, "EA");
    assert_eq!(m.gross_weight, None);
    let p = MaterialPlantData::new(s("tenant-001"), s("MAT-001"), s("1000"), MrpType::PD, ProcurementType::InHouse)
        .expect("Failed to create plant data");
    assert_eq!(p.special_procurement, SpecialProcurementType::Standard);
    assert_eq!(SpecialProcurementType::default(), SpecialProcurementType::Standard);
}

#[test]
fn material_rules() {
    let err = Material::new(s(""), s(""), s(""), MaterialType::Service, s("")).unwrap_err();
    assert_eq!(names(&err), vec!["material_number", "tenant_id", "description", "base_unit"]);
    let mut m = Material::new(s("t"), s("M"), s("D"), MaterialType::RawMaterial, s("KG")).unwrap();
    m.material_group = Some(std::iter::repeat('g').take(21).collect());
    assert_eq!(names(&m.validate().unwrap_err()), vec!["material_group"]);
}

#[test]
fn material_update_description_keeps_the_new_text_even_when_invalid() {
    let mut m = Material::new(s("t"), s("M"), s("D"), MaterialType::SparePart, s("EA")).unwrap();
    assert!(m.update_description(s("New")).is_ok());
    assert_eq!(m.description, "New");
    let err = m.update_description(s("")).unwrap_err();
    assert_eq!(names(&err), vec!["description"]);
    assert_eq!(m.description, "");
}

#[test]
fn material_weight_volume_delete() {
    let mut m = Material::new(s("t"), s("M"), s("D"), MaterialType::TradingGoods, s("EA")).unwrap();
    m.set_weight(q(2000, "KG"), q(1500, "KG"));
    assert_eq!(m.gross_weight, Some(q(2000, "KG")));
    assert_eq!(m.net_weight, Some(q(1500, "KG")));
    m.set_volume(q(3000, "M3"), s("M"));
    assert_eq!(m.volume, Some(q(3000, "M3")));
    assert_eq!(m.size_unit, Some(s("M")));
    m.mark_deleted();
    assert!(m.deleted);
}

#[test]
fn plant_data_setters_and_rules() {
    let mut p = MaterialPlantData::new(s("t"), s("M"), s("1000"), MrpType::VB, ProcurementType::External).unwrap();
    p.set_safety_stock(q(10, "EA"));
    p.set_reorder_point(q(20, "EA"));
    p.set_lot_size(Some(q(1, "EA")), None, Some(q(5, "EA")));
    assert_eq!(p.safety_stock, Some(q(10, "EA")));
    assert_eq!(p.reorder_point, Some(q(20, "EA")));
    assert_eq!(p.minimum_lot_size, Some(q(1, "EA")));
    assert_eq!(p.maximum_lot_size, None);
    assert_eq!(p.fixed_lot_size, Some(q(5, "EA")));
    p.abc_indicator = Some(s("AB"));
    assert_eq!(names(&p.validate().unwrap_err()), vec!["abc_indicator"]);
    p.mark_deleted();
    assert!(p.deleted);
    let err = MaterialPlantData::new(s("t"), s("M"), s(""), MrpType::ND, ProcurementType::Both).unwrap_err();
    assert_eq!(names(&err), vec!["plant_code"]);
}

#[test]
fn storage_data_rules() {
    let err = MaterialStorageData::new(s("t"), s("M"), s("1000"), s(""), q(0, "EA")).unwrap_err();
    assert_eq!(names(&err), vec!["storage_location"]);
}

#[test]
fn increase_then_decrease_restores_stock() {
    let mut d = storage(1000);
    d.increase_stock(q(250, "EA")).unwrap();
    assert_eq!(d.available_stock(), &q(1250, "EA"));
    d.decrease_stock(q(250, "EA")).unwrap();
    assert_eq!(d.available_stock(), &q(1000, "EA"));
}

#[test]
fn increase_keeps_the_stock_unit() {
    let mut d = storage(1000);
    d.increase_stock(q(5, "KG")).unwrap();
    assert_eq!(d.unrestricted_stock, q(1005, "EA"));
}

#[test]
fn increase_beyond_capacity_is_refused() {
    let mut d = storage(u64::MAX - 1);
    let before = d.clone();
    assert_eq!(
        d.increase_stock(q(2, "EA")),
        Err(MaterialError::ValidationFailed { message: s("Failed to increase stock: quantity overflow") })
    );
    assert_eq!(d, before);
}

#[test]
fn decrease_below_zero_is_refused() {
    let mut d = storage(100);
    let before = d.clone();
    assert_eq!(d.decrease_stock(q(101, "EA")), Err(MaterialError::InsufficientStock { available: 100, required: 101 }));
    assert_eq!(d, before);
    assert!(d.decrease_stock(q(100, "EA")).is_ok());
    assert_eq!(d.unrestricted_stock.value(), 0);
}

#[test]
fn move_to_quality_inspection_then_release() {
    let mut d = storage(1000);
    d.move_to_quality_inspection(q(300, "EA")).unwrap();
    assert_eq!(d.unrestricted_stock, q(700, "EA"));
    assert_eq!(d.quality_inspection_stock, Some(q(300, "EA")));
    d.move_to_quality_inspection(q(100, "EA")).unwrap();
    assert_eq!(d.quality_inspection_stock, Some(q(400, "EA")));
    d.release_from_quality_inspection(q(400, "EA")).unwrap();
    assert_eq!(d.unrestricted_stock, q(1000, "EA"));
    assert_eq!(d.quality_inspection_stock, Some(q(0, "EA")));
}

#[test]
fn move_to_quality_inspection_without_enough_stock() {
    let mut d = storage(10);
    let before = d.clone();
    assert_eq!(
        d.move_to_quality_inspection(q(11, "EA")),
        Err(MaterialError::InsufficientStock { available: 10, required: 11 })
    );
    assert_eq!(d, before);
}

#[test]
fn move_to_quality_inspection_overflow_leaves_stock_taken() {
    let mut d = storage(10);
    d.quality_inspection_stock = Some(q(u64::MAX - 5, "EA"));
    assert_eq!(
        d.move_to_quality_inspection(q(10, "EA")),
        Err(MaterialError::ValidationFailed { message: s("Failed to move to QI: quantity overflow") })
    );
    assert_eq!(d.unrestricted_stock, q(0, "EA"));
    assert_eq!(d.quality_inspection_stock, Some(q(u64::MAX - 5, "EA")));
}

#[test]
fn move_starts_inspection_stock_in_the_moved_unit() {
    let mut d = storage(10);
    d.move_to_quality_inspection(q(4, "PC")).unwrap();
    assert_eq!(d.quality_inspection_stock, Some(q(4, "PC")));
    assert_eq!(d.unrestricted_stock, q(6, "EA"));
}

#[test]
fn release_without_inspection_stock() {
    let mut d = storage(10);
    let before = d.clone();
    assert_eq!(
        d.release_from_quality_inspection(q(1, "EA")),
        Err(MaterialError::InsufficientStock { available: 0, required: 1 })
    );
    assert_eq!(d, before);
    d.quality_inspection_stock = Some(q(3, "EA"));
    assert_eq!(
        d.release_from_quality_inspection(q(4, "EA")),
        Err(MaterialError::InsufficientStock { available: 3, required: 4 })
    );
}

#[test]
fn release_overflow_leaves_inspection_stock_taken() {
    let mut d = storage(u64::MAX);
    d.quality_inspection_stock = Some(q(5, "EA"));
    assert_eq!(
        d.release_from_quality_inspection(q(5, "EA")),
        Err(MaterialError::ValidationFailed { message: s("Failed to increase stock: quantity overflow") })
    );
    assert_eq!(d.quality_inspection_stock, Some(q(0, "EA")));
    assert_eq!(d.unrestricted_stock, q(u64::MAX, "EA"));
}

#[test]
fn total_stock_adds_inspection_and_blocked() {
    let mut d = storage(100);
    assert_eq!(d.total_stock(), q(100, "EA"));
    d.quality_inspection_stock = Some(q(20, "EA"));
    d.blocked_stock = Some(q(3, "KG"));
    d.in_transit_stock = Some(q(1000, "EA"));
    assert_eq!(d.total_stock(), q(123, "EA"));
}

#[test]
fn total_stock_skips_an_addition_that_overflows() {
    let mut d = storage(u64::MAX - 10);
    d.quality_inspection_stock = Some(q(20, "EA"));
    d.blocked_stock = Some(q(10, "EA"));
    assert_eq!(d.total_stock(), q(u64::MAX, "EA"));
}

#[test]
fn update_count_date_and_delete() {
    let mut d = storage(1);
    assert_eq!(d.last_count_date, None);
    d.update_count_date();
    assert!(d.last_count_date.is_some());
    d.mark_deleted();
    assert!(d.deleted);
}

#[test]
fn stock_changed_header() {
    let h = ChangeEventHeader::new(s("t"), s("a"), ChangeEventType::StockChanged);
    assert_eq!(h.event_type, ChangeEventType::StockChanged);
    assert_eq!(h.version, 1);
}

#[test]
fn moving_and_releasing_keep_the_total_stock() {
    let mut d = storage(1000);
    d.blocked_stock = Some(q(50, "EA"));
    assert_eq!(d.total_stock(), q(1050, "EA"));
    d.move_to_quality_inspection(q(250, "EA")).unwrap();
    assert_eq!(d.total_stock(), q(1050, "EA"));
    d.release_from_quality_inspection(q(100, "EA")).unwrap();
    assert_eq!(d.total_stock(), q(1050, "EA"));
    assert_eq!(d.unrestricted_stock, q(850, "EA"));
    assert_eq!(d.quality_inspection_stock, Some(q(150, "EA")));
}

#[test]
fn moving_keeps_the_total_even_when_blocked_stock_does_not_fit() {
    let mut d = storage(u64::MAX - 100);
    d.blocked_stock = Some(q(1000, "EA"));
    assert_eq!(d.total_stock(), q(u64::MAX - 100, "EA"));
    d.move_to_quality_inspection(q(50, "EA")).unwrap();
    assert_eq!(d.total_stock(), q(u64::MAX - 100, "EA"));
}

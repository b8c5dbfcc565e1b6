use killer_master_data::validation::{FieldError, ValidationErrors};
use killer_master_data::organizational_units::{
    validity_text, ChangeEventHeader, ChangeEventType, CompanyCode, ControllingArea, Plant, PurchasingOrganization,
    SalesOrganization, StorageLocation, ValidityRange,
};
use killer_master_data::time::UtcDate;

fn day(n: i32) -> UtcDate {
    UtcDate { days_from_ce: n }
}

fn names(e: &ValidationErrors) -> Vec<&'static str> {
    e.fields.iter().map(|f| f.field).collect()
}

fn s(text: &str) -> String {
    text.to_string()
}

#[test]
fn company_code_accepts_valid_fields() {
    let c = CompanyCode::new(s("tenant-001"), s("1000"), s("示例公司"), s("CN"), s("CNY"))
        .expect("valid company code");
    assert_eq!(c.code, "1000");
    assert_eq!(c.tenant_id, "tenant-001");
    assert_eq!(c.name, "示例公司");
    assert_eq!(c.country, "CN");
    assert_eq!(c.currency_code, "CNY");
    assert_eq!(c.street_address, None);
    assert_eq!(c.fiscal_year_variant, None);
    assert_eq!(c.created_at, c.updated_at);
    assert!(c.extensions.inner().is_empty());
    assert!(!c.deleted);
}

#[test]
fn company_code_reports_every_broken_field_in_order() {
    let err = CompanyCode::new(s(""), s("10000"), s(""), s("C"), s("CNY")).unwrap_err();
    assert_eq!(names(&err), vec!["code", "tenant_id", "name", "country"]);
}

#[test]
fn company_code_length_counts_characters_not_bytes() {
    // Four Chinese characters are twelve bytes but four characters.
    let c = CompanyCode::new(s("t"), s("公司代码"), s("名"), s("CHN"), s("CNY"));
    assert!(c.is_ok());
    let long_name: String = std::iter::repeat('名').take(101).collect();
    let err = CompanyCode::new(s("t"), s("1000"), long_name, s("CN"), s("CNY")).unwrap_err();
    assert_eq!(names(&err), vec!["name"]);
}

#[test]
fn company_code_update_name() {
    let mut c = CompanyCode::new(s("t"), s("1000"), s("Old"), s("CN"), s("CNY")).unwrap();
    assert!(c.update_name(s("New")).is_ok());
    assert_eq!(c.name, "New");
    let before = c.clone();
    let err = c.update_name(s("")).unwrap_err();
    assert_eq!(names(&err), vec!["name"]);
    assert_eq!(c, before);
}

#[test]
fn company_code_mark_deleted() {
    let mut c = CompanyCode::new(s("t"), s("1000"), s("Co"), s("CN"), s("CNY")).unwrap();
    let code = c.code.clone();
    c.mark_deleted();
    assert!(c.deleted);
    assert_eq!(c.code, code);
}

#[test]
fn plant_defaults_to_today_without_first_day() {
    let p = Plant::new(s("t"), s("1000"), s("SH01"), s("上海工厂"), s("Shanghai"), s("CN"), None, None)
        .expect("valid plant");
    assert_eq!(p.city, Some(s("Shanghai")));
    assert_eq!(p.validity.valid_to, None);
    // The default first day is the UTC day of the creation instant.
    assert_eq!(
        p.validity.valid_from.days_from_ce as i64,
        p.created_at.secs.div_euclid(86400) + 719163
    );
    assert!(p.is_currently_valid());
}

#[test]
fn plant_keeps_given_range_and_checks_fields() {
    let p = Plant::new(s("t"), s("1000"), s("SH01"), s("P"), s("C"), s("CN"), Some(day(100)), Some(day(200)))
        .unwrap();
    assert_eq!(p.validity, ValidityRange::new(day(100), Some(day(200))));
    assert!(p.is_valid_at(day(100)));
    assert!(p.is_valid_at(day(200)));
    assert!(!p.is_valid_at(day(201)));
    assert!(!p.is_valid_at(day(99)));
    let err = Plant::new(s("t"), s(""), s("SH0"), s("P"), s("C"), s("CN"), None, None).unwrap_err();
    assert_eq!(names(&err), vec!["code", "company_code"]);
}

#[test]
fn plant_deleted_is_not_currently_valid() {
    let mut p = Plant::new(s("t"), s("1000"), s("SH01"), s("P"), s("C"), s("CN"), Some(day(1)), None).unwrap();
    assert!(p.is_currently_valid());
    p.mark_deleted();
    assert!(!p.is_currently_valid());
    // is_valid_at looks at the range only.
    assert!(p.is_valid_at(day(5)));
}

#[test]
fn plant_update_validity() {
    let mut p = Plant::new(s("t"), s("1000"), s("SH01"), s("P"), s("C"), s("CN"), Some(day(1)), None).unwrap();
    p.update_validity(day(10), Some(day(11)));
    assert_eq!(p.validity, ValidityRange::new(day(10), Some(day(11))));
    assert!(!p.is_currently_valid());
}

#[test]
fn validity_range_bounds_are_inclusive() {
    let r = ValidityRange::new(day(10), Some(day(20)));
    assert!(!r.is_valid_at(day(9)));
    assert!(r.is_valid_at(day(10)));
    assert!(r.is_valid_at(day(15)));
    assert!(r.is_valid_at(day(20)));
    assert!(!r.is_valid_at(day(21)));
    let open = ValidityRange::new(day(10), None);
    assert!(open.is_valid_at(day(1_000_000)));
}

#[test]
fn validity_range_default_starts_today_without_end() {
    let r = ValidityRange::default();
    assert_eq!(r.valid_to, None);
    assert!(r.is_currently_valid());
}

#[test]
fn intersection_of_overlapping_ranges() {
    let a = ValidityRange::new(day(10), Some(day(20)));
    let b = ValidityRange::new(day(15), None);
    assert_eq!(a.intersection(&b), Some(ValidityRange::new(day(15), Some(day(20)))));
    assert_eq!(b.intersection(&a), Some(ValidityRange::new(day(15), Some(day(20)))));
}

#[test]
fn intersection_takes_earlier_end() {
    let a = ValidityRange::new(day(1), Some(day(30)));
    let b = ValidityRange::new(day(5), Some(day(25)));
    assert_eq!(a.intersection(&b), Some(ValidityRange::new(day(5), Some(day(25)))));
}

#[test]
fn intersection_of_open_ranges_is_open() {
    let a = ValidityRange::new(day(1), None);
    let b = ValidityRange::new(day(7), None);
    assert_eq!(a.intersection(&b), Some(ValidityRange::new(day(7), None)));
}

#[test]
fn intersection_touching_on_one_day() {
    let a = ValidityRange::new(day(1), Some(day(10)));
    let b = ValidityRange::new(day(10), Some(day(20)));
    assert_eq!(a.intersection(&b), Some(ValidityRange::new(day(10), Some(day(10)))));
}

#[test]
fn intersection_of_disjoint_ranges_is_none() {
    let a = ValidityRange::new(day(1), Some(day(9)));
    let b = ValidityRange::new(day(10), Some(day(20)));
    assert_eq!(a.intersection(&b), None);
    assert_eq!(b.intersection(&a), None);
}

#[test]
fn intersection_covers_exactly_common_days() {
    let a = ValidityRange::new(day(3), Some(day(12)));
    let b = ValidityRange::new(day(8), None);
    let r = a.intersection(&b).unwrap();
    for d in 0..20 {
        assert_eq!(r.is_valid_at(day(d)), a.is_valid_at(day(d)) && b.is_valid_at(day(d)));
    }
}

#[test]
fn intersection_with_itself() {
    let a = ValidityRange::new(day(3), Some(day(12)));
    assert_eq!(a.intersection(&a), Some(a));
}

#[test]
fn storage_location_rules() {
    let l = StorageLocation::new(s("t"), s("SH01"), s("0001"), s("Raw")).unwrap();
    assert_eq!(l.plant_code, "SH01");
    assert_eq!(l.address, None);
    let long: String = std::iter::repeat('x').take(51).collect();
    let err = StorageLocation::new(s("t"), s(""), s("01"), long).unwrap_err();
    assert_eq!(names(&err), vec!["code", "plant_code", "name"]);
    let mut l = l;
    l.mark_deleted();
    assert!(l.deleted);
}

#[test]
fn purchasing_and_sales_organizations() {
    let p = PurchasingOrganization::new(s("t"), s("1000"), s("P001"), s("Purchasing")).unwrap();
    assert!(!p.cross_company);
    let err = PurchasingOrganization::new(s(""), s("1000"), s("P1"), s("X")).unwrap_err();
    assert_eq!(names(&err), vec!["code", "tenant_id"]);
    let mut so = SalesOrganization::new(s("t"), s("1000"), s("S001"), s("Sales")).unwrap();
    assert_eq!(so.sales_channel, None);
    so.mark_deleted();
    assert!(so.deleted);
    let err = SalesOrganization::new(s("t"), s(""), s("S001"), s("")).unwrap_err();
    assert_eq!(names(&err), vec!["company_code", "name"]);
}

#[test]
fn controlling_area_activation() {
    let mut a = ControllingArea::new(s("t"), s("1000"), s("CA"), s("CNY")).unwrap();
    assert!(a.active);
    a.deactivate();
    assert!(!a.active);
    a.activate();
    assert!(a.active);
    a.mark_deleted();
    assert!(a.deleted);
    let err = ControllingArea::new(s("t"), s("10"), s(""), s("CNY")).unwrap_err();
    assert_eq!(names(&err), vec!["code", "name"]);
}

#[test]
fn change_event_header_is_fresh_version_one() {
    let h1 = ChangeEventHeader::new(s("t"), s("actor"), ChangeEventType::ValidityChanged);
    let h2 = ChangeEventHeader::new(s("t"), s("actor"), ChangeEventType::ValidityChanged);
    assert_eq!(h1.version, 1);
    assert_eq!(h1.correlation_id, None);
    assert_eq!(h1.event_type, ChangeEventType::ValidityChanged);
    assert_eq!((h1.event_id >> 76) & 0xf, 4);
    assert_eq!((h1.event_id >> 62) & 0x3, 2);
    assert_ne!(h1.event_id, h2.event_id);
}

#[test]
fn validity_range_text() {
    // 2024-01-01 is day 738886 of the common era; 2024-12-31 is day 739251.
    let closed = ValidityRange::new(day(738886), Some(day(739251)));
    assert_eq!(closed.to_string(), "valid from 2024-01-01UTC to 2024-12-31");
    let open = ValidityRange::new(day(738886), None);
    assert_eq!(open.to_string(), "valid from 2024-01-01UTC to unlimited");
    // Years past 9999 carry a sign.
    let far = ValidityRange::new(day(3652060), Some(day(3652060)));
    assert_eq!(far.to_string(), "valid from +10000-01-01UTC to +10000-01-01");
}

#[test]
fn validity_text_joins_the_ends() {
    assert_eq!(validity_text("a", Some("b")), "valid from a to b");
    assert_eq!(validity_text("a", None), "valid from a to unlimited");
}

#[test]
fn code_rules_carry_their_messages_and_bounds() {
    let err = CompanyCode::new(s("t"), s("100"), s(""), s("CN"), s("CNY")).unwrap_err();
    assert_eq!(
        err.fields,
        vec![
            FieldError { field: "code", message: Some("公司代码必须为4位"), min: Some(4), max: Some(4) },
            FieldError { field: "name", message: None, min: Some(1), max: Some(100) },
        ]
    );
    let err = Plant::new(s("t"), s("1000"), s("SH001"), s("P"), s("C"), s("CN"), None, None).unwrap_err();
    assert_eq!(
        err.fields,
        vec![FieldError { field: "code", message: Some("工厂代码必须为4位"), min: Some(4), max: Some(4) }]
    );
    let err = StorageLocation::new(s("t"), s("1000"), s("0001"), s("")).unwrap_err();
    assert_eq!(err.fields, vec![FieldError { field: "name", message: None, min: Some(1), max: Some(50) }]);
}

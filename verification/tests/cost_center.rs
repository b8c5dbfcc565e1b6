use killer_master_data::validation::ValidationErrors;
use killer_master_data::cost_center::{
    ChangeEventHeader, ChangeEventType, CostCenter, CostCenterCategory, CostCenterError, CostElement,
    CostElementCategory, ProfitCenter, ValidityRange,
};
use killer_master_data::time::Timestamp;

fn at(secs: i64) -> Timestamp {
    Timestamp { secs, nanos: 0 }
}

fn names(e: &ValidationErrors) -> Vec<&'static str> {
    e.fields.iter().map(|f| f.field).collect()
}

fn s(text: &str) -> String {
    text.to_string()
}

#[test]
fn cost_center_from_the_documentation() {
    let c = CostCenter::new(s("tenant-001"), s("CC-001"), s("1000"), s("研发部门"), CostCenterCategory::Production)
        .expect("Failed to create cost center");
    assert_eq!(c.code, "CC-001");
    assert_eq!(c.controlling_area, "1000");
    assert_eq!(c.category, CostCenterCategory::Production);
    assert_eq!(c.validity.valid_to, None);
    assert!(!c.locked);
    assert!(!c.deleted);
    assert_eq!(c.created_at, c.updated_at);
    assert!(c.is_currently_valid());
}

#[test]
fn profit_center_from_the_documentation() {
    let p = ProfitCenter::new(s("tenant-001"), s("PC-001"), s("1000"), s("华东区")).expect("Failed to create profit center");
    assert_eq!(p.code, "PC-001");
    assert_eq!(p.parent_profit_center, None);
    assert!(p.is_currently_valid());
}

#[test]
fn cost_center_rules() {
    let err = CostCenter::new(s(""), s(""), s("100"), s(""), CostCenterCategory::Sales).unwrap_err();
    assert_eq!(names(&err), vec!["code", "tenant_id", "controlling_area", "name"]);
    let mut c = CostCenter::new(s("t"), s("C"), s("1000"), s("N"), CostCenterCategory::Sales).unwrap();
    c.company_code = Some(s("10"));
    c.department = Some(std::iter::repeat('d').take(51).collect());
    assert_eq!(names(&c.validate().unwrap_err()), vec!["department", "company_code"]);
    c.company_code = Some(s("1000"));
    c.department = None;
    assert!(c.validate().is_ok());
}

#[test]
fn cost_center_lock_delete_and_validity() {
    let mut c = CostCenter::new(s("t"), s("C"), s("1000"), s("N"), CostCenterCategory::Research).unwrap();
    c.update_validity(at(100), Some(at(200)));
    assert_eq!(c.validity, ValidityRange::new(at(100), Some(at(200))));
    assert!(c.is_valid_at(at(100)));
    assert!(c.is_valid_at(at(200)));
    assert!(!c.is_valid_at(Timestamp { secs: 200, nanos: 1 }));
    assert!(!c.is_valid_at(Timestamp { secs: 99, nanos: 999_999_999 }));
    c.lock();
    assert!(c.locked);
    assert!(!c.is_valid_at(at(150)));
    c.unlock();
    assert!(c.is_valid_at(at(150)));
    c.mark_deleted();
    assert!(!c.is_valid_at(at(150)));
}

#[test]
fn cost_center_assign_profit_center() {
    let mut c = CostCenter::new(s("t"), s("C"), s("1000"), s("N"), CostCenterCategory::Service).unwrap();
    c.assign_profit_center(s("PC-001"));
    assert_eq!(c.profit_center, Some(s("PC-001")));
}

#[test]
fn profit_center_rules_and_parent() {
    let err = ProfitCenter::new(s("t"), s("PC1"), s("1000"), s("N")).unwrap_err();
    assert_eq!(names(&err), vec!["code"]);
    let err = ProfitCenter::new(s("t"), s("PC-0000000001"), s("10000"), s("N")).unwrap_err();
    assert_eq!(names(&err), vec!["code", "controlling_area"]);
    let mut p = ProfitCenter::new(s("t"), s("PC-1"), s("1000"), s("N")).unwrap();
    p.set_parent(s("PC-0"));
    assert_eq!(p.parent_profit_center, Some(s("PC-0")));
    p.update_validity(at(0), None);
    assert!(p.is_valid_at(at(1)));
    p.lock();
    assert!(!p.is_valid_at(at(1)));
    p.unlock();
    p.mark_deleted();
    assert!(!p.is_valid_at(at(1)));
    assert!(!p.is_currently_valid());
}

#[test]
fn cost_element_links_gl_account_only_when_primary() {
    let mut primary = CostElement::new(s("t"), s("400000"), s("1000"), s("Material"), CostElementCategory::Primary).unwrap();
    assert_eq!(primary.gl_account, None);
    assert!(primary.link_gl_account(s("400000")).is_ok());
    assert_eq!(primary.gl_account, Some(s("400000")));

    let mut secondary = CostElement::new(s("t"), s("900000"), s("1000"), s("Alloc"), CostElementCategory::Secondary).unwrap();
    let before = secondary.clone();
    assert_eq!(
        secondary.link_gl_account(s("900000")),
        Err(CostCenterError::ValidationFailed {
            message: s("Only primary cost elements can be linked to GL accounts"),
        })
    );
    assert_eq!(secondary, before);

    let mut revenue = CostElement::new(s("t"), s("800000"), s("1000"), s("Rev"), CostElementCategory::Revenue).unwrap();
    assert!(revenue.link_gl_account(s("800000")).is_err());
}

#[test]
fn cost_element_validity_ignores_nothing_but_deletion() {
    let mut e = CostElement::new(s("t"), s("1"), s("1000"), s("E"), CostElementCategory::Primary).unwrap();
    e.update_validity(at(10), Some(at(20)));
    assert!(e.is_valid_at(at(15)));
    assert!(!e.is_valid_at(at(21)));
    e.mark_deleted();
    assert!(!e.is_valid_at(at(15)));
    let err = CostElement::new(s("t"), s(""), s("1000"), s(""), CostElementCategory::Primary).unwrap_err();
    assert_eq!(names(&err), vec!["code", "name"]);
}

#[test]
fn validity_range_orders_by_second_then_nanosecond() {
    let r = ValidityRange::new(Timestamp { secs: 5, nanos: 500 }, Some(Timestamp { secs: 6, nanos: 0 }));
    assert!(!r.is_valid_at(Timestamp { secs: 5, nanos: 499 }));
    assert!(r.is_valid_at(Timestamp { secs: 5, nanos: 500 }));
    // A leap second (nanos past one billion) still comes before the next second.
    assert!(r.is_valid_at(Timestamp { secs: 5, nanos: 1_500_000_000 }));
    assert!(r.is_valid_at(Timestamp { secs: 6, nanos: 0 }));
    assert!(!r.is_valid_at(Timestamp { secs: 6, nanos: 1 }));
    assert!(ValidityRange::default().is_currently_valid());
}

#[test]
fn change_event_header() {
    let h = ChangeEventHeader::new(s("t"), s("a"), ChangeEventType::Locked);
    assert_eq!(h.tenant_id, "t");
    assert_eq!(h.actor_id, "a");
    assert_eq!(h.version, 1);
    assert_eq!((h.event_id >> 76) & 0xf, 4);
}

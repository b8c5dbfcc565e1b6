use killer_master_data::validation::{FieldError, ValidationErrors};
use killer_master_data::business_partner::{
    Address, BankAccount, BlockStatus, BusinessPartner, BusinessPartnerError, ChangeEventHeader, ChangeEventType,
    CustomerRole, PartnerType, SupplierRole,
};
use killer_master_data::primitives::Money;

fn names(e: &ValidationErrors) -> Vec<&'static str> {
    e.fields.iter().map(|f| f.field).collect()
}

fn s(text: &str) -> String {
    text.to_string()
}

fn supplier_with_accounts(n: usize) -> SupplierRole {
    let mut role = SupplierRole::new(s("t"), s("BP-001"), s("1000"), s("160000"), s("NET30")).unwrap();
    for i in 0..n {
        role.add_bank_account(BankAccount::new(format!("B{}", i), format!("A{}", i), s("Holder")).unwrap()).unwrap();
    }
    role
}

#[test]
fn partner_from_the_documentation() {
    let p = BusinessPartner::new(s("tenant-001"), s("BP-001"), s("示例公司"), PartnerType::Organization)
        .expect("Failed to create business partner");
    assert_eq!(p.id, "BP-001");
    assert_eq!(p.address, Address::new(s("CN")));
    assert_eq!(p.language, Some(s("zh")));
    assert_eq!(p.tax_number, None);
    assert_eq!(p.created_at, p.updated_at);
    let c = CustomerRole::new(s("tenant-001"), s("BP-001"), s("1000"), s("NET30"), Money::new(10_000_000, s("CNY")))
        .expect("Failed to create customer role");
    assert_eq!(c.block_status, BlockStatus::Unblocked);
    assert!(!c.is_blocked());
}

#[test]
fn partner_new_does_not_check_rules() {
    let p = BusinessPartner::new(s(""), s(""), s(""), PartnerType::Person).unwrap();
    assert_eq!(names(&p.validate().unwrap_err()), vec!["id", "tenant_id", "name"]);
}

#[test]
fn partner_updates() {
    let mut p = BusinessPartner::new(s("t"), s("BP"), s("Old"), PartnerType::Person).unwrap();
    assert!(p.update_name(s("New")).is_ok());
    assert_eq!(p.name, "New");
    let mut a = Address::new(s("DE"));
    a.city = Some(s("Berlin"));
    assert!(p.update_address(a.clone()).is_ok());
    assert_eq!(p.address, a);
    p.language = Some(s("z"));
    assert_eq!(names(&p.validate().unwrap_err()), vec!["language"]);
    p.mark_deleted();
    assert!(p.deleted);
}

#[test]
fn address_rules() {
    let mut a = Address::new(s("C"));
    a.postal_code = Some(std::iter::repeat('9').take(21).collect());
    assert_eq!(names(&a.validate().unwrap_err()), vec!["postal_code", "country"]);
    assert_eq!(
        a.validate().unwrap_err().fields,
        vec![
            FieldError { field: "postal_code", message: None, min: None, max: Some(20) },
            FieldError { field: "country", message: None, min: Some(2), max: Some(3) },
        ]
    );
    assert!(Address::new(s("CHN")).validate().is_ok());
}

#[test]
fn customer_role_blocking_and_credit() {
    let mut c = CustomerRole::new(s("t"), s("BP"), s("1000"), s("NET30"), Money::new(100, s("CNY"))).unwrap();
    c.set_block_status(BlockStatus::DeliveryBlocked);
    assert!(c.is_blocked());
    c.set_block_status(BlockStatus::Unblocked);
    assert!(!c.is_blocked());
    c.update_credit_limit(Money::new(500, s("EUR")));
    assert_eq!(c.credit_limit, Money::new(500, s("EUR")));
    c.mark_deleted();
    assert!(c.deleted);
    assert_eq!(BlockStatus::default(), BlockStatus::Unblocked);
}

#[test]
fn bank_account_rules() {
    let a = BankAccount::new(s("B"), s("A"), s("H")).unwrap();
    assert!(!a.is_primary);
    assert!(a.validate().is_ok());
    let mut b = a.clone();
    b.swift_code = Some(s("ABCDEFGHIJKL"));
    b.bank_code = std::iter::repeat('1').take(21).collect();
    assert_eq!(names(&b.validate().unwrap_err()), vec!["bank_code", "swift_code"]);
}

#[test]
fn set_primary_bank_account_leaves_exactly_one() {
    let mut role = supplier_with_accounts(3);
    role.set_primary_bank_account(1).unwrap();
    let flags: Vec<bool> = role.bank_accounts.iter().map(|a| a.is_primary).collect();
    assert_eq!(flags, vec![false, true, false]);
    role.set_primary_bank_account(2).unwrap();
    let flags: Vec<bool> = role.bank_accounts.iter().map(|a| a.is_primary).collect();
    assert_eq!(flags, vec![false, false, true]);
    assert_eq!(role.bank_accounts[0].bank_code, "B0");
}

#[test]
fn set_primary_bank_account_past_the_end() {
    let mut role = supplier_with_accounts(2);
    let before = role.clone();
    assert_eq!(
        role.set_primary_bank_account(2),
        Err(BusinessPartnerError::ValidationFailed { message: s("Invalid bank account index") })
    );
    assert_eq!(role, before);
    let mut empty = supplier_with_accounts(0);
    assert!(empty.set_primary_bank_account(0).is_err());
}

#[test]
fn supplier_role_blocking() {
    let mut role = supplier_with_accounts(0);
    assert!(role.bank_accounts.is_empty());
    assert!(!role.is_blocked());
    role.set_block_status(BlockStatus::FullyBlocked);
    assert!(role.is_blocked());
    role.mark_deleted();
    assert!(role.deleted);
}

#[test]
fn partner_change_header() {
    let h = ChangeEventHeader::new(s("t"), s("a"), ChangeEventType::Blocked);
    assert_eq!(h.event_type, ChangeEventType::Blocked);
    assert_eq!((h.event_id >> 62) & 0x3, 2);
}

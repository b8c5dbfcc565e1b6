use killer_master_data::grpc::{controlling, financial, treasury};

#[test]
fn treasury_routes_every_method_to_itself() {
    assert_eq!(treasury::SERVICE_NAME, "finance.treasury.v1.TreasuryService");
    let m = treasury::TreasuryMethod::GetBankAccount;
    assert_eq!(m.method_name(), "GetBankAccount");
    assert_eq!(m.path(), "/finance.treasury.v1.TreasuryService/GetBankAccount");
    assert_eq!(treasury::route(m.path()), Some(m));
    assert_eq!(
        treasury::route("/finance.treasury.v1.TreasuryService/GetInternalBankStatement"),
        Some(treasury::TreasuryMethod::GetInternalBankStatement)
    );
    assert_eq!(treasury::route("/finance.treasury.v1.TreasuryService/GetLoan"), Some(treasury::TreasuryMethod::GetLoan));
}

#[test]
fn unknown_paths_are_unrouted() {
    assert_eq!(treasury::route(""), None);
    assert_eq!(treasury::route("/finance.treasury.v1.TreasuryService/"), None);
    assert_eq!(treasury::route("/finance.treasury.v1.TreasuryService/getBankAccount"), None);
    assert_eq!(treasury::route("/finance.treasury.v1.TreasuryService/GetBankAccount/"), None);
    // A method of another service is not this service's.
    assert_eq!(treasury::route("/finance.controlling.v1.ControllingService/GetCostCenter"), None);
}

#[test]
fn controlling_routes() {
    assert_eq!(controlling::SERVICE_NAME, "finance.controlling.v1.ControllingService");
    let m = controlling::ControllingMethod::ExecuteVarianceCalculation;
    assert_eq!(m.path(), "/finance.controlling.v1.ControllingService/ExecuteVarianceCalculation");
    assert_eq!(controlling::route(m.path()), Some(m));
    assert_eq!(
        controlling::route("/finance.controlling.v1.ControllingService/CreateCostDocument"),
        Some(controlling::ControllingMethod::CreateCostDocument)
    );
    assert_eq!(controlling::route("/finance.controlling.v1.ControllingService/Nope"), None);
}

#[test]
fn financial_routes() {
    assert_eq!(financial::SERVICE_NAME, "finance.financial.v1.FinancialService");
    let m = financial::FinancialMethod::GetGLAccount;
    assert_eq!(m.method_name(), "GetGLAccount");
    assert_eq!(financial::route(m.path()), Some(m));
    assert_eq!(financial::route("/finance.financial.v1.FinancialService/ListGLAccounts"), Some(financial::FinancialMethod::ListGLAccounts));
    assert_eq!(financial::route("/finance.financial.v1.FinancialService/ListGlAccounts"), None);
}

//! The routing table of the treasury gRPC service `finance.treasury.v1.TreasuryService`: the method
//! behind each request path, as the server dispatches it and the client
//! addresses it.

use vstd::prelude::*;

use super::str_eq;

verus! {

/// The full name of the service.
pub const SERVICE_NAME: &'static str = "finance.treasury.v1.TreasuryService";

/// A method of the service.
#[derive(Clone, Copy, Debug, PartialEq, Eq, Structural)]
pub enum TreasuryMethod {
    GetBankAccount,
    ListBankAccounts,
    CreateBankAccount,
    UpdateBankAccount,
    GetAccountBalance,
    ListAccountTransactions,
    CreateCashFlow,
    GetCashFlow,
    ListCashFlows,
    ConfirmCashFlow,
    CancelCashFlow,
    GetLiquidityReport,
    GenerateLiquidityForecast,
    GetCashFlowSummary,
    CreateCashPool,
    ExecuteCashPool,
    GetCashPoolStatus,
    GetTreasuryPosition,
    ListPositionHistory,
    AdjustPosition,
    GetTermDeposit,
    CreateTermDeposit,
    ProcessMaturity,
    ListInvestments,
    GetLoan,
    CreateLoan,
    DrawdownLoan,
    RepayLoan,
    ListLoans,
    GetFXTransaction,
    CreateFXTransaction,
    ExecuteFXTransaction,
    GetFXExposure,
    RevalueFXPosition,
    CreateInternalBankAccount,
    InternalTransfer,
    GetInternalBankStatement,
}

impl TreasuryMethod {
    /// The method's name on the wire.
    pub open spec fn spec_name(self) -> Seq<char> {
        match self {
            TreasuryMethod::GetBankAccount => "GetBankAccount"@,
            TreasuryMethod::ListBankAccounts => "ListBankAccounts"@,
            TreasuryMethod::CreateBankAccount => "CreateBankAccount"@,
            TreasuryMethod::UpdateBankAccount => "UpdateBankAccount"@,
            TreasuryMethod::GetAccountBalance => "GetAccountBalance"@,
            TreasuryMethod::ListAccountTransactions => "ListAccountTransactions"@,
            TreasuryMethod::CreateCashFlow => "CreateCashFlow"@,
            TreasuryMethod::GetCashFlow => "GetCashFlow"@,
            TreasuryMethod::ListCashFlows => "ListCashFlows"@,
            TreasuryMethod::ConfirmCashFlow => "ConfirmCashFlow"@,
            TreasuryMethod::CancelCashFlow => "CancelCashFlow"@,
            TreasuryMethod::GetLiquidityReport => "GetLiquidityReport"@,
            TreasuryMethod::GenerateLiquidityForecast => "GenerateLiquidityForecast"@,
            TreasuryMethod::GetCashFlowSummary => "GetCashFlowSummary"@,
            TreasuryMethod::CreateCashPool => "CreateCashPool"@,
            TreasuryMethod::ExecuteCashPool => "ExecuteCashPool"@,
            TreasuryMethod::GetCashPoolStatus => "GetCashPoolStatus"@,
            TreasuryMethod::GetTreasuryPosition => "GetTreasuryPosition"@,
            TreasuryMethod::ListPositionHistory => "ListPositionHistory"@,
            TreasuryMethod::AdjustPosition => "AdjustPosition"@,
            TreasuryMethod::GetTermDeposit => "GetTermDeposit"@,
            TreasuryMethod::CreateTermDeposit => "CreateTermDeposit"@,
            TreasuryMethod::ProcessMaturity => "ProcessMaturity"@,
            TreasuryMethod::ListInvestments => "ListInvestments"@,
            TreasuryMethod::GetLoan => "GetLoan"@,
            TreasuryMethod::CreateLoan => "CreateLoan"@,
            TreasuryMethod::DrawdownLoan => "DrawdownLoan"@,
            TreasuryMethod::RepayLoan => "RepayLoan"@,
            TreasuryMethod::ListLoans => "ListLoans"@,
            TreasuryMethod::GetFXTransaction => "GetFXTransaction"@,
            TreasuryMethod::CreateFXTransaction => "CreateFXTransaction"@,
            TreasuryMethod::ExecuteFXTransaction => "ExecuteFXTransaction"@,
            TreasuryMethod::GetFXExposure => "GetFXExposure"@,
            TreasuryMethod::RevalueFXPosition => "RevalueFXPosition"@,
            TreasuryMethod::CreateInternalBankAccount => "CreateInternalBankAccount"@,
            TreasuryMethod::InternalTransfer => "InternalTransfer"@,
            TreasuryMethod::GetInternalBankStatement => "GetInternalBankStatement"@,
        }
    }

    /// The request path of the method: the service's full name and the
    /// method's name, each after a slash.
    pub open spec fn spec_path(self) -> Seq<char> {
        match self {
            TreasuryMethod::GetBankAccount => "/finance.treasury.v1.TreasuryService/GetBankAccount"@,
            TreasuryMethod::ListBankAccounts => "/finance.treasury.v1.TreasuryService/ListBankAccounts"@,
            TreasuryMethod::CreateBankAccount => "/finance.treasury.v1.TreasuryService/CreateBankAccount"@,
            TreasuryMethod::UpdateBankAccount => "/finance.treasury.v1.TreasuryService/UpdateBankAccount"@,
            TreasuryMethod::GetAccountBalance => "/finance.treasury.v1.TreasuryService/GetAccountBalance"@,
            TreasuryMethod::ListAccountTransactions => "/finance.treasury.v1.TreasuryService/ListAccountTransactions"@,
            TreasuryMethod::CreateCashFlow => "/finance.treasury.v1.TreasuryService/CreateCashFlow"@,
            TreasuryMethod::GetCashFlow => "/finance.treasury.v1.TreasuryService/GetCashFlow"@,
            TreasuryMethod::ListCashFlows => "/finance.treasury.v1.TreasuryService/ListCashFlows"@,
            TreasuryMethod::ConfirmCashFlow => "/finance.treasury.v1.TreasuryService/ConfirmCashFlow"@,
            TreasuryMethod::CancelCashFlow => "/finance.treasury.v1.TreasuryService/CancelCashFlow"@,
            TreasuryMethod::GetLiquidityReport => "/finance.treasury.v1.TreasuryService/GetLiquidityReport"@,
            TreasuryMethod::GenerateLiquidityForecast => "/finance.treasury.v1.TreasuryService/GenerateLiquidityForecast"@,
            TreasuryMethod::GetCashFlowSummary => "/finance.treasury.v1.TreasuryService/GetCashFlowSummary"@,
            TreasuryMethod::CreateCashPool => "/finance.treasury.v1.TreasuryService/CreateCashPool"@,
            TreasuryMethod::ExecuteCashPool => "/finance.treasury.v1.TreasuryService/ExecuteCashPool"@,
            TreasuryMethod::GetCashPoolStatus => "/finance.treasury.v1.TreasuryService/GetCashPoolStatus"@,
            TreasuryMethod::GetTreasuryPosition => "/finance.treasury.v1.TreasuryService/GetTreasuryPosition"@,
            TreasuryMethod::ListPositionHistory => "/finance.treasury.v1.TreasuryService/ListPositionHistory"@,
            TreasuryMethod::AdjustPosition => "/finance.treasury.v1.TreasuryService/AdjustPosition"@,
            TreasuryMethod::GetTermDeposit => "/finance.treasury.v1.TreasuryService/GetTermDeposit"@,
            TreasuryMethod::CreateTermDeposit => "/finance.treasury.v1.TreasuryService/CreateTermDeposit"@,
            TreasuryMethod::ProcessMaturity => "/finance.treasury.v1.TreasuryService/ProcessMaturity"@,
            TreasuryMethod::ListInvestments => "/finance.treasury.v1.TreasuryService/ListInvestments"@,
            TreasuryMethod::GetLoan => "/finance.treasury.v1.TreasuryService/GetLoan"@,
            TreasuryMethod::CreateLoan => "/finance.treasury.v1.TreasuryService/CreateLoan"@,
            TreasuryMethod::DrawdownLoan => "/finance.treasury.v1.TreasuryService/DrawdownLoan"@,
            TreasuryMethod::RepayLoan => "/finance.treasury.v1.TreasuryService/RepayLoan"@,
            TreasuryMethod::ListLoans => "/finance.treasury.v1.TreasuryService/ListLoans"@,
            TreasuryMethod::GetFXTransaction => "/finance.treasury.v1.TreasuryService/GetFXTransaction"@,
            TreasuryMethod::CreateFXTransaction => "/finance.treasury.v1.TreasuryService/CreateFXTransaction"@,
            TreasuryMethod::ExecuteFXTransaction => "/finance.treasury.v1.TreasuryService/ExecuteFXTransaction"@,
            TreasuryMethod::GetFXExposure => "/finance.treasury.v1.TreasuryService/GetFXExposure"@,
            TreasuryMethod::RevalueFXPosition => "/finance.treasury.v1.TreasuryService/RevalueFXPosition"@,
            TreasuryMethod::CreateInternalBankAccount => "/finance.treasury.v1.TreasuryService/CreateInternalBankAccount"@,
            TreasuryMethod::InternalTransfer => "/finance.treasury.v1.TreasuryService/InternalTransfer"@,
            TreasuryMethod::GetInternalBankStatement => "/finance.treasury.v1.TreasuryService/GetInternalBankStatement"@,
        }
    }

    /// The method's name on the wire.
    pub fn method_name(&self) -> (s: &'static str)
        ensures
            s@ == self.spec_name(),
    {
        match self {
            TreasuryMethod::GetBankAccount => "GetBankAccount",
            TreasuryMethod::ListBankAccounts => "ListBankAccounts",
            TreasuryMethod::CreateBankAccount => "CreateBankAccount",
            TreasuryMethod::UpdateBankAccount => "UpdateBankAccount",
            TreasuryMethod::GetAccountBalance => "GetAccountBalance",
            TreasuryMethod::ListAccountTransactions => "ListAccountTransactions",
            TreasuryMethod::CreateCashFlow => "CreateCashFlow",
            TreasuryMethod::GetCashFlow => "GetCashFlow",
            TreasuryMethod::ListCashFlows => "ListCashFlows",
            TreasuryMethod::ConfirmCashFlow => "ConfirmCashFlow",
            TreasuryMethod::CancelCashFlow => "CancelCashFlow",
            TreasuryMethod::GetLiquidityReport => "GetLiquidityReport",
            TreasuryMethod::GenerateLiquidityForecast => "GenerateLiquidityForecast",
            TreasuryMethod::GetCashFlowSummary => "GetCashFlowSummary",
            TreasuryMethod::CreateCashPool => "CreateCashPool",
            TreasuryMethod::ExecuteCashPool => "ExecuteCashPool",
            TreasuryMethod::GetCashPoolStatus => "GetCashPoolStatus",
            TreasuryMethod::GetTreasuryPosition => "GetTreasuryPosition",
            TreasuryMethod::ListPositionHistory => "ListPositionHistory",
            TreasuryMethod::AdjustPosition => "AdjustPosition",
            TreasuryMethod::GetTermDeposit => "GetTermDeposit",
            TreasuryMethod::CreateTermDeposit => "CreateTermDeposit",
            TreasuryMethod::ProcessMaturity => "ProcessMaturity",
            TreasuryMethod::ListInvestments => "ListInvestments",
            TreasuryMethod::GetLoan => "GetLoan",
            TreasuryMethod::CreateLoan => "CreateLoan",
            TreasuryMethod::DrawdownLoan => "DrawdownLoan",
            TreasuryMethod::RepayLoan => "RepayLoan",
            TreasuryMethod::ListLoans => "ListLoans",
            TreasuryMethod::GetFXTransaction => "GetFXTransaction",
            TreasuryMethod::CreateFXTransaction => "CreateFXTransaction",
            TreasuryMethod::ExecuteFXTransaction => "ExecuteFXTransaction",
            TreasuryMethod::GetFXExposure => "GetFXExposure",
            TreasuryMethod::RevalueFXPosition => "RevalueFXPosition",
            TreasuryMethod::CreateInternalBankAccount => "CreateInternalBankAccount",
            TreasuryMethod::InternalTransfer => "InternalTransfer",
            TreasuryMethod::GetInternalBankStatement => "GetInternalBankStatement",
        }
    }

    /// The request path of the method.
    pub fn path(&self) -> (s: &'static str)
        ensures
            s@ == self.spec_path(),
    {
        match self {
            TreasuryMethod::GetBankAccount => "/finance.treasury.v1.TreasuryService/GetBankAccount",
            TreasuryMethod::ListBankAccounts => "/finance.treasury.v1.TreasuryService/ListBankAccounts",
            TreasuryMethod::CreateBankAccount => "/finance.treasury.v1.TreasuryService/CreateBankAccount",
            TreasuryMethod::UpdateBankAccount => "/finance.treasury.v1.TreasuryService/UpdateBankAccount",
            TreasuryMethod::GetAccountBalance => "/finance.treasury.v1.TreasuryService/GetAccountBalance",
            TreasuryMethod::ListAccountTransactions => "/finance.treasury.v1.TreasuryService/ListAccountTransactions",
            TreasuryMethod::CreateCashFlow => "/finance.treasury.v1.TreasuryService/CreateCashFlow",
            TreasuryMethod::GetCashFlow => "/finance.treasury.v1.TreasuryService/GetCashFlow",
            TreasuryMethod::ListCashFlows => "/finance.treasury.v1.TreasuryService/ListCashFlows",
            TreasuryMethod::ConfirmCashFlow => "/finance.treasury.v1.TreasuryService/ConfirmCashFlow",
            TreasuryMethod::CancelCashFlow => "/finance.treasury.v1.TreasuryService/CancelCashFlow",
            TreasuryMethod::GetLiquidityReport => "/finance.treasury.v1.TreasuryService/GetLiquidityReport",
            TreasuryMethod::GenerateLiquidityForecast => "/finance.treasury.v1.TreasuryService/GenerateLiquidityForecast",
            TreasuryMethod::GetCashFlowSummary => "/finance.treasury.v1.TreasuryService/GetCashFlowSummary",
            TreasuryMethod::CreateCashPool => "/finance.treasury.v1.TreasuryService/CreateCashPool",
            TreasuryMethod::ExecuteCashPool => "/finance.treasury.v1.TreasuryService/ExecuteCashPool",
            TreasuryMethod::GetCashPoolStatus => "/finance.treasury.v1.TreasuryService/GetCashPoolStatus",
            TreasuryMethod::GetTreasuryPosition => "/finance.treasury.v1.TreasuryService/GetTreasuryPosition",
            TreasuryMethod::ListPositionHistory => "/finance.treasury.v1.TreasuryService/ListPositionHistory",
            TreasuryMethod::AdjustPosition => "/finance.treasury.v1.TreasuryService/AdjustPosition",
            TreasuryMethod::GetTermDeposit => "/finance.treasury.v1.TreasuryService/GetTermDeposit",
            TreasuryMethod::CreateTermDeposit => "/finance.treasury.v1.TreasuryService/CreateTermDeposit",
            TreasuryMethod::ProcessMaturity => "/finance.treasury.v1.TreasuryService/ProcessMaturity",
            TreasuryMethod::ListInvestments => "/finance.treasury.v1.TreasuryService/ListInvestments",
            TreasuryMethod::GetLoan => "/finance.treasury.v1.TreasuryService/GetLoan",
            TreasuryMethod::CreateLoan => "/finance.treasury.v1.TreasuryService/CreateLoan",
            TreasuryMethod::DrawdownLoan => "/finance.treasury.v1.TreasuryService/DrawdownLoan",
            TreasuryMethod::RepayLoan => "/finance.treasury.v1.TreasuryService/RepayLoan",
            TreasuryMethod::ListLoans => "/finance.treasury.v1.TreasuryService/ListLoans",
            TreasuryMethod::GetFXTransaction => "/finance.treasury.v1.TreasuryService/GetFXTransaction",
            TreasuryMethod::CreateFXTransaction => "/finance.treasury.v1.TreasuryService/CreateFXTransaction",
            TreasuryMethod::ExecuteFXTransaction => "/finance.treasury.v1.TreasuryService/ExecuteFXTransaction",
            TreasuryMethod::GetFXExposure => "/finance.treasury.v1.TreasuryService/GetFXExposure",
            TreasuryMethod::RevalueFXPosition => "/finance.treasury.v1.TreasuryService/RevalueFXPosition",
            TreasuryMethod::CreateInternalBankAccount => "/finance.treasury.v1.TreasuryService/CreateInternalBankAccount",
            TreasuryMethod::InternalTransfer => "/finance.treasury.v1.TreasuryService/InternalTransfer",
            TreasuryMethod::GetInternalBankStatement => "/finance.treasury.v1.TreasuryService/GetInternalBankStatement",
        }
    }
}

/// The server's chain of comparisons, written out path by path; the
/// proof of [`route`] goes through it.
spec fn dispatch_table(path: Seq<char>) -> Option<TreasuryMethod> {
    if path == "/finance.treasury.v1.TreasuryService/GetBankAccount"@ {
        Some(TreasuryMethod::GetBankAccount)
    } else if path == "/finance.treasury.v1.TreasuryService/ListBankAccounts"@ {
        Some(TreasuryMethod::ListBankAccounts)
    } else if path == "/finance.treasury.v1.TreasuryService/CreateBankAccount"@ {
        Some(TreasuryMethod::CreateBankAccount)
    } else if path == "/finance.treasury.v1.TreasuryService/UpdateBankAccount"@ {
        Some(TreasuryMethod::UpdateBankAccount)
    } else if path == "/finance.treasury.v1.TreasuryService/GetAccountBalance"@ {
        Some(TreasuryMethod::GetAccountBalance)
    } else if path == "/finance.treasury.v1.TreasuryService/ListAccountTransactions"@ {
        Some(TreasuryMethod::ListAccountTransactions)
    } else if path == "/finance.treasury.v1.TreasuryService/CreateCashFlow"@ {
        Some(TreasuryMethod::CreateCashFlow)
    } else if path == "/finance.treasury.v1.TreasuryService/GetCashFlow"@ {
        Some(TreasuryMethod::GetCashFlow)
    } else if path == "/finance.treasury.v1.TreasuryService/ListCashFlows"@ {
        Some(TreasuryMethod::ListCashFlows)
    } else if path == "/finance.treasury.v1.TreasuryService/ConfirmCashFlow"@ {
        Some(TreasuryMethod::ConfirmCashFlow)
    } else if path == "/finance.treasury.v1.TreasuryService/CancelCashFlow"@ {
        Some(TreasuryMethod::CancelCashFlow)
    } else if path == "/finance.treasury.v1.TreasuryService/GetLiquidityReport"@ {
        Some(TreasuryMethod::GetLiquidityReport)
    } else if path == "/finance.treasury.v1.TreasuryService/GenerateLiquidityForecast"@ {
        Some(TreasuryMethod::GenerateLiquidityForecast)
    } else if path == "/finance.treasury.v1.TreasuryService/GetCashFlowSummary"@ {
        Some(TreasuryMethod::GetCashFlowSummary)
    } else if path == "/finance.treasury.v1.TreasuryService/CreateCashPool"@ {
        Some(TreasuryMethod::CreateCashPool)
    } else if path == "/finance.treasury.v1.TreasuryService/ExecuteCashPool"@ {
        Some(TreasuryMethod::ExecuteCashPool)
    } else if path == "/finance.treasury.v1.TreasuryService/GetCashPoolStatus"@ {
        Some(TreasuryMethod::GetCashPoolStatus)
    } else if path == "/finance.treasury.v1.TreasuryService/GetTreasuryPosition"@ {
        Some(TreasuryMethod::GetTreasuryPosition)
    } else if path == "/finance.treasury.v1.TreasuryService/ListPositionHistory"@ {
        Some(TreasuryMethod::ListPositionHistory)
    } else if path == "/finance.treasury.v1.TreasuryService/AdjustPosition"@ {
        Some(TreasuryMethod::AdjustPosition)
    } else if path == "/finance.treasury.v1.TreasuryService/GetTermDeposit"@ {
        Some(TreasuryMethod::GetTermDeposit)
    } else if path == "/finance.treasury.v1.TreasuryService/CreateTermDeposit"@ {
        Some(TreasuryMethod::CreateTermDeposit)
    } else if path == "/finance.treasury.v1.TreasuryService/ProcessMaturity"@ {
        Some(TreasuryMethod::ProcessMaturity)
    } else if path == "/finance.treasury.v1.TreasuryService/ListInvestments"@ {
        Some(TreasuryMethod::ListInvestments)
    } else if path == "/finance.treasury.v1.TreasuryService/GetLoan"@ {
        Some(TreasuryMethod::GetLoan)
    } else if path == "/finance.treasury.v1.TreasuryService/CreateLoan"@ {
        Some(TreasuryMethod::CreateLoan)
    } else if path == "/finance.treasury.v1.TreasuryService/DrawdownLoan"@ {
        Some(TreasuryMethod::DrawdownLoan)
    } else if path == "/finance.treasury.v1.TreasuryService/RepayLoan"@ {
        Some(TreasuryMethod::RepayLoan)
    } else if path == "/finance.treasury.v1.TreasuryService/ListLoans"@ {
        Some(TreasuryMethod::ListLoans)
    } else if path == "/finance.treasury.v1.TreasuryService/GetFXTransaction"@ {
        Some(TreasuryMethod::GetFXTransaction)
    } else if path == "/finance.treasury.v1.TreasuryService/CreateFXTransaction"@ {
        Some(TreasuryMethod::CreateFXTransaction)
    } else if path == "/finance.treasury.v1.TreasuryService/ExecuteFXTransaction"@ {
        Some(TreasuryMethod::ExecuteFXTransaction)
    } else if path == "/finance.treasury.v1.TreasuryService/GetFXExposure"@ {
        Some(TreasuryMethod::GetFXExposure)
    } else if path == "/finance.treasury.v1.TreasuryService/RevalueFXPosition"@ {
        Some(TreasuryMethod::RevalueFXPosition)
    } else if path == "/finance.treasury.v1.TreasuryService/CreateInternalBankAccount"@ {
        Some(TreasuryMethod::CreateInternalBankAccount)
    } else if path == "/finance.treasury.v1.TreasuryService/InternalTransfer"@ {
        Some(TreasuryMethod::InternalTransfer)
    } else if path == "/finance.treasury.v1.TreasuryService/GetInternalBankStatement"@ {
        Some(TreasuryMethod::GetInternalBankStatement)
    } else {
        None
    }
}

/// Compares the path with each method's path in turn.
fn dispatch(path: &str) -> (r: Option<TreasuryMethod>)
    ensures
        r == dispatch_table(path@),
{
    if str_eq(path, "/finance.treasury.v1.TreasuryService/GetBankAccount") {
        return Some(TreasuryMethod::GetBankAccount);
    }
    if str_eq(path, "/finance.treasury.v1.TreasuryService/ListBankAccounts") {
        return Some(TreasuryMethod::ListBankAccounts);
    }
    if str_eq(path, "/finance.treasury.v1.TreasuryService/CreateBankAccount") {
        return Some(TreasuryMethod::CreateBankAccount);
    }
    if str_eq(path, "/finance.treasury.v1.TreasuryService/UpdateBankAccount") {
        return Some(TreasuryMethod::UpdateBankAccount);
    }
    if str_eq(path, "/finance.treasury.v1.TreasuryService/GetAccountBalance") {
        return Some(TreasuryMethod::GetAccountBalance);
    }
    if str_eq(path, "/finance.treasury.v1.TreasuryService/ListAccountTransactions") {
        return Some(TreasuryMethod::ListAccountTransactions);
    }
    if str_eq(path, "/finance.treasury.v1.TreasuryService/CreateCashFlow") {
        return Some(TreasuryMethod::CreateCashFlow);
    }
    if str_eq(path, "/finance.treasury.v1.TreasuryService/GetCashFlow") {
        return Some(TreasuryMethod::GetCashFlow);
    }
    if str_eq(path, "/finance.treasury.v1.TreasuryService/ListCashFlows") {
        return Some(TreasuryMethod::ListCashFlows);
    }
    if str_eq(path, "/finance.treasury.v1.TreasuryService/ConfirmCashFlow") {
        return Some(TreasuryMethod::ConfirmCashFlow);
    }
    if str_eq(path, "/finance.treasury.v1.TreasuryService/CancelCashFlow") {
        return Some(TreasuryMethod::CancelCashFlow);
    }
    if str_eq(path, "/finance.treasury.v1.TreasuryService/GetLiquidityReport") {
        return Some(TreasuryMethod::GetLiquidityReport);
    }
    if str_eq(path, "/finance.treasury.v1.TreasuryService/GenerateLiquidityForecast") {
        return Some(TreasuryMethod::GenerateLiquidityForecast);
    }
    if str_eq(path, "/finance.treasury.v1.TreasuryService/GetCashFlowSummary") {
        return Some(TreasuryMethod::GetCashFlowSummary);
    }
    if str_eq(path, "/finance.treasury.v1.TreasuryService/CreateCashPool") {
        return Some(TreasuryMethod::CreateCashPool);
    }
    if str_eq(path, "/finance.treasury.v1.TreasuryService/ExecuteCashPool") {
        return Some(TreasuryMethod::ExecuteCashPool);
    }
    if str_eq(path, "/finance.treasury.v1.TreasuryService/GetCashPoolStatus") {
        return Some(TreasuryMethod::GetCashPoolStatus);
    }
    if str_eq(path, "/finance.treasury.v1.TreasuryService/GetTreasuryPosition") {
        return Some(TreasuryMethod::GetTreasuryPosition);
    }
    if str_eq(path, "/finance.treasury.v1.TreasuryService/ListPositionHistory") {
        return Some(TreasuryMethod::ListPositionHistory);
    }
    if str_eq(path, "/finance.treasury.v1.TreasuryService/AdjustPosition") {
        return Some(TreasuryMethod::AdjustPosition);
    }
    if str_eq(path, "/finance.treasury.v1.TreasuryService/GetTermDeposit") {
        return Some(TreasuryMethod::GetTermDeposit);
    }
    if str_eq(path, "/finance.treasury.v1.TreasuryService/CreateTermDeposit") {
        return Some(TreasuryMethod::CreateTermDeposit);
    }
    if str_eq(path, "/finance.treasury.v1.TreasuryService/ProcessMaturity") {
        return Some(TreasuryMethod::ProcessMaturity);
    }
    if str_eq(path, "/finance.treasury.v1.TreasuryService/ListInvestments") {
        return Some(TreasuryMethod::ListInvestments);
    }
    if str_eq(path, "/finance.treasury.v1.TreasuryService/GetLoan") {
        return Some(TreasuryMethod::GetLoan);
    }
    if str_eq(path, "/finance.treasury.v1.TreasuryService/CreateLoan") {
        return Some(TreasuryMethod::CreateLoan);
    }
    if str_eq(path, "/finance.treasury.v1.TreasuryService/DrawdownLoan") {
        return Some(TreasuryMethod::DrawdownLoan);
    }
    if str_eq(path, "/finance.treasury.v1.TreasuryService/RepayLoan") {
        return Some(TreasuryMethod::RepayLoan);
    }
    if str_eq(path, "/finance.treasury.v1.TreasuryService/ListLoans") {
        return Some(TreasuryMethod::ListLoans);
    }
    if str_eq(path, "/finance.treasury.v1.TreasuryService/GetFXTransaction") {
        return Some(TreasuryMethod::GetFXTransaction);
    }
    if str_eq(path, "/finance.treasury.v1.TreasuryService/CreateFXTransaction") {
        return Some(TreasuryMethod::CreateFXTransaction);
    }
    if str_eq(path, "/finance.treasury.v1.TreasuryService/ExecuteFXTransaction") {
        return Some(TreasuryMethod::ExecuteFXTransaction);
    }
    if str_eq(path, "/finance.treasury.v1.TreasuryService/GetFXExposure") {
        return Some(TreasuryMethod::GetFXExposure);
    }
    if str_eq(path, "/finance.treasury.v1.TreasuryService/RevalueFXPosition") {
        return Some(TreasuryMethod::RevalueFXPosition);
    }
    if str_eq(path, "/finance.treasury.v1.TreasuryService/CreateInternalBankAccount") {
        return Some(TreasuryMethod::CreateInternalBankAccount);
    }
    if str_eq(path, "/finance.treasury.v1.TreasuryService/InternalTransfer") {
        return Some(TreasuryMethod::InternalTransfer);
    }
    if str_eq(path, "/finance.treasury.v1.TreasuryService/GetInternalBankStatement") {
        return Some(TreasuryMethod::GetInternalBankStatement);
    }
    None
}

/// The dispatch of the server: the method whose request path is `path`, or
/// nothing for a path that is no method's (the server then answers with the
/// status "unimplemented").
pub fn route(path: &str) -> (r: Option<TreasuryMethod>)
    ensures
        forall|m: TreasuryMethod| #[trigger] m.spec_path() == path@ <==> r == Some(m),
{
    let r = dispatch(path);
    proof {
        lemma_table_exact(path@);
    }
    r
}

/// The table finds each method under its own path.
proof fn lemma_table_finds_method(m: TreasuryMethod)
    ensures
        dispatch_table(m.spec_path()) == Some(m),
{
    reveal_strlit("/finance.treasury.v1.TreasuryService/GetBankAccount");
    reveal_strlit("/finance.treasury.v1.TreasuryService/ListBankAccounts");
    reveal_strlit("/finance.treasury.v1.TreasuryService/CreateBankAccount");
    reveal_strlit("/finance.treasury.v1.TreasuryService/UpdateBankAccount");
    reveal_strlit("/finance.treasury.v1.TreasuryService/GetAccountBalance");
    reveal_strlit("/finance.treasury.v1.TreasuryService/ListAccountTransactions");
    reveal_strlit("/finance.treasury.v1.TreasuryService/CreateCashFlow");
    reveal_strlit("/finance.treasury.v1.TreasuryService/GetCashFlow");
    reveal_strlit("/finance.treasury.v1.TreasuryService/ListCashFlows");
    reveal_strlit("/finance.treasury.v1.TreasuryService/ConfirmCashFlow");
    reveal_strlit("/finance.treasury.v1.TreasuryService/CancelCashFlow");
    reveal_strlit("/finance.treasury.v1.TreasuryService/GetLiquidityReport");
    reveal_strlit("/finance.treasury.v1.TreasuryService/GenerateLiquidityForecast");
    reveal_strlit("/finance.treasury.v1.TreasuryService/GetCashFlowSummary");
    reveal_strlit("/finance.treasury.v1.TreasuryService/CreateCashPool");
    reveal_strlit("/finance.treasury.v1.TreasuryService/ExecuteCashPool");
    reveal_strlit("/finance.treasury.v1.TreasuryService/GetCashPoolStatus");
    reveal_strlit("/finance.treasury.v1.TreasuryService/GetTreasuryPosition");
    reveal_strlit("/finance.treasury.v1.TreasuryService/ListPositionHistory");
    reveal_strlit("/finance.treasury.v1.TreasuryService/AdjustPosition");
    reveal_strlit("/finance.treasury.v1.TreasuryService/GetTermDeposit");
    reveal_strlit("/finance.treasury.v1.TreasuryService/CreateTermDeposit");
    reveal_strlit("/finance.treasury.v1.TreasuryService/ProcessMaturity");
    reveal_strlit("/finance.treasury.v1.TreasuryService/ListInvestments");
    reveal_strlit("/finance.treasury.v1.TreasuryService/GetLoan");
    reveal_strlit("/finance.treasury.v1.TreasuryService/CreateLoan");
    reveal_strlit("/finance.treasury.v1.TreasuryService/DrawdownLoan");
    reveal_strlit("/finance.treasury.v1.TreasuryService/RepayLoan");
    reveal_strlit("/finance.treasury.v1.TreasuryService/ListLoans");
    reveal_strlit("/finance.treasury.v1.TreasuryService/GetFXTransaction");
    reveal_strlit("/finance.treasury.v1.TreasuryService/CreateFXTransaction");
    reveal_strlit("/finance.treasury.v1.TreasuryService/ExecuteFXTransaction");
    reveal_strlit("/finance.treasury.v1.TreasuryService/GetFXExposure");
    reveal_strlit("/finance.treasury.v1.TreasuryService/RevalueFXPosition");
    reveal_strlit("/finance.treasury.v1.TreasuryService/CreateInternalBankAccount");
    reveal_strlit("/finance.treasury.v1.TreasuryService/InternalTransfer");
    reveal_strlit("/finance.treasury.v1.TreasuryService/GetInternalBankStatement");
    assert("/finance.treasury.v1.TreasuryService/GetBankAccount"@.len() == 51);
    assert("/finance.treasury.v1.TreasuryService/ListBankAccounts"@.len() == 53);
    assert("/finance.treasury.v1.TreasuryService/CreateBankAccount"@.len() == 54);
    assert("/finance.treasury.v1.TreasuryService/UpdateBankAccount"@.len() == 54);
    assert("/finance.treasury.v1.TreasuryService/GetAccountBalance"@.len() == 54);
    assert("/finance.treasury.v1.TreasuryService/ListAccountTransactions"@.len() == 60);
    assert("/finance.treasury.v1.TreasuryService/CreateCashFlow"@.len() == 51);
    assert("/finance.treasury.v1.TreasuryService/GetCashFlow"@.len() == 48);
    assert("/finance.treasury.v1.TreasuryService/ListCashFlows"@.len() == 50);
    assert("/finance.treasury.v1.TreasuryService/ConfirmCashFlow"@.len() == 52);
    assert("/finance.treasury.v1.TreasuryService/CancelCashFlow"@.len() == 51);
    assert("/finance.treasury.v1.TreasuryService/GetLiquidityReport"@.len() == 55);
    assert("/finance.treasury.v1.TreasuryService/GenerateLiquidityForecast"@.len() == 62);
    assert("/finance.treasury.v1.TreasuryService/GetCashFlowSummary"@.len() == 55);
    assert("/finance.treasury.v1.TreasuryService/CreateCashPool"@.len() == 51);
    assert("/finance.treasury.v1.TreasuryService/ExecuteCashPool"@.len() == 52);
    assert("/finance.treasury.v1.TreasuryService/GetCashPoolStatus"@.len() == 54);
    assert("/finance.treasury.v1.TreasuryService/GetTreasuryPosition"@.len() == 56);
    assert("/finance.treasury.v1.TreasuryService/ListPositionHistory"@.len() == 56);
    assert("/finance.treasury.v1.TreasuryService/AdjustPosition"@.len() == 51);
    assert("/finance.treasury.v1.TreasuryService/GetTermDeposit"@.len() == 51);
    assert("/finance.treasury.v1.TreasuryService/CreateTermDeposit"@.len() == 54);
    assert("/finance.treasury.v1.TreasuryService/ProcessMaturity"@.len() == 52);
    assert("/finance.treasury.v1.TreasuryService/ListInvestments"@.len() == 52);
    assert("/finance.treasury.v1.TreasuryService/GetLoan"@.len() == 44);
    assert("/finance.treasury.v1.TreasuryService/CreateLoan"@.len() == 47);
    assert("/finance.treasury.v1.TreasuryService/DrawdownLoan"@.len() == 49);
    assert("/finance.treasury.v1.TreasuryService/RepayLoan"@.len() == 46);
    assert("/finance.treasury.v1.TreasuryService/ListLoans"@.len() == 46);
    assert("/finance.treasury.v1.TreasuryService/GetFXTransaction"@.len() == 53);
    assert("/finance.treasury.v1.TreasuryService/CreateFXTransaction"@.len() == 56);
    assert("/finance.treasury.v1.TreasuryService/ExecuteFXTransaction"@.len() == 57);
    assert("/finance.treasury.v1.TreasuryService/GetFXExposure"@.len() == 50);
    assert("/finance.treasury.v1.TreasuryService/RevalueFXPosition"@.len() == 54);
    assert("/finance.treasury.v1.TreasuryService/CreateInternalBankAccount"@.len() == 62);
    assert("/finance.treasury.v1.TreasuryService/InternalTransfer"@.len() == 53);
    assert("/finance.treasury.v1.TreasuryService/GetInternalBankStatement"@.len() == 61);
    assert("/finance.treasury.v1.TreasuryService/CreateBankAccount"@[37] != "/finance.treasury.v1.TreasuryService/UpdateBankAccount"@[37]);
    assert("/finance.treasury.v1.TreasuryService/CreateBankAccount"@[37] != "/finance.treasury.v1.TreasuryService/GetAccountBalance"@[37]);
    assert("/finance.treasury.v1.TreasuryService/UpdateBankAccount"@[37] != "/finance.treasury.v1.TreasuryService/GetAccountBalance"@[37]);
    assert("/finance.treasury.v1.TreasuryService/GetBankAccount"@[37] != "/finance.treasury.v1.TreasuryService/CreateCashFlow"@[37]);
    assert("/finance.treasury.v1.TreasuryService/GetBankAccount"@[37] != "/finance.treasury.v1.TreasuryService/CancelCashFlow"@[37]);
    assert("/finance.treasury.v1.TreasuryService/CreateCashFlow"@[38] != "/finance.treasury.v1.TreasuryService/CancelCashFlow"@[38]);
    assert("/finance.treasury.v1.TreasuryService/GetLiquidityReport"@[40] != "/finance.treasury.v1.TreasuryService/GetCashFlowSummary"@[40]);
    assert("/finance.treasury.v1.TreasuryService/GetBankAccount"@[37] != "/finance.treasury.v1.TreasuryService/CreateCashPool"@[37]);
    assert("/finance.treasury.v1.TreasuryService/CreateCashFlow"@[47] != "/finance.treasury.v1.TreasuryService/CreateCashPool"@[47]);
    assert("/finance.treasury.v1.TreasuryService/CancelCashFlow"@[38] != "/finance.treasury.v1.TreasuryService/CreateCashPool"@[38]);
    assert("/finance.treasury.v1.TreasuryService/ConfirmCashFlow"@[37] != "/finance.treasury.v1.TreasuryService/ExecuteCashPool"@[37]);
    assert("/finance.treasury.v1.TreasuryService/CreateBankAccount"@[37] != "/finance.treasury.v1.TreasuryService/GetCashPoolStatus"@[37]);
    assert("/finance.treasury.v1.TreasuryService/UpdateBankAccount"@[37] != "/finance.treasury.v1.TreasuryService/GetCashPoolStatus"@[37]);
    assert("/finance.treasury.v1.TreasuryService/GetAccountBalance"@[40] != "/finance.treasury.v1.TreasuryService/GetCashPoolStatus"@[40]);
    assert("/finance.treasury.v1.TreasuryService/GetTreasuryPosition"@[37] != "/finance.treasury.v1.TreasuryService/ListPositionHistory"@[37]);
    assert("/finance.treasury.v1.TreasuryService/GetBankAccount"@[37] != "/finance.treasury.v1.TreasuryService/AdjustPosition"@[37]);
    assert("/finance.treasury.v1.TreasuryService/CreateCashFlow"@[37] != "/finance.treasury.v1.TreasuryService/AdjustPosition"@[37]);
    assert("/finance.treasury.v1.TreasuryService/CancelCashFlow"@[37] != "/finance.treasury.v1.TreasuryService/AdjustPosition"@[37]);
    assert("/finance.treasury.v1.TreasuryService/CreateCashPool"@[37] != "/finance.treasury.v1.TreasuryService/AdjustPosition"@[37]);
    assert("/finance.treasury.v1.TreasuryService/GetBankAccount"@[40] != "/finance.treasury.v1.TreasuryService/GetTermDeposit"@[40]);
    assert("/finance.treasury.v1.TreasuryService/CreateCashFlow"@[37] != "/finance.treasury.v1.TreasuryService/GetTermDeposit"@[37]);
    assert("/finance.treasury.v1.TreasuryService/CancelCashFlow"@[37] != "/finance.treasury.v1.TreasuryService/GetTermDeposit"@[37]);
    assert("/finance.treasury.v1.TreasuryService/CreateCashPool"@[37] != "/finance.treasury.v1.TreasuryService/GetTermDeposit"@[37]);
    assert("/finance.treasury.v1.TreasuryService/AdjustPosition"@[37] != "/finance.treasury.v1.TreasuryService/GetTermDeposit"@[37]);
    assert("/finance.treasury.v1.TreasuryService/CreateBankAccount"@[43] != "/finance.treasury.v1.TreasuryService/CreateTermDeposit"@[43]);
    assert("/finance.treasury.v1.TreasuryService/UpdateBankAccount"@[37] != "/finance.treasury.v1.TreasuryService/CreateTermDeposit"@[37]);
    assert("/finance.treasury.v1.TreasuryService/GetAccountBalance"@[37] != "/finance.treasury.v1.TreasuryService/CreateTermDeposit"@[37]);
    assert("/finance.treasury.v1.TreasuryService/GetCashPoolStatus"@[37] != "/finance.treasury.v1.TreasuryService/CreateTermDeposit"@[37]);
    assert("/finance.treasury.v1.TreasuryService/ConfirmCashFlow"@[37] != "/finance.treasury.v1.TreasuryService/ProcessMaturity"@[37]);
    assert("/finance.treasury.v1.TreasuryService/ExecuteCashPool"@[37] != "/finance.treasury.v1.TreasuryService/ProcessMaturity"@[37]);
    assert("/finance.treasury.v1.TreasuryService/ConfirmCashFlow"@[37] != "/finance.treasury.v1.TreasuryService/ListInvestments"@[37]);
    assert("/finance.treasury.v1.TreasuryService/ExecuteCashPool"@[37] != "/finance.treasury.v1.TreasuryService/ListInvestments"@[37]);
    assert("/finance.treasury.v1.TreasuryService/ProcessMaturity"@[37] != "/finance.treasury.v1.TreasuryService/ListInvestments"@[37]);
    assert("/finance.treasury.v1.TreasuryService/RepayLoan"@[37] != "/finance.treasury.v1.TreasuryService/ListLoans"@[37]);
    assert("/finance.treasury.v1.TreasuryService/ListBankAccounts"@[37] != "/finance.treasury.v1.TreasuryService/GetFXTransaction"@[37]);
    assert("/finance.treasury.v1.TreasuryService/GetTreasuryPosition"@[37] != "/finance.treasury.v1.TreasuryService/CreateFXTransaction"@[37]);
    assert("/finance.treasury.v1.TreasuryService/ListPositionHistory"@[37] != "/finance.treasury.v1.TreasuryService/CreateFXTransaction"@[37]);
    assert("/finance.treasury.v1.TreasuryService/ListCashFlows"@[37] != "/finance.treasury.v1.TreasuryService/GetFXExposure"@[37]);
    assert("/finance.treasury.v1.TreasuryService/CreateBankAccount"@[37] != "/finance.treasury.v1.TreasuryService/RevalueFXPosition"@[37]);
    assert("/finance.treasury.v1.TreasuryService/UpdateBankAccount"@[37] != "/finance.treasury.v1.TreasuryService/RevalueFXPosition"@[37]);
    assert("/finance.treasury.v1.TreasuryService/GetAccountBalance"@[37] != "/finance.treasury.v1.TreasuryService/RevalueFXPosition"@[37]);
    assert("/finance.treasury.v1.TreasuryService/GetCashPoolStatus"@[37] != "/finance.treasury.v1.TreasuryService/RevalueFXPosition"@[37]);
    assert("/finance.treasury.v1.TreasuryService/CreateTermDeposit"@[37] != "/finance.treasury.v1.TreasuryService/RevalueFXPosition"@[37]);
    assert("/finance.treasury.v1.TreasuryService/GenerateLiquidityForecast"@[37] != "/finance.treasury.v1.TreasuryService/CreateInternalBankAccount"@[37]);
    assert("/finance.treasury.v1.TreasuryService/ListBankAccounts"@[37] != "/finance.treasury.v1.TreasuryService/InternalTransfer"@[37]);
    assert("/finance.treasury.v1.TreasuryService/GetFXTransaction"@[37] != "/finance.treasury.v1.TreasuryService/InternalTransfer"@[37]);
}

/// A method's request path is a slash, the service's full name, a slash
/// and the method's name.
pub proof fn lemma_path_joins_service_and_name(m: TreasuryMethod)
    ensures
        m.spec_path() == "/"@ + SERVICE_NAME@ + "/"@ + m.spec_name(),
{
    reveal_strlit("/");
    reveal_strlit("finance.treasury.v1.TreasuryService");
    match m {
        TreasuryMethod::GetBankAccount => {
            reveal_strlit("/finance.treasury.v1.TreasuryService/GetBankAccount");
            reveal_strlit("GetBankAccount");
            assert(m.spec_path() =~= "/"@ + SERVICE_NAME@ + "/"@ + m.spec_name());
        },
        TreasuryMethod::ListBankAccounts => {
            reveal_strlit("/finance.treasury.v1.TreasuryService/ListBankAccounts");
            reveal_strlit("ListBankAccounts");
            assert(m.spec_path() =~= "/"@ + SERVICE_NAME@ + "/"@ + m.spec_name());
        },
        TreasuryMethod::CreateBankAccount => {
            reveal_strlit("/finance.treasury.v1.TreasuryService/CreateBankAccount");
            reveal_strlit("CreateBankAccount");
            assert(m.spec_path() =~= "/"@ + SERVICE_NAME@ + "/"@ + m.spec_name());
        },
        TreasuryMethod::UpdateBankAccount => {
            reveal_strlit("/finance.treasury.v1.TreasuryService/UpdateBankAccount");
            reveal_strlit("UpdateBankAccount");
            assert(m.spec_path() =~= "/"@ + SERVICE_NAME@ + "/"@ + m.spec_name());
        },
        TreasuryMethod::GetAccountBalance => {
            reveal_strlit("/finance.treasury.v1.TreasuryService/GetAccountBalance");
            reveal_strlit("GetAccountBalance");
            assert(m.spec_path() =~= "/"@ + SERVICE_NAME@ + "/"@ + m.spec_name());
        },
        TreasuryMethod::ListAccountTransactions => {
            reveal_strlit("/finance.treasury.v1.TreasuryService/ListAccountTransactions");
            reveal_strlit("ListAccountTransactions");
            assert(m.spec_path() =~= "/"@ + SERVICE_NAME@ + "/"@ + m.spec_name());
        },
        TreasuryMethod::CreateCashFlow => {
            reveal_strlit("/finance.treasury.v1.TreasuryService/CreateCashFlow");
            reveal_strlit("CreateCashFlow");
            assert(m.spec_path() =~= "/"@ + SERVICE_NAME@ + "/"@ + m.spec_name());
        },
        TreasuryMethod::GetCashFlow => {
            reveal_strlit("/finance.treasury.v1.TreasuryService/GetCashFlow");
            reveal_strlit("GetCashFlow");
            assert(m.spec_path() =~= "/"@ + SERVICE_NAME@ + "/"@ + m.spec_name());
        },
        TreasuryMethod::ListCashFlows => {
            reveal_strlit("/finance.treasury.v1.TreasuryService/ListCashFlows");
            reveal_strlit("ListCashFlows");
            assert(m.spec_path() =~= "/"@ + SERVICE_NAME@ + "/"@ + m.spec_name());
        },
        TreasuryMethod::ConfirmCashFlow => {
            reveal_strlit("/finance.treasury.v1.TreasuryService/ConfirmCashFlow");
            reveal_strlit("ConfirmCashFlow");
            assert(m.spec_path() =~= "/"@ + SERVICE_NAME@ + "/"@ + m.spec_name());
        },
        TreasuryMethod::CancelCashFlow => {
            reveal_strlit("/finance.treasury.v1.TreasuryService/CancelCashFlow");
            reveal_strlit("CancelCashFlow");
            assert(m.spec_path() =~= "/"@ + SERVICE_NAME@ + "/"@ + m.spec_name());
        },
        TreasuryMethod::GetLiquidityReport => {
            reveal_strlit("/finance.treasury.v1.TreasuryService/GetLiquidityReport");
            reveal_strlit("GetLiquidityReport");
            assert(m.spec_path() =~= "/"@ + SERVICE_NAME@ + "/"@ + m.spec_name());
        },
        TreasuryMethod::GenerateLiquidityForecast => {
            reveal_strlit("/finance.treasury.v1.TreasuryService/GenerateLiquidityForecast");
            reveal_strlit("GenerateLiquidityForecast");
            assert(m.spec_path() =~= "/"@ + SERVICE_NAME@ + "/"@ + m.spec_name());
        },
        TreasuryMethod::GetCashFlowSummary => {
            reveal_strlit("/finance.treasury.v1.TreasuryService/GetCashFlowSummary");
            reveal_strlit("GetCashFlowSummary");
            assert(m.spec_path() =~= "/"@ + SERVICE_NAME@ + "/"@ + m.spec_name());
        },
        TreasuryMethod::CreateCashPool => {
            reveal_strlit("/finance.treasury.v1.TreasuryService/CreateCashPool");
            reveal_strlit("CreateCashPool");
            assert(m.spec_path() =~= "/"@ + SERVICE_NAME@ + "/"@ + m.spec_name());
        },
        TreasuryMethod::ExecuteCashPool => {
            reveal_strlit("/finance.treasury.v1.TreasuryService/ExecuteCashPool");
            reveal_strlit("ExecuteCashPool");
            assert(m.spec_path() =~= "/"@ + SERVICE_NAME@ + "/"@ + m.spec_name());
        },
        TreasuryMethod::GetCashPoolStatus => {
            reveal_strlit("/finance.treasury.v1.TreasuryService/GetCashPoolStatus");
            reveal_strlit("GetCashPoolStatus");
            assert(m.spec_path() =~= "/"@ + SERVICE_NAME@ + "/"@ + m.spec_name());
        },
        TreasuryMethod::GetTreasuryPosition => {
            reveal_strlit("/finance.treasury.v1.TreasuryService/GetTreasuryPosition");
            reveal_strlit("GetTreasuryPosition");
            assert(m.spec_path() =~= "/"@ + SERVICE_NAME@ + "/"@ + m.spec_name());
        },
        TreasuryMethod::ListPositionHistory => {
            reveal_strlit("/finance.treasury.v1.TreasuryService/ListPositionHistory");
            reveal_strlit("ListPositionHistory");
            assert(m.spec_path() =~= "/"@ + SERVICE_NAME@ + "/"@ + m.spec_name());
        },
        TreasuryMethod::AdjustPosition => {
            reveal_strlit("/finance.treasury.v1.TreasuryService/AdjustPosition");
            reveal_strlit("AdjustPosition");
            assert(m.spec_path() =~= "/"@ + SERVICE_NAME@ + "/"@ + m.spec_name());
        },
        TreasuryMethod::GetTermDeposit => {
            reveal_strlit("/finance.treasury.v1.TreasuryService/GetTermDeposit");
            reveal_strlit("GetTermDeposit");
            assert(m.spec_path() =~= "/"@ + SERVICE_NAME@ + "/"@ + m.spec_name());
        },
        TreasuryMethod::CreateTermDeposit => {
            reveal_strlit("/finance.treasury.v1.TreasuryService/CreateTermDeposit");
            reveal_strlit("CreateTermDeposit");
            assert(m.spec_path() =~= "/"@ + SERVICE_NAME@ + "/"@ + m.spec_name());
        },
        TreasuryMethod::ProcessMaturity => {
            reveal_strlit("/finance.treasury.v1.TreasuryService/ProcessMaturity");
            reveal_strlit("ProcessMaturity");
            assert(m.spec_path() =~= "/"@ + SERVICE_NAME@ + "/"@ + m.spec_name());
        },
        TreasuryMethod::ListInvestments => {
            reveal_strlit("/finance.treasury.v1.TreasuryService/ListInvestments");
            reveal_strlit("ListInvestments");
            assert(m.spec_path() =~= "/"@ + SERVICE_NAME@ + "/"@ + m.spec_name());
        },
        TreasuryMethod::GetLoan => {
            reveal_strlit("/finance.treasury.v1.TreasuryService/GetLoan");
            reveal_strlit("GetLoan");
            assert(m.spec_path() =~= "/"@ + SERVICE_NAME@ + "/"@ + m.spec_name());
        },
        TreasuryMethod::CreateLoan => {
            reveal_strlit("/finance.treasury.v1.TreasuryService/CreateLoan");
            reveal_strlit("CreateLoan");
            assert(m.spec_path() =~= "/"@ + SERVICE_NAME@ + "/"@ + m.spec_name());
        },
        TreasuryMethod::DrawdownLoan => {
            reveal_strlit("/finance.treasury.v1.TreasuryService/DrawdownLoan");
            reveal_strlit("DrawdownLoan");
            assert(m.spec_path() =~= "/"@ + SERVICE_NAME@ + "/"@ + m.spec_name());
        },
        TreasuryMethod::RepayLoan => {
            reveal_strlit("/finance.treasury.v1.TreasuryService/RepayLoan");
            reveal_strlit("RepayLoan");
            assert(m.spec_path() =~= "/"@ + SERVICE_NAME@ + "/"@ + m.spec_name());
        },
        TreasuryMethod::ListLoans => {
            reveal_strlit("/finance.treasury.v1.TreasuryService/ListLoans");
            reveal_strlit("ListLoans");
            assert(m.spec_path() =~= "/"@ + SERVICE_NAME@ + "/"@ + m.spec_name());
        },
        TreasuryMethod::GetFXTransaction => {
            reveal_strlit("/finance.treasury.v1.TreasuryService/GetFXTransaction");
            reveal_strlit("GetFXTransaction");
            assert(m.spec_path() =~= "/"@ + SERVICE_NAME@ + "/"@ + m.spec_name());
        },
        TreasuryMethod::CreateFXTransaction => {
            reveal_strlit("/finance.treasury.v1.TreasuryService/CreateFXTransaction");
            reveal_strlit("CreateFXTransaction");
            assert(m.spec_path() =~= "/"@ + SERVICE_NAME@ + "/"@ + m.spec_name());
        },
        TreasuryMethod::ExecuteFXTransaction => {
            reveal_strlit("/finance.treasury.v1.TreasuryService/ExecuteFXTransaction");
            reveal_strlit("ExecuteFXTransaction");
            assert(m.spec_path() =~= "/"@ + SERVICE_NAME@ + "/"@ + m.spec_name());
        },
        TreasuryMethod::GetFXExposure => {
            reveal_strlit("/finance.treasury.v1.TreasuryService/GetFXExposure");
            reveal_strlit("GetFXExposure");
            assert(m.spec_path() =~= "/"@ + SERVICE_NAME@ + "/"@ + m.spec_name());
        },
        TreasuryMethod::RevalueFXPosition => {
            reveal_strlit("/finance.treasury.v1.TreasuryService/RevalueFXPosition");
            reveal_strlit("RevalueFXPosition");
            assert(m.spec_path() =~= "/"@ + SERVICE_NAME@ + "/"@ + m.spec_name());
        },
        TreasuryMethod::CreateInternalBankAccount => {
            reveal_strlit("/finance.treasury.v1.TreasuryService/CreateInternalBankAccount");
            reveal_strlit("CreateInternalBankAccount");
            assert(m.spec_path() =~= "/"@ + SERVICE_NAME@ + "/"@ + m.spec_name());
        },
        TreasuryMethod::InternalTransfer => {
            reveal_strlit("/finance.treasury.v1.TreasuryService/InternalTransfer");
            reveal_strlit("InternalTransfer");
            assert(m.spec_path() =~= "/"@ + SERVICE_NAME@ + "/"@ + m.spec_name());
        },
        TreasuryMethod::GetInternalBankStatement => {
            reveal_strlit("/finance.treasury.v1.TreasuryService/GetInternalBankStatement");
            reveal_strlit("GetInternalBankStatement");
            assert(m.spec_path() =~= "/"@ + SERVICE_NAME@ + "/"@ + m.spec_name());
        },
    }
}

/// The table finds a method exactly under that method's path.
proof fn lemma_table_exact(path: Seq<char>)
    ensures
        forall|m: TreasuryMethod| #[trigger] m.spec_path() == path <==> dispatch_table(path) == Some(m),
{
    assert forall|m: TreasuryMethod| #[trigger] m.spec_path() == path implies dispatch_table(path) == Some(m) by {
        lemma_table_finds_method(m);
    }
}

/// No two methods share a request path.
pub proof fn lemma_paths_distinct(a: TreasuryMethod, b: TreasuryMethod)
    ensures
        a.spec_path() == b.spec_path() ==> a == b,
{
    lemma_table_finds_method(a);
    lemma_table_finds_method(b);
}

} // verus!

//! The routing table of the financial accounting gRPC service `finance.financial.v1.FinancialService`: the method
//! behind each request path, as the server dispatches it and the client
//! addresses it.

use vstd::prelude::*;

use super::str_eq;

verus! {

/// The full name of the service.
pub const SERVICE_NAME: &'static str = "finance.financial.v1.FinancialService";

/// A method of the service.
#[derive(Clone, Copy, Debug, PartialEq, Eq, Structural)]
pub enum FinancialMethod {
    GetGLAccount,
    ListGLAccounts,
    CreateJournalEntry,
    GetJournalEntry,
    ListJournalEntries,
    PostJournalEntry,
    ReverseJournalEntry,
    BatchCreateJournalEntries,
    CreateJournalEntryWithTemplate,
    GetAccountBalance,
    GetAccountBalances,
    GenerateTrialBalance,
    GetCustomer,
    ListCustomers,
    CreateCustomer,
    UpdateCustomer,
    PostReceivableEntry,
    PostIncomingPayment,
    ClearCustomerOpenItem,
    SendCustomerDunning,
    CalculateExchangeDifference,
    GetVendor,
    ListVendors,
    CreateVendor,
    UpdateVendor,
    PostPayableEntry,
    PostOutgoingPayment,
    ClearVendorOpenItem,
    SetPaymentBlock,
    GetFixedAsset,
    ListFixedAssets,
    CreateFixedAsset,
    PostAssetAcquisition,
    PostAssetDepreciation,
    PostAssetTransfer,
    PostAssetRetirement,
    GetAssetValue,
    GetBank,
    ListBanks,
    PostBankPayment,
    PostBankReceipt,
    PostBankReconciliation,
    GetBankAccountBalance,
    OpenFiscalPeriod,
    CloseFiscalPeriod,
    PostPeriodClosingEntry,
    GenerateGLAccountReport,
}

impl FinancialMethod {
    /// The method's name on the wire.
    pub open spec fn spec_name(self) -> Seq<char> {
        match self {
            FinancialMethod::GetGLAccount => "GetGLAccount"@,
            FinancialMethod::ListGLAccounts => "ListGLAccounts"@,
            FinancialMethod::CreateJournalEntry => "CreateJournalEntry"@,
            FinancialMethod::GetJournalEntry => "GetJournalEntry"@,
            FinancialMethod::ListJournalEntries => "ListJournalEntries"@,
            FinancialMethod::PostJournalEntry => "PostJournalEntry"@,
            FinancialMethod::ReverseJournalEntry => "ReverseJournalEntry"@,
            FinancialMethod::BatchCreateJournalEntries => "BatchCreateJournalEntries"@,
            FinancialMethod::CreateJournalEntryWithTemplate => "CreateJournalEntryWithTemplate"@,
            FinancialMethod::GetAccountBalance => "GetAccountBalance"@,
            FinancialMethod::GetAccountBalances => "GetAccountBalances"@,
            FinancialMethod::GenerateTrialBalance => "GenerateTrialBalance"@,
            FinancialMethod::GetCustomer => "GetCustomer"@,
            FinancialMethod::ListCustomers => "ListCustomers"@,
            FinancialMethod::CreateCustomer => "CreateCustomer"@,
            FinancialMethod::UpdateCustomer => "UpdateCustomer"@,
            FinancialMethod::PostReceivableEntry => "PostReceivableEntry"@,
            FinancialMethod::PostIncomingPayment => "PostIncomingPayment"@,
            FinancialMethod::ClearCustomerOpenItem => "ClearCustomerOpenItem"@,
            FinancialMethod::SendCustomerDunning => "SendCustomerDunning"@,
            FinancialMethod::CalculateExchangeDifference => "CalculateExchangeDifference"@,
            FinancialMethod::GetVendor => "GetVendor"@,
            FinancialMethod::ListVendors => "ListVendors"@,
            FinancialMethod::CreateVendor => "CreateVendor"@,
            FinancialMethod::UpdateVendor => "UpdateVendor"@,
            FinancialMethod::PostPayableEntry => "PostPayableEntry"@,
            FinancialMethod::PostOutgoingPayment => "PostOutgoingPayment"@,
            FinancialMethod::ClearVendorOpenItem => "ClearVendorOpenItem"@,
            FinancialMethod::SetPaymentBlock => "SetPaymentBlock"@,
            FinancialMethod::GetFixedAsset => "GetFixedAsset"@,
            FinancialMethod::ListFixedAssets => "ListFixedAssets"@,
            FinancialMethod::CreateFixedAsset => "CreateFixedAsset"@,
            FinancialMethod::PostAssetAcquisition => "PostAssetAcquisition"@,
            FinancialMethod::PostAssetDepreciation => "PostAssetDepreciation"@,
            FinancialMethod::PostAssetTransfer => "PostAssetTransfer"@,
            FinancialMethod::PostAssetRetirement => "PostAssetRetirement"@,
            FinancialMethod::GetAssetValue => "GetAssetValue"@,
            FinancialMethod::GetBank => "GetBank"@,
            FinancialMethod::ListBanks => "ListBanks"@,
            FinancialMethod::PostBankPayment => "PostBankPayment"@,
            FinancialMethod::PostBankReceipt => "PostBankReceipt"@,
            FinancialMethod::PostBankReconciliation => "PostBankReconciliation"@,
            FinancialMethod::GetBankAccountBalance => "GetBankAccountBalance"@,
            FinancialMethod::OpenFiscalPeriod => "OpenFiscalPeriod"@,
            FinancialMethod::CloseFiscalPeriod => "CloseFiscalPeriod"@,
            FinancialMethod::PostPeriodClosingEntry => "PostPeriodClosingEntry"@,
            FinancialMethod::GenerateGLAccountReport => "GenerateGLAccountReport"@,
        }
    }

    /// The request path of the method: the service's full name and the
    /// method's name, each after a slash.
    pub open spec fn spec_path(self) -> Seq<char> {
        match self {
            FinancialMethod::GetGLAccount => "/finance.financial.v1.FinancialService/GetGLAccount"@,
            FinancialMethod::ListGLAccounts => "/finance.financial.v1.FinancialService/ListGLAccounts"@,
            FinancialMethod::CreateJournalEntry => "/finance.financial.v1.FinancialService/CreateJournalEntry"@,
            FinancialMethod::GetJournalEntry => "/finance.financial.v1.FinancialService/GetJournalEntry"@,
            FinancialMethod::ListJournalEntries => "/finance.financial.v1.FinancialService/ListJournalEntries"@,
            FinancialMethod::PostJournalEntry => "/finance.financial.v1.FinancialService/PostJournalEntry"@,
            FinancialMethod::ReverseJournalEntry => "/finance.financial.v1.FinancialService/ReverseJournalEntry"@,
            FinancialMethod::BatchCreateJournalEntries => "/finance.financial.v1.FinancialService/BatchCreateJournalEntries"@,
            FinancialMethod::CreateJournalEntryWithTemplate => "/finance.financial.v1.FinancialService/CreateJournalEntryWithTemplate"@,
            FinancialMethod::GetAccountBalance => "/finance.financial.v1.FinancialService/GetAccountBalance"@,
            FinancialMethod::GetAccountBalances => "/finance.financial.v1.FinancialService/GetAccountBalances"@,
            FinancialMethod::GenerateTrialBalance => "/finance.financial.v1.FinancialService/GenerateTrialBalance"@,
            FinancialMethod::GetCustomer => "/finance.financial.v1.FinancialService/GetCustomer"@,
            FinancialMethod::ListCustomers => "/finance.financial.v1.FinancialService/ListCustomers"@,
            FinancialMethod::CreateCustomer => "/finance.financial.v1.FinancialService/CreateCustomer"@,
            FinancialMethod::UpdateCustomer => "/finance.financial.v1.FinancialService/UpdateCustomer"@,
            FinancialMethod::PostReceivableEntry => "/finance.financial.v1.FinancialService/PostReceivableEntry"@,
            FinancialMethod::PostIncomingPayment => "/finance.financial.v1.FinancialService/PostIncomingPayment"@,
            FinancialMethod::ClearCustomerOpenItem => "/finance.financial.v1.FinancialService/ClearCustomerOpenItem"@,
            FinancialMethod::SendCustomerDunning => "/finance.financial.v1.FinancialService/SendCustomerDunning"@,
            FinancialMethod::CalculateExchangeDifference => "/finance.financial.v1.FinancialService/CalculateExchangeDifference"@,
            FinancialMethod::GetVendor => "/finance.financial.v1.FinancialService/GetVendor"@,
            FinancialMethod::ListVendors => "/finance.financial.v1.FinancialService/ListVendors"@,
            FinancialMethod::CreateVendor => "/finance.financial.v1.FinancialService/CreateVendor"@,
            FinancialMethod::UpdateVendor => "/finance.financial.v1.FinancialService/UpdateVendor"@,
            FinancialMethod::PostPayableEntry => "/finance.financial.v1.FinancialService/PostPayableEntry"@,
            FinancialMethod::PostOutgoingPayment => "/finance.financial.v1.FinancialService/PostOutgoingPayment"@,
            FinancialMethod::ClearVendorOpenItem => "/finance.financial.v1.FinancialService/ClearVendorOpenItem"@,
            FinancialMethod::SetPaymentBlock => "/finance.financial.v1.FinancialService/SetPaymentBlock"@,
            FinancialMethod::GetFixedAsset => "/finance.financial.v1.FinancialService/GetFixedAsset"@,
            FinancialMethod::ListFixedAssets => "/finance.financial.v1.FinancialService/ListFixedAssets"@,
            FinancialMethod::CreateFixedAsset => "/finance.financial.v1.FinancialService/CreateFixedAsset"@,
            FinancialMethod::PostAssetAcquisition => "/finance.financial.v1.FinancialService/PostAssetAcquisition"@,
            FinancialMethod::PostAssetDepreciation => "/finance.financial.v1.FinancialService/PostAssetDepreciation"@,
            FinancialMethod::PostAssetTransfer => "/finance.financial.v1.FinancialService/PostAssetTransfer"@,
            FinancialMethod::PostAssetRetirement => "/finance.financial.v1.FinancialService/PostAssetRetirement"@,
            FinancialMethod::GetAssetValue => "/finance.financial.v1.FinancialService/GetAssetValue"@,
            FinancialMethod::GetBank => "/finance.financial.v1.FinancialService/GetBank"@,
            FinancialMethod::ListBanks => "/finance.financial.v1.FinancialService/ListBanks"@,
            FinancialMethod::PostBankPayment => "/finance.financial.v1.FinancialService/PostBankPayment"@,
            FinancialMethod::PostBankReceipt => "/finance.financial.v1.FinancialService/PostBankReceipt"@,
            FinancialMethod::PostBankReconciliation => "/finance.financial.v1.FinancialService/PostBankReconciliation"@,
            FinancialMethod::GetBankAccountBalance => "/finance.financial.v1.FinancialService/GetBankAccountBalance"@,
            FinancialMethod::OpenFiscalPeriod => "/finance.financial.v1.FinancialService/OpenFiscalPeriod"@,
            FinancialMethod::CloseFiscalPeriod => "/finance.financial.v1.FinancialService/CloseFiscalPeriod"@,
            FinancialMethod::PostPeriodClosingEntry => "/finance.financial.v1.FinancialService/PostPeriodClosingEntry"@,
            FinancialMethod::GenerateGLAccountReport => "/finance.financial.v1.FinancialService/GenerateGLAccountReport"@,
        }
    }

    /// The method's name on the wire.
    pub fn method_name(&self) -> (s: &'static str)
        ensures
            s@ == self.spec_name(),
    {
        match self {
            FinancialMethod::GetGLAccount => "GetGLAccount",
            FinancialMethod::ListGLAccounts => "ListGLAccounts",
            FinancialMethod::CreateJournalEntry => "CreateJournalEntry",
            FinancialMethod::GetJournalEntry => "GetJournalEntry",
            FinancialMethod::ListJournalEntries => "ListJournalEntries",
            FinancialMethod::PostJournalEntry => "PostJournalEntry",
            FinancialMethod::ReverseJournalEntry => "ReverseJournalEntry",
            FinancialMethod::BatchCreateJournalEntries => "BatchCreateJournalEntries",
            FinancialMethod::CreateJournalEntryWithTemplate => "CreateJournalEntryWithTemplate",
            FinancialMethod::GetAccountBalance => "GetAccountBalance",
            FinancialMethod::GetAccountBalances => "GetAccountBalances",
            FinancialMethod::GenerateTrialBalance => "GenerateTrialBalance",
            FinancialMethod::GetCustomer => "GetCustomer",
            FinancialMethod::ListCustomers => "ListCustomers",
            FinancialMethod::CreateCustomer => "CreateCustomer",
            FinancialMethod::UpdateCustomer => "UpdateCustomer",
            FinancialMethod::PostReceivableEntry => "PostReceivableEntry",
            FinancialMethod::PostIncomingPayment => "PostIncomingPayment",
            FinancialMethod::ClearCustomerOpenItem => "ClearCustomerOpenItem",
            FinancialMethod::SendCustomerDunning => "SendCustomerDunning",
            FinancialMethod::CalculateExchangeDifference => "CalculateExchangeDifference",
            FinancialMethod::GetVendor => "GetVendor",
            FinancialMethod::ListVendors => "ListVendors",
            FinancialMethod::CreateVendor => "CreateVendor",
            FinancialMethod::UpdateVendor => "UpdateVendor",
            FinancialMethod::PostPayableEntry => "PostPayableEntry",
            FinancialMethod::PostOutgoingPayment => "PostOutgoingPayment",
            FinancialMethod::ClearVendorOpenItem => "ClearVendorOpenItem",
            FinancialMethod::SetPaymentBlock => "SetPaymentBlock",
            FinancialMethod::GetFixedAsset => "GetFixedAsset",
            FinancialMethod::ListFixedAssets => "ListFixedAssets",
            FinancialMethod::CreateFixedAsset => "CreateFixedAsset",
            FinancialMethod::PostAssetAcquisition => "PostAssetAcquisition",
            FinancialMethod::PostAssetDepreciation => "PostAssetDepreciation",
            FinancialMethod::PostAssetTransfer => "PostAssetTransfer",
            FinancialMethod::PostAssetRetirement => "PostAssetRetirement",
            FinancialMethod::GetAssetValue => "GetAssetValue",
            FinancialMethod::GetBank => "GetBank",
            FinancialMethod::ListBanks => "ListBanks",
            FinancialMethod::PostBankPayment => "PostBankPayment",
            FinancialMethod::PostBankReceipt => "PostBankReceipt",
            FinancialMethod::PostBankReconciliation => "PostBankReconciliation",
            FinancialMethod::GetBankAccountBalance => "GetBankAccountBalance",
            FinancialMethod::OpenFiscalPeriod => "OpenFiscalPeriod",
            FinancialMethod::CloseFiscalPeriod => "CloseFiscalPeriod",
            FinancialMethod::PostPeriodClosingEntry => "PostPeriodClosingEntry",
            FinancialMethod::GenerateGLAccountReport => "GenerateGLAccountReport",
        }
    }

    /// The request path of the method.
    pub fn path(&self) -> (s: &'static str)
        ensures
            s@ == self.spec_path(),
    {
        match self {
            FinancialMethod::GetGLAccount => "/finance.financial.v1.FinancialService/GetGLAccount",
            FinancialMethod::ListGLAccounts => "/finance.financial.v1.FinancialService/ListGLAccounts",
            FinancialMethod::CreateJournalEntry => "/finance.financial.v1.FinancialService/CreateJournalEntry",
            FinancialMethod::GetJournalEntry => "/finance.financial.v1.FinancialService/GetJournalEntry",
            FinancialMethod::ListJournalEntries => "/finance.financial.v1.FinancialService/ListJournalEntries",
            FinancialMethod::PostJournalEntry => "/finance.financial.v1.FinancialService/PostJournalEntry",
            FinancialMethod::ReverseJournalEntry => "/finance.financial.v1.FinancialService/ReverseJournalEntry",
            FinancialMethod::BatchCreateJournalEntries => "/finance.financial.v1.FinancialService/BatchCreateJournalEntries",
            FinancialMethod::CreateJournalEntryWithTemplate => "/finance.financial.v1.FinancialService/CreateJournalEntryWithTemplate",
            FinancialMethod::GetAccountBalance => "/finance.financial.v1.FinancialService/GetAccountBalance",
            FinancialMethod::GetAccountBalances => "/finance.financial.v1.FinancialService/GetAccountBalances",
            FinancialMethod::GenerateTrialBalance => "/finance.financial.v1.FinancialService/GenerateTrialBalance",
            FinancialMethod::GetCustomer => "/finance.financial.v1.FinancialService/GetCustomer",
            FinancialMethod::ListCustomers => "/finance.financial.v1.FinancialService/ListCustomers",
            FinancialMethod::CreateCustomer => "/finance.financial.v1.FinancialService/CreateCustomer",
            FinancialMethod::UpdateCustomer => "/finance.financial.v1.FinancialService/UpdateCustomer",
            FinancialMethod::PostReceivableEntry => "/finance.financial.v1.FinancialService/PostReceivableEntry",
            FinancialMethod::PostIncomingPayment => "/finance.financial.v1.FinancialService/PostIncomingPayment",
            FinancialMethod::ClearCustomerOpenItem => "/finance.financial.v1.FinancialService/ClearCustomerOpenItem",
            FinancialMethod::SendCustomerDunning => "/finance.financial.v1.FinancialService/SendCustomerDunning",
            FinancialMethod::CalculateExchangeDifference => "/finance.financial.v1.FinancialService/CalculateExchangeDifference",
            FinancialMethod::GetVendor => "/finance.financial.v1.FinancialService/GetVendor",
            FinancialMethod::ListVendors => "/finance.financial.v1.FinancialService/ListVendors",
            FinancialMethod::CreateVendor => "/finance.financial.v1.FinancialService/CreateVendor",
            FinancialMethod::UpdateVendor => "/finance.financial.v1.FinancialService/UpdateVendor",
            FinancialMethod::PostPayableEntry => "/finance.financial.v1.FinancialService/PostPayableEntry",
            FinancialMethod::PostOutgoingPayment => "/finance.financial.v1.FinancialService/PostOutgoingPayment",
            FinancialMethod::ClearVendorOpenItem => "/finance.financial.v1.FinancialService/ClearVendorOpenItem",
            FinancialMethod::SetPaymentBlock => "/finance.financial.v1.FinancialService/SetPaymentBlock",
            FinancialMethod::GetFixedAsset => "/finance.financial.v1.FinancialService/GetFixedAsset",
            FinancialMethod::ListFixedAssets => "/finance.financial.v1.FinancialService/ListFixedAssets",
            FinancialMethod::CreateFixedAsset => "/finance.financial.v1.FinancialService/CreateFixedAsset",
            FinancialMethod::PostAssetAcquisition => "/finance.financial.v1.FinancialService/PostAssetAcquisition",
            FinancialMethod::PostAssetDepreciation => "/finance.financial.v1.FinancialService/PostAssetDepreciation",
            FinancialMethod::PostAssetTransfer => "/finance.financial.v1.FinancialService/PostAssetTransfer",
            FinancialMethod::PostAssetRetirement => "/finance.financial.v1.FinancialService/PostAssetRetirement",
            FinancialMethod::GetAssetValue => "/finance.financial.v1.FinancialService/GetAssetValue",
            FinancialMethod::GetBank => "/finance.financial.v1.FinancialService/GetBank",
            FinancialMethod::ListBanks => "/finance.financial.v1.FinancialService/ListBanks",
            FinancialMethod::PostBankPayment => "/finance.financial.v1.FinancialService/PostBankPayment",
            FinancialMethod::PostBankReceipt => "/finance.financial.v1.FinancialService/PostBankReceipt",
            FinancialMethod::PostBankReconciliation => "/finance.financial.v1.FinancialService/PostBankReconciliation",
            FinancialMethod::GetBankAccountBalance => "/finance.financial.v1.FinancialService/GetBankAccountBalance",
            FinancialMethod::OpenFiscalPeriod => "/finance.financial.v1.FinancialService/OpenFiscalPeriod",
            FinancialMethod::CloseFiscalPeriod => "/finance.financial.v1.FinancialService/CloseFiscalPeriod",
            FinancialMethod::PostPeriodClosingEntry => "/finance.financial.v1.FinancialService/PostPeriodClosingEntry",
            FinancialMethod::GenerateGLAccountReport => "/finance.financial.v1.FinancialService/GenerateGLAccountReport",
        }
    }
}

/// The server's chain of comparisons, written out path by path; the
/// proof of [`route`] goes through it.
spec fn dispatch_table(path: Seq<char>) -> Option<FinancialMethod> {
    if path == "/finance.financial.v1.FinancialService/GetGLAccount"@ {
        Some(FinancialMethod::GetGLAccount)
    } else if path == "/finance.financial.v1.FinancialService/ListGLAccounts"@ {
        Some(FinancialMethod::ListGLAccounts)
    } else if path == "/finance.financial.v1.FinancialService/CreateJournalEntry"@ {
        Some(FinancialMethod::CreateJournalEntry)
    } else if path == "/finance.financial.v1.FinancialService/GetJournalEntry"@ {
        Some(FinancialMethod::GetJournalEntry)
    } else if path == "/finance.financial.v1.FinancialService/ListJournalEntries"@ {
        Some(FinancialMethod::ListJournalEntries)
    } else if path == "/finance.financial.v1.FinancialService/PostJournalEntry"@ {
        Some(FinancialMethod::PostJournalEntry)
    } else if path == "/finance.financial.v1.FinancialService/ReverseJournalEntry"@ {
        Some(FinancialMethod::ReverseJournalEntry)
    } else if path == "/finance.financial.v1.FinancialService/BatchCreateJournalEntries"@ {
        Some(FinancialMethod::BatchCreateJournalEntries)
    } else if path == "/finance.financial.v1.FinancialService/CreateJournalEntryWithTemplate"@ {
        Some(FinancialMethod::CreateJournalEntryWithTemplate)
    } else if path == "/finance.financial.v1.FinancialService/GetAccountBalance"@ {
        Some(FinancialMethod::GetAccountBalance)
    } else if path == "/finance.financial.v1.FinancialService/GetAccountBalances"@ {
        Some(FinancialMethod::GetAccountBalances)
    } else if path == "/finance.financial.v1.FinancialService/GenerateTrialBalance"@ {
        Some(FinancialMethod::GenerateTrialBalance)
    } else if path == "/finance.financial.v1.FinancialService/GetCustomer"@ {
        Some(FinancialMethod::GetCustomer)
    } else if path == "/finance.financial.v1.FinancialService/ListCustomers"@ {
        Some(FinancialMethod::ListCustomers)
    } else if path == "/finance.financial.v1.FinancialService/CreateCustomer"@ {
        Some(FinancialMethod::CreateCustomer)
    } else if path == "/finance.financial.v1.FinancialService/UpdateCustomer"@ {
        Some(FinancialMethod::UpdateCustomer)
    } else if path == "/finance.financial.v1.FinancialService/PostReceivableEntry"@ {
        Some(FinancialMethod::PostReceivableEntry)
    } else if path == "/finance.financial.v1.FinancialService/PostIncomingPayment"@ {
        Some(FinancialMethod::PostIncomingPayment)
    } else if path == "/finance.financial.v1.FinancialService/ClearCustomerOpenItem"@ {
        Some(FinancialMethod::ClearCustomerOpenItem)
    } else if path == "/finance.financial.v1.FinancialService/SendCustomerDunning"@ {
        Some(FinancialMethod::SendCustomerDunning)
    } else if path == "/finance.financial.v1.FinancialService/CalculateExchangeDifference"@ {
        Some(FinancialMethod::CalculateExchangeDifference)
    } else if path == "/finance.financial.v1.FinancialService/GetVendor"@ {
        Some(FinancialMethod::GetVendor)
    } else if path == "/finance.financial.v1.FinancialService/ListVendors"@ {
        Some(FinancialMethod::ListVendors)
    } else if path == "/finance.financial.v1.FinancialService/CreateVendor"@ {
        Some(FinancialMethod::CreateVendor)
    } else if path == "/finance.financial.v1.FinancialService/UpdateVendor"@ {
        Some(FinancialMethod::UpdateVendor)
    } else if path == "/finance.financial.v1.FinancialService/PostPayableEntry"@ {
        Some(FinancialMethod::PostPayableEntry)
    } else if path == "/finance.financial.v1.FinancialService/PostOutgoingPayment"@ {
        Some(FinancialMethod::PostOutgoingPayment)
    } else if path == "/finance.financial.v1.FinancialService/ClearVendorOpenItem"@ {
        Some(FinancialMethod::ClearVendorOpenItem)
    } else if path == "/finance.financial.v1.FinancialService/SetPaymentBlock"@ {
        Some(FinancialMethod::SetPaymentBlock)
    } else if path == "/finance.financial.v1.FinancialService/GetFixedAsset"@ {
        Some(FinancialMethod::GetFixedAsset)
    } else if path == "/finance.financial.v1.FinancialService/ListFixedAssets"@ {
        Some(FinancialMethod::ListFixedAssets)
    } else if path == "/finance.financial.v1.FinancialService/CreateFixedAsset"@ {
        Some(FinancialMethod::CreateFixedAsset)
    } else if path == "/finance.financial.v1.FinancialService/PostAssetAcquisition"@ {
        Some(FinancialMethod::PostAssetAcquisition)
    } else if path == "/finance.financial.v1.FinancialService/PostAssetDepreciation"@ {
        Some(FinancialMethod::PostAssetDepreciation)
    } else if path == "/finance.financial.v1.FinancialService/PostAssetTransfer"@ {
        Some(FinancialMethod::PostAssetTransfer)
    } else if path == "/finance.financial.v1.FinancialService/PostAssetRetirement"@ {
        Some(FinancialMethod::PostAssetRetirement)
    } else if path == "/finance.financial.v1.FinancialService/GetAssetValue"@ {
        Some(FinancialMethod::GetAssetValue)
    } else if path == "/finance.financial.v1.FinancialService/GetBank"@ {
        Some(FinancialMethod::GetBank)
    } else if path == "/finance.financial.v1.FinancialService/ListBanks"@ {
        Some(FinancialMethod::ListBanks)
    } else if path == "/finance.financial.v1.FinancialService/PostBankPayment"@ {
        Some(FinancialMethod::PostBankPayment)
    } else if path == "/finance.financial.v1.FinancialService/PostBankReceipt"@ {
        Some(FinancialMethod::PostBankReceipt)
    } else if path == "/finance.financial.v1.FinancialService/PostBankReconciliation"@ {
        Some(FinancialMethod::PostBankReconciliation)
    } else if path == "/finance.financial.v1.FinancialService/GetBankAccountBalance"@ {
        Some(FinancialMethod::GetBankAccountBalance)
    } else if path == "/finance.financial.v1.FinancialService/OpenFiscalPeriod"@ {
        Some(FinancialMethod::OpenFiscalPeriod)
    } else if path == "/finance.financial.v1.FinancialService/CloseFiscalPeriod"@ {
        Some(FinancialMethod::CloseFiscalPeriod)
    } else if path == "/finance.financial.v1.FinancialService/PostPeriodClosingEntry"@ {
        Some(FinancialMethod::PostPeriodClosingEntry)
    } else if path == "/finance.financial.v1.FinancialService/GenerateGLAccountReport"@ {
        Some(FinancialMethod::GenerateGLAccountReport)
    } else {
        None
    }
}

/// Compares the path with each method's path in turn.
fn dispatch(path: &str) -> (r: Option<FinancialMethod>)
    ensures
        r == dispatch_table(path@),
{
    if str_eq(path, "/finance.financial.v1.FinancialService/GetGLAccount") {
        return Some(FinancialMethod::GetGLAccount);
    }
    if str_eq(path, "/finance.financial.v1.FinancialService/ListGLAccounts") {
        return Some(FinancialMethod::ListGLAccounts);
    }
    if str_eq(path, "/finance.financial.v1.FinancialService/CreateJournalEntry") {
        return Some(FinancialMethod::CreateJournalEntry);
    }
    if str_eq(path, "/finance.financial.v1.FinancialService/GetJournalEntry") {
        return Some(FinancialMethod::GetJournalEntry);
    }
    if str_eq(path, "/finance.financial.v1.FinancialService/ListJournalEntries") {
        return Some(FinancialMethod::ListJournalEntries);
    }
    if str_eq(path, "/finance.financial.v1.FinancialService/PostJournalEntry") {
        return Some(FinancialMethod::PostJournalEntry);
    }
    if str_eq(path, "/finance.financial.v1.FinancialService/ReverseJournalEntry") {
        return Some(FinancialMethod::ReverseJournalEntry);
    }
    if str_eq(path, "/finance.financial.v1.FinancialService/BatchCreateJournalEntries") {
        return Some(FinancialMethod::BatchCreateJournalEntries);
    }
    if str_eq(path, "/finance.financial.v1.FinancialService/CreateJournalEntryWithTemplate") {
        return Some(FinancialMethod::CreateJournalEntryWithTemplate);
    }
    if str_eq(path, "/finance.financial.v1.FinancialService/GetAccountBalance") {
        return Some(FinancialMethod::GetAccountBalance);
    }
    if str_eq(path, "/finance.financial.v1.FinancialService/GetAccountBalances") {
        return Some(FinancialMethod::GetAccountBalances);
    }
    if str_eq(path, "/finance.financial.v1.FinancialService/GenerateTrialBalance") {
        return Some(FinancialMethod::GenerateTrialBalance);
    }
    if str_eq(path, "/finance.financial.v1.FinancialService/GetCustomer") {
        return Some(FinancialMethod::GetCustomer);
    }
    if str_eq(path, "/finance.financial.v1.FinancialService/ListCustomers") {
        return Some(FinancialMethod::ListCustomers);
    }
    if str_eq(path, "/finance.financial.v1.FinancialService/CreateCustomer") {
        return Some(FinancialMethod::CreateCustomer);
    }
    if str_eq(path, "/finance.financial.v1.FinancialService/UpdateCustomer") {
        return Some(FinancialMethod::UpdateCustomer);
    }
    if str_eq(path, "/finance.financial.v1.FinancialService/PostReceivableEntry") {
        return Some(FinancialMethod::PostReceivableEntry);
    }
    if str_eq(path, "/finance.financial.v1.FinancialService/PostIncomingPayment") {
        return Some(FinancialMethod::PostIncomingPayment);
    }
    if str_eq(path, "/finance.financial.v1.FinancialService/ClearCustomerOpenItem") {
        return Some(FinancialMethod::ClearCustomerOpenItem);
    }
    if str_eq(path, "/finance.financial.v1.FinancialService/SendCustomerDunning") {
        return Some(FinancialMethod::SendCustomerDunning);
    }
    if str_eq(path, "/finance.financial.v1.FinancialService/CalculateExchangeDifference") {
        return Some(FinancialMethod::CalculateExchangeDifference);
    }
    if str_eq(path, "/finance.financial.v1.FinancialService/GetVendor") {
        return Some(FinancialMethod::GetVendor);
    }
    if str_eq(path, "/finance.financial.v1.FinancialService/ListVendors") {
        return Some(FinancialMethod::ListVendors);
    }
    if str_eq(path, "/finance.financial.v1.FinancialService/CreateVendor") {
        return Some(FinancialMethod::CreateVendor);
    }
    if str_eq(path, "/finance.financial.v1.FinancialService/UpdateVendor") {
        return Some(FinancialMethod::UpdateVendor);
    }
    if str_eq(path, "/finance.financial.v1.FinancialService/PostPayableEntry") {
        return Some(FinancialMethod::PostPayableEntry);
    }
    if str_eq(path, "/finance.financial.v1.FinancialService/PostOutgoingPayment") {
        return Some(FinancialMethod::PostOutgoingPayment);
    }
    if str_eq(path, "/finance.financial.v1.FinancialService/ClearVendorOpenItem") {
        return Some(FinancialMethod::ClearVendorOpenItem);
    }
    if str_eq(path, "/finance.financial.v1.FinancialService/SetPaymentBlock") {
        return Some(FinancialMethod::SetPaymentBlock);
    }
    if str_eq(path, "/finance.financial.v1.FinancialService/GetFixedAsset") {
        return Some(FinancialMethod::GetFixedAsset);
    }
    if str_eq(path, "/finance.financial.v1.FinancialService/ListFixedAssets") {
        return Some(FinancialMethod::ListFixedAssets);
    }
    if str_eq(path, "/finance.financial.v1.FinancialService/CreateFixedAsset") {
        return Some(FinancialMethod::CreateFixedAsset);
    }
    if str_eq(path, "/finance.financial.v1.FinancialService/PostAssetAcquisition") {
        return Some(FinancialMethod::PostAssetAcquisition);
    }
    if str_eq(path, "/finance.financial.v1.FinancialService/PostAssetDepreciation") {
        return Some(FinancialMethod::PostAssetDepreciation);
    }
    if str_eq(path, "/finance.financial.v1.FinancialService/PostAssetTransfer") {
        return Some(FinancialMethod::PostAssetTransfer);
    }
    if str_eq(path, "/finance.financial.v1.FinancialService/PostAssetRetirement") {
        return Some(FinancialMethod::PostAssetRetirement);
    }
    if str_eq(path, "/finance.financial.v1.FinancialService/GetAssetValue") {
        return Some(FinancialMethod::GetAssetValue);
    }
    if str_eq(path, "/finance.financial.v1.FinancialService/GetBank") {
        return Some(FinancialMethod::GetBank);
    }
    if str_eq(path, "/finance.financial.v1.FinancialService/ListBanks") {
        return Some(FinancialMethod::ListBanks);
    }
    if str_eq(path, "/finance.financial.v1.FinancialService/PostBankPayment") {
        return Some(FinancialMethod::PostBankPayment);
    }
    if str_eq(path, "/finance.financial.v1.FinancialService/PostBankReceipt") {
        return Some(FinancialMethod::PostBankReceipt);
    }
    if str_eq(path, "/finance.financial.v1.FinancialService/PostBankReconciliation") {
        return Some(FinancialMethod::PostBankReconciliation);
    }
    if str_eq(path, "/finance.financial.v1.FinancialService/GetBankAccountBalance") {
        return Some(FinancialMethod::GetBankAccountBalance);
    }
    if str_eq(path, "/finance.financial.v1.FinancialService/OpenFiscalPeriod") {
        return Some(FinancialMethod::OpenFiscalPeriod);
    }
    if str_eq(path, "/finance.financial.v1.FinancialService/CloseFiscalPeriod") {
        return Some(FinancialMethod::CloseFiscalPeriod);
    }
    if str_eq(path, "/finance.financial.v1.FinancialService/PostPeriodClosingEntry") {
        return Some(FinancialMethod::PostPeriodClosingEntry);
    }
    if str_eq(path, "/finance.financial.v1.FinancialService/GenerateGLAccountReport") {
        return Some(FinancialMethod::GenerateGLAccountReport);
    }
    None
}

/// The dispatch of the server: the method whose request path is `path`, or
/// nothing for a path that is no method's (the server then answers with the
/// status "unimplemented").
pub fn route(path: &str) -> (r: Option<FinancialMethod>)
    ensures
        forall|m: FinancialMethod| #[trigger] m.spec_path() == path@ <==> r == Some(m),
{
    let r = dispatch(path);
    proof {
        lemma_table_exact(path@);
    }
    r
}

/// The table finds each method under its own path.
proof fn lemma_table_finds_method(m: FinancialMethod)
    ensures
        dispatch_table(m.spec_path()) == Some(m),
{
    reveal_strlit("/finance.financial.v1.FinancialService/GetGLAccount");
    reveal_strlit("/finance.financial.v1.FinancialService/ListGLAccounts");
    reveal_strlit("/finance.financial.v1.FinancialService/CreateJournalEntry");
    reveal_strlit("/finance.financial.v1.FinancialService/GetJournalEntry");
    reveal_strlit("/finance.financial.v1.FinancialService/ListJournalEntries");
    reveal_strlit("/finance.financial.v1.FinancialService/PostJournalEntry");
    reveal_strlit("/finance.financial.v1.FinancialService/ReverseJournalEntry");
    reveal_strlit("/finance.financial.v1.FinancialService/BatchCreateJournalEntries");
    reveal_strlit("/finance.financial.v1.FinancialService/CreateJournalEntryWithTemplate");
    reveal_strlit("/finance.financial.v1.FinancialService/GetAccountBalance");
    reveal_strlit("/finance.financial.v1.FinancialService/GetAccountBalances");
    reveal_strlit("/finance.financial.v1.FinancialService/GenerateTrialBalance");
    reveal_strlit("/finance.financial.v1.FinancialService/GetCustomer");
    reveal_strlit("/finance.financial.v1.FinancialService/ListCustomers");
    reveal_strlit("/finance.financial.v1.FinancialService/CreateCustomer");
    reveal_strlit("/finance.financial.v1.FinancialService/UpdateCustomer");
    reveal_strlit("/finance.financial.v1.FinancialService/PostReceivableEntry");
    reveal_strlit("/finance.financial.v1.FinancialService/PostIncomingPayment");
    reveal_strlit("/finance.financial.v1.FinancialService/ClearCustomerOpenItem");
    reveal_strlit("/finance.financial.v1.FinancialService/SendCustomerDunning");
    reveal_strlit("/finance.financial.v1.FinancialService/CalculateExchangeDifference");
    reveal_strlit("/finance.financial.v1.FinancialService/GetVendor");
    reveal_strlit("/finance.financial.v1.FinancialService/ListVendors");
    reveal_strlit("/finance.financial.v1.FinancialService/CreateVendor");
    reveal_strlit("/finance.financial.v1.FinancialService/UpdateVendor");
    reveal_strlit("/finance.financial.v1.FinancialService/PostPayableEntry");
    reveal_strlit("/finance.financial.v1.FinancialService/PostOutgoingPayment");
    reveal_strlit("/finance.financial.v1.FinancialService/ClearVendorOpenItem");
    reveal_strlit("/finance.financial.v1.FinancialService/SetPaymentBlock");
    reveal_strlit("/finance.financial.v1.FinancialService/GetFixedAsset");
    reveal_strlit("/finance.financial.v1.FinancialService/ListFixedAssets");
    reveal_strlit("/finance.financial.v1.FinancialService/CreateFixedAsset");
    reveal_strlit("/finance.financial.v1.FinancialService/PostAssetAcquisition");
    reveal_strlit("/finance.financial.v1.FinancialService/PostAssetDepreciation");
    reveal_strlit("/finance.financial.v1.FinancialService/PostAssetTransfer");
    reveal_strlit("/finance.financial.v1.FinancialService/PostAssetRetirement");
    reveal_strlit("/finance.financial.v1.FinancialService/GetAssetValue");
    reveal_strlit("/finance.financial.v1.FinancialService/GetBank");
    reveal_strlit("/finance.financial.v1.FinancialService/ListBanks");
    reveal_strlit("/finance.financial.v1.FinancialService/PostBankPayment");
    reveal_strlit("/finance.financial.v1.FinancialService/PostBankReceipt");
    reveal_strlit("/finance.financial.v1.FinancialService/PostBankReconciliation");
    reveal_strlit("/finance.financial.v1.FinancialService/GetBankAccountBalance");
    reveal_strlit("/finance.financial.v1.FinancialService/OpenFiscalPeriod");
    reveal_strlit("/finance.financial.v1.FinancialService/CloseFiscalPeriod");
    reveal_strlit("/finance.financial.v1.FinancialService/PostPeriodClosingEntry");
    reveal_strlit("/finance.financial.v1.FinancialService/GenerateGLAccountReport");
    assert("/finance.financial.v1.FinancialService/GetGLAccount"@.len() == 51);
    assert("/finance.financial.v1.FinancialService/ListGLAccounts"@.len() == 53);
    assert("/finance.financial.v1.FinancialService/CreateJournalEntry"@.len() == 57);
    assert("/finance.financial.v1.FinancialService/GetJournalEntry"@.len() == 54);
    assert("/finance.financial.v1.FinancialService/ListJournalEntries"@.len() == 57);
    assert("/finance.financial.v1.FinancialService/PostJournalEntry"@.len() == 55);
    assert("/finance.financial.v1.FinancialService/ReverseJournalEntry"@.len() == 58);
    assert("/finance.financial.v1.FinancialService/BatchCreateJournalEntries"@.len() == 64);
    assert("/finance.financial.v1.FinancialService/CreateJournalEntryWithTemplate"@.len() == 69);
    assert("/finance.financial.v1.FinancialService/GetAccountBalance"@.len() == 56);
    assert("/finance.financial.v1.FinancialService/GetAccountBalances"@.len() == 57);
    assert("/finance.financial.v1.FinancialService/GenerateTrialBalance"@.len() == 59);
    assert("/finance.financial.v1.FinancialService/GetCustomer"@.len() == 50);
    assert("/finance.financial.v1.FinancialService/ListCustomers"@.len() == 52);
    assert("/finance.financial.v1.FinancialService/CreateCustomer"@.len() == 53);
    assert("/finance.financial.v1.FinancialService/UpdateCustomer"@.len() == 53);
    assert("/finance.financial.v1.FinancialService/PostReceivableEntry"@.len() == 58);
    assert("/finance.financial.v1.FinancialService/PostIncomingPayment"@.len() == 58);
    assert("/finance.financial.v1.FinancialService/ClearCustomerOpenItem"@.len() == 60);
    assert("/finance.financial.v1.FinancialService/SendCustomerDunning"@.len() == 58);
    assert("/finance.financial.v1.FinancialService/CalculateExchangeDifference"@.len() == 66);
    assert("/finance.financial.v1.FinancialService/GetVendor"@.len() == 48);
    assert("/finance.financial.v1.FinancialService/ListVendors"@.len() == 50);
    assert("/finance.financial.v1.FinancialService/CreateVendor"@.len() == 51);
    assert("/finance.financial.v1.FinancialService/UpdateVendor"@.len() == 51);
    assert("/finance.financial.v1.FinancialService/PostPayableEntry"@.len() == 55);
    assert("/finance.financial.v1.FinancialService/PostOutgoingPayment"@.len() == 58);
    assert("/finance.financial.v1.FinancialService/ClearVendorOpenItem"@.len() == 58);
    assert("/finance.financial.v1.FinancialService/SetPaymentBlock"@.len() == 54);
    assert("/finance.financial.v1.FinancialService/GetFixedAsset"@.len() == 52);
    assert("/finance.financial.v1.FinancialService/ListFixedAssets"@.len() == 54);
    assert("/finance.financial.v1.FinancialService/CreateFixedAsset"@.len() == 55);
    assert("/finance.financial.v1.FinancialService/PostAssetAcquisition"@.len() == 59);
    assert("/finance.financial.v1.FinancialService/PostAssetDepreciation"@.len() == 60);
    assert("/finance.financial.v1.FinancialService/PostAssetTransfer"@.len() == 56);
    assert("/finance.financial.v1.FinancialService/PostAssetRetirement"@.len() == 58);
    assert("/finance.financial.v1.FinancialService/GetAssetValue"@.len() == 52);
    assert("/finance.financial.v1.FinancialService/GetBank"@.len() == 46);
    assert("/finance.financial.v1.FinancialService/ListBanks"@.len() == 48);
    assert("/finance.financial.v1.FinancialService/PostBankPayment"@.len() == 54);
    assert("/finance.financial.v1.FinancialService/PostBankReceipt"@.len() == 54);
    assert("/finance.financial.v1.FinancialService/PostBankReconciliation"@.len() == 61);
    assert("/finance.financial.v1.FinancialService/GetBankAccountBalance"@.len() == 60);
    assert("/finance.financial.v1.FinancialService/OpenFiscalPeriod"@.len() == 55);
    assert("/finance.financial.v1.FinancialService/CloseFiscalPeriod"@.len() == 56);
    assert("/finance.financial.v1.FinancialService/PostPeriodClosingEntry"@.len() == 61);
    assert("/finance.financial.v1.FinancialService/GenerateGLAccountReport"@.len() == 62);
    assert("/finance.financial.v1.FinancialService/CreateJournalEntry"@[39] != "/finance.financial.v1.FinancialService/ListJournalEntries"@[39]);
    assert("/finance.financial.v1.FinancialService/CreateJournalEntry"@[39] != "/finance.financial.v1.FinancialService/GetAccountBalances"@[39]);
    assert("/finance.financial.v1.FinancialService/ListJournalEntries"@[39] != "/finance.financial.v1.FinancialService/GetAccountBalances"@[39]);
    assert("/finance.financial.v1.FinancialService/ListGLAccounts"@[39] != "/finance.financial.v1.FinancialService/CreateCustomer"@[39]);
    assert("/finance.financial.v1.FinancialService/ListGLAccounts"@[39] != "/finance.financial.v1.FinancialService/UpdateCustomer"@[39]);
    assert("/finance.financial.v1.FinancialService/CreateCustomer"@[39] != "/finance.financial.v1.FinancialService/UpdateCustomer"@[39]);
    assert("/finance.financial.v1.FinancialService/ReverseJournalEntry"@[39] != "/finance.financial.v1.FinancialService/PostReceivableEntry"@[39]);
    assert("/finance.financial.v1.FinancialService/ReverseJournalEntry"@[39] != "/finance.financial.v1.FinancialService/PostIncomingPayment"@[39]);
    assert("/finance.financial.v1.FinancialService/PostReceivableEntry"@[43] != "/finance.financial.v1.FinancialService/PostIncomingPayment"@[43]);
    assert("/finance.financial.v1.FinancialService/ReverseJournalEntry"@[39] != "/finance.financial.v1.FinancialService/SendCustomerDunning"@[39]);
    assert("/finance.financial.v1.FinancialService/PostReceivableEntry"@[39] != "/finance.financial.v1.FinancialService/SendCustomerDunning"@[39]);
    assert("/finance.financial.v1.FinancialService/PostIncomingPayment"@[39] != "/finance.financial.v1.FinancialService/SendCustomerDunning"@[39]);
    assert("/finance.financial.v1.FinancialService/GetCustomer"@[39] != "/finance.financial.v1.FinancialService/ListVendors"@[39]);
    assert("/finance.financial.v1.FinancialService/GetGLAccount"@[39] != "/finance.financial.v1.FinancialService/CreateVendor"@[39]);
    assert("/finance.financial.v1.FinancialService/GetGLAccount"@[39] != "/finance.financial.v1.FinancialService/UpdateVendor"@[39]);
    assert("/finance.financial.v1.FinancialService/CreateVendor"@[39] != "/finance.financial.v1.FinancialService/UpdateVendor"@[39]);
    assert("/finance.financial.v1.FinancialService/PostJournalEntry"@[43] != "/finance.financial.v1.FinancialService/PostPayableEntry"@[43]);
    assert("/finance.financial.v1.FinancialService/ReverseJournalEntry"@[39] != "/finance.financial.v1.FinancialService/PostOutgoingPayment"@[39]);
    assert("/finance.financial.v1.FinancialService/PostReceivableEntry"@[43] != "/finance.financial.v1.FinancialService/PostOutgoingPayment"@[43]);
    assert("/finance.financial.v1.FinancialService/PostIncomingPayment"@[43] != "/finance.financial.v1.FinancialService/PostOutgoingPayment"@[43]);
    assert("/finance.financial.v1.FinancialService/SendCustomerDunning"@[39] != "/finance.financial.v1.FinancialService/PostOutgoingPayment"@[39]);
    assert("/finance.financial.v1.FinancialService/ReverseJournalEntry"@[39] != "/finance.financial.v1.FinancialService/ClearVendorOpenItem"@[39]);
    assert("/finance.financial.v1.FinancialService/PostReceivableEntry"@[39] != "/finance.financial.v1.FinancialService/ClearVendorOpenItem"@[39]);
    assert("/finance.financial.v1.FinancialService/PostIncomingPayment"@[39] != "/finance.financial.v1.FinancialService/ClearVendorOpenItem"@[39]);
    assert("/finance.financial.v1.FinancialService/SendCustomerDunning"@[39] != "/finance.financial.v1.FinancialService/ClearVendorOpenItem"@[39]);
    assert("/finance.financial.v1.FinancialService/PostOutgoingPayment"@[39] != "/finance.financial.v1.FinancialService/ClearVendorOpenItem"@[39]);
    assert("/finance.financial.v1.FinancialService/GetJournalEntry"@[39] != "/finance.financial.v1.FinancialService/SetPaymentBlock"@[39]);
    assert("/finance.financial.v1.FinancialService/ListCustomers"@[39] != "/finance.financial.v1.FinancialService/GetFixedAsset"@[39]);
    assert("/finance.financial.v1.FinancialService/GetJournalEntry"@[39] != "/finance.financial.v1.FinancialService/ListFixedAssets"@[39]);
    assert("/finance.financial.v1.FinancialService/SetPaymentBlock"@[39] != "/finance.financial.v1.FinancialService/ListFixedAssets"@[39]);
    assert("/finance.financial.v1.FinancialService/PostJournalEntry"@[39] != "/finance.financial.v1.FinancialService/CreateFixedAsset"@[39]);
    assert("/finance.financial.v1.FinancialService/PostPayableEntry"@[39] != "/finance.financial.v1.FinancialService/CreateFixedAsset"@[39]);
    assert("/finance.financial.v1.FinancialService/GenerateTrialBalance"@[39] != "/finance.financial.v1.FinancialService/PostAssetAcquisition"@[39]);
    assert("/finance.financial.v1.FinancialService/ClearCustomerOpenItem"@[39] != "/finance.financial.v1.FinancialService/PostAssetDepreciation"@[39]);
    assert("/finance.financial.v1.FinancialService/GetAccountBalance"@[39] != "/finance.financial.v1.FinancialService/PostAssetTransfer"@[39]);
    assert("/finance.financial.v1.FinancialService/ReverseJournalEntry"@[39] != "/finance.financial.v1.FinancialService/PostAssetRetirement"@[39]);
    assert("/finance.financial.v1.FinancialService/PostReceivableEntry"@[43] != "/finance.financial.v1.FinancialService/PostAssetRetirement"@[43]);
    assert("/finance.financial.v1.FinancialService/PostIncomingPayment"@[43] != "/finance.financial.v1.FinancialService/PostAssetRetirement"@[43]);
    assert("/finance.financial.v1.FinancialService/SendCustomerDunning"@[39] != "/finance.financial.v1.FinancialService/PostAssetRetirement"@[39]);
    assert("/finance.financial.v1.FinancialService/PostOutgoingPayment"@[43] != "/finance.financial.v1.FinancialService/PostAssetRetirement"@[43]);
    assert("/finance.financial.v1.FinancialService/ClearVendorOpenItem"@[39] != "/finance.financial.v1.FinancialService/PostAssetRetirement"@[39]);
    assert("/finance.financial.v1.FinancialService/ListCustomers"@[39] != "/finance.financial.v1.FinancialService/GetAssetValue"@[39]);
    assert("/finance.financial.v1.FinancialService/GetFixedAsset"@[42] != "/finance.financial.v1.FinancialService/GetAssetValue"@[42]);
    assert("/finance.financial.v1.FinancialService/GetVendor"@[39] != "/finance.financial.v1.FinancialService/ListBanks"@[39]);
    assert("/finance.financial.v1.FinancialService/GetJournalEntry"@[39] != "/finance.financial.v1.FinancialService/PostBankPayment"@[39]);
    assert("/finance.financial.v1.FinancialService/SetPaymentBlock"@[39] != "/finance.financial.v1.FinancialService/PostBankPayment"@[39]);
    assert("/finance.financial.v1.FinancialService/ListFixedAssets"@[39] != "/finance.financial.v1.FinancialService/PostBankPayment"@[39]);
    assert("/finance.financial.v1.FinancialService/GetJournalEntry"@[39] != "/finance.financial.v1.FinancialService/PostBankReceipt"@[39]);
    assert("/finance.financial.v1.FinancialService/SetPaymentBlock"@[39] != "/finance.financial.v1.FinancialService/PostBankReceipt"@[39]);
    assert("/finance.financial.v1.FinancialService/ListFixedAssets"@[39] != "/finance.financial.v1.FinancialService/PostBankReceipt"@[39]);
    assert("/finance.financial.v1.FinancialService/PostBankPayment"@[47] != "/finance.financial.v1.FinancialService/PostBankReceipt"@[47]);
    assert("/finance.financial.v1.FinancialService/ClearCustomerOpenItem"@[39] != "/finance.financial.v1.FinancialService/GetBankAccountBalance"@[39]);
    assert("/finance.financial.v1.FinancialService/PostAssetDepreciation"@[39] != "/finance.financial.v1.FinancialService/GetBankAccountBalance"@[39]);
    assert("/finance.financial.v1.FinancialService/PostJournalEntry"@[39] != "/finance.financial.v1.FinancialService/OpenFiscalPeriod"@[39]);
    assert("/finance.financial.v1.FinancialService/PostPayableEntry"@[39] != "/finance.financial.v1.FinancialService/OpenFiscalPeriod"@[39]);
    assert("/finance.financial.v1.FinancialService/CreateFixedAsset"@[39] != "/finance.financial.v1.FinancialService/OpenFiscalPeriod"@[39]);
    assert("/finance.financial.v1.FinancialService/GetAccountBalance"@[39] != "/finance.financial.v1.FinancialService/CloseFiscalPeriod"@[39]);
    assert("/finance.financial.v1.FinancialService/PostAssetTransfer"@[39] != "/finance.financial.v1.FinancialService/CloseFiscalPeriod"@[39]);
    assert("/finance.financial.v1.FinancialService/PostBankReconciliation"@[43] != "/finance.financial.v1.FinancialService/PostPeriodClosingEntry"@[43]);
}

/// A method's request path is a slash, the service's full name, a slash
/// and the method's name.
pub proof fn lemma_path_joins_service_and_name(m: FinancialMethod)
    ensures
        m.spec_path() == "/"@ + SERVICE_NAME@ + "/"@ + m.spec_name(),
{
    reveal_strlit("/");
    reveal_strlit("finance.financial.v1.FinancialService");
    match m {
        FinancialMethod::GetGLAccount => {
            reveal_strlit("/finance.financial.v1.FinancialService/GetGLAccount");
            reveal_strlit("GetGLAccount");
            assert(m.spec_path() =~= "/"@ + SERVICE_NAME@ + "/"@ + m.spec_name());
        },
        FinancialMethod::ListGLAccounts => {
            reveal_strlit("/finance.financial.v1.FinancialService/ListGLAccounts");
            reveal_strlit("ListGLAccounts");
            assert(m.spec_path() =~= "/"@ + SERVICE_NAME@ + "/"@ + m.spec_name());
        },
        FinancialMethod::CreateJournalEntry => {
            reveal_strlit("/finance.financial.v1.FinancialService/CreateJournalEntry");
            reveal_strlit("CreateJournalEntry");
            assert(m.spec_path() =~= "/"@ + SERVICE_NAME@ + "/"@ + m.spec_name());
        },
        FinancialMethod::GetJournalEntry => {
            reveal_strlit("/finance.financial.v1.FinancialService/GetJournalEntry");
            reveal_strlit("GetJournalEntry");
            assert(m.spec_path() =~= "/"@ + SERVICE_NAME@ + "/"@ + m.spec_name());
        },
        FinancialMethod::ListJournalEntries => {
            reveal_strlit("/finance.financial.v1.FinancialService/ListJournalEntries");
            reveal_strlit("ListJournalEntries");
            assert(m.spec_path() =~= "/"@ + SERVICE_NAME@ + "/"@ + m.spec_name());
        },
        FinancialMethod::PostJournalEntry => {
            reveal_strlit("/finance.financial.v1.FinancialService/PostJournalEntry");
            reveal_strlit("PostJournalEntry");
            assert(m.spec_path() =~= "/"@ + SERVICE_NAME@ + "/"@ + m.spec_name());
        },
        FinancialMethod::ReverseJournalEntry => {
            reveal_strlit("/finance.financial.v1.FinancialService/ReverseJournalEntry");
            reveal_strlit("ReverseJournalEntry");
            assert(m.spec_path() =~= "/"@ + SERVICE_NAME@ + "/"@ + m.spec_name());
        },
        FinancialMethod::BatchCreateJournalEntries => {
            reveal_strlit("/finance.financial.v1.FinancialService/BatchCreateJournalEntries");
            reveal_strlit("BatchCreateJournalEntries");
            assert(m.spec_path() =~= "/"@ + SERVICE_NAME@ + "/"@ + m.spec_name());
        },
        FinancialMethod::CreateJournalEntryWithTemplate => {
            reveal_strlit("/finance.financial.v1.FinancialService/CreateJournalEntryWithTemplate");
            reveal_strlit("CreateJournalEntryWithTemplate");
            assert(m.spec_path() =~= "/"@ + SERVICE_NAME@ + "/"@ + m.spec_name());
        },
        FinancialMethod::GetAccountBalance => {
            reveal_strlit("/finance.financial.v1.FinancialService/GetAccountBalance");
            reveal_strlit("GetAccountBalance");
            assert(m.spec_path() =~= "/"@ + SERVICE_NAME@ + "/"@ + m.spec_name());
        },
        FinancialMethod::GetAccountBalances => {
            reveal_strlit("/finance.financial.v1.FinancialService/GetAccountBalances");
            reveal_strlit("GetAccountBalances");
            assert(m.spec_path() =~= "/"@ + SERVICE_NAME@ + "/"@ + m.spec_name());
        },
        FinancialMethod::GenerateTrialBalance => {
            reveal_strlit("/finance.financial.v1.FinancialService/GenerateTrialBalance");
            reveal_strlit("GenerateTrialBalance");
            assert(m.spec_path() =~= "/"@ + SERVICE_NAME@ + "/"@ + m.spec_name());
        },
        FinancialMethod::GetCustomer => {
            reveal_strlit("/finance.financial.v1.FinancialService/GetCustomer");
            reveal_strlit("GetCustomer");
            assert(m.spec_path() =~= "/"@ + SERVICE_NAME@ + "/"@ + m.spec_name());
        },
        FinancialMethod::ListCustomers => {
            reveal_strlit("/finance.financial.v1.FinancialService/ListCustomers");
            reveal_strlit("ListCustomers");
            assert(m.spec_path() =~= "/"@ + SERVICE_NAME@ + "/"@ + m.spec_name());
        },
        FinancialMethod::CreateCustomer => {
            reveal_strlit("/finance.financial.v1.FinancialService/CreateCustomer");
            reveal_strlit("CreateCustomer");
            assert(m.spec_path() =~= "/"@ + SERVICE_NAME@ + "/"@ + m.spec_name());
        },
        FinancialMethod::UpdateCustomer => {
            reveal_strlit("/finance.financial.v1.FinancialService/UpdateCustomer");
            reveal_strlit("UpdateCustomer");
            assert(m.spec_path() =~= "/"@ + SERVICE_NAME@ + "/"@ + m.spec_name());
        },
        FinancialMethod::PostReceivableEntry => {
            reveal_strlit("/finance.financial.v1.FinancialService/PostReceivableEntry");
            reveal_strlit("PostReceivableEntry");
            assert(m.spec_path() =~= "/"@ + SERVICE_NAME@ + "/"@ + m.spec_name());
        },
        FinancialMethod::PostIncomingPayment => {
            reveal_strlit("/finance.financial.v1.FinancialService/PostIncomingPayment");
            reveal_strlit("PostIncomingPayment");
            assert(m.spec_path() =~= "/"@ + SERVICE_NAME@ + "/"@ + m.spec_name());
        },
        FinancialMethod::ClearCustomerOpenItem => {
            reveal_strlit("/finance.financial.v1.FinancialService/ClearCustomerOpenItem");
            reveal_strlit("ClearCustomerOpenItem");
            assert(m.spec_path() =~= "/"@ + SERVICE_NAME@ + "/"@ + m.spec_name());
        },
        FinancialMethod::SendCustomerDunning => {
            reveal_strlit("/finance.financial.v1.FinancialService/SendCustomerDunning");
            reveal_strlit("SendCustomerDunning");
            assert(m.spec_path() =~= "/"@ + SERVICE_NAME@ + "/"@ + m.spec_name());
        },
        FinancialMethod::CalculateExchangeDifference => {
            reveal_strlit("/finance.financial.v1.FinancialService/CalculateExchangeDifference");
            reveal_strlit("CalculateExchangeDifference");
            assert(m.spec_path() =~= "/"@ + SERVICE_NAME@ + "/"@ + m.spec_name());
        },
        FinancialMethod::GetVendor => {
            reveal_strlit("/finance.financial.v1.FinancialService/GetVendor");
            reveal_strlit("GetVendor");
            assert(m.spec_path() =~= "/"@ + SERVICE_NAME@ + "/"@ + m.spec_name());
        },
        FinancialMethod::ListVendors => {
            reveal_strlit("/finance.financial.v1.FinancialService/ListVendors");
            reveal_strlit("ListVendors");
            assert(m.spec_path() =~= "/"@ + SERVICE_NAME@ + "/"@ + m.spec_name());
        },
        FinancialMethod::CreateVendor => {
            reveal_strlit("/finance.financial.v1.FinancialService/CreateVendor");
            reveal_strlit("CreateVendor");
            assert(m.spec_path() =~= "/"@ + SERVICE_NAME@ + "/"@ + m.spec_name());
        },
        FinancialMethod::UpdateVendor => {
            reveal_strlit("/finance.financial.v1.FinancialService/UpdateVendor");
            reveal_strlit("UpdateVendor");
            assert(m.spec_path() =~= "/"@ + SERVICE_NAME@ + "/"@ + m.spec_name());
        },
        FinancialMethod::PostPayableEntry => {
            reveal_strlit("/finance.financial.v1.FinancialService/PostPayableEntry");
            reveal_strlit("PostPayableEntry");
            assert(m.spec_path() =~= "/"@ + SERVICE_NAME@ + "/"@ + m.spec_name());
        },
        FinancialMethod::PostOutgoingPayment => {
            reveal_strlit("/finance.financial.v1.FinancialService/PostOutgoingPayment");
            reveal_strlit("PostOutgoingPayment");
            assert(m.spec_path() =~= "/"@ + SERVICE_NAME@ + "/"@ + m.spec_name());
        },
        FinancialMethod::ClearVendorOpenItem => {
            reveal_strlit("/finance.financial.v1.FinancialService/ClearVendorOpenItem");
            reveal_strlit("ClearVendorOpenItem");
            assert(m.spec_path() =~= "/"@ + SERVICE_NAME@ + "/"@ + m.spec_name());
        },
        FinancialMethod::SetPaymentBlock => {
            reveal_strlit("/finance.financial.v1.FinancialService/SetPaymentBlock");
            reveal_strlit("SetPaymentBlock");
            assert(m.spec_path() =~= "/"@ + SERVICE_NAME@ + "/"@ + m.spec_name());
        },
        FinancialMethod::GetFixedAsset => {
            reveal_strlit("/finance.financial.v1.FinancialService/GetFixedAsset");
            reveal_strlit("GetFixedAsset");
            assert(m.spec_path() =~= "/"@ + SERVICE_NAME@ + "/"@ + m.spec_name());
        },
        FinancialMethod::ListFixedAssets => {
            reveal_strlit("/finance.financial.v1.FinancialService/ListFixedAssets");
            reveal_strlit("ListFixedAssets");
            assert(m.spec_path() =~= "/"@ + SERVICE_NAME@ + "/"@ + m.spec_name());
        },
        FinancialMethod::CreateFixedAsset => {
            reveal_strlit("/finance.financial.v1.FinancialService/CreateFixedAsset");
            reveal_strlit("CreateFixedAsset");
            assert(m.spec_path() =~= "/"@ + SERVICE_NAME@ + "/"@ + m.spec_name());
        },
        FinancialMethod::PostAssetAcquisition => {
            reveal_strlit("/finance.financial.v1.FinancialService/PostAssetAcquisition");
            reveal_strlit("PostAssetAcquisition");
            assert(m.spec_path() =~= "/"@ + SERVICE_NAME@ + "/"@ + m.spec_name());
        },
        FinancialMethod::PostAssetDepreciation => {
            reveal_strlit("/finance.financial.v1.FinancialService/PostAssetDepreciation");
            reveal_strlit("PostAssetDepreciation");
            assert(m.spec_path() =~= "/"@ + SERVICE_NAME@ + "/"@ + m.spec_name());
        },
        FinancialMethod::PostAssetTransfer => {
            reveal_strlit("/finance.financial.v1.FinancialService/PostAssetTransfer");
            reveal_strlit("PostAssetTransfer");
            assert(m.spec_path() =~= "/"@ + SERVICE_NAME@ + "/"@ + m.spec_name());
        },
        FinancialMethod::PostAssetRetirement => {
            reveal_strlit("/finance.financial.v1.FinancialService/PostAssetRetirement");
            reveal_strlit("PostAssetRetirement");
            assert(m.spec_path() =~= "/"@ + SERVICE_NAME@ + "/"@ + m.spec_name());
        },
        FinancialMethod::GetAssetValue => {
            reveal_strlit("/finance.financial.v1.FinancialService/GetAssetValue");
            reveal_strlit("GetAssetValue");
            assert(m.spec_path() =~= "/"@ + SERVICE_NAME@ + "/"@ + m.spec_name());
        },
        FinancialMethod::GetBank => {
            reveal_strlit("/finance.financial.v1.FinancialService/GetBank");
            reveal_strlit("GetBank");
            assert(m.spec_path() =~= "/"@ + SERVICE_NAME@ + "/"@ + m.spec_name());
        },
        FinancialMethod::ListBanks => {
            reveal_strlit("/finance.financial.v1.FinancialService/ListBanks");
            reveal_strlit("ListBanks");
            assert(m.spec_path() =~= "/"@ + SERVICE_NAME@ + "/"@ + m.spec_name());
        },
        FinancialMethod::PostBankPayment => {
            reveal_strlit("/finance.financial.v1.FinancialService/PostBankPayment");
            reveal_strlit("PostBankPayment");
            assert(m.spec_path() =~= "/"@ + SERVICE_NAME@ + "/"@ + m.spec_name());
        },
        FinancialMethod::PostBankReceipt => {
            reveal_strlit("/finance.financial.v1.FinancialService/PostBankReceipt");
            reveal_strlit("PostBankReceipt");
            assert(m.spec_path() =~= "/"@ + SERVICE_NAME@ + "/"@ + m.spec_name());
        },
        FinancialMethod::PostBankReconciliation => {
            reveal_strlit("/finance.financial.v1.FinancialService/PostBankReconciliation");
            reveal_strlit("PostBankReconciliation");
            assert(m.spec_path() =~= "/"@ + SERVICE_NAME@ + "/"@ + m.spec_name());
        },
        FinancialMethod::GetBankAccountBalance => {
            reveal_strlit("/finance.financial.v1.FinancialService/GetBankAccountBalance");
            reveal_strlit("GetBankAccountBalance");
            assert(m.spec_path() =~= "/"@ + SERVICE_NAME@ + "/"@ + m.spec_name());
        },
        FinancialMethod::OpenFiscalPeriod => {
            reveal_strlit("/finance.financial.v1.FinancialService/OpenFiscalPeriod");
            reveal_strlit("OpenFiscalPeriod");
            assert(m.spec_path() =~= "/"@ + SERVICE_NAME@ + "/"@ + m.spec_name());
        },
        FinancialMethod::CloseFiscalPeriod => {
            reveal_strlit("/finance.financial.v1.FinancialService/CloseFiscalPeriod");
            reveal_strlit("CloseFiscalPeriod");
            assert(m.spec_path() =~= "/"@ + SERVICE_NAME@ + "/"@ + m.spec_name());
        },
        FinancialMethod::PostPeriodClosingEntry => {
            reveal_strlit("/finance.financial.v1.FinancialService/PostPeriodClosingEntry");
            reveal_strlit("PostPeriodClosingEntry");
            assert(m.spec_path() =~= "/"@ + SERVICE_NAME@ + "/"@ + m.spec_name());
        },
        FinancialMethod::GenerateGLAccountReport => {
            reveal_strlit("/finance.financial.v1.FinancialService/GenerateGLAccountReport");
            reveal_strlit("GenerateGLAccountReport");
            assert(m.spec_path() =~= "/"@ + SERVICE_NAME@ + "/"@ + m.spec_name());
        },
    }
}

/// The table finds a method exactly under that method's path.
proof fn lemma_table_exact(path: Seq<char>)
    ensures
        forall|m: FinancialMethod| #[trigger] m.spec_path() == path <==> dispatch_table(path) == Some(m),
{
    assert forall|m: FinancialMethod| #[trigger] m.spec_path() == path implies dispatch_table(path) == Some(m) by {
        lemma_table_finds_method(m);
    }
}

/// No two methods share a request path.
pub proof fn lemma_paths_distinct(a: FinancialMethod, b: FinancialMethod)
    ensures
        a.spec_path() == b.spec_path() ==> a == b,
{
    lemma_table_finds_method(a);
    lemma_table_finds_method(b);
}

} // verus!

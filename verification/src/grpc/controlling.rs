//! The routing table of the controlling gRPC service `finance.controlling.v1.ControllingService`: the method
//! behind each request path, as the server dispatches it and the client
//! addresses it.

use vstd::prelude::*;

use super::str_eq;

verus! {

/// The full name of the service.
pub const SERVICE_NAME: &'static str = "finance.controlling.v1.ControllingService";

/// A method of the service.
#[derive(Clone, Copy, Debug, PartialEq, Eq, Structural)]
pub enum ControllingMethod {
    CreateCostDocument,
    GetCostDocument,
    ListCostDocuments,
    ReverseCostDocument,
    BatchCreateCostDocuments,
    GetCostCenter,
    ListCostCenters,
    PostCostCenterPosting,
    PostCostCenterTransfer,
    PostCostCenterReposting,
    GetCostCenterReport,
    GetCostCenterPlanActual,
    CreateInternalOrder,
    GetInternalOrder,
    ListInternalOrders,
    ReleaseInternalOrder,
    PostInternalOrderPosting,
    SettleInternalOrder,
    CloseInternalOrder,
    GetInternalOrderReport,
    GetActivityType,
    ListActivityTypes,
    PostActivityAllocation,
    PostStatisticalKeyFigure,
    CalculateActivityPrice,
    GetAllocationCycle,
    ExecuteAssessment,
    ExecuteDistribution,
    ExecutePeriodicReposting,
    PostProfitabilityDocument,
    GetProfitabilityReport,
    GetProfitCenter,
    ListProfitCenters,
    GetProfitCenterReport,
    ExecutePeriodClose,
    ExecuteActualCostSplit,
    ExecuteWIPCalculation,
    ExecuteVarianceCalculation,
}

impl ControllingMethod {
    /// The method's name on the wire.
    pub open spec fn spec_name(self) -> Seq<char> {
        match self {
            ControllingMethod::CreateCostDocument => "CreateCostDocument"@,
            ControllingMethod::GetCostDocument => "GetCostDocument"@,
            ControllingMethod::ListCostDocuments => "ListCostDocuments"@,
            ControllingMethod::ReverseCostDocument => "ReverseCostDocument"@,
            ControllingMethod::BatchCreateCostDocuments => "BatchCreateCostDocuments"@,
            ControllingMethod::GetCostCenter => "GetCostCenter"@,
            ControllingMethod::ListCostCenters => "ListCostCenters"@,
            ControllingMethod::PostCostCenterPosting => "PostCostCenterPosting"@,
            ControllingMethod::PostCostCenterTransfer => "PostCostCenterTransfer"@,
            ControllingMethod::PostCostCenterReposting => "PostCostCenterReposting"@,
            ControllingMethod::GetCostCenterReport => "GetCostCenterReport"@,
            ControllingMethod::GetCostCenterPlanActual => "GetCostCenterPlanActual"@,
            ControllingMethod::CreateInternalOrder => "CreateInternalOrder"@,
            ControllingMethod::GetInternalOrder => "GetInternalOrder"@,
            ControllingMethod::ListInternalOrders => "ListInternalOrders"@,
            ControllingMethod::ReleaseInternalOrder => "ReleaseInternalOrder"@,
            ControllingMethod::PostInternalOrderPosting => "PostInternalOrderPosting"@,
            ControllingMethod::SettleInternalOrder => "SettleInternalOrder"@,
            ControllingMethod::CloseInternalOrder => "CloseInternalOrder"@,
            ControllingMethod::GetInternalOrderReport => "GetInternalOrderReport"@,
            ControllingMethod::GetActivityType => "GetActivityType"@,
            ControllingMethod::ListActivityTypes => "ListActivityTypes"@,
            ControllingMethod::PostActivityAllocation => "PostActivityAllocation"@,
            ControllingMethod::PostStatisticalKeyFigure => "PostStatisticalKeyFigure"@,
            ControllingMethod::CalculateActivityPrice => "CalculateActivityPrice"@,
            ControllingMethod::GetAllocationCycle => "GetAllocationCycle"@,
            ControllingMethod::ExecuteAssessment => "ExecuteAssessment"@,
            ControllingMethod::ExecuteDistribution => "ExecuteDistribution"@,
            ControllingMethod::ExecutePeriodicReposting => "ExecutePeriodicReposting"@,
            ControllingMethod::PostProfitabilityDocument => "PostProfitabilityDocument"@,
            ControllingMethod::GetProfitabilityReport => "GetProfitabilityReport"@,
            ControllingMethod::GetProfitCenter => "GetProfitCenter"@,
            ControllingMethod::ListProfitCenters => "ListProfitCenters"@,
            ControllingMethod::GetProfitCenterReport => "GetProfitCenterReport"@,
            ControllingMethod::ExecutePeriodClose => "ExecutePeriodClose"@,
            ControllingMethod::ExecuteActualCostSplit => "ExecuteActualCostSplit"@,
            ControllingMethod::ExecuteWIPCalculation => "ExecuteWIPCalculation"@,
            ControllingMethod::ExecuteVarianceCalculation => "ExecuteVarianceCalculation"@,
        }
    }

    /// The request path of the method: the service's full name and the
    /// method's name, each after a slash.
    pub open spec fn spec_path(self) -> Seq<char> {
        match self {
            ControllingMethod::CreateCostDocument => "/finance.controlling.v1.ControllingService/CreateCostDocument"@,
            ControllingMethod::GetCostDocument => "/finance.controlling.v1.ControllingService/GetCostDocument"@,
            ControllingMethod::ListCostDocuments => "/finance.controlling.v1.ControllingService/ListCostDocuments"@,
            ControllingMethod::ReverseCostDocument => "/finance.controlling.v1.ControllingService/ReverseCostDocument"@,
            ControllingMethod::BatchCreateCostDocuments => "/finance.controlling.v1.ControllingService/BatchCreateCostDocuments"@,
            ControllingMethod::GetCostCenter => "/finance.controlling.v1.ControllingService/GetCostCenter"@,
            ControllingMethod::ListCostCenters => "/finance.controlling.v1.ControllingService/ListCostCenters"@,
            ControllingMethod::PostCostCenterPosting => "/finance.controlling.v1.ControllingService/PostCostCenterPosting"@,
            ControllingMethod::PostCostCenterTransfer => "/finance.controlling.v1.ControllingService/PostCostCenterTransfer"@,
            ControllingMethod::PostCostCenterReposting => "/finance.controlling.v1.ControllingService/PostCostCenterReposting"@,
            ControllingMethod::GetCostCenterReport => "/finance.controlling.v1.ControllingService/GetCostCenterReport"@,
            ControllingMethod::GetCostCenterPlanActual => "/finance.controlling.v1.ControllingService/GetCostCenterPlanActual"@,
            ControllingMethod::CreateInternalOrder => "/finance.controlling.v1.ControllingService/CreateInternalOrder"@,
            ControllingMethod::GetInternalOrder => "/finance.controlling.v1.ControllingService/GetInternalOrder"@,
            ControllingMethod::ListInternalOrders => "/finance.controlling.v1.ControllingService/ListInternalOrders"@,
            ControllingMethod::ReleaseInternalOrder => "/finance.controlling.v1.ControllingService/ReleaseInternalOrder"@,
            ControllingMethod::PostInternalOrderPosting => "/finance.controlling.v1.ControllingService/PostInternalOrderPosting"@,
            ControllingMethod::SettleInternalOrder => "/finance.controlling.v1.ControllingService/SettleInternalOrder"@,
            ControllingMethod::CloseInternalOrder => "/finance.controlling.v1.ControllingService/CloseInternalOrder"@,
            ControllingMethod::GetInternalOrderReport => "/finance.controlling.v1.ControllingService/GetInternalOrderReport"@,
            ControllingMethod::GetActivityType => "/finance.controlling.v1.ControllingService/GetActivityType"@,
            ControllingMethod::ListActivityTypes => "/finance.controlling.v1.ControllingService/ListActivityTypes"@,
            ControllingMethod::PostActivityAllocation => "/finance.controlling.v1.ControllingService/PostActivityAllocation"@,
            ControllingMethod::PostStatisticalKeyFigure => "/finance.controlling.v1.ControllingService/PostStatisticalKeyFigure"@,
            ControllingMethod::CalculateActivityPrice => "/finance.controlling.v1.ControllingService/CalculateActivityPrice"@,
            ControllingMethod::GetAllocationCycle => "/finance.controlling.v1.ControllingService/GetAllocationCycle"@,
            ControllingMethod::ExecuteAssessment => "/finance.controlling.v1.ControllingService/ExecuteAssessment"@,
            ControllingMethod::ExecuteDistribution => "/finance.controlling.v1.ControllingService/ExecuteDistribution"@,
            ControllingMethod::ExecutePeriodicReposting => "/finance.controlling.v1.ControllingService/ExecutePeriodicReposting"@,
            ControllingMethod::PostProfitabilityDocument => "/finance.controlling.v1.ControllingService/PostProfitabilityDocument"@,
            ControllingMethod::GetProfitabilityReport => "/finance.controlling.v1.ControllingService/GetProfitabilityReport"@,
            ControllingMethod::GetProfitCenter => "/finance.controlling.v1.ControllingService/GetProfitCenter"@,
            ControllingMethod::ListProfitCenters => "/finance.controlling.v1.ControllingService/ListProfitCenters"@,
            ControllingMethod::GetProfitCenterReport => "/finance.controlling.v1.ControllingService/GetProfitCenterReport"@,
            ControllingMethod::ExecutePeriodClose => "/finance.controlling.v1.ControllingService/ExecutePeriodClose"@,
            ControllingMethod::ExecuteActualCostSplit => "/finance.controlling.v1.ControllingService/ExecuteActualCostSplit"@,
            ControllingMethod::ExecuteWIPCalculation => "/finance.controlling.v1.ControllingService/ExecuteWIPCalculation"@,
            ControllingMethod::ExecuteVarianceCalculation => "/finance.controlling.v1.ControllingService/ExecuteVarianceCalculation"@,
        }
    }

    /// The method's name on the wire.
    pub fn method_name(&self) -> (s: &'static str)
        ensures
            s@ == self.spec_name(),
    {
        match self {
            ControllingMethod::CreateCostDocument => "CreateCostDocument",
            ControllingMethod::GetCostDocument => "GetCostDocument",
            ControllingMethod::ListCostDocuments => "ListCostDocuments",
            ControllingMethod::ReverseCostDocument => "ReverseCostDocument",
            ControllingMethod::BatchCreateCostDocuments => "BatchCreateCostDocuments",
            ControllingMethod::GetCostCenter => "GetCostCenter",
            ControllingMethod::ListCostCenters => "ListCostCenters",
            ControllingMethod::PostCostCenterPosting => "PostCostCenterPosting",
            ControllingMethod::PostCostCenterTransfer => "PostCostCenterTransfer",
            ControllingMethod::PostCostCenterReposting => "PostCostCenterReposting",
            ControllingMethod::GetCostCenterReport => "GetCostCenterReport",
            ControllingMethod::GetCostCenterPlanActual => "GetCostCenterPlanActual",
            ControllingMethod::CreateInternalOrder => "CreateInternalOrder",
            ControllingMethod::GetInternalOrder => "GetInternalOrder",
            ControllingMethod::ListInternalOrders => "ListInternalOrders",
            ControllingMethod::ReleaseInternalOrder => "ReleaseInternalOrder",
            ControllingMethod::PostInternalOrderPosting => "PostInternalOrderPosting",
            ControllingMethod::SettleInternalOrder => "SettleInternalOrder",
            ControllingMethod::CloseInternalOrder => "CloseInternalOrder",
            ControllingMethod::GetInternalOrderReport => "GetInternalOrderReport",
            ControllingMethod::GetActivityType => "GetActivityType",
            ControllingMethod::ListActivityTypes => "ListActivityTypes",
            ControllingMethod::PostActivityAllocation => "PostActivityAllocation",
            ControllingMethod::PostStatisticalKeyFigure => "PostStatisticalKeyFigure",
            ControllingMethod::CalculateActivityPrice => "CalculateActivityPrice",
            ControllingMethod::GetAllocationCycle => "GetAllocationCycle",
            ControllingMethod::ExecuteAssessment => "ExecuteAssessment",
            ControllingMethod::ExecuteDistribution => "ExecuteDistribution",
            ControllingMethod::ExecutePeriodicReposting => "ExecutePeriodicReposting",
            ControllingMethod::PostProfitabilityDocument => "PostProfitabilityDocument",
            ControllingMethod::GetProfitabilityReport => "GetProfitabilityReport",
            ControllingMethod::GetProfitCenter => "GetProfitCenter",
            ControllingMethod::ListProfitCenters => "ListProfitCenters",
            ControllingMethod::GetProfitCenterReport => "GetProfitCenterReport",
            ControllingMethod::ExecutePeriodClose => "ExecutePeriodClose",
            ControllingMethod::ExecuteActualCostSplit => "ExecuteActualCostSplit",
            ControllingMethod::ExecuteWIPCalculation => "ExecuteWIPCalculation",
            ControllingMethod::ExecuteVarianceCalculation => "ExecuteVarianceCalculation",
        }
    }

    /// The request path of the method.
    pub fn path(&self) -> (s: &'static str)
        ensures
            s@ == self.spec_path(),
    {
        match self {
            ControllingMethod::CreateCostDocument => "/finance.controlling.v1.ControllingService/CreateCostDocument",
            ControllingMethod::GetCostDocument => "/finance.controlling.v1.ControllingService/GetCostDocument",
            ControllingMethod::ListCostDocuments => "/finance.controlling.v1.ControllingService/ListCostDocuments",
            ControllingMethod::ReverseCostDocument => "/finance.controlling.v1.ControllingService/ReverseCostDocument",
            ControllingMethod::BatchCreateCostDocuments => "/finance.controlling.v1.ControllingService/BatchCreateCostDocuments",
            ControllingMethod::GetCostCenter => "/finance.controlling.v1.ControllingService/GetCostCenter",
            ControllingMethod::ListCostCenters => "/finance.controlling.v1.ControllingService/ListCostCenters",
            ControllingMethod::PostCostCenterPosting => "/finance.controlling.v1.ControllingService/PostCostCenterPosting",
            ControllingMethod::PostCostCenterTransfer => "/finance.controlling.v1.ControllingService/PostCostCenterTransfer",
            ControllingMethod::PostCostCenterReposting => "/finance.controlling.v1.ControllingService/PostCostCenterReposting",
            ControllingMethod::GetCostCenterReport => "/finance.controlling.v1.ControllingService/GetCostCenterReport",
            ControllingMethod::GetCostCenterPlanActual => "/finance.controlling.v1.ControllingService/GetCostCenterPlanActual",
            ControllingMethod::CreateInternalOrder => "/finance.controlling.v1.ControllingService/CreateInternalOrder",
            ControllingMethod::GetInternalOrder => "/finance.controlling.v1.ControllingService/GetInternalOrder",
            ControllingMethod::ListInternalOrders => "/finance.controlling.v1.ControllingService/ListInternalOrders",
            ControllingMethod::ReleaseInternalOrder => "/finance.controlling.v1.ControllingService/ReleaseInternalOrder",
            ControllingMethod::PostInternalOrderPosting => "/finance.controlling.v1.ControllingService/PostInternalOrderPosting",
            ControllingMethod::SettleInternalOrder => "/finance.controlling.v1.ControllingService/SettleInternalOrder",
            ControllingMethod::CloseInternalOrder => "/finance.controlling.v1.ControllingService/CloseInternalOrder",
            ControllingMethod::GetInternalOrderReport => "/finance.controlling.v1.ControllingService/GetInternalOrderReport",
            ControllingMethod::GetActivityType => "/finance.controlling.v1.ControllingService/GetActivityType",
            ControllingMethod::ListActivityTypes => "/finance.controlling.v1.ControllingService/ListActivityTypes",
            ControllingMethod::PostActivityAllocation => "/finance.controlling.v1.ControllingService/PostActivityAllocation",
            ControllingMethod::PostStatisticalKeyFigure => "/finance.controlling.v1.ControllingService/PostStatisticalKeyFigure",
            ControllingMethod::CalculateActivityPrice => "/finance.controlling.v1.ControllingService/CalculateActivityPrice",
            ControllingMethod::GetAllocationCycle => "/finance.controlling.v1.ControllingService/GetAllocationCycle",
            ControllingMethod::ExecuteAssessment => "/finance.controlling.v1.ControllingService/ExecuteAssessment",
            ControllingMethod::ExecuteDistribution => "/finance.controlling.v1.ControllingService/ExecuteDistribution",
            ControllingMethod::ExecutePeriodicReposting => "/finance.controlling.v1.ControllingService/ExecutePeriodicReposting",
            ControllingMethod::PostProfitabilityDocument => "/finance.controlling.v1.ControllingService/PostProfitabilityDocument",
            ControllingMethod::GetProfitabilityReport => "/finance.controlling.v1.ControllingService/GetProfitabilityReport",
            ControllingMethod::GetProfitCenter => "/finance.controlling.v1.ControllingService/GetProfitCenter",
            ControllingMethod::ListProfitCenters => "/finance.controlling.v1.ControllingService/ListProfitCenters",
            ControllingMethod::GetProfitCenterReport => "/finance.controlling.v1.ControllingService/GetProfitCenterReport",
            ControllingMethod::ExecutePeriodClose => "/finance.controlling.v1.ControllingService/ExecutePeriodClose",
            ControllingMethod::ExecuteActualCostSplit => "/finance.controlling.v1.ControllingService/ExecuteActualCostSplit",
            ControllingMethod::ExecuteWIPCalculation => "/finance.controlling.v1.ControllingService/ExecuteWIPCalculation",
            ControllingMethod::ExecuteVarianceCalculation => "/finance.controlling.v1.ControllingService/ExecuteVarianceCalculation",
        }
    }
}

/// The server's chain of comparisons, written out path by path; the
/// proof of [`route`] goes through it.
spec fn dispatch_table(path: Seq<char>) -> Option<ControllingMethod> {
    if path == "/finance.controlling.v1.ControllingService/CreateCostDocument"@ {
        Some(ControllingMethod::CreateCostDocument)
    } else if path == "/finance.controlling.v1.ControllingService/GetCostDocument"@ {
        Some(ControllingMethod::GetCostDocument)
    } else if path == "/finance.controlling.v1.ControllingService/ListCostDocuments"@ {
        Some(ControllingMethod::ListCostDocuments)
    } else if path == "/finance.controlling.v1.ControllingService/ReverseCostDocument"@ {
        Some(ControllingMethod::ReverseCostDocument)
    } else if path == "/finance.controlling.v1.ControllingService/BatchCreateCostDocuments"@ {
        Some(ControllingMethod::BatchCreateCostDocuments)
    } else if path == "/finance.controlling.v1.ControllingService/GetCostCenter"@ {
        Some(ControllingMethod::GetCostCenter)
    } else if path == "/finance.controlling.v1.ControllingService/ListCostCenters"@ {
        Some(ControllingMethod::ListCostCenters)
    } else if path == "/finance.controlling.v1.ControllingService/PostCostCenterPosting"@ {
        Some(ControllingMethod::PostCostCenterPosting)
    } else if path == "/finance.controlling.v1.ControllingService/PostCostCenterTransfer"@ {
        Some(ControllingMethod::PostCostCenterTransfer)
    } else if path == "/finance.controlling.v1.ControllingService/PostCostCenterReposting"@ {
        Some(ControllingMethod::PostCostCenterReposting)
    } else if path == "/finance.controlling.v1.ControllingService/GetCostCenterReport"@ {
        Some(ControllingMethod::GetCostCenterReport)
    } else if path == "/finance.controlling.v1.ControllingService/GetCostCenterPlanActual"@ {
        Some(ControllingMethod::GetCostCenterPlanActual)
    } else if path == "/finance.controlling.v1.ControllingService/CreateInternalOrder"@ {
        Some(ControllingMethod::CreateInternalOrder)
    } else if path == "/finance.controlling.v1.ControllingService/GetInternalOrder"@ {
        Some(ControllingMethod::GetInternalOrder)
    } else if path == "/finance.controlling.v1.ControllingService/ListInternalOrders"@ {
        Some(ControllingMethod::ListInternalOrders)
    } else if path == "/finance.controlling.v1.ControllingService/ReleaseInternalOrder"@ {
        Some(ControllingMethod::ReleaseInternalOrder)
    } else if path == "/finance.controlling.v1.ControllingService/PostInternalOrderPosting"@ {
        Some(ControllingMethod::PostInternalOrderPosting)
    } else if path == "/finance.controlling.v1.ControllingService/SettleInternalOrder"@ {
        Some(ControllingMethod::SettleInternalOrder)
    } else if path == "/finance.controlling.v1.ControllingService/CloseInternalOrder"@ {
        Some(ControllingMethod::CloseInternalOrder)
    } else if path == "/finance.controlling.v1.ControllingService/GetInternalOrderReport"@ {
        Some(ControllingMethod::GetInternalOrderReport)
    } else if path == "/finance.controlling.v1.ControllingService/GetActivityType"@ {
        Some(ControllingMethod::GetActivityType)
    } else if path == "/finance.controlling.v1.ControllingService/ListActivityTypes"@ {
        Some(ControllingMethod::ListActivityTypes)
    } else if path == "/finance.controlling.v1.ControllingService/PostActivityAllocation"@ {
        Some(ControllingMethod::PostActivityAllocation)
    } else if path == "/finance.controlling.v1.ControllingService/PostStatisticalKeyFigure"@ {
        Some(ControllingMethod::PostStatisticalKeyFigure)
    } else if path == "/finance.controlling.v1.ControllingService/CalculateActivityPrice"@ {
        Some(ControllingMethod::CalculateActivityPrice)
    } else if path == "/finance.controlling.v1.ControllingService/GetAllocationCycle"@ {
        Some(ControllingMethod::GetAllocationCycle)
    } else if path == "/finance.controlling.v1.ControllingService/ExecuteAssessment"@ {
        Some(ControllingMethod::ExecuteAssessment)
    } else if path == "/finance.controlling.v1.ControllingService/ExecuteDistribution"@ {
        Some(ControllingMethod::ExecuteDistribution)
    } else if path == "/finance.controlling.v1.ControllingService/ExecutePeriodicReposting"@ {
        Some(ControllingMethod::ExecutePeriodicReposting)
    } else if path == "/finance.controlling.v1.ControllingService/PostProfitabilityDocument"@ {
        Some(ControllingMethod::PostProfitabilityDocument)
    } else if path == "/finance.controlling.v1.ControllingService/GetProfitabilityReport"@ {
        Some(ControllingMethod::GetProfitabilityReport)
    } else if path == "/finance.controlling.v1.ControllingService/GetProfitCenter"@ {
        Some(ControllingMethod::GetProfitCenter)
    } else if path == "/finance.controlling.v1.ControllingService/ListProfitCenters"@ {
        Some(ControllingMethod::ListProfitCenters)
    } else if path == "/finance.controlling.v1.ControllingService/GetProfitCenterReport"@ {
        Some(ControllingMethod::GetProfitCenterReport)
    } else if path == "/finance.controlling.v1.ControllingService/ExecutePeriodClose"@ {
        Some(ControllingMethod::ExecutePeriodClose)
    } else if path == "/finance.controlling.v1.ControllingService/ExecuteActualCostSplit"@ {
        Some(ControllingMethod::ExecuteActualCostSplit)
    } else if path == "/finance.controlling.v1.ControllingService/ExecuteWIPCalculation"@ {
        Some(ControllingMethod::ExecuteWIPCalculation)
    } else if path == "/finance.controlling.v1.ControllingService/ExecuteVarianceCalculation"@ {
        Some(ControllingMethod::ExecuteVarianceCalculation)
    } else {
        None
    }
}

/// Compares the path with each method's path in turn.
fn dispatch(path: &str) -> (r: Option<ControllingMethod>)
    ensures
        r == dispatch_table(path@),
{
    if str_eq(path, "/finance.controlling.v1.ControllingService/CreateCostDocument") {
        return Some(ControllingMethod::CreateCostDocument);
    }
    if str_eq(path, "/finance.controlling.v1.ControllingService/GetCostDocument") {
        return Some(ControllingMethod::GetCostDocument);
    }
    if str_eq(path, "/finance.controlling.v1.ControllingService/ListCostDocuments") {
        return Some(ControllingMethod::ListCostDocuments);
    }
    if str_eq(path, "/finance.controlling.v1.ControllingService/ReverseCostDocument") {
        return Some(ControllingMethod::ReverseCostDocument);
    }
    if str_eq(path, "/finance.controlling.v1.ControllingService/BatchCreateCostDocuments") {
        return Some(ControllingMethod::BatchCreateCostDocuments);
    }
    if str_eq(path, "/finance.controlling.v1.ControllingService/GetCostCenter") {
        return Some(ControllingMethod::GetCostCenter);
    }
    if str_eq(path, "/finance.controlling.v1.ControllingService/ListCostCenters") {
        return Some(ControllingMethod::ListCostCenters);
    }
    if str_eq(path, "/finance.controlling.v1.ControllingService/PostCostCenterPosting") {
        return Some(ControllingMethod::PostCostCenterPosting);
    }
    if str_eq(path, "/finance.controlling.v1.ControllingService/PostCostCenterTransfer") {
        return Some(ControllingMethod::PostCostCenterTransfer);
    }
    if str_eq(path, "/finance.controlling.v1.ControllingService/PostCostCenterReposting") {
        return Some(ControllingMethod::PostCostCenterReposting);
    }
    if str_eq(path, "/finance.controlling.v1.ControllingService/GetCostCenterReport") {
        return Some(ControllingMethod::GetCostCenterReport);
    }
    if str_eq(path, "/finance.controlling.v1.ControllingService/GetCostCenterPlanActual") {
        return Some(ControllingMethod::GetCostCenterPlanActual);
    }
    if str_eq(path, "/finance.controlling.v1.ControllingService/CreateInternalOrder") {
        return Some(ControllingMethod::CreateInternalOrder);
    }
    if str_eq(path, "/finance.controlling.v1.ControllingService/GetInternalOrder") {
        return Some(ControllingMethod::GetInternalOrder);
    }
    if str_eq(path, "/finance.controlling.v1.ControllingService/ListInternalOrders") {
        return Some(ControllingMethod::ListInternalOrders);
    }
    if str_eq(path, "/finance.controlling.v1.ControllingService/ReleaseInternalOrder") {
        return Some(ControllingMethod::ReleaseInternalOrder);
    }
    if str_eq(path, "/finance.controlling.v1.ControllingService/PostInternalOrderPosting") {
        return Some(ControllingMethod::PostInternalOrderPosting);
    }
    if str_eq(path, "/finance.controlling.v1.ControllingService/SettleInternalOrder") {
        return Some(ControllingMethod::SettleInternalOrder);
    }
    if str_eq(path, "/finance.controlling.v1.ControllingService/CloseInternalOrder") {
        return Some(ControllingMethod::CloseInternalOrder);
    }
    if str_eq(path, "/finance.controlling.v1.ControllingService/GetInternalOrderReport") {
        return Some(ControllingMethod::GetInternalOrderReport);
    }
    if str_eq(path, "/finance.controlling.v1.ControllingService/GetActivityType") {
        return Some(ControllingMethod::GetActivityType);
    }
    if str_eq(path, "/finance.controlling.v1.ControllingService/ListActivityTypes") {
        return Some(ControllingMethod::ListActivityTypes);
    }
    if str_eq(path, "/finance.controlling.v1.ControllingService/PostActivityAllocation") {
        return Some(ControllingMethod::PostActivityAllocation);
    }
    if str_eq(path, "/finance.controlling.v1.ControllingService/PostStatisticalKeyFigure") {
        return Some(ControllingMethod::PostStatisticalKeyFigure);
    }
    if str_eq(path, "/finance.controlling.v1.ControllingService/CalculateActivityPrice") {
        return Some(ControllingMethod::CalculateActivityPrice);
    }
    if str_eq(path, "/finance.controlling.v1.ControllingService/GetAllocationCycle") {
        return Some(ControllingMethod::GetAllocationCycle);
    }
    if str_eq(path, "/finance.controlling.v1.ControllingService/ExecuteAssessment") {
        return Some(ControllingMethod::ExecuteAssessment);
    }
    if str_eq(path, "/finance.controlling.v1.ControllingService/ExecuteDistribution") {
        return Some(ControllingMethod::ExecuteDistribution);
    }
    if str_eq(path, "/finance.controlling.v1.ControllingService/ExecutePeriodicReposting") {
        return Some(ControllingMethod::ExecutePeriodicReposting);
    }
    if str_eq(path, "/finance.controlling.v1.ControllingService/PostProfitabilityDocument") {
        return Some(ControllingMethod::PostProfitabilityDocument);
    }
    if str_eq(path, "/finance.controlling.v1.ControllingService/GetProfitabilityReport") {
        return Some(ControllingMethod::GetProfitabilityReport);
    }
    if str_eq(path, "/finance.controlling.v1.ControllingService/GetProfitCenter") {
        return Some(ControllingMethod::GetProfitCenter);
    }
    if str_eq(path, "/finance.controlling.v1.ControllingService/ListProfitCenters") {
        return Some(ControllingMethod::ListProfitCenters);
    }
    if str_eq(path, "/finance.controlling.v1.ControllingService/GetProfitCenterReport") {
        return Some(ControllingMethod::GetProfitCenterReport);
    }
    if str_eq(path, "/finance.controlling.v1.ControllingService/ExecutePeriodClose") {
        return Some(ControllingMethod::ExecutePeriodClose);
    }
    if str_eq(path, "/finance.controlling.v1.ControllingService/ExecuteActualCostSplit") {
        return Some(ControllingMethod::ExecuteActualCostSplit);
    }
    if str_eq(path, "/finance.controlling.v1.ControllingService/ExecuteWIPCalculation") {
        return Some(ControllingMethod::ExecuteWIPCalculation);
    }
    if str_eq(path, "/finance.controlling.v1.ControllingService/ExecuteVarianceCalculation") {
        return Some(ControllingMethod::ExecuteVarianceCalculation);
    }
    None
}

/// The dispatch of the server: the method whose request path is `path`, or
/// nothing for a path that is no method's (the server then answers with the
/// status "unimplemented").
pub fn route(path: &str) -> (r: Option<ControllingMethod>)
    ensures
        forall|m: ControllingMethod| #[trigger] m.spec_path() == path@ <==> r == Some(m),
{
    let r = dispatch(path);
    proof {
        lemma_table_exact(path@);
    }
    r
}

/// The table finds each method under its own path.
proof fn lemma_table_finds_method(m: ControllingMethod)
    ensures
        dispatch_table(m.spec_path()) == Some(m),
{
    reveal_strlit("/finance.controlling.v1.ControllingService/CreateCostDocument");
    reveal_strlit("/finance.controlling.v1.ControllingService/GetCostDocument");
    reveal_strlit("/finance.controlling.v1.ControllingService/ListCostDocuments");
    reveal_strlit("/finance.controlling.v1.ControllingService/ReverseCostDocument");
    reveal_strlit("/finance.controlling.v1.ControllingService/BatchCreateCostDocuments");
    reveal_strlit("/finance.controlling.v1.ControllingService/GetCostCenter");
    reveal_strlit("/finance.controlling.v1.ControllingService/ListCostCenters");
    reveal_strlit("/finance.controlling.v1.ControllingService/PostCostCenterPosting");
    reveal_strlit("/finance.controlling.v1.ControllingService/PostCostCenterTransfer");
    reveal_strlit("/finance.controlling.v1.ControllingService/PostCostCenterReposting");
    reveal_strlit("/finance.controlling.v1.ControllingService/GetCostCenterReport");
    reveal_strlit("/finance.controlling.v1.ControllingService/GetCostCenterPlanActual");
    reveal_strlit("/finance.controlling.v1.ControllingService/CreateInternalOrder");
    reveal_strlit("/finance.controlling.v1.ControllingService/GetInternalOrder");
    reveal_strlit("/finance.controlling.v1.ControllingService/ListInternalOrders");
    reveal_strlit("/finance.controlling.v1.ControllingService/ReleaseInternalOrder");
    reveal_strlit("/finance.controlling.v1.ControllingService/PostInternalOrderPosting");
    reveal_strlit("/finance.controlling.v1.ControllingService/SettleInternalOrder");
    reveal_strlit("/finance.controlling.v1.ControllingService/CloseInternalOrder");
    reveal_strlit("/finance.controlling.v1.ControllingService/GetInternalOrderReport");
    reveal_strlit("/finance.controlling.v1.ControllingService/GetActivityType");
    reveal_strlit("/finance.controlling.v1.ControllingService/ListActivityTypes");
    reveal_strlit("/finance.controlling.v1.ControllingService/PostActivityAllocation");
    reveal_strlit("/finance.controlling.v1.ControllingService/PostStatisticalKeyFigure");
    reveal_strlit("/finance.controlling.v1.ControllingService/CalculateActivityPrice");
    reveal_strlit("/finance.controlling.v1.ControllingService/GetAllocationCycle");
    reveal_strlit("/finance.controlling.v1.ControllingService/ExecuteAssessment");
    reveal_strlit("/finance.controlling.v1.ControllingService/ExecuteDistribution");
    reveal_strlit("/finance.controlling.v1.ControllingService/ExecutePeriodicReposting");
    reveal_strlit("/finance.controlling.v1.ControllingService/PostProfitabilityDocument");
    reveal_strlit("/finance.controlling.v1.ControllingService/GetProfitabilityReport");
    reveal_strlit("/finance.controlling.v1.ControllingService/GetProfitCenter");
    reveal_strlit("/finance.controlling.v1.ControllingService/ListProfitCenters");
    reveal_strlit("/finance.controlling.v1.ControllingService/GetProfitCenterReport");
    reveal_strlit("/finance.controlling.v1.ControllingService/ExecutePeriodClose");
    reveal_strlit("/finance.controlling.v1.ControllingService/ExecuteActualCostSplit");
    reveal_strlit("/finance.controlling.v1.ControllingService/ExecuteWIPCalculation");
    reveal_strlit("/finance.controlling.v1.ControllingService/ExecuteVarianceCalculation");
    assert("/finance.controlling.v1.ControllingService/CreateCostDocument"@.len() == 61);
    assert("/finance.controlling.v1.ControllingService/GetCostDocument"@.len() == 58);
    assert("/finance.controlling.v1.ControllingService/ListCostDocuments"@.len() == 60);
    assert("/finance.controlling.v1.ControllingService/ReverseCostDocument"@.len() == 62);
    assert("/finance.controlling.v1.ControllingService/BatchCreateCostDocuments"@.len() == 67);
    assert("/finance.controlling.v1.ControllingService/GetCostCenter"@.len() == 56);
    assert("/finance.controlling.v1.ControllingService/ListCostCenters"@.len() == 58);
    assert("/finance.controlling.v1.ControllingService/PostCostCenterPosting"@.len() == 64);
    assert("/finance.controlling.v1.ControllingService/PostCostCenterTransfer"@.len() == 65);
    assert("/finance.controlling.v1.ControllingService/PostCostCenterReposting"@.len() == 66);
    assert("/finance.controlling.v1.ControllingService/GetCostCenterReport"@.len() == 62);
    assert("/finance.controlling.v1.ControllingService/GetCostCenterPlanActual"@.len() == 66);
    assert("/finance.controlling.v1.ControllingService/CreateInternalOrder"@.len() == 62);
    assert("/finance.controlling.v1.ControllingService/GetInternalOrder"@.len() == 59);
    assert("/finance.controlling.v1.ControllingService/ListInternalOrders"@.len() == 61);
    assert("/finance.controlling.v1.ControllingService/ReleaseInternalOrder"@.len() == 63);
    assert("/finance.controlling.v1.ControllingService/PostInternalOrderPosting"@.len() == 67);
    assert("/finance.controlling.v1.ControllingService/SettleInternalOrder"@.len() == 62);
    assert("/finance.controlling.v1.ControllingService/CloseInternalOrder"@.len() == 61);
    assert("/finance.controlling.v1.ControllingService/GetInternalOrderReport"@.len() == 65);
    assert("/finance.controlling.v1.ControllingService/GetActivityType"@.len() == 58);
    assert("/finance.controlling.v1.ControllingService/ListActivityTypes"@.len() == 60);
    assert("/finance.controlling.v1.ControllingService/PostActivityAllocation"@.len() == 65);
    assert("/finance.controlling.v1.ControllingService/PostStatisticalKeyFigure"@.len() == 67);
    assert("/finance.controlling.v1.ControllingService/CalculateActivityPrice"@.len() == 65);
    assert("/finance.controlling.v1.ControllingService/GetAllocationCycle"@.len() == 61);
    assert("/finance.controlling.v1.ControllingService/ExecuteAssessment"@.len() == 60);
    assert("/finance.controlling.v1.ControllingService/ExecuteDistribution"@.len() == 62);
    assert("/finance.controlling.v1.ControllingService/ExecutePeriodicReposting"@.len() == 67);
    assert("/finance.controlling.v1.ControllingService/PostProfitabilityDocument"@.len() == 68);
    assert("/finance.controlling.v1.ControllingService/GetProfitabilityReport"@.len() == 65);
    assert("/finance.controlling.v1.ControllingService/GetProfitCenter"@.len() == 58);
    assert("/finance.controlling.v1.ControllingService/ListProfitCenters"@.len() == 60);
    assert("/finance.controlling.v1.ControllingService/GetProfitCenterReport"@.len() == 64);
    assert("/finance.controlling.v1.ControllingService/ExecutePeriodClose"@.len() == 61);
    assert("/finance.controlling.v1.ControllingService/ExecuteActualCostSplit"@.len() == 65);
    assert("/finance.controlling.v1.ControllingService/ExecuteWIPCalculation"@.len() == 64);
    assert("/finance.controlling.v1.ControllingService/ExecuteVarianceCalculation"@.len() == 69);
    assert("/finance.controlling.v1.ControllingService/GetCostDocument"@[43] != "/finance.controlling.v1.ControllingService/ListCostCenters"@[43]);
    assert("/finance.controlling.v1.ControllingService/ReverseCostDocument"@[43] != "/finance.controlling.v1.ControllingService/GetCostCenterReport"@[43]);
    assert("/finance.controlling.v1.ControllingService/PostCostCenterReposting"@[43] != "/finance.controlling.v1.ControllingService/GetCostCenterPlanActual"@[43]);
    assert("/finance.controlling.v1.ControllingService/ReverseCostDocument"@[43] != "/finance.controlling.v1.ControllingService/CreateInternalOrder"@[43]);
    assert("/finance.controlling.v1.ControllingService/GetCostCenterReport"@[43] != "/finance.controlling.v1.ControllingService/CreateInternalOrder"@[43]);
    assert("/finance.controlling.v1.ControllingService/CreateCostDocument"@[43] != "/finance.controlling.v1.ControllingService/ListInternalOrders"@[43]);
    assert("/finance.controlling.v1.ControllingService/BatchCreateCostDocuments"@[43] != "/finance.controlling.v1.ControllingService/PostInternalOrderPosting"@[43]);
    assert("/finance.controlling.v1.ControllingService/ReverseCostDocument"@[43] != "/finance.controlling.v1.ControllingService/SettleInternalOrder"@[43]);
    assert("/finance.controlling.v1.ControllingService/GetCostCenterReport"@[43] != "/finance.controlling.v1.ControllingService/SettleInternalOrder"@[43]);
    assert("/finance.controlling.v1.ControllingService/CreateInternalOrder"@[43] != "/finance.controlling.v1.ControllingService/SettleInternalOrder"@[43]);
    assert("/finance.controlling.v1.ControllingService/CreateCostDocument"@[44] != "/finance.controlling.v1.ControllingService/CloseInternalOrder"@[44]);
    assert("/finance.controlling.v1.ControllingService/ListInternalOrders"@[43] != "/finance.controlling.v1.ControllingService/CloseInternalOrder"@[43]);
    assert("/finance.controlling.v1.ControllingService/PostCostCenterTransfer"@[43] != "/finance.controlling.v1.ControllingService/GetInternalOrderReport"@[43]);
    assert("/finance.controlling.v1.ControllingService/GetCostDocument"@[46] != "/finance.controlling.v1.ControllingService/GetActivityType"@[46]);
    assert("/finance.controlling.v1.ControllingService/ListCostCenters"@[43] != "/finance.controlling.v1.ControllingService/GetActivityType"@[43]);
    assert("/finance.controlling.v1.ControllingService/ListCostDocuments"@[47] != "/finance.controlling.v1.ControllingService/ListActivityTypes"@[47]);
    assert("/finance.controlling.v1.ControllingService/PostCostCenterTransfer"@[47] != "/finance.controlling.v1.ControllingService/PostActivityAllocation"@[47]);
    assert("/finance.controlling.v1.ControllingService/GetInternalOrderReport"@[43] != "/finance.controlling.v1.ControllingService/PostActivityAllocation"@[43]);
    assert("/finance.controlling.v1.ControllingService/BatchCreateCostDocuments"@[43] != "/finance.controlling.v1.ControllingService/PostStatisticalKeyFigure"@[43]);
    assert("/finance.controlling.v1.ControllingService/PostInternalOrderPosting"@[47] != "/finance.controlling.v1.ControllingService/PostStatisticalKeyFigure"@[47]);
    assert("/finance.controlling.v1.ControllingService/PostCostCenterTransfer"@[43] != "/finance.controlling.v1.ControllingService/CalculateActivityPrice"@[43]);
    assert("/finance.controlling.v1.ControllingService/GetInternalOrderReport"@[43] != "/finance.controlling.v1.ControllingService/CalculateActivityPrice"@[43]);
    assert("/finance.controlling.v1.ControllingService/PostActivityAllocation"@[43] != "/finance.controlling.v1.ControllingService/CalculateActivityPrice"@[43]);
    assert("/finance.controlling.v1.ControllingService/CreateCostDocument"@[43] != "/finance.controlling.v1.ControllingService/GetAllocationCycle"@[43]);
    assert("/finance.controlling.v1.ControllingService/ListInternalOrders"@[43] != "/finance.controlling.v1.ControllingService/GetAllocationCycle"@[43]);
    assert("/finance.controlling.v1.ControllingService/CloseInternalOrder"@[43] != "/finance.controlling.v1.ControllingService/GetAllocationCycle"@[43]);
    assert("/finance.controlling.v1.ControllingService/ListCostDocuments"@[43] != "/finance.controlling.v1.ControllingService/ExecuteAssessment"@[43]);
    assert("/finance.controlling.v1.ControllingService/ListActivityTypes"@[43] != "/finance.controlling.v1.ControllingService/ExecuteAssessment"@[43]);
    assert("/finance.controlling.v1.ControllingService/ReverseCostDocument"@[43] != "/finance.controlling.v1.ControllingService/ExecuteDistribution"@[43]);
    assert("/finance.controlling.v1.ControllingService/GetCostCenterReport"@[43] != "/finance.controlling.v1.ControllingService/ExecuteDistribution"@[43]);
    assert("/finance.controlling.v1.ControllingService/CreateInternalOrder"@[43] != "/finance.controlling.v1.ControllingService/ExecuteDistribution"@[43]);
    assert("/finance.controlling.v1.ControllingService/SettleInternalOrder"@[43] != "/finance.controlling.v1.ControllingService/ExecuteDistribution"@[43]);
    assert("/finance.controlling.v1.ControllingService/BatchCreateCostDocuments"@[43] != "/finance.controlling.v1.ControllingService/ExecutePeriodicReposting"@[43]);
    assert("/finance.controlling.v1.ControllingService/PostInternalOrderPosting"@[43] != "/finance.controlling.v1.ControllingService/ExecutePeriodicReposting"@[43]);
    assert("/finance.controlling.v1.ControllingService/PostStatisticalKeyFigure"@[43] != "/finance.controlling.v1.ControllingService/ExecutePeriodicReposting"@[43]);
    assert("/finance.controlling.v1.ControllingService/PostCostCenterTransfer"@[43] != "/finance.controlling.v1.ControllingService/GetProfitabilityReport"@[43]);
    assert("/finance.controlling.v1.ControllingService/GetInternalOrderReport"@[46] != "/finance.controlling.v1.ControllingService/GetProfitabilityReport"@[46]);
    assert("/finance.controlling.v1.ControllingService/PostActivityAllocation"@[43] != "/finance.controlling.v1.ControllingService/GetProfitabilityReport"@[43]);
    assert("/finance.controlling.v1.ControllingService/CalculateActivityPrice"@[43] != "/finance.controlling.v1.ControllingService/GetProfitabilityReport"@[43]);
    assert("/finance.controlling.v1.ControllingService/GetCostDocument"@[46] != "/finance.controlling.v1.ControllingService/GetProfitCenter"@[46]);
    assert("/finance.controlling.v1.ControllingService/ListCostCenters"@[43] != "/finance.controlling.v1.ControllingService/GetProfitCenter"@[43]);
    assert("/finance.controlling.v1.ControllingService/GetActivityType"@[46] != "/finance.controlling.v1.ControllingService/GetProfitCenter"@[46]);
    assert("/finance.controlling.v1.ControllingService/ListCostDocuments"@[47] != "/finance.controlling.v1.ControllingService/ListProfitCenters"@[47]);
    assert("/finance.controlling.v1.ControllingService/ListActivityTypes"@[47] != "/finance.controlling.v1.ControllingService/ListProfitCenters"@[47]);
    assert("/finance.controlling.v1.ControllingService/ExecuteAssessment"@[43] != "/finance.controlling.v1.ControllingService/ListProfitCenters"@[43]);
    assert("/finance.controlling.v1.ControllingService/PostCostCenterPosting"@[43] != "/finance.controlling.v1.ControllingService/GetProfitCenterReport"@[43]);
    assert("/finance.controlling.v1.ControllingService/CreateCostDocument"@[43] != "/finance.controlling.v1.ControllingService/ExecutePeriodClose"@[43]);
    assert("/finance.controlling.v1.ControllingService/ListInternalOrders"@[43] != "/finance.controlling.v1.ControllingService/ExecutePeriodClose"@[43]);
    assert("/finance.controlling.v1.ControllingService/CloseInternalOrder"@[43] != "/finance.controlling.v1.ControllingService/ExecutePeriodClose"@[43]);
    assert("/finance.controlling.v1.ControllingService/GetAllocationCycle"@[43] != "/finance.controlling.v1.ControllingService/ExecutePeriodClose"@[43]);
    assert("/finance.controlling.v1.ControllingService/PostCostCenterTransfer"@[43] != "/finance.controlling.v1.ControllingService/ExecuteActualCostSplit"@[43]);
    assert("/finance.controlling.v1.ControllingService/GetInternalOrderReport"@[43] != "/finance.controlling.v1.ControllingService/ExecuteActualCostSplit"@[43]);
    assert("/finance.controlling.v1.ControllingService/PostActivityAllocation"@[43] != "/finance.controlling.v1.ControllingService/ExecuteActualCostSplit"@[43]);
    assert("/finance.controlling.v1.ControllingService/CalculateActivityPrice"@[43] != "/finance.controlling.v1.ControllingService/ExecuteActualCostSplit"@[43]);
    assert("/finance.controlling.v1.ControllingService/GetProfitabilityReport"@[43] != "/finance.controlling.v1.ControllingService/ExecuteActualCostSplit"@[43]);
    assert("/finance.controlling.v1.ControllingService/PostCostCenterPosting"@[43] != "/finance.controlling.v1.ControllingService/ExecuteWIPCalculation"@[43]);
    assert("/finance.controlling.v1.ControllingService/GetProfitCenterReport"@[43] != "/finance.controlling.v1.ControllingService/ExecuteWIPCalculation"@[43]);
}

/// A method's request path is a slash, the service's full name, a slash
/// and the method's name.
pub proof fn lemma_path_joins_service_and_name(m: ControllingMethod)
    ensures
        m.spec_path() == "/"@ + SERVICE_NAME@ + "/"@ + m.spec_name(),
{
    reveal_strlit("/");
    reveal_strlit("finance.controlling.v1.ControllingService");
    match m {
        ControllingMethod::CreateCostDocument => {
            reveal_strlit("/finance.controlling.v1.ControllingService/CreateCostDocument");
            reveal_strlit("CreateCostDocument");
            assert(m.spec_path() =~= "/"@ + SERVICE_NAME@ + "/"@ + m.spec_name());
        },
        ControllingMethod::GetCostDocument => {
            reveal_strlit("/finance.controlling.v1.ControllingService/GetCostDocument");
            reveal_strlit("GetCostDocument");
            assert(m.spec_path() =~= "/"@ + SERVICE_NAME@ + "/"@ + m.spec_name());
        },
        ControllingMethod::ListCostDocuments => {
            reveal_strlit("/finance.controlling.v1.ControllingService/ListCostDocuments");
            reveal_strlit("ListCostDocuments");
            assert(m.spec_path() =~= "/"@ + SERVICE_NAME@ + "/"@ + m.spec_name());
        },
        ControllingMethod::ReverseCostDocument => {
            reveal_strlit("/finance.controlling.v1.ControllingService/ReverseCostDocument");
            reveal_strlit("ReverseCostDocument");
            assert(m.spec_path() =~= "/"@ + SERVICE_NAME@ + "/"@ + m.spec_name());
        },
        ControllingMethod::BatchCreateCostDocuments => {
            reveal_strlit("/finance.controlling.v1.ControllingService/BatchCreateCostDocuments");
            reveal_strlit("BatchCreateCostDocuments");
            assert(m.spec_path() =~= "/"@ + SERVICE_NAME@ + "/"@ + m.spec_name());
        },
        ControllingMethod::GetCostCenter => {
            reveal_strlit("/finance.controlling.v1.ControllingService/GetCostCenter");
            reveal_strlit("GetCostCenter");
            assert(m.spec_path() =~= "/"@ + SERVICE_NAME@ + "/"@ + m.spec_name());
        },
        ControllingMethod::ListCostCenters => {
            reveal_strlit("/finance.controlling.v1.ControllingService/ListCostCenters");
            reveal_strlit("ListCostCenters");
            assert(m.spec_path() =~= "/"@ + SERVICE_NAME@ + "/"@ + m.spec_name());
        },
        ControllingMethod::PostCostCenterPosting => {
            reveal_strlit("/finance.controlling.v1.ControllingService/PostCostCenterPosting");
            reveal_strlit("PostCostCenterPosting");
            assert(m.spec_path() =~= "/"@ + SERVICE_NAME@ + "/"@ + m.spec_name());
        },
        ControllingMethod::PostCostCenterTransfer => {
            reveal_strlit("/finance.controlling.v1.ControllingService/PostCostCenterTransfer");
            reveal_strlit("PostCostCenterTransfer");
            assert(m.spec_path() =~= "/"@ + SERVICE_NAME@ + "/"@ + m.spec_name());
        },
        ControllingMethod::PostCostCenterReposting => {
            reveal_strlit("/finance.controlling.v1.ControllingService/PostCostCenterReposting");
            reveal_strlit("PostCostCenterReposting");
            assert(m.spec_path() =~= "/"@ + SERVICE_NAME@ + "/"@ + m.spec_name());
        },
        ControllingMethod::GetCostCenterReport => {
            reveal_strlit("/finance.controlling.v1.ControllingService/GetCostCenterReport");
            reveal_strlit("GetCostCenterReport");
            assert(m.spec_path() =~= "/"@ + SERVICE_NAME@ + "/"@ + m.spec_name());
        },
        ControllingMethod::GetCostCenterPlanActual => {
            reveal_strlit("/finance.controlling.v1.ControllingService/GetCostCenterPlanActual");
            reveal_strlit("GetCostCenterPlanActual");
            assert(m.spec_path() =~= "/"@ + SERVICE_NAME@ + "/"@ + m.spec_name());
        },
        ControllingMethod::CreateInternalOrder => {
            reveal_strlit("/finance.controlling.v1.ControllingService/CreateInternalOrder");
            reveal_strlit("CreateInternalOrder");
            assert(m.spec_path() =~= "/"@ + SERVICE_NAME@ + "/"@ + m.spec_name());
        },
        ControllingMethod::GetInternalOrder => {
            reveal_strlit("/finance.controlling.v1.ControllingService/GetInternalOrder");
            reveal_strlit("GetInternalOrder");
            assert(m.spec_path() =~= "/"@ + SERVICE_NAME@ + "/"@ + m.spec_name());
        },
        ControllingMethod::ListInternalOrders => {
            reveal_strlit("/finance.controlling.v1.ControllingService/ListInternalOrders");
            reveal_strlit("ListInternalOrders");
            assert(m.spec_path() =~= "/"@ + SERVICE_NAME@ + "/"@ + m.spec_name());
        },
        ControllingMethod::ReleaseInternalOrder => {
            reveal_strlit("/finance.controlling.v1.ControllingService/ReleaseInternalOrder");
            reveal_strlit("ReleaseInternalOrder");
            assert(m.spec_path() =~= "/"@ + SERVICE_NAME@ + "/"@ + m.spec_name());
        },
        ControllingMethod::PostInternalOrderPosting => {
            reveal_strlit("/finance.controlling.v1.ControllingService/PostInternalOrderPosting");
            reveal_strlit("PostInternalOrderPosting");
            assert(m.spec_path() =~= "/"@ + SERVICE_NAME@ + "/"@ + m.spec_name());
        },
        ControllingMethod::SettleInternalOrder => {
            reveal_strlit("/finance.controlling.v1.ControllingService/SettleInternalOrder");
            reveal_strlit("SettleInternalOrder");
            assert(m.spec_path() =~= "/"@ + SERVICE_NAME@ + "/"@ + m.spec_name());
        },
        ControllingMethod::CloseInternalOrder => {
            reveal_strlit("/finance.controlling.v1.ControllingService/CloseInternalOrder");
            reveal_strlit("CloseInternalOrder");
            assert(m.spec_path() =~= "/"@ + SERVICE_NAME@ + "/"@ + m.spec_name());
        },
        ControllingMethod::GetInternalOrderReport => {
            reveal_strlit("/finance.controlling.v1.ControllingService/GetInternalOrderReport");
            reveal_strlit("GetInternalOrderReport");
            assert(m.spec_path() =~= "/"@ + SERVICE_NAME@ + "/"@ + m.spec_name());
        },
        ControllingMethod::GetActivityType => {
            reveal_strlit("/finance.controlling.v1.ControllingService/GetActivityType");
            reveal_strlit("GetActivityType");
            assert(m.spec_path() =~= "/"@ + SERVICE_NAME@ + "/"@ + m.spec_name());
        },
        ControllingMethod::ListActivityTypes => {
            reveal_strlit("/finance.controlling.v1.ControllingService/ListActivityTypes");
            reveal_strlit("ListActivityTypes");
            assert(m.spec_path() =~= "/"@ + SERVICE_NAME@ + "/"@ + m.spec_name());
        },
        ControllingMethod::PostActivityAllocation => {
            reveal_strlit("/finance.controlling.v1.ControllingService/PostActivityAllocation");
            reveal_strlit("PostActivityAllocation");
            assert(m.spec_path() =~= "/"@ + SERVICE_NAME@ + "/"@ + m.spec_name());
        },
        ControllingMethod::PostStatisticalKeyFigure => {
            reveal_strlit("/finance.controlling.v1.ControllingService/PostStatisticalKeyFigure");
            reveal_strlit("PostStatisticalKeyFigure");
            assert(m.spec_path() =~= "/"@ + SERVICE_NAME@ + "/"@ + m.spec_name());
        },
        ControllingMethod::CalculateActivityPrice => {
            reveal_strlit("/finance.controlling.v1.ControllingService/CalculateActivityPrice");
            reveal_strlit("CalculateActivityPrice");
            assert(m.spec_path() =~= "/"@ + SERVICE_NAME@ + "/"@ + m.spec_name());
        },
        ControllingMethod::GetAllocationCycle => {
            reveal_strlit("/finance.controlling.v1.ControllingService/GetAllocationCycle");
            reveal_strlit("GetAllocationCycle");
            assert(m.spec_path() =~= "/"@ + SERVICE_NAME@ + "/"@ + m.spec_name());
        },
        ControllingMethod::ExecuteAssessment => {
            reveal_strlit("/finance.controlling.v1.ControllingService/ExecuteAssessment");
            reveal_strlit("ExecuteAssessment");
            assert(m.spec_path() =~= "/"@ + SERVICE_NAME@ + "/"@ + m.spec_name());
        },
        ControllingMethod::ExecuteDistribution => {
            reveal_strlit("/finance.controlling.v1.ControllingService/ExecuteDistribution");
            reveal_strlit("ExecuteDistribution");
            assert(m.spec_path() =~= "/"@ + SERVICE_NAME@ + "/"@ + m.spec_name());
        },
        ControllingMethod::ExecutePeriodicReposting => {
            reveal_strlit("/finance.controlling.v1.ControllingService/ExecutePeriodicReposting");
            reveal_strlit("ExecutePeriodicReposting");
            assert(m.spec_path() =~= "/"@ + SERVICE_NAME@ + "/"@ + m.spec_name());
        },
        ControllingMethod::PostProfitabilityDocument => {
            reveal_strlit("/finance.controlling.v1.ControllingService/PostProfitabilityDocument");
            reveal_strlit("PostProfitabilityDocument");
            assert(m.spec_path() =~= "/"@ + SERVICE_NAME@ + "/"@ + m.spec_name());
        },
        ControllingMethod::GetProfitabilityReport => {
            reveal_strlit("/finance.controlling.v1.ControllingService/GetProfitabilityReport");
            reveal_strlit("GetProfitabilityReport");
            assert(m.spec_path() =~= "/"@ + SERVICE_NAME@ + "/"@ + m.spec_name());
        },
        ControllingMethod::GetProfitCenter => {
            reveal_strlit("/finance.controlling.v1.ControllingService/GetProfitCenter");
            reveal_strlit("GetProfitCenter");
            assert(m.spec_path() =~= "/"@ + SERVICE_NAME@ + "/"@ + m.spec_name());
        },
        ControllingMethod::ListProfitCenters => {
            reveal_strlit("/finance.controlling.v1.ControllingService/ListProfitCenters");
            reveal_strlit("ListProfitCenters");
            assert(m.spec_path() =~= "/"@ + SERVICE_NAME@ + "/"@ + m.spec_name());
        },
        ControllingMethod::GetProfitCenterReport => {
            reveal_strlit("/finance.controlling.v1.ControllingService/GetProfitCenterReport");
            reveal_strlit("GetProfitCenterReport");
            assert(m.spec_path() =~= "/"@ + SERVICE_NAME@ + "/"@ + m.spec_name());
        },
        ControllingMethod::ExecutePeriodClose => {
            reveal_strlit("/finance.controlling.v1.ControllingService/ExecutePeriodClose");
            reveal_strlit("ExecutePeriodClose");
            assert(m.spec_path() =~= "/"@ + SERVICE_NAME@ + "/"@ + m.spec_name());
        },
        ControllingMethod::ExecuteActualCostSplit => {
            reveal_strlit("/finance.controlling.v1.ControllingService/ExecuteActualCostSplit");
            reveal_strlit("ExecuteActualCostSplit");
            assert(m.spec_path() =~= "/"@ + SERVICE_NAME@ + "/"@ + m.spec_name());
        },
        ControllingMethod::ExecuteWIPCalculation => {
            reveal_strlit("/finance.controlling.v1.ControllingService/ExecuteWIPCalculation");
            reveal_strlit("ExecuteWIPCalculation");
            assert(m.spec_path() =~= "/"@ + SERVICE_NAME@ + "/"@ + m.spec_name());
        },
        ControllingMethod::ExecuteVarianceCalculation => {
            reveal_strlit("/finance.controlling.v1.ControllingService/ExecuteVarianceCalculation");
            reveal_strlit("ExecuteVarianceCalculation");
            assert(m.spec_path() =~= "/"@ + SERVICE_NAME@ + "/"@ + m.spec_name());
        },
    }
}

/// The table finds a method exactly under that method's path.
proof fn lemma_table_exact(path: Seq<char>)
    ensures
        forall|m: ControllingMethod| #[trigger] m.spec_path() == path <==> dispatch_table(path) == Some(m),
{
    assert forall|m: ControllingMethod| #[trigger] m.spec_path() == path implies dispatch_table(path) == Some(m) by {
        lemma_table_finds_method(m);
    }
}

/// No two methods share a request path.
pub proof fn lemma_paths_distinct(a: ControllingMethod, b: ControllingMethod)
    ensures
        a.spec_path() == b.spec_path() ==> a == b,
{
    lemma_table_finds_method(a);
    lemma_table_finds_method(b);
}

} // verus!

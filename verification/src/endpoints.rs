//! The endpoint table: every server operation the client knows, with its
//! HTTP method and URL template, and the translation of a parsed command
//! into the operation descriptor the execution engine consumes.

use vstd::prelude::*;
use crate::args::{
    AdvSearchSubcommand, BuildingSubcommand, CategorySubcommand, ComputerAdvSearchCommand,
    ComputerGroupCommand, ComputerSubcommand, DepartmentSubcommand, EbookSubcommand, EntityType,
    GroupSubcommand, MacAppSubcommand, MobileAdvSearchCommand, MobileAppSubcommand,
    MobileGroupCommand, MobileSubcommand, PackageSubcommand, PatchAvailableTitleCommand,
    PatchExternalSourceCommand, PatchInternalSourceCommand, PatchPolicyCommand, PatchReportCommand,
    PatchSoftwareTitleCommand, PatchSubcommand, PolicySubcommand, PrinterSubcommand,
    RestrictedSoftwareSubcommand, ScriptSubcommand, UserAdvSearchCommand, UserGroupCommand,
    UserSubcommand, spec_expanded_ids,
};

verus! {

/// The HTTP verbs the endpoint table uses.
#[derive(Clone, Copy, Debug, PartialEq, Eq, Structural)]
pub enum HttpMethod {
    Get,
    Post,
    Put,
    Delete,
}

/// One server operation the client can perform.
#[derive(Clone, Copy, Debug, PartialEq, Eq, Structural)]
pub enum ApiEndpoints {
    TokenAuth,
    ComputerDelete,
    ComputerShow,
    ComputerSearch,
    ComputerList,
    MobileDelete,
    MobileShow,
    MobileSearch,
    MobileList,
    UserDelete,
    UserShow,
    UserList,
    PolicyDelete,
    PolicyShow,
    PolicyList,
    PackageDelete,
    PackageShow,
    PackageList,
    CategoryDelete,
    CategoryShow,
    CategoryList,
    DepartmentDelete,
    DepartmentShow,
    DepartmentList,
    EbookDelete,
    EbookShow,
    EbookList,
    BuildingDelete,
    BuildingShow,
    BuildingList,
    MacAppDelete,
    MacAppShow,
    MacAppList,
    MobileAppDelete,
    MobileAppShow,
    MobileAppList,
    ScriptDelete,
    ScriptShow,
    ScriptList,
    RestrictedSoftwareDelete,
    RestrictedSoftwareShow,
    RestrictedSoftwareList,
    PrinterDelete,
    PrinterShow,
    PrinterList,
    PatchPolicyDelete,
    PatchPolicyShow,
    PatchPolicyList,
    PatchReportListSoftware,
    PatchReportListComputer,
    PatchSoftwareTitleDelete,
    PatchSoftwareTitleShow,
    PatchSoftwareTitleList,
    PatchAvailableTitleList,
    PatchExternalSourceShow,
    PatchExternalSourceList,
    PatchExternalSourceDelete,
    PatchInternalSourceShow,
    PatchInternalSourceList,
    GroupComputerDelete,
    GroupComputerShow,
    GroupComputerList,
    GroupMobileDelete,
    GroupMobileShow,
    GroupMobileList,
    GroupUserDelete,
    GroupUserShow,
    GroupUserList,
    AdvSearchComputerDelete,
    AdvSearchComputerShow,
    AdvSearchComputerList,
    AdvSearchMobileDelete,
    AdvSearchMobileShow,
    AdvSearchMobileList,
    AdvSearchUserDelete,
    AdvSearchUserShow,
    AdvSearchUserList,
}

/// Method and URL template of one endpoint.
#[derive(Clone, Copy, Debug)]
pub struct ApiEndpointDetails {
    pub method: HttpMethod,
    pub url: &'static str,
}

/// The HTTP method of each endpoint.
pub open spec fn spec_endpoint_method(e: ApiEndpoints) -> HttpMethod {
    match e {
        ApiEndpoints::TokenAuth => HttpMethod::Post,
        ApiEndpoints::ComputerDelete => HttpMethod::Delete,
        ApiEndpoints::ComputerShow => HttpMethod::Get,
        ApiEndpoints::ComputerSearch => HttpMethod::Get,
        ApiEndpoints::ComputerList => HttpMethod::Get,
        ApiEndpoints::MobileDelete => HttpMethod::Delete,
        ApiEndpoints::MobileShow => HttpMethod::Get,
        ApiEndpoints::MobileSearch => HttpMethod::Get,
        ApiEndpoints::MobileList => HttpMethod::Get,
        ApiEndpoints::UserDelete => HttpMethod::Delete,
        ApiEndpoints::UserShow => HttpMethod::Get,
        ApiEndpoints::UserList => HttpMethod::Get,
        ApiEndpoints::PolicyDelete => HttpMethod::Delete,
        ApiEndpoints::PolicyShow => HttpMethod::Get,
        ApiEndpoints::PolicyList => HttpMethod::Get,
        ApiEndpoints::PackageDelete => HttpMethod::Delete,
        ApiEndpoints::PackageShow => HttpMethod::Get,
        ApiEndpoints::PackageList => HttpMethod::Get,
        ApiEndpoints::CategoryDelete => HttpMethod::Delete,
        ApiEndpoints::CategoryShow => HttpMethod::Get,
        ApiEndpoints::CategoryList => HttpMethod::Get,
        ApiEndpoints::DepartmentDelete => HttpMethod::Delete,
        ApiEndpoints::DepartmentShow => HttpMethod::Get,
        ApiEndpoints::DepartmentList => HttpMethod::Get,
        ApiEndpoints::EbookDelete => HttpMethod::Delete,
        ApiEndpoints::EbookShow => HttpMethod::Get,
        ApiEndpoints::EbookList => HttpMethod::Get,
        ApiEndpoints::BuildingDelete => HttpMethod::Delete,
        ApiEndpoints::BuildingShow => HttpMethod::Get,
        ApiEndpoints::BuildingList => HttpMethod::Get,
        ApiEndpoints::MacAppDelete => HttpMethod::Delete,
        ApiEndpoints::MacAppShow => HttpMethod::Get,
        ApiEndpoints::MacAppList => HttpMethod::Get,
        ApiEndpoints::MobileAppDelete => HttpMethod::Delete,
        ApiEndpoints::MobileAppShow => HttpMethod::Get,
        ApiEndpoints::MobileAppList => HttpMethod::Get,
        ApiEndpoints::ScriptDelete => HttpMethod::Delete,
        ApiEndpoints::ScriptShow => HttpMethod::Get,
        ApiEndpoints::ScriptList => HttpMethod::Get,
        ApiEndpoints::RestrictedSoftwareDelete => HttpMethod::Delete,
        ApiEndpoints::RestrictedSoftwareShow => HttpMethod::Get,
        ApiEndpoints::RestrictedSoftwareList => HttpMethod::Get,
        ApiEndpoints::PrinterDelete => HttpMethod::Delete,
        ApiEndpoints::PrinterShow => HttpMethod::Get,
        ApiEndpoints::PrinterList => HttpMethod::Get,
        ApiEndpoints::PatchPolicyDelete => HttpMethod::Delete,
        ApiEndpoints::PatchPolicyShow => HttpMethod::Get,
        ApiEndpoints::PatchPolicyList => HttpMethod::Get,
        ApiEndpoints::PatchReportListSoftware => HttpMethod::Get,
        ApiEndpoints::PatchReportListComputer => HttpMethod::Get,
        ApiEndpoints::PatchSoftwareTitleDelete => HttpMethod::Delete,
        ApiEndpoints::PatchSoftwareTitleShow => HttpMethod::Get,
        ApiEndpoints::PatchSoftwareTitleList => HttpMethod::Get,
        ApiEndpoints::PatchAvailableTitleList => HttpMethod::Get,
        ApiEndpoints::PatchExternalSourceShow => HttpMethod::Get,
        ApiEndpoints::PatchExternalSourceList => HttpMethod::Get,
        ApiEndpoints::PatchExternalSourceDelete => HttpMethod::Delete,
        ApiEndpoints::PatchInternalSourceShow => HttpMethod::Get,
        ApiEndpoints::PatchInternalSourceList => HttpMethod::Get,
        ApiEndpoints::GroupComputerDelete => HttpMethod::Delete,
        ApiEndpoints::GroupComputerShow => HttpMethod::Get,
        ApiEndpoints::GroupComputerList => HttpMethod::Get,
        ApiEndpoints::GroupMobileDelete => HttpMethod::Delete,
        ApiEndpoints::GroupMobileShow => HttpMethod::Get,
        ApiEndpoints::GroupMobileList => HttpMethod::Get,
        ApiEndpoints::GroupUserDelete => HttpMethod::Delete,
        ApiEndpoints::GroupUserShow => HttpMethod::Get,
        ApiEndpoints::GroupUserList => HttpMethod::Get,
        ApiEndpoints::AdvSearchComputerDelete => HttpMethod::Delete,
        ApiEndpoints::AdvSearchComputerShow => HttpMethod::Get,
        ApiEndpoints::AdvSearchComputerList => HttpMethod::Get,
        ApiEndpoints::AdvSearchMobileDelete => HttpMethod::Delete,
        ApiEndpoints::AdvSearchMobileShow => HttpMethod::Get,
        ApiEndpoints::AdvSearchMobileList => HttpMethod::Get,
        ApiEndpoints::AdvSearchUserDelete => HttpMethod::Delete,
        ApiEndpoints::AdvSearchUserShow => HttpMethod::Get,
        ApiEndpoints::AdvSearchUserList => HttpMethod::Get,
    }
}

/// The URL template of each endpoint.
pub open spec fn spec_endpoint_url(e: ApiEndpoints) -> Seq<char> {
    match e {
        ApiEndpoints::TokenAuth => "/api/auth/tokens"@,
        ApiEndpoints::ComputerDelete => "/JSSResource/computers/id/{id}"@,
        ApiEndpoints::ComputerShow => "/JSSResource/computers/id/{id}"@,
        ApiEndpoints::ComputerSearch => "/JSSResource/computers/match/{search_query}"@,
        ApiEndpoints::ComputerList => "/JSSResource/computers"@,
        ApiEndpoints::MobileDelete => "/JSSResource/mobiledevices/id/{id}"@,
        ApiEndpoints::MobileShow => "/JSSResource/mobiledevices/id/{id}"@,
        ApiEndpoints::MobileSearch => "/JSSResource/mobiledevices/match/{search_query}"@,
        ApiEndpoints::MobileList => "/JSSResource/mobiledevices"@,
        ApiEndpoints::UserDelete => "/JSSResource/users/id/{id}"@,
        ApiEndpoints::UserShow => "/JSSResource/users/id/{id}"@,
        ApiEndpoints::UserList => "/JSSResource/users"@,
        ApiEndpoints::PolicyDelete => "/JSSResource/policies/id/{id}"@,
        ApiEndpoints::PolicyShow => "/JSSResource/policies/id/{id}"@,
        ApiEndpoints::PolicyList => "/JSSResource/policies"@,
        ApiEndpoints::PackageDelete => "/JSSResource/packages/id/{id}"@,
        ApiEndpoints::PackageShow => "/JSSResource/packages/id/{id}"@,
        ApiEndpoints::PackageList => "/JSSResource/packages"@,
        ApiEndpoints::CategoryDelete => "/JSSResource/categories/id/{id}"@,
        ApiEndpoints::CategoryShow => "/JSSResource/categories/id/{id}"@,
        ApiEndpoints::CategoryList => "/JSSResource/categories"@,
        ApiEndpoints::DepartmentDelete => "/JSSResource/departments/id/{id}"@,
        ApiEndpoints::DepartmentShow => "/JSSResource/departments/id/{id}"@,
        ApiEndpoints::DepartmentList => "/JSSResource/departments"@,
        ApiEndpoints::EbookDelete => "/JSSResource/ebooks/id/{id}"@,
        ApiEndpoints::EbookShow => "/JSSResource/ebooks/id/{id}"@,
        ApiEndpoints::EbookList => "/JSSResource/ebooks"@,
        ApiEndpoints::BuildingDelete => "/JSSResource/buildings/id/{id}"@,
        ApiEndpoints::BuildingShow => "/JSSResource/buildings/id/{id}"@,
        ApiEndpoints::BuildingList => "/JSSResource/buildings"@,
        ApiEndpoints::MacAppDelete => "/JSSResource/macapplications/id/{id}"@,
        ApiEndpoints::MacAppShow => "/JSSResource/macapplications/id/{id}"@,
        ApiEndpoints::MacAppList => "/JSSResource/macapplications"@,
        ApiEndpoints::MobileAppDelete => "/JSSResource/mobiledeviceapplications/id/{id}"@,
        ApiEndpoints::MobileAppShow => "/JSSResource/mobiledeviceapplications/id/{id}"@,
        ApiEndpoints::MobileAppList => "/JSSResource/mobiledeviceapplications"@,
        ApiEndpoints::ScriptDelete => "/JSSResource/scripts/id/{id}"@,
        ApiEndpoints::ScriptShow => "/JSSResource/scripts/id/{id}"@,
        ApiEndpoints::ScriptList => "/JSSResource/scripts"@,
        ApiEndpoints::RestrictedSoftwareDelete => "/JSSResource/restrictedsoftware/id/{id}"@,
        ApiEndpoints::RestrictedSoftwareShow => "/JSSResource/restrictedsoftware/id/{id}"@,
        ApiEndpoints::RestrictedSoftwareList => "/JSSResource/restrictedsoftware"@,
        ApiEndpoints::PrinterDelete => "/JSSResource/printers/id/{id}"@,
        ApiEndpoints::PrinterShow => "/JSSResource/printers/id/{id}"@,
        ApiEndpoints::PrinterList => "/JSSResource/printers"@,
        ApiEndpoints::PatchPolicyDelete => "/JSSResource/patchpolicies/id/{id}"@,
        ApiEndpoints::PatchPolicyShow => "/JSSResource/patchpolicies/id/{id}"@,
        ApiEndpoints::PatchPolicyList => "/JSSResource/patchpolicies"@,
        ApiEndpoints::PatchReportListSoftware => "/JSSResource/patchreports/patchsoftwaretitleid/{id}"@,
        ApiEndpoints::PatchReportListComputer => "/JSSResource/patchreports/patchsoftwaretitleid/{id}/version/{software_version}"@,
        ApiEndpoints::PatchSoftwareTitleDelete => "/JSSResource/patchsoftwaretitles/id/{id}"@,
        ApiEndpoints::PatchSoftwareTitleShow => "/JSSResource/patchsoftwaretitles/id/{id}"@,
        ApiEndpoints::PatchSoftwareTitleList => "/JSSResource/patchsoftwaretitles"@,
        ApiEndpoints::PatchAvailableTitleList => "/JSSResource/patchavailabletitles/sourceid/{id}"@,
        ApiEndpoints::PatchExternalSourceShow => "/JSSResource/patchexternalsources/id/{id}"@,
        ApiEndpoints::PatchExternalSourceList => "/JSSResource/patchexternalsources"@,
        ApiEndpoints::PatchExternalSourceDelete => "/JSSResource/patchexternalsources/id/{id}"@,
        ApiEndpoints::PatchInternalSourceShow => "/JSSResource/patchinternalsources/id/{id}"@,
        ApiEndpoints::PatchInternalSourceList => "/JSSResource/patchinternalsources"@,
        ApiEndpoints::GroupComputerDelete => "/JSSResource/computergroups/id/{id}"@,
        ApiEndpoints::GroupComputerShow => "/JSSResource/computergroups/id/{id}"@,
        ApiEndpoints::GroupComputerList => "/JSSResource/computergroups"@,
        ApiEndpoints::GroupMobileDelete => "/JSSResource/mobiledevicegroups/id/{id}"@,
        ApiEndpoints::GroupMobileShow => "/JSSResource/mobiledevicegroups/id/{id}"@,
        ApiEndpoints::GroupMobileList => "/JSSResource/mobiledevicegroups"@,
        ApiEndpoints::GroupUserDelete => "/JSSResource/userroups/id/{id}"@,
        ApiEndpoints::GroupUserShow => "/JSSResource/usergroups/id/{id}"@,
        ApiEndpoints::GroupUserList => "/JSSResource/usergroups"@,
        ApiEndpoints::AdvSearchComputerDelete => "/JSSResource/advancedcomputersearches/id/{id}"@,
        ApiEndpoints::AdvSearchComputerShow => "/JSSResource/advancedcomputersearches/id/{id}"@,
        ApiEndpoints::AdvSearchComputerList => "/JSSResource/advancedcomputersearches"@,
        ApiEndpoints::AdvSearchMobileDelete => "/JSSResource/advancedmobiledevicesearches/id/{id}"@,
        ApiEndpoints::AdvSearchMobileShow => "/JSSResource/advancedmobiledevicesearches/id/{id}"@,
        ApiEndpoints::AdvSearchMobileList => "/JSSResource/advancedmobiledevicesearches"@,
        ApiEndpoints::AdvSearchUserDelete => "/JSSResource/advancedusersearches/id/{id}"@,
        ApiEndpoints::AdvSearchUserShow => "/JSSResource/advancedusersearches/id/{id}"@,
        ApiEndpoints::AdvSearchUserList => "/JSSResource/advancedusersearches"@,
    }
}

impl ApiEndpoints {
    /// Method and URL template of this endpoint.
    pub fn usage(&self) -> (r: ApiEndpointDetails)
        ensures
            r.method == spec_endpoint_method(*self),
            r.url@ == spec_endpoint_url(*self),
    {
        match self {
            ApiEndpoints::TokenAuth => ApiEndpointDetails {
                method: HttpMethod::Post,
                url: "/api/auth/tokens",
            },
            ApiEndpoints::ComputerDelete => ApiEndpointDetails {
                method: HttpMethod::Delete,
                url: "/JSSResource/computers/id/{id}",
            },
            ApiEndpoints::ComputerShow => ApiEndpointDetails {
                method: HttpMethod::Get,
                url: "/JSSResource/computers/id/{id}",
            },
            ApiEndpoints::ComputerSearch => ApiEndpointDetails {
                method: HttpMethod::Get,
                url: "/JSSResource/computers/match/{search_query}",
            },
            ApiEndpoints::ComputerList => ApiEndpointDetails {
                method: HttpMethod::Get,
                url: "/JSSResource/computers",
            },
            ApiEndpoints::MobileDelete => ApiEndpointDetails {
                method: HttpMethod::Delete,
                url: "/JSSResource/mobiledevices/id/{id}",
            },
            ApiEndpoints::MobileShow => ApiEndpointDetails {
                method: HttpMethod::Get,
                url: "/JSSResource/mobiledevices/id/{id}",
            },
            ApiEndpoints::MobileSearch => ApiEndpointDetails {
                method: HttpMethod::Get,
                url: "/JSSResource/mobiledevices/match/{search_query}",
            },
            ApiEndpoints::MobileList => ApiEndpointDetails {
                method: HttpMethod::Get,
                url: "/JSSResource/mobiledevices",
            },
            ApiEndpoints::UserDelete => ApiEndpointDetails {
                method: HttpMethod::Delete,
                url: "/JSSResource/users/id/{id}",
            },
            ApiEndpoints::UserShow => ApiEndpointDetails {
                method: HttpMethod::Get,
                url: "/JSSResource/users/id/{id}",
            },
            ApiEndpoints::UserList => ApiEndpointDetails {
                method: HttpMethod::Get,
                url: "/JSSResource/users",
            },
            ApiEndpoints::PolicyDelete => ApiEndpointDetails {
                method: HttpMethod::Delete,
                url: "/JSSResource/policies/id/{id}",
            },
            ApiEndpoints::PolicyShow => ApiEndpointDetails {
                method: HttpMethod::Get,
                url: "/JSSResource/policies/id/{id}",
            },
            ApiEndpoints::PolicyList => ApiEndpointDetails {
                method: HttpMethod::Get,
                url: "/JSSResource/policies",
            },
            ApiEndpoints::PackageDelete => ApiEndpointDetails {
                method: HttpMethod::Delete,
                url: "/JSSResource/packages/id/{id}",
            },
            ApiEndpoints::PackageShow => ApiEndpointDetails {
                method: HttpMethod::Get,
                url: "/JSSResource/packages/id/{id}",
            },
            ApiEndpoints::PackageList => ApiEndpointDetails {
                method: HttpMethod::Get,
                url: "/JSSResource/packages",
            },
            ApiEndpoints::CategoryDelete => ApiEndpointDetails {
                method: HttpMethod::Delete,
                url: "/JSSResource/categories/id/{id}",
            },
            ApiEndpoints::CategoryShow => ApiEndpointDetails {
                method: HttpMethod::Get,
                url: "/JSSResource/categories/id/{id}",
            },
            ApiEndpoints::CategoryList => ApiEndpointDetails {
                method: HttpMethod::Get,
                url: "/JSSResource/categories",
            },
            ApiEndpoints::DepartmentDelete => ApiEndpointDetails {
                method: HttpMethod::Delete,
                url: "/JSSResource/departments/id/{id}",
            },
            ApiEndpoints::DepartmentShow => ApiEndpointDetails {
                method: HttpMethod::Get,
                url: "/JSSResource/departments/id/{id}",
            },
            ApiEndpoints::DepartmentList => ApiEndpointDetails {
                method: HttpMethod::Get,
                url: "/JSSResource/departments",
            },
            ApiEndpoints::EbookDelete => ApiEndpointDetails {
                method: HttpMethod::Delete,
                url: "/JSSResource/ebooks/id/{id}",
            },
            ApiEndpoints::EbookShow => ApiEndpointDetails {
                method: HttpMethod::Get,
                url: "/JSSResource/ebooks/id/{id}",
            },
            ApiEndpoints::EbookList => ApiEndpointDetails {
                method: HttpMethod::Get,
                url: "/JSSResource/ebooks",
            },
            ApiEndpoints::BuildingDelete => ApiEndpointDetails {
                method: HttpMethod::Delete,
                url: "/JSSResource/buildings/id/{id}",
            },
            ApiEndpoints::BuildingShow => ApiEndpointDetails {
                method: HttpMethod::Get,
                url: "/JSSResource/buildings/id/{id}",
            },
            ApiEndpoints::BuildingList => ApiEndpointDetails {
                method: HttpMethod::Get,
                url: "/JSSResource/buildings",
            },
            ApiEndpoints::MacAppDelete => ApiEndpointDetails {
                method: HttpMethod::Delete,
                url: "/JSSResource/macapplications/id/{id}",
            },
            ApiEndpoints::MacAppShow => ApiEndpointDetails {
                method: HttpMethod::Get,
                url: "/JSSResource/macapplications/id/{id}",
            },
            ApiEndpoints::MacAppList => ApiEndpointDetails {
                method: HttpMethod::Get,
                url: "/JSSResource/macapplications",
            },
            ApiEndpoints::MobileAppDelete => ApiEndpointDetails {
                method: HttpMethod::Delete,
                url: "/JSSResource/mobiledeviceapplications/id/{id}",
            },
            ApiEndpoints::MobileAppShow => ApiEndpointDetails {
                method: HttpMethod::Get,
                url: "/JSSResource/mobiledeviceapplications/id/{id}",
            },
            ApiEndpoints::MobileAppList => ApiEndpointDetails {
                method: HttpMethod::Get,
                url: "/JSSResource/mobiledeviceapplications",
            },
            ApiEndpoints::ScriptDelete => ApiEndpointDetails {
                method: HttpMethod::Delete,
                url: "/JSSResource/scripts/id/{id}",
            },
            ApiEndpoints::ScriptShow => ApiEndpointDetails {
                method: HttpMethod::Get,
                url: "/JSSResource/scripts/id/{id}",
            },
            ApiEndpoints::ScriptList => ApiEndpointDetails {
                method: HttpMethod::Get,
                url: "/JSSResource/scripts",
            },
            ApiEndpoints::RestrictedSoftwareDelete => ApiEndpointDetails {
                method: HttpMethod::Delete,
                url: "/JSSResource/restrictedsoftware/id/{id}",
            },
            ApiEndpoints::RestrictedSoftwareShow => ApiEndpointDetails {
                method: HttpMethod::Get,
                url: "/JSSResource/restrictedsoftware/id/{id}",
            },
            ApiEndpoints::RestrictedSoftwareList => ApiEndpointDetails {
                method: HttpMethod::Get,
                url: "/JSSResource/restrictedsoftware",
            },
            ApiEndpoints::PrinterDelete => ApiEndpointDetails {
                method: HttpMethod::Delete,
                url: "/JSSResource/printers/id/{id}",
            },
            ApiEndpoints::PrinterShow => ApiEndpointDetails {
                method: HttpMethod::Get,
                url: "/JSSResource/printers/id/{id}",
            },
            ApiEndpoints::PrinterList => ApiEndpointDetails {
                method: HttpMethod::Get,
                url: "/JSSResource/printers",
            },
            ApiEndpoints::PatchPolicyDelete => ApiEndpointDetails {
                method: HttpMethod::Delete,
                url: "/JSSResource/patchpolicies/id/{id}",
            },
            ApiEndpoints::PatchPolicyShow => ApiEndpointDetails {
                method: HttpMethod::Get,
                url: "/JSSResource/patchpolicies/id/{id}",
            },
            ApiEndpoints::PatchPolicyList => ApiEndpointDetails {
                method: HttpMethod::Get,
                url: "/JSSResource/patchpolicies",
            },
            ApiEndpoints::PatchReportListSoftware => ApiEndpointDetails {
                method: HttpMethod::Get,
                url: "/JSSResource/patchreports/patchsoftwaretitleid/{id}",
            },
            ApiEndpoints::PatchReportListComputer => ApiEndpointDetails {
                method: HttpMethod::Get,
                url: "/JSSResource/patchreports/patchsoftwaretitleid/{id}/version/{software_version}",
            },
            ApiEndpoints::PatchSoftwareTitleDelete => ApiEndpointDetails {
                method: HttpMethod::Delete,
                url: "/JSSResource/patchsoftwaretitles/id/{id}",
            },
            ApiEndpoints::PatchSoftwareTitleShow => ApiEndpointDetails {
                method: HttpMethod::Get,
                url: "/JSSResource/patchsoftwaretitles/id/{id}",
            },
            ApiEndpoints::PatchSoftwareTitleList => ApiEndpointDetails {
                method: HttpMethod::Get,
                url: "/JSSResource/patchsoftwaretitles",
            },
            ApiEndpoints::PatchAvailableTitleList => ApiEndpointDetails {
                method: HttpMethod::Get,
                url: "/JSSResource/patchavailabletitles/sourceid/{id}",
            },
            ApiEndpoints::PatchExternalSourceShow => ApiEndpointDetails {
                method: HttpMethod::Get,
                url: "/JSSResource/patchexternalsources/id/{id}",
            },
            ApiEndpoints::PatchExternalSourceList => ApiEndpointDetails {
                method: HttpMethod::Get,
                url: "/JSSResource/patchexternalsources",
            },
            ApiEndpoints::PatchExternalSourceDelete => ApiEndpointDetails {
                method: HttpMethod::Delete,
                url: "/JSSResource/patchexternalsources/id/{id}",
            },
            ApiEndpoints::PatchInternalSourceShow => ApiEndpointDetails {
                method: HttpMethod::Get,
                url: "/JSSResource/patchinternalsources/id/{id}",
            },
            ApiEndpoints::PatchInternalSourceList => ApiEndpointDetails {
                method: HttpMethod::Get,
                url: "/JSSResource/patchinternalsources",
            },
            ApiEndpoints::GroupComputerDelete => ApiEndpointDetails {
                method: HttpMethod::Delete,
                url: "/JSSResource/computergroups/id/{id}",
            },
            ApiEndpoints::GroupComputerShow => ApiEndpointDetails {
                method: HttpMethod::Get,
                url: "/JSSResource/computergroups/id/{id}",
            },
            ApiEndpoints::GroupComputerList => ApiEndpointDetails {
                method: HttpMethod::Get,
                url: "/JSSResource/computergroups",
            },
            ApiEndpoints::GroupMobileDelete => ApiEndpointDetails {
                method: HttpMethod::Delete,
                url: "/JSSResource/mobiledevicegroups/id/{id}",
            },
            ApiEndpoints::GroupMobileShow => ApiEndpointDetails {
                method: HttpMethod::Get,
                url: "/JSSResource/mobiledevicegroups/id/{id}",
            },
            ApiEndpoints::GroupMobileList => ApiEndpointDetails {
                method: HttpMethod::Get,
                url: "/JSSResource/mobiledevicegroups",
            },
            ApiEndpoints::GroupUserDelete => ApiEndpointDetails {
                method: HttpMethod::Delete,
                url: "/JSSResource/userroups/id/{id}",
            },
            ApiEndpoints::GroupUserShow => ApiEndpointDetails {
                method: HttpMethod::Get,
                url: "/JSSResource/usergroups/id/{id}",
            },
            ApiEndpoints::GroupUserList => ApiEndpointDetails {
                method: HttpMethod::Get,
                url: "/JSSResource/usergroups",
            },
            ApiEndpoints::AdvSearchComputerDelete => ApiEndpointDetails {
                method: HttpMethod::Delete,
                url: "/JSSResource/advancedcomputersearches/id/{id}",
            },
            ApiEndpoints::AdvSearchComputerShow => ApiEndpointDetails {
                method: HttpMethod::Get,
                url: "/JSSResource/advancedcomputersearches/id/{id}",
            },
            ApiEndpoints::AdvSearchComputerList => ApiEndpointDetails {
                method: HttpMethod::Get,
                url: "/JSSResource/advancedcomputersearches",
            },
            ApiEndpoints::AdvSearchMobileDelete => ApiEndpointDetails {
                method: HttpMethod::Delete,
                url: "/JSSResource/advancedmobiledevicesearches/id/{id}",
            },
            ApiEndpoints::AdvSearchMobileShow => ApiEndpointDetails {
                method: HttpMethod::Get,
                url: "/JSSResource/advancedmobiledevicesearches/id/{id}",
            },
            ApiEndpoints::AdvSearchMobileList => ApiEndpointDetails {
                method: HttpMethod::Get,
                url: "/JSSResource/advancedmobiledevicesearches",
            },
            ApiEndpoints::AdvSearchUserDelete => ApiEndpointDetails {
                method: HttpMethod::Delete,
                url: "/JSSResource/advancedusersearches/id/{id}",
            },
            ApiEndpoints::AdvSearchUserShow => ApiEndpointDetails {
                method: HttpMethod::Get,
                url: "/JSSResource/advancedusersearches/id/{id}",
            },
            ApiEndpoints::AdvSearchUserList => ApiEndpointDetails {
                method: HttpMethod::Get,
                url: "/JSSResource/advancedusersearches",
            },
        }
    }
}

/// Argument payload of an operation descriptor: nothing, a set of named
/// placeholder substitutions, or an identifier list.
#[derive(Debug)]
pub enum Args {
    NoArgs,
    Strings(Vec<(String, String)>),
    Ids(Vec<u32>),
}

/// Mathematical model of an argument payload.
pub enum ArgsView {
    NoArgs,
    Strings(Seq<(Seq<char>, Seq<char>)>),
    Ids(Seq<u32>),
}

impl View for Args {
    type V = ArgsView;

    open spec fn view(&self) -> ArgsView {
        match self {
            Args::NoArgs => ArgsView::NoArgs,
            Args::Strings(pairs) => ArgsView::Strings(pairs.deep_view()),
            Args::Ids(ids) => ArgsView::Ids(ids@),
        }
    }
}

/// The operation descriptor: argument payload plus resolved endpoint.
pub struct ApiDetails {
    pub args: Args,
    pub endpoint: ApiEndpointDetails,
}

/// One placeholder substitution pair.
fn one_substitution(key: &str, value: &String) -> (r: Vec<(String, String)>)
    ensures
        r.deep_view() == seq![(key@, value@)],
{
    let mut pairs: Vec<(String, String)> = Vec::new();
    pairs.push((key.to_owned(), value.clone()));
    proof {
        assert(pairs.deep_view() =~~= seq![(key@, value@)]);
    }
    pairs
}

/// Two placeholder substitution pairs, in order.
fn two_substitutions(key_a: &str, value_a: &String, key_b: &str, value_b: &String) -> (r: Vec<
    (String, String),
>)
    ensures
        r.deep_view() == seq![(key_a@, value_a@), (key_b@, value_b@)],
{
    let mut pairs: Vec<(String, String)> = Vec::new();
    pairs.push((key_a.to_owned(), value_a.clone()));
    pairs.push((key_b.to_owned(), value_b.clone()));
    proof {
        assert(pairs.deep_view() =~~= seq![(key_a@, value_a@), (key_b@, value_b@)]);
    }
    pairs
}

/// The endpoint and argument payload a parsed command stands for, or `None`
/// when its identifier specification is unusable.
pub open spec fn spec_descriptor_of(et: EntityType) -> Option<(ApiEndpoints, ArgsView)> {
    match et {
        EntityType::Computer(command) => match command.subcommand {
            ComputerSubcommand::Delete(id) => match spec_expanded_ids(id) {
                Some(ids) => Some((ApiEndpoints::ComputerDelete, ArgsView::Ids(ids))),
                None => None,
            },
            ComputerSubcommand::Show(id) => match spec_expanded_ids(id) {
                Some(ids) => Some((ApiEndpoints::ComputerShow, ArgsView::Ids(ids))),
                None => None,
            },
            ComputerSubcommand::Search { search_query } => Some((
                ApiEndpoints::ComputerSearch,
                ArgsView::Strings(seq![("{search_query}"@, search_query@)]),
            )),
            ComputerSubcommand::List => Some((ApiEndpoints::ComputerList, ArgsView::NoArgs)),
        },
        EntityType::Mobile(command) => match command.subcommand {
            MobileSubcommand::Delete(id) => match spec_expanded_ids(id) {
                Some(ids) => Some((ApiEndpoints::MobileDelete, ArgsView::Ids(ids))),
                None => None,
            },
            MobileSubcommand::Show(id) => match spec_expanded_ids(id) {
                Some(ids) => Some((ApiEndpoints::MobileShow, ArgsView::Ids(ids))),
                None => None,
            },
            MobileSubcommand::Search { search_query } => Some((
                ApiEndpoints::MobileSearch,
                ArgsView::Strings(seq![("{search_query}"@, search_query@)]),
            )),
            MobileSubcommand::List => Some((ApiEndpoints::MobileList, ArgsView::NoArgs)),
        },
        EntityType::User(command) => match command.subcommand {
            UserSubcommand::Delete(id) => match spec_expanded_ids(id) {
                Some(ids) => Some((ApiEndpoints::UserDelete, ArgsView::Ids(ids))),
                None => None,
            },
            UserSubcommand::Show(id) => match spec_expanded_ids(id) {
                Some(ids) => Some((ApiEndpoints::UserShow, ArgsView::Ids(ids))),
                None => None,
            },
            UserSubcommand::List => Some((ApiEndpoints::UserList, ArgsView::NoArgs)),
        },
        EntityType::Policy(command) => match command.subcommand {
            PolicySubcommand::Delete(id) => match spec_expanded_ids(id) {
                Some(ids) => Some((ApiEndpoints::PolicyDelete, ArgsView::Ids(ids))),
                None => None,
            },
            PolicySubcommand::Show(id) => match spec_expanded_ids(id) {
                Some(ids) => Some((ApiEndpoints::PolicyShow, ArgsView::Ids(ids))),
                None => None,
            },
            PolicySubcommand::List => Some((ApiEndpoints::PolicyList, ArgsView::NoArgs)),
        },
        EntityType::Package(command) => match command.subcommand {
            PackageSubcommand::Delete(id) => match spec_expanded_ids(id) {
                Some(ids) => Some((ApiEndpoints::PackageDelete, ArgsView::Ids(ids))),
                None => None,
            },
            PackageSubcommand::Show(id) => match spec_expanded_ids(id) {
                Some(ids) => Some((ApiEndpoints::PackageShow, ArgsView::Ids(ids))),
                None => None,
            },
            PackageSubcommand::List => Some((ApiEndpoints::PackageList, ArgsView::NoArgs)),
        },
        EntityType::Category(command) => match command.subcommand {
            CategorySubcommand::Delete(id) => match spec_expanded_ids(id) {
                Some(ids) => Some((ApiEndpoints::CategoryDelete, ArgsView::Ids(ids))),
                None => None,
            },
            CategorySubcommand::Show(id) => match spec_expanded_ids(id) {
                Some(ids) => Some((ApiEndpoints::CategoryShow, ArgsView::Ids(ids))),
                None => None,
            },
            CategorySubcommand::List => Some((ApiEndpoints::CategoryList, ArgsView::NoArgs)),
        },
        EntityType::Department(command) => match command.subcommand {
            DepartmentSubcommand::Delete(id) => match spec_expanded_ids(id) {
                Some(ids) => Some((ApiEndpoints::DepartmentDelete, ArgsView::Ids(ids))),
                None => None,
            },
            DepartmentSubcommand::Show(id) => match spec_expanded_ids(id) {
                Some(ids) => Some((ApiEndpoints::DepartmentShow, ArgsView::Ids(ids))),
                None => None,
            },
            DepartmentSubcommand::List => Some((ApiEndpoints::DepartmentList, ArgsView::NoArgs)),
        },
        EntityType::Ebook(command) => match command.subcommand {
            EbookSubcommand::Delete(id) => match spec_expanded_ids(id) {
                Some(ids) => Some((ApiEndpoints::EbookDelete, ArgsView::Ids(ids))),
                None => None,
            },
            EbookSubcommand::Show(id) => match spec_expanded_ids(id) {
                Some(ids) => Some((ApiEndpoints::EbookShow, ArgsView::Ids(ids))),
                None => None,
            },
            EbookSubcommand::List => Some((ApiEndpoints::EbookList, ArgsView::NoArgs)),
        },
        EntityType::Building(command) => match command.subcommand {
            BuildingSubcommand::Delete(id) => match spec_expanded_ids(id) {
                Some(ids) => Some((ApiEndpoints::BuildingDelete, ArgsView::Ids(ids))),
                None => None,
            },
            BuildingSubcommand::Show(id) => match spec_expanded_ids(id) {
                Some(ids) => Some((ApiEndpoints::BuildingShow, ArgsView::Ids(ids))),
                None => None,
            },
            BuildingSubcommand::List => Some((ApiEndpoints::BuildingList, ArgsView::NoArgs)),
        },
        EntityType::MacApp(command) => match command.subcommand {
            MacAppSubcommand::Delete(id) => match spec_expanded_ids(id) {
                Some(ids) => Some((ApiEndpoints::MacAppDelete, ArgsView::Ids(ids))),
                None => None,
            },
            MacAppSubcommand::Show(id) => match spec_expanded_ids(id) {
                Some(ids) => Some((ApiEndpoints::MacAppShow, ArgsView::Ids(ids))),
                None => None,
            },
            MacAppSubcommand::List => Some((ApiEndpoints::MacAppList, ArgsView::NoArgs)),
        },
        EntityType::MobileApp(command) => match command.subcommand {
            MobileAppSubcommand::Delete(id) => match spec_expanded_ids(id) {
                Some(ids) => Some((ApiEndpoints::MobileAppDelete, ArgsView::Ids(ids))),
                None => None,
            },
            MobileAppSubcommand::Show(id) => match spec_expanded_ids(id) {
                Some(ids) => Some((ApiEndpoints::MobileAppShow, ArgsView::Ids(ids))),
                None => None,
            },
            MobileAppSubcommand::List => Some((ApiEndpoints::MobileAppList, ArgsView::NoArgs)),
        },
        EntityType::Script(command) => match command.subcommand {
            ScriptSubcommand::Delete(id) => match spec_expanded_ids(id) {
                Some(ids) => Some((ApiEndpoints::ScriptDelete, ArgsView::Ids(ids))),
                None => None,
            },
            ScriptSubcommand::Show(id) => match spec_expanded_ids(id) {
                Some(ids) => Some((ApiEndpoints::ScriptShow, ArgsView::Ids(ids))),
                None => None,
            },
            ScriptSubcommand::List => Some((ApiEndpoints::ScriptList, ArgsView::NoArgs)),
        },
        EntityType::RestrictedSoftware(command) => match command.subcommand {
            RestrictedSoftwareSubcommand::Delete(id) => match spec_expanded_ids(id) {
                Some(ids) => Some((ApiEndpoints::RestrictedSoftwareDelete, ArgsView::Ids(ids))),
                None => None,
            },
            RestrictedSoftwareSubcommand::Show(id) => match spec_expanded_ids(id) {
                Some(ids) => Some((ApiEndpoints::RestrictedSoftwareShow, ArgsView::Ids(ids))),
                None => None,
            },
            RestrictedSoftwareSubcommand::List => Some((ApiEndpoints::RestrictedSoftwareList, ArgsView::NoArgs)),
        },
        EntityType::Printer(command) => match command.subcommand {
            PrinterSubcommand::Delete(id) => match spec_expanded_ids(id) {
                Some(ids) => Some((ApiEndpoints::PrinterDelete, ArgsView::Ids(ids))),
                None => None,
            },
            PrinterSubcommand::Show(id) => match spec_expanded_ids(id) {
                Some(ids) => Some((ApiEndpoints::PrinterShow, ArgsView::Ids(ids))),
                None => None,
            },
            PrinterSubcommand::List => Some((ApiEndpoints::PrinterList, ArgsView::NoArgs)),
        },
        EntityType::Patch(command) => match command.patch_command {
            PatchSubcommand::Policy(inner) => match inner {
                PatchPolicyCommand::Delete(id) => match spec_expanded_ids(id) {
                    Some(ids) => Some((ApiEndpoints::PatchPolicyDelete, ArgsView::Ids(ids))),
                    None => None,
                },
                PatchPolicyCommand::Show(id) => match spec_expanded_ids(id) {
                    Some(ids) => Some((ApiEndpoints::PatchPolicyShow, ArgsView::Ids(ids))),
                    None => None,
                },
                PatchPolicyCommand::List => Some((ApiEndpoints::PatchPolicyList, ArgsView::NoArgs)),
            },
            PatchSubcommand::Report(inner) => match inner {
                PatchReportCommand::ListSoftware(id) => match spec_expanded_ids(id) {
                    Some(ids) => Some((ApiEndpoints::PatchReportListSoftware, ArgsView::Ids(ids))),
                    None => None,
                },
                PatchReportCommand::ListComputer { id, software_version } => Some((
                    ApiEndpoints::PatchReportListComputer,
                    ArgsView::Strings(seq![("{id}"@, id@), ("{software_version}"@, software_version@)]),
                )),
            },
            PatchSubcommand::SoftwareTitles(inner) => match inner {
                PatchSoftwareTitleCommand::Delete(id) => match spec_expanded_ids(id) {
                    Some(ids) => Some((ApiEndpoints::PatchSoftwareTitleDelete, ArgsView::Ids(ids))),
                    None => None,
                },
                PatchSoftwareTitleCommand::Show(id) => match spec_expanded_ids(id) {
                    Some(ids) => Some((ApiEndpoints::PatchSoftwareTitleShow, ArgsView::Ids(ids))),
                    None => None,
                },
                PatchSoftwareTitleCommand::List => Some((ApiEndpoints::PatchSoftwareTitleList, ArgsView::NoArgs)),
            },
            PatchSubcommand::AvailableTitles(inner) => match inner {
                PatchAvailableTitleCommand::List(id) => match spec_expanded_ids(id) {
                    Some(ids) => Some((ApiEndpoints::PatchAvailableTitleList, ArgsView::Ids(ids))),
                    None => None,
                },
            },
            PatchSubcommand::ExternalSources(inner) => match inner {
                PatchExternalSourceCommand::Delete(id) => match spec_expanded_ids(id) {
                    Some(ids) => Some((ApiEndpoints::PatchExternalSourceDelete, ArgsView::Ids(ids))),
                    None => None,
                },
                PatchExternalSourceCommand::Show(id) => match spec_expanded_ids(id) {
                    Some(ids) => Some((ApiEndpoints::PatchExternalSourceShow, ArgsView::Ids(ids))),
                    None => None,
                },
                PatchExternalSourceCommand::List => Some((ApiEndpoints::PatchExternalSourceList, ArgsView::NoArgs)),
            },
            PatchSubcommand::InternalSources(inner) => match inner {
                PatchInternalSourceCommand::Show(id) => match spec_expanded_ids(id) {
                    Some(ids) => Some((ApiEndpoints::PatchInternalSourceShow, ArgsView::Ids(ids))),
                    None => None,
                },
                PatchInternalSourceCommand::List => Some((ApiEndpoints::PatchInternalSourceList, ArgsView::NoArgs)),
            },
        },
        EntityType::Group(command) => match command.group_command {
            GroupSubcommand::Computer(inner) => match inner {
                ComputerGroupCommand::Delete(id) => match spec_expanded_ids(id) {
                    Some(ids) => Some((ApiEndpoints::GroupComputerDelete, ArgsView::Ids(ids))),
                    None => None,
                },
                ComputerGroupCommand::Show(id) => match spec_expanded_ids(id) {
                    Some(ids) => Some((ApiEndpoints::GroupComputerShow, ArgsView::Ids(ids))),
                    None => None,
                },
                ComputerGroupCommand::List => Some((ApiEndpoints::GroupComputerList, ArgsView::NoArgs)),
            },
            GroupSubcommand::Mobile(inner) => match inner {
                MobileGroupCommand::Delete(id) => match spec_expanded_ids(id) {
                    Some(ids) => Some((ApiEndpoints::GroupMobileDelete, ArgsView::Ids(ids))),
                    None => None,
                },
                MobileGroupCommand::Show(id) => match spec_expanded_ids(id) {
                    Some(ids) => Some((ApiEndpoints::GroupMobileShow, ArgsView::Ids(ids))),
                    None => None,
                },
                MobileGroupCommand::List => Some((ApiEndpoints::GroupMobileList, ArgsView::NoArgs)),
            },
            GroupSubcommand::User(inner) => match inner {
                UserGroupCommand::Delete(id) => match spec_expanded_ids(id) {
                    Some(ids) => Some((ApiEndpoints::GroupUserDelete, ArgsView::Ids(ids))),
                    None => None,
                },
                UserGroupCommand::Show(id) => match spec_expanded_ids(id) {
                    Some(ids) => Some((ApiEndpoints::GroupUserShow, ArgsView::Ids(ids))),
                    None => None,
                },
                UserGroupCommand::List => Some((ApiEndpoints::GroupUserList, ArgsView::NoArgs)),
            },
        },
        EntityType::AdvSearch(command) => match command.adv_search_command {
            AdvSearchSubcommand::Computer(inner) => match inner {
                ComputerAdvSearchCommand::Delete(id) => match spec_expanded_ids(id) {
                    Some(ids) => Some((ApiEndpoints::AdvSearchComputerDelete, ArgsView::Ids(ids))),
                    None => None,
                },
                ComputerAdvSearchCommand::Show(id) => match spec_expanded_ids(id) {
                    Some(ids) => Some((ApiEndpoints::AdvSearchComputerShow, ArgsView::Ids(ids))),
                    None => None,
                },
                ComputerAdvSearchCommand::List => Some((ApiEndpoints::AdvSearchComputerList, ArgsView::NoArgs)),
            },
            AdvSearchSubcommand::Mobile(inner) => match inner {
                MobileAdvSearchCommand::Delete(id) => match spec_expanded_ids(id) {
                    Some(ids) => Some((ApiEndpoints::AdvSearchMobileDelete, ArgsView::Ids(ids))),
                    None => None,
                },
                MobileAdvSearchCommand::Show(id) => match spec_expanded_ids(id) {
                    Some(ids) => Some((ApiEndpoints::AdvSearchMobileShow, ArgsView::Ids(ids))),
                    None => None,
                },
                MobileAdvSearchCommand::List => Some((ApiEndpoints::AdvSearchMobileList, ArgsView::NoArgs)),
            },
            AdvSearchSubcommand::User(inner) => match inner {
                UserAdvSearchCommand::Delete(id) => match spec_expanded_ids(id) {
                    Some(ids) => Some((ApiEndpoints::AdvSearchUserDelete, ArgsView::Ids(ids))),
                    None => None,
                },
                UserAdvSearchCommand::Show(id) => match spec_expanded_ids(id) {
                    Some(ids) => Some((ApiEndpoints::AdvSearchUserShow, ArgsView::Ids(ids))),
                    None => None,
                },
                UserAdvSearchCommand::List => Some((ApiEndpoints::AdvSearchUserList, ArgsView::NoArgs)),
            },
        },
    }
}

impl ApiEndpoints {
    /// Translates a parsed command into the operation descriptor: the
    /// resolved endpoint plus its argument payload, with the identifier
    /// specification expanded.
    pub fn get_api_details(entity_type: &EntityType) -> (r: Result<ApiDetails, String>)
        ensures
            match r {
                Ok(d) => spec_descriptor_of(*entity_type) matches Some(p) && d.endpoint.method
                    == spec_endpoint_method(p.0) && d.endpoint.url@ == spec_endpoint_url(p.0)
                    && d.args@ == p.1,
                Err(_) => spec_descriptor_of(*entity_type) is None,
            },
    {
        let (args, endpoint) = match entity_type {
            EntityType::Computer(command) => match &command.subcommand {
                ComputerSubcommand::Delete(id) => (
                    Args::Ids(
                        match id.get_ids() {
                            Ok(v) => v,
                            Err(e) => return Err(e),
                        },
                    ),
                    ApiEndpoints::ComputerDelete,
                ),
                ComputerSubcommand::Show(id) => (
                    Args::Ids(
                        match id.get_ids() {
                            Ok(v) => v,
                            Err(e) => return Err(e),
                        },
                    ),
                    ApiEndpoints::ComputerShow,
                ),
                ComputerSubcommand::Search { search_query } => (
                    Args::Strings(one_substitution("{search_query}", search_query)),
                    ApiEndpoints::ComputerSearch,
                ),
                ComputerSubcommand::List => (Args::NoArgs, ApiEndpoints::ComputerList),
            },
            EntityType::Mobile(command) => match &command.subcommand {
                MobileSubcommand::Delete(id) => (
                    Args::Ids(
                        match id.get_ids() {
                            Ok(v) => v,
                            Err(e) => return Err(e),
                        },
                    ),
                    ApiEndpoints::MobileDelete,
                ),
                MobileSubcommand::Show(id) => (
                    Args::Ids(
                        match id.get_ids() {
                            Ok(v) => v,
                            Err(e) => return Err(e),
                        },
                    ),
                    ApiEndpoints::MobileShow,
                ),
                MobileSubcommand::Search { search_query } => (
                    Args::Strings(one_substitution("{search_query}", search_query)),
                    ApiEndpoints::MobileSearch,
                ),
                MobileSubcommand::List => (Args::NoArgs, ApiEndpoints::MobileList),
            },
            EntityType::User(command) => match &command.subcommand {
                UserSubcommand::Delete(id) => (
                    Args::Ids(
                        match id.get_ids() {
                            Ok(v) => v,
                            Err(e) => return Err(e),
                        },
                    ),
                    ApiEndpoints::UserDelete,
                ),
                UserSubcommand::Show(id) => (
                    Args::Ids(
                        match id.get_ids() {
                            Ok(v) => v,
                            Err(e) => return Err(e),
                        },
                    ),
                    ApiEndpoints::UserShow,
                ),
                UserSubcommand::List => (Args::NoArgs, ApiEndpoints::UserList),
            },
            EntityType::Policy(command) => match &command.subcommand {
                PolicySubcommand::Delete(id) => (
                    Args::Ids(
                        match id.get_ids() {
                            Ok(v) => v,
                            Err(e) => return Err(e),
                        },
                    ),
                    ApiEndpoints::PolicyDelete,
                ),
                PolicySubcommand::Show(id) => (
                    Args::Ids(
                        match id.get_ids() {
                            Ok(v) => v,
                            Err(e) => return Err(e),
                        },
                    ),
                    ApiEndpoints::PolicyShow,
                ),
                PolicySubcommand::List => (Args::NoArgs, ApiEndpoints::PolicyList),
            },
            EntityType::Package(command) => match &command.subcommand {
                PackageSubcommand::Delete(id) => (
                    Args::Ids(
                        match id.get_ids() {
                            Ok(v) => v,
                            Err(e) => return Err(e),
                        },
                    ),
                    ApiEndpoints::PackageDelete,
                ),
                PackageSubcommand::Show(id) => (
                    Args::Ids(
                        match id.get_ids() {
                            Ok(v) => v,
                            Err(e) => return Err(e),
                        },
                    ),
                    ApiEndpoints::PackageShow,
                ),
                PackageSubcommand::List => (Args::NoArgs, ApiEndpoints::PackageList),
            },
            EntityType::Category(command) => match &command.subcommand {
                CategorySubcommand::Delete(id) => (
                    Args::Ids(
                        match id.get_ids() {
                            Ok(v) => v,
                            Err(e) => return Err(e),
                        },
                    ),
                    ApiEndpoints::CategoryDelete,
                ),
                CategorySubcommand::Show(id) => (
                    Args::Ids(
                        match id.get_ids() {
                            Ok(v) => v,
                            Err(e) => return Err(e),
                        },
                    ),
                    ApiEndpoints::CategoryShow,
                ),
                CategorySubcommand::List => (Args::NoArgs, ApiEndpoints::CategoryList),
            },
            EntityType::Department(command) => match &command.subcommand {
                DepartmentSubcommand::Delete(id) => (
                    Args::Ids(
                        match id.get_ids() {
                            Ok(v) => v,
                            Err(e) => return Err(e),
                        },
                    ),
                    ApiEndpoints::DepartmentDelete,
                ),
                DepartmentSubcommand::Show(id) => (
                    Args::Ids(
                        match id.get_ids() {
                            Ok(v) => v,
                            Err(e) => return Err(e),
                        },
                    ),
                    ApiEndpoints::DepartmentShow,
                ),
                DepartmentSubcommand::List => (Args::NoArgs, ApiEndpoints::DepartmentList),
            },
            EntityType::Ebook(command) => match &command.subcommand {
                EbookSubcommand::Delete(id) => (
                    Args::Ids(
                        match id.get_ids() {
                            Ok(v) => v,
                            Err(e) => return Err(e),
                        },
                    ),
                    ApiEndpoints::EbookDelete,
                ),
                EbookSubcommand::Show(id) => (
                    Args::Ids(
                        match id.get_ids() {
                            Ok(v) => v,
                            Err(e) => return Err(e),
                        },
                    ),
                    ApiEndpoints::EbookShow,
                ),
                EbookSubcommand::List => (Args::NoArgs, ApiEndpoints::EbookList),
            },
            EntityType::Building(command) => match &command.subcommand {
                BuildingSubcommand::Delete(id) => (
                    Args::Ids(
                        match id.get_ids() {
                            Ok(v) => v,
                            Err(e) => return Err(e),
                        },
                    ),
                    ApiEndpoints::BuildingDelete,
                ),
                BuildingSubcommand::Show(id) => (
                    Args::Ids(
                        match id.get_ids() {
                            Ok(v) => v,
                            Err(e) => return Err(e),
                        },
                    ),
                    ApiEndpoints::BuildingShow,
                ),
                BuildingSubcommand::List => (Args::NoArgs, ApiEndpoints::BuildingList),
            },
            EntityType::MacApp(command) => match &command.subcommand {
                MacAppSubcommand::Delete(id) => (
                    Args::Ids(
                        match id.get_ids() {
                            Ok(v) => v,
                            Err(e) => return Err(e),
                        },
                    ),
                    ApiEndpoints::MacAppDelete,
                ),
                MacAppSubcommand::Show(id) => (
                    Args::Ids(
                        match id.get_ids() {
                            Ok(v) => v,
                            Err(e) => return Err(e),
                        },
                    ),
                    ApiEndpoints::MacAppShow,
                ),
                MacAppSubcommand::List => (Args::NoArgs, ApiEndpoints::MacAppList),
            },
            EntityType::MobileApp(command) => match &command.subcommand {
                MobileAppSubcommand::Delete(id) => (
                    Args::Ids(
                        match id.get_ids() {
                            Ok(v) => v,
                            Err(e) => return Err(e),
                        },
                    ),
                    ApiEndpoints::MobileAppDelete,
                ),
                MobileAppSubcommand::Show(id) => (
                    Args::Ids(
                        match id.get_ids() {
                            Ok(v) => v,
                            Err(e) => return Err(e),
                        },
                    ),
                    ApiEndpoints::MobileAppShow,
                ),
                MobileAppSubcommand::List => (Args::NoArgs, ApiEndpoints::MobileAppList),
            },
            EntityType::Script(command) => match &command.subcommand {
                ScriptSubcommand::Delete(id) => (
                    Args::Ids(
                        match id.get_ids() {
                            Ok(v) => v,
                            Err(e) => return Err(e),
                        },
                    ),
                    ApiEndpoints::ScriptDelete,
                ),
                ScriptSubcommand::Show(id) => (
                    Args::Ids(
                        match id.get_ids() {
                            Ok(v) => v,
                            Err(e) => return Err(e),
                        },
                    ),
                    ApiEndpoints::ScriptShow,
                ),
                ScriptSubcommand::List => (Args::NoArgs, ApiEndpoints::ScriptList),
            },
            EntityType::RestrictedSoftware(command) => match &command.subcommand {
                RestrictedSoftwareSubcommand::Delete(id) => (
                    Args::Ids(
                        match id.get_ids() {
                            Ok(v) => v,
                            Err(e) => return Err(e),
                        },
                    ),
                    ApiEndpoints::RestrictedSoftwareDelete,
                ),
                RestrictedSoftwareSubcommand::Show(id) => (
                    Args::Ids(
                        match id.get_ids() {
                            Ok(v) => v,
                            Err(e) => return Err(e),
                        },
                    ),
                    ApiEndpoints::RestrictedSoftwareShow,
                ),
                RestrictedSoftwareSubcommand::List => (Args::NoArgs, ApiEndpoints::RestrictedSoftwareList),
            },
            EntityType::Printer(command) => match &command.subcommand {
                PrinterSubcommand::Delete(id) => (
                    Args::Ids(
                        match id.get_ids() {
                            Ok(v) => v,
                            Err(e) => return Err(e),
                        },
                    ),
                    ApiEndpoints::PrinterDelete,
                ),
                PrinterSubcommand::Show(id) => (
                    Args::Ids(
                        match id.get_ids() {
                            Ok(v) => v,
                            Err(e) => return Err(e),
                        },
                    ),
                    ApiEndpoints::PrinterShow,
                ),
                PrinterSubcommand::List => (Args::NoArgs, ApiEndpoints::PrinterList),
            },
            EntityType::Patch(command) => match &command.patch_command {
                PatchSubcommand::Policy(inner) => match inner {
                    PatchPolicyCommand::Delete(id) => (
                        Args::Ids(
                            match id.get_ids() {
                                Ok(v) => v,
                                Err(e) => return Err(e),
                            },
                        ),
                        ApiEndpoints::PatchPolicyDelete,
                    ),
                    PatchPolicyCommand::Show(id) => (
                        Args::Ids(
                            match id.get_ids() {
                                Ok(v) => v,
                                Err(e) => return Err(e),
                            },
                        ),
                        ApiEndpoints::PatchPolicyShow,
                    ),
                    PatchPolicyCommand::List => (Args::NoArgs, ApiEndpoints::PatchPolicyList),
                },
                PatchSubcommand::Report(inner) => match inner {
                    PatchReportCommand::ListSoftware(id) => (
                        Args::Ids(
                            match id.get_ids() {
                                Ok(v) => v,
                                Err(e) => return Err(e),
                            },
                        ),
                        ApiEndpoints::PatchReportListSoftware,
                    ),
                    PatchReportCommand::ListComputer { id, software_version } => (
                        Args::Strings(two_substitutions(
                            "{id}",
                            id,
                            "{software_version}",
                            software_version,
                        )),
                        ApiEndpoints::PatchReportListComputer,
                    ),
                },
                PatchSubcommand::SoftwareTitles(inner) => match inner {
                    PatchSoftwareTitleCommand::Delete(id) => (
                        Args::Ids(
                            match id.get_ids() {
                                Ok(v) => v,
                                Err(e) => return Err(e),
                            },
                        ),
                        ApiEndpoints::PatchSoftwareTitleDelete,
                    ),
                    PatchSoftwareTitleCommand::Show(id) => (
                        Args::Ids(
                            match id.get_ids() {
                                Ok(v) => v,
                                Err(e) => return Err(e),
                            },
                        ),
                        ApiEndpoints::PatchSoftwareTitleShow,
                    ),
                    PatchSoftwareTitleCommand::List => (Args::NoArgs, ApiEndpoints::PatchSoftwareTitleList),
                },
                PatchSubcommand::AvailableTitles(inner) => match inner {
                    PatchAvailableTitleCommand::List(id) => (
                        Args::Ids(
                            match id.get_ids() {
                                Ok(v) => v,
                                Err(e) => return Err(e),
                            },
                        ),
                        ApiEndpoints::PatchAvailableTitleList,
                    ),
                },
                PatchSubcommand::ExternalSources(inner) => match inner {
                    PatchExternalSourceCommand::Delete(id) => (
                        Args::Ids(
                            match id.get_ids() {
                                Ok(v) => v,
                                Err(e) => return Err(e),
                            },
                        ),
                        ApiEndpoints::PatchExternalSourceDelete,
                    ),
                    PatchExternalSourceCommand::Show(id) => (
                        Args::Ids(
                            match id.get_ids() {
                                Ok(v) => v,
                                Err(e) => return Err(e),
                            },
                        ),
                        ApiEndpoints::PatchExternalSourceShow,
                    ),
                    PatchExternalSourceCommand::List => (Args::NoArgs, ApiEndpoints::PatchExternalSourceList),
                },
                PatchSubcommand::InternalSources(inner) => match inner {
                    PatchInternalSourceCommand::Show(id) => (
                        Args::Ids(
                            match id.get_ids() {
                                Ok(v) => v,
                                Err(e) => return Err(e),
                            },
                        ),
                        ApiEndpoints::PatchInternalSourceShow,
                    ),
                    PatchInternalSourceCommand::List => (Args::NoArgs, ApiEndpoints::PatchInternalSourceList),
                },
            },
            EntityType::Group(command) => match &command.group_command {
                GroupSubcommand::Computer(inner) => match inner {
                    ComputerGroupCommand::Delete(id) => (
                        Args::Ids(
                            match id.get_ids() {
                                Ok(v) => v,
                                Err(e) => return Err(e),
                            },
                        ),
                        ApiEndpoints::GroupComputerDelete,
                    ),
                    ComputerGroupCommand::Show(id) => (
                        Args::Ids(
                            match id.get_ids() {
                                Ok(v) => v,
                                Err(e) => return Err(e),
                            },
                        ),
                        ApiEndpoints::GroupComputerShow,
                    ),
                    ComputerGroupCommand::List => (Args::NoArgs, ApiEndpoints::GroupComputerList),
                },
                GroupSubcommand::Mobile(inner) => match inner {
                    MobileGroupCommand::Delete(id) => (
                        Args::Ids(
                            match id.get_ids() {
                                Ok(v) => v,
                                Err(e) => return Err(e),
                            },
                        ),
                        ApiEndpoints::GroupMobileDelete,
                    ),
                    MobileGroupCommand::Show(id) => (
                        Args::Ids(
                            match id.get_ids() {
                                Ok(v) => v,
                                Err(e) => return Err(e),
                            },
                        ),
                        ApiEndpoints::GroupMobileShow,
                    ),
                    MobileGroupCommand::List => (Args::NoArgs, ApiEndpoints::GroupMobileList),
                },
                GroupSubcommand::User(inner) => match inner {
                    UserGroupCommand::Delete(id) => (
                        Args::Ids(
                            match id.get_ids() {
                                Ok(v) => v,
                                Err(e) => return Err(e),
                            },
                        ),
                        ApiEndpoints::GroupUserDelete,
                    ),
                    UserGroupCommand::Show(id) => (
                        Args::Ids(
                            match id.get_ids() {
                                Ok(v) => v,
                                Err(e) => return Err(e),
                            },
                        ),
                        ApiEndpoints::GroupUserShow,
                    ),
                    UserGroupCommand::List => (Args::NoArgs, ApiEndpoints::GroupUserList),
                },
            },
            EntityType::AdvSearch(command) => match &command.adv_search_command {
                AdvSearchSubcommand::Computer(inner) => match inner {
                    ComputerAdvSearchCommand::Delete(id) => (
                        Args::Ids(
                            match id.get_ids() {
                                Ok(v) => v,
                                Err(e) => return Err(e),
                            },
                        ),
                        ApiEndpoints::AdvSearchComputerDelete,
                    ),
                    ComputerAdvSearchCommand::Show(id) => (
                        Args::Ids(
                            match id.get_ids() {
                                Ok(v) => v,
                                Err(e) => return Err(e),
                            },
                        ),
                        ApiEndpoints::AdvSearchComputerShow,
                    ),
                    ComputerAdvSearchCommand::List => (Args::NoArgs, ApiEndpoints::AdvSearchComputerList),
                },
                AdvSearchSubcommand::Mobile(inner) => match inner {
                    MobileAdvSearchCommand::Delete(id) => (
                        Args::Ids(
                            match id.get_ids() {
                                Ok(v) => v,
                                Err(e) => return Err(e),
                            },
                        ),
                        ApiEndpoints::AdvSearchMobileDelete,
                    ),
                    MobileAdvSearchCommand::Show(id) => (
                        Args::Ids(
                            match id.get_ids() {
                                Ok(v) => v,
                                Err(e) => return Err(e),
                            },
                        ),
                        ApiEndpoints::AdvSearchMobileShow,
                    ),
                    MobileAdvSearchCommand::List => (Args::NoArgs, ApiEndpoints::AdvSearchMobileList),
                },
                AdvSearchSubcommand::User(inner) => match inner {
                    UserAdvSearchCommand::Delete(id) => (
                        Args::Ids(
                            match id.get_ids() {
                                Ok(v) => v,
                                Err(e) => return Err(e),
                            },
                        ),
                        ApiEndpoints::AdvSearchUserDelete,
                    ),
                    UserAdvSearchCommand::Show(id) => (
                        Args::Ids(
                            match id.get_ids() {
                                Ok(v) => v,
                                Err(e) => return Err(e),
                            },
                        ),
                        ApiEndpoints::AdvSearchUserShow,
                    ),
                    UserAdvSearchCommand::List => (Args::NoArgs, ApiEndpoints::AdvSearchUserList),
                },
            },
        };
        Ok(ApiDetails { args, endpoint: endpoint.usage() })
    }
}

} // verus!

//! Bodies of requests and responses of the jobs API of the same workspace.
//! Fields whose types this library does not model are left out.

use std::collections::HashMap;

use vstd::prelude::*;

verus! {

pub struct AccessControlRequest {
    pub user_name: Option<String>,
    pub group_name: Option<String>,
    pub service_principal_name: Option<String>,
}

impl AccessControlRequest {
    pub fn new() -> (r: AccessControlRequest)
        ensures
            r.user_name is None,
            r.group_name is None,
            r.service_principal_name is None,
    {
        AccessControlRequest { user_name: None, group_name: None, service_principal_name: None }
    }
}

pub struct ClusterCloudProviderNodeInfo {
    pub available_core_quota: Option<i32>,
    pub total_core_quota: Option<i32>,
}

impl ClusterCloudProviderNodeInfo {
    pub fn new() -> (r: ClusterCloudProviderNodeInfo)
        ensures
            r.available_core_quota is None,
            r.total_core_quota is None,
    {
        ClusterCloudProviderNodeInfo { available_core_quota: None, total_core_quota: None }
    }
}

/// A cluster created for the runs of a job.
pub struct NewCluster {
    pub num_workers: u32,
    pub spark_version: String,
    pub node_type_id: String,
    pub spark_conf: Option<HashMap<String, String>>,
    pub custom_tags: Option<HashMap<String, String>>,
}

pub struct ClusterSpec {
    /// The cluster on which every run of the job runs, where one is reused.
    pub existing_cluster_id: Option<String>,
    /// The cluster created for each run, where none is reused.
    pub new_cluster: Option<Box<NewCluster>>,
}

impl ClusterSpec {
    pub fn new() -> (r: ClusterSpec)
        ensures
            r.existing_cluster_id is None,
            r.new_cluster is None,
    {
        ClusterSpec { existing_cluster_id: None, new_cluster: None }
    }
}

/// Where an init script is stored: the destination in the file store or on
/// the local disk of the nodes.
pub struct InitScriptInfo {
    pub dbfs: Option<String>,
    pub file: Option<String>,
}

impl InitScriptInfo {
    pub fn new() -> (r: InitScriptInfo)
        ensures
            r.dbfs is None,
            r.file is None,
    {
        InitScriptInfo { dbfs: None, file: None }
    }
}

/// The body of a job update.
pub struct InlineObject1 {
    pub job_id: i64,
    pub fields_to_remove: Option<Vec<String>>,
}

impl InlineObject1 {
    pub fn new(job_id: i64) -> (r: InlineObject1)
        ensures
            r.job_id == job_id,
            r.fields_to_remove is None,
    {
        InlineObject1 { job_id, fields_to_remove: None }
    }
}

/// The body of a request on one job.
pub struct InlineObject2 {
    pub job_id: i64,
}

impl InlineObject2 {
    pub fn new(job_id: i64) -> (r: InlineObject2)
        ensures
            r.job_id == job_id,
    {
        InlineObject2 { job_id }
    }
}

/// The body of a request on one run.
pub struct InlineObject3 {
    pub run_id: i64,
}

impl InlineObject3 {
    pub fn new(run_id: i64) -> (r: InlineObject3)
        ensures
            r.run_id == run_id,
    {
        InlineObject3 { run_id }
    }
}

/// A page of the job list.
pub struct InlineResponse2001 {
    pub has_more: Option<bool>,
}

impl InlineResponse2001 {
    pub fn new() -> (r: InlineResponse2001)
        ensures
            r.has_more is None,
    {
        InlineResponse2001 { has_more: None }
    }
}

/// The exported views of a run: the content of each view.
pub struct InlineResponse2006 {
    pub views: Option<Vec<String>>,
}

impl InlineResponse2006 {
    pub fn new() -> (r: InlineResponse2006)
        ensures
            r.views is None,
    {
        InlineResponse2006 { views: None }
    }
}

pub struct JobEmailNotifications {
    pub on_start: Option<Vec<String>>,
    pub on_success: Option<Vec<String>>,
    pub on_failure: Option<Vec<String>>,
    pub no_alert_for_skipped_runs: Option<bool>,
}

impl JobEmailNotifications {
    pub fn new() -> (r: JobEmailNotifications)
        ensures
            r.on_start is None,
            r.on_success is None,
            r.on_failure is None,
            r.no_alert_for_skipped_runs is None,
    {
        JobEmailNotifications {
            on_start: None,
            on_success: None,
            on_failure: None,
            no_alert_for_skipped_runs: None,
        }
    }
}

#[allow(non_camel_case_types, clippy::upper_case_acronyms)]
#[derive(Clone, Copy, Debug, PartialEq, Eq, Structural)]
pub enum LibraryInstallStatus {
    PENDING,
    RESOLVING,
    INSTALLING,
    INSTALLED,
    SKIPPED,
    FAILED,
    UNINSTALLONRESTART,
}

pub open spec fn install_status_name(s: LibraryInstallStatus) -> Seq<char> {
    match s {
        LibraryInstallStatus::PENDING => "PENDING"@,
        LibraryInstallStatus::RESOLVING => "RESOLVING"@,
        LibraryInstallStatus::INSTALLING => "INSTALLING"@,
        LibraryInstallStatus::INSTALLED => "INSTALLED"@,
        LibraryInstallStatus::SKIPPED => "SKIPPED"@,
        LibraryInstallStatus::FAILED => "FAILED"@,
        LibraryInstallStatus::UNINSTALLONRESTART => "UNINSTALL_ON_RESTART"@,
    }
}

impl LibraryInstallStatus {
    /// The name under which the service writes the status.
    pub fn to_string(&self) -> (r: String)
        ensures
            r@ == install_status_name(*self),
    {
        match self {
            LibraryInstallStatus::PENDING => String::from_str("PENDING"),
            LibraryInstallStatus::RESOLVING => String::from_str("RESOLVING"),
            LibraryInstallStatus::INSTALLING => String::from_str("INSTALLING"),
            LibraryInstallStatus::INSTALLED => String::from_str("INSTALLED"),
            LibraryInstallStatus::SKIPPED => String::from_str("SKIPPED"),
            LibraryInstallStatus::FAILED => String::from_str("FAILED"),
            LibraryInstallStatus::UNINSTALLONRESTART => String::from_str("UNINSTALL_ON_RESTART"),
        }
    }
}

impl Default for LibraryInstallStatus {
    fn default() -> (r: LibraryInstallStatus)
        ensures
            r == LibraryInstallStatus::PENDING,
    {
        LibraryInstallStatus::PENDING
    }
}

#[allow(clippy::upper_case_acronyms)]
#[derive(Clone, Copy, Debug, PartialEq, Eq, Structural)]
pub enum ListOrder {
    DESC,
    ASC,
}

impl ListOrder {
    /// The name under which the service writes the order.
    pub fn to_string(&self) -> (r: String)
        ensures
            r@ == match *self {
                ListOrder::DESC => "DESC"@,
                ListOrder::ASC => "ASC"@,
            },
    {
        match self {
            ListOrder::DESC => String::from_str("DESC"),
            ListOrder::ASC => String::from_str("ASC"),
        }
    }
}

impl Default for ListOrder {
    fn default() -> (r: ListOrder)
        ensures
            r == ListOrder::DESC,
    {
        ListOrder::DESC
    }
}

pub struct NotebookOutput {
    pub result: Option<String>,
    pub truncated: Option<bool>,
}

impl NotebookOutput {
    pub fn new() -> (r: NotebookOutput)
        ensures
            r.result is None,
            r.truncated is None,
    {
        NotebookOutput { result: None, truncated: None }
    }
}

pub struct SparkPythonTask {
    pub python_file: String,
    pub parameters: Option<Vec<String>>,
}

impl SparkPythonTask {
    pub fn new(python_file: String) -> (r: SparkPythonTask)
        ensures
            r.python_file == python_file,
            r.parameters is None,
    {
        SparkPythonTask { python_file, parameters: None }
    }
}

pub struct TerminationParameter {
    pub username: Option<String>,
    pub azure_error_code: Option<String>,
    pub azure_error_message: Option<String>,
    pub databricks_error_message: Option<String>,
    pub inactivity_duration_min: Option<String>,
    pub instance_id: Option<String>,
    pub instance_pool_id: Option<String>,
    pub instance_pool_error_code: Option<String>,
}

impl TerminationParameter {
    pub fn new() -> (r: TerminationParameter)
        ensures
            r.username is None,
            r.azure_error_code is None,
            r.azure_error_message is None,
            r.databricks_error_message is None,
            r.inactivity_duration_min is None,
            r.instance_id is None,
            r.instance_pool_id is None,
            r.instance_pool_error_code is None,
    {
        TerminationParameter {
            username: None,
            azure_error_code: None,
            azure_error_message: None,
            databricks_error_message: None,
            inactivity_duration_min: None,
            instance_id: None,
            instance_pool_id: None,
            instance_pool_error_code: None,
        }
    }
}

} // verus!

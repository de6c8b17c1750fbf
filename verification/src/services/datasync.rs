//! AWS DataSync tasks and locations as JSON.
use crate::json::{array_of, opt_str_json, str_json, text_value, with_opt, JsonObject, JsonValue, JsonView};
use crate::timestamp::{opt_rfc_json, Timestamp};
use std::sync::Arc;
use vstd::prelude::*;

verus! {

/// A task as `ListTasks` reports it; its status holds the AWS name.
pub struct TaskListEntry {
    pub task_arn: Option<String>,
    pub name: Option<String>,
    pub status: Option<String>,
}

/// How a task transfers; each option holds its AWS name.
pub struct TaskOptions {
    pub verify_mode: Option<String>,
    pub overwrite_mode: Option<String>,
    pub atime: Option<String>,
    pub mtime: Option<String>,
    pub uid: Option<String>,
    pub gid: Option<String>,
}

/// A rule that leaves files out of a transfer; its type holds the AWS name.
pub struct FilterRule {
    pub filter_type: Option<String>,
    pub value: Option<String>,
}

/// When a task runs.
pub struct TaskSchedule {
    pub schedule_expression: String,
}

/// A task as `DescribeTask` reports it; its status holds the AWS name.
pub struct TaskDescription {
    pub task_arn: Option<String>,
    pub name: Option<String>,
    pub status: Option<String>,
    pub source_location_arn: Option<String>,
    pub destination_location_arn: Option<String>,
    pub cloud_watch_log_group_arn: Option<String>,
    pub options: Option<TaskOptions>,
    pub excludes: Option<Vec<FilterRule>>,
    pub schedule: Option<TaskSchedule>,
    pub error_code: Option<String>,
    pub error_detail: Option<String>,
    pub creation_time: Option<Timestamp>,
}

/// A location as `ListLocations` reports it.
pub struct LocationListEntry {
    pub location_arn: Option<String>,
    pub location_uri: Option<String>,
}

/// Reads AWS DataSync tasks and locations through a credential coordinator `C`.
pub struct DataSyncService<C> {
    credential_coordinator: Arc<C>,
}

/// The JSON object of a listed task.
pub open spec fn task_json(task: TaskListEntry) -> JsonView {
    let m = Map::<Seq<char>, JsonView>::empty();
    let m = with_opt(m, "TaskArn"@, opt_str_json(task.task_arn));
    let m = with_opt(m, "ResourceId"@, opt_str_json(task.task_arn));
    let m = with_opt(m, "Name"@, opt_str_json(task.name));
    let m = with_opt(m, "Status"@, opt_str_json(task.status));
    let m = m.insert("ResourceType"@, JsonView::Str("AWS::DataSync::Task"@));
    JsonView::Object(m)
}

/// The JSON object of a `TaskOptions`.
pub open spec fn options_json(x: TaskOptions) -> JsonView {
    let m = Map::<Seq<char>, JsonView>::empty();
    let m = with_opt(m, "VerifyMode"@, opt_str_json(x.verify_mode));
    let m = with_opt(m, "OverwriteMode"@, opt_str_json(x.overwrite_mode));
    let m = with_opt(m, "Atime"@, opt_str_json(x.atime));
    let m = with_opt(m, "Mtime"@, opt_str_json(x.mtime));
    let m = with_opt(m, "Uid"@, opt_str_json(x.uid));
    let m = with_opt(m, "Gid"@, opt_str_json(x.gid));
    JsonView::Object(m)
}

fn options_to_json(x: &TaskOptions) -> (v: JsonValue)
    ensures
        v.view() == options_json(*x),
{
    let mut json = JsonObject::new();
    json.insert_opt_str("VerifyMode", &x.verify_mode);
    json.insert_opt_str("OverwriteMode", &x.overwrite_mode);
    json.insert_opt_str("Atime", &x.atime);
    json.insert_opt_str("Mtime", &x.mtime);
    json.insert_opt_str("Uid", &x.uid);
    json.insert_opt_str("Gid", &x.gid);
    JsonValue::Object(json)
}

/// The JSON object of a `FilterRule`.
pub open spec fn filter_rule_json(x: FilterRule) -> JsonView {
    let m = Map::<Seq<char>, JsonView>::empty();
    let m = with_opt(m, "FilterType"@, opt_str_json(x.filter_type));
    let m = with_opt(m, "Value"@, opt_str_json(x.value));
    JsonView::Object(m)
}

fn filter_rule_to_json(x: &FilterRule) -> (v: JsonValue)
    ensures
        v.view() == filter_rule_json(*x),
{
    let mut json = JsonObject::new();
    json.insert_opt_str("FilterType", &x.filter_type);
    json.insert_opt_str("Value", &x.value);
    JsonValue::Object(json)
}

/// The JSON object of a `TaskSchedule`.
pub open spec fn schedule_json(x: TaskSchedule) -> JsonView {
    let m = Map::<Seq<char>, JsonView>::empty();
    let m = m.insert("ScheduleExpression"@, str_json(x.schedule_expression));
    JsonView::Object(m)
}

fn schedule_to_json(x: &TaskSchedule) -> (v: JsonValue)
    ensures
        v.view() == schedule_json(*x),
{
    let mut json = JsonObject::new();
    json.insert_str("ScheduleExpression", &x.schedule_expression);
    JsonValue::Object(json)
}

/// The JSON object of a described task; its creation time in RFC 3339, empty where that format has no text for it.
pub open spec fn task_details_json(task: TaskDescription) -> JsonView {
    let m = Map::<Seq<char>, JsonView>::empty();
    let m = with_opt(m, "TaskArn"@, opt_str_json(task.task_arn));
    let m = with_opt(m, "ResourceId"@, opt_str_json(task.task_arn));
    let m = with_opt(m, "Name"@, opt_str_json(task.name));
    let m = with_opt(m, "Status"@, opt_str_json(task.status));
    let m = with_opt(m, "SourceLocationArn"@, opt_str_json(task.source_location_arn));
    let m = with_opt(m, "DestinationLocationArn"@, opt_str_json(task.destination_location_arn));
    let m = with_opt(m, "CloudWatchLogGroupArn"@, opt_str_json(task.cloud_watch_log_group_arn));
    let m = match task.options { Some(e) => m.insert("Options"@, options_json(e)), None => m };
    let m = match task.excludes { Some(v) => m.insert("Excludes"@, JsonView::Array(v@.map_values(|e: FilterRule| filter_rule_json(e)))), None => m };
    let m = match task.schedule { Some(e) => m.insert("Schedule"@, schedule_json(e)), None => m };
    let m = with_opt(m, "ErrorCode"@, opt_str_json(task.error_code));
    let m = with_opt(m, "ErrorDetail"@, opt_str_json(task.error_detail));
    let m = with_opt(m, "CreationTime"@, opt_rfc_json(task.creation_time));
    let m = m.insert("ResourceType"@, JsonView::Str("AWS::DataSync::Task"@));
    JsonView::Object(m)
}

/// The JSON object of a listed location.
pub open spec fn location_json(location: LocationListEntry) -> JsonView {
    let m = Map::<Seq<char>, JsonView>::empty();
    let m = with_opt(m, "LocationArn"@, opt_str_json(location.location_arn));
    let m = with_opt(m, "ResourceId"@, opt_str_json(location.location_arn));
    let m = with_opt(m, "LocationUri"@, opt_str_json(location.location_uri));
    let m = m.insert("ResourceType"@, JsonView::Str("AWS::DataSync::Location"@));
    JsonView::Object(m)
}

impl<C> DataSyncService<C> {
    /// The coordinator that the service was made with.
    pub closed spec fn coordinator(&self) -> Arc<C> {
        self.credential_coordinator
    }

    /// A service that obtains its AWS configurations from `credential_coordinator`.
    pub fn new(credential_coordinator: Arc<C>) -> (s: Self)
        ensures
            s.coordinator() == credential_coordinator,
    {
        Self { credential_coordinator }
    }

    /// The coordinator that the service was made with.
    pub fn credential_coordinator(&self) -> (c: &Arc<C>)
        ensures
            *c == self.coordinator(),
    {
        &self.credential_coordinator
    }

    /// The JSON object of a listed task.
    pub fn task_to_json(&self, task: &TaskListEntry) -> (v: JsonValue)
        ensures
            v.view() == task_json(*task),
    {
        let mut json = JsonObject::new();
        json.insert_opt_str("TaskArn", &task.task_arn);
        json.insert_opt_str("ResourceId", &task.task_arn);
        json.insert_opt_str("Name", &task.name);
        json.insert_opt_str("Status", &task.status);
        json.insert("ResourceType", text_value("AWS::DataSync::Task"));
        JsonValue::Object(json)
    }

    /// The JSON object of a described task; its creation time in RFC 3339, empty where that format has no text for it.
    pub fn task_details_to_json(&self, task: &TaskDescription) -> (v: JsonValue)
        ensures
            v.view() == task_details_json(*task),
    {
        let mut json = JsonObject::new();
        json.insert_opt_str("TaskArn", &task.task_arn);
        json.insert_opt_str("ResourceId", &task.task_arn);
        json.insert_opt_str("Name", &task.name);
        json.insert_opt_str("Status", &task.status);
        json.insert_opt_str("SourceLocationArn", &task.source_location_arn);
        json.insert_opt_str("DestinationLocationArn", &task.destination_location_arn);
        json.insert_opt_str("CloudWatchLogGroupArn", &task.cloud_watch_log_group_arn);
        if let Some(e) = &task.options {
            json.insert("Options", options_to_json(e));
        }
        if let Some(v) = &task.excludes {
            json.insert("Excludes", array_of(v, filter_rule_to_json, Ghost(|e: FilterRule| filter_rule_json(e))));
        }
        if let Some(e) = &task.schedule {
            json.insert("Schedule", schedule_to_json(e));
        }
        json.insert_opt_str("ErrorCode", &task.error_code);
        json.insert_opt_str("ErrorDetail", &task.error_detail);
        json.insert_opt_rfc("CreationTime", &task.creation_time);
        json.insert("ResourceType", text_value("AWS::DataSync::Task"));
        JsonValue::Object(json)
    }

    /// The JSON object of a listed location.
    pub fn location_to_json(&self, location: &LocationListEntry) -> (v: JsonValue)
        ensures
            v.view() == location_json(*location),
    {
        let mut json = JsonObject::new();
        json.insert_opt_str("LocationArn", &location.location_arn);
        json.insert_opt_str("ResourceId", &location.location_arn);
        json.insert_opt_str("LocationUri", &location.location_uri);
        json.insert("ResourceType", text_value("AWS::DataSync::Location"));
        JsonValue::Object(json)
    }

}


// ----- each reported field under its own key -----

/// What tells the keys of `task_json` apart: their lengths, and a letter where two have the same length.
proof fn lemma_task_json_keys_differ()
    ensures
        "Name"@.len() == 4,
        "ResourceId"@.len() == 10,
        "ResourceType"@.len() == 12,
        "Status"@.len() == 6,
        "TaskArn"@.len() == 7,
{
    reveal_strlit("Name");
    reveal_strlit("ResourceId");
    reveal_strlit("ResourceType");
    reveal_strlit("Status");
    reveal_strlit("TaskArn");
}

#[verifier::spinoff_prover]
#[verifier::rlimit(30)]
proof fn lemma_task_json_fields_0(task: TaskListEntry)
    ensures
        task_json(task) is Object,
        ({
            let m = task_json(task)->Object_0;
            &&& task.name is None ==> !m.contains_key("Name"@)
            &&& task.name is Some ==> m.contains_key("Name"@) && m["Name"@] == JsonView::Str(task.name->0@)
            &&& task.task_arn is None ==> !m.contains_key("ResourceId"@)
            &&& task.task_arn is Some ==> m.contains_key("ResourceId"@) && m["ResourceId"@] == JsonView::Str(task.task_arn->0@)
            &&& task.status is None ==> !m.contains_key("Status"@)
            &&& task.status is Some ==> m.contains_key("Status"@) && m["Status"@] == JsonView::Str(task.status->0@)
        }),
{
    lemma_task_json_keys_differ();
}

#[verifier::spinoff_prover]
#[verifier::rlimit(30)]
proof fn lemma_task_json_fields_1(task: TaskListEntry)
    ensures
        task_json(task) is Object,
        ({
            let m = task_json(task)->Object_0;
            &&& task.task_arn is None ==> !m.contains_key("TaskArn"@)
            &&& task.task_arn is Some ==> m.contains_key("TaskArn"@) && m["TaskArn"@] == JsonView::Str(task.task_arn->0@)
        }),
{
    lemma_task_json_keys_differ();
}

/// The object of a task list entry holds each reported field of it under its own key, and such a key is missing exactly when AWS did not report the field.
pub proof fn law_task_fields(task: TaskListEntry)
    ensures
        task_json(task) is Object,
        ({
            let m = task_json(task)->Object_0;
            &&& task.name is None ==> !m.contains_key("Name"@)
            &&& task.name is Some ==> m.contains_key("Name"@) && m["Name"@] == JsonView::Str(task.name->0@)
            &&& task.task_arn is None ==> !m.contains_key("ResourceId"@)
            &&& task.task_arn is Some ==> m.contains_key("ResourceId"@) && m["ResourceId"@] == JsonView::Str(task.task_arn->0@)
            &&& task.status is None ==> !m.contains_key("Status"@)
            &&& task.status is Some ==> m.contains_key("Status"@) && m["Status"@] == JsonView::Str(task.status->0@)
            &&& task.task_arn is None ==> !m.contains_key("TaskArn"@)
            &&& task.task_arn is Some ==> m.contains_key("TaskArn"@) && m["TaskArn"@] == JsonView::Str(task.task_arn->0@)
        }),
{
    lemma_task_json_fields_0(task);
    lemma_task_json_fields_1(task);
}

/// What tells the keys of `options_json` apart: their lengths, and a letter where two have the same length.
proof fn lemma_options_json_keys_differ()
    ensures
        "Atime"@.len() == 5 && "Atime"@[0] == 'A',
        "Gid"@.len() == 3 && "Gid"@[0] == 'G',
        "Mtime"@.len() == 5 && "Mtime"@[0] == 'M',
        "OverwriteMode"@.len() == 13,
        "Uid"@.len() == 3 && "Uid"@[0] == 'U',
        "VerifyMode"@.len() == 10,
{
    reveal_strlit("Atime");
    reveal_strlit("Gid");
    reveal_strlit("Mtime");
    reveal_strlit("OverwriteMode");
    reveal_strlit("Uid");
    reveal_strlit("VerifyMode");
}

#[verifier::spinoff_prover]
#[verifier::rlimit(30)]
proof fn lemma_options_json_fields_0(x: TaskOptions)
    ensures
        options_json(x) is Object,
        ({
            let m = options_json(x)->Object_0;
            &&& x.atime is None ==> !m.contains_key("Atime"@)
            &&& x.atime is Some ==> m.contains_key("Atime"@) && m["Atime"@] == JsonView::Str(x.atime->0@)
            &&& x.gid is None ==> !m.contains_key("Gid"@)
            &&& x.gid is Some ==> m.contains_key("Gid"@) && m["Gid"@] == JsonView::Str(x.gid->0@)
            &&& x.mtime is None ==> !m.contains_key("Mtime"@)
            &&& x.mtime is Some ==> m.contains_key("Mtime"@) && m["Mtime"@] == JsonView::Str(x.mtime->0@)
        }),
{
    lemma_options_json_keys_differ();
}

#[verifier::spinoff_prover]
#[verifier::rlimit(30)]
proof fn lemma_options_json_fields_1(x: TaskOptions)
    ensures
        options_json(x) is Object,
        ({
            let m = options_json(x)->Object_0;
            &&& x.overwrite_mode is None ==> !m.contains_key("OverwriteMode"@)
            &&& x.overwrite_mode is Some ==> m.contains_key("OverwriteMode"@) && m["OverwriteMode"@] == JsonView::Str(x.overwrite_mode->0@)
            &&& x.uid is None ==> !m.contains_key("Uid"@)
            &&& x.uid is Some ==> m.contains_key("Uid"@) && m["Uid"@] == JsonView::Str(x.uid->0@)
            &&& x.verify_mode is None ==> !m.contains_key("VerifyMode"@)
            &&& x.verify_mode is Some ==> m.contains_key("VerifyMode"@) && m["VerifyMode"@] == JsonView::Str(x.verify_mode->0@)
        }),
{
    lemma_options_json_keys_differ();
}

/// The object of a task options holds each reported field of it under its own key, and such a key is missing exactly when AWS did not report the field.
pub proof fn law_options_fields(x: TaskOptions)
    ensures
        options_json(x) is Object,
        ({
            let m = options_json(x)->Object_0;
            &&& x.atime is None ==> !m.contains_key("Atime"@)
            &&& x.atime is Some ==> m.contains_key("Atime"@) && m["Atime"@] == JsonView::Str(x.atime->0@)
            &&& x.gid is None ==> !m.contains_key("Gid"@)
            &&& x.gid is Some ==> m.contains_key("Gid"@) && m["Gid"@] == JsonView::Str(x.gid->0@)
            &&& x.mtime is None ==> !m.contains_key("Mtime"@)
            &&& x.mtime is Some ==> m.contains_key("Mtime"@) && m["Mtime"@] == JsonView::Str(x.mtime->0@)
            &&& x.overwrite_mode is None ==> !m.contains_key("OverwriteMode"@)
            &&& x.overwrite_mode is Some ==> m.contains_key("OverwriteMode"@) && m["OverwriteMode"@] == JsonView::Str(x.overwrite_mode->0@)
            &&& x.uid is None ==> !m.contains_key("Uid"@)
            &&& x.uid is Some ==> m.contains_key("Uid"@) && m["Uid"@] == JsonView::Str(x.uid->0@)
            &&& x.verify_mode is None ==> !m.contains_key("VerifyMode"@)
            &&& x.verify_mode is Some ==> m.contains_key("VerifyMode"@) && m["VerifyMode"@] == JsonView::Str(x.verify_mode->0@)
        }),
{
    lemma_options_json_fields_0(x);
    lemma_options_json_fields_1(x);
}

/// What tells the keys of `filter_rule_json` apart: their lengths, and a letter where two have the same length.
proof fn lemma_filter_rule_json_keys_differ()
    ensures
        "FilterType"@.len() == 10,
        "Value"@.len() == 5,
{
    reveal_strlit("FilterType");
    reveal_strlit("Value");
}

#[verifier::spinoff_prover]
#[verifier::rlimit(30)]
proof fn lemma_filter_rule_json_fields_0(x: FilterRule)
    ensures
        filter_rule_json(x) is Object,
        ({
            let m = filter_rule_json(x)->Object_0;
            &&& x.filter_type is None ==> !m.contains_key("FilterType"@)
            &&& x.filter_type is Some ==> m.contains_key("FilterType"@) && m["FilterType"@] == JsonView::Str(x.filter_type->0@)
            &&& x.value is None ==> !m.contains_key("Value"@)
            &&& x.value is Some ==> m.contains_key("Value"@) && m["Value"@] == JsonView::Str(x.value->0@)
        }),
{
    lemma_filter_rule_json_keys_differ();
}

/// The object of a filter rule holds each reported field of it under its own key, and such a key is missing exactly when AWS did not report the field.
pub proof fn law_filter_rule_fields(x: FilterRule)
    ensures
        filter_rule_json(x) is Object,
        ({
            let m = filter_rule_json(x)->Object_0;
            &&& x.filter_type is None ==> !m.contains_key("FilterType"@)
            &&& x.filter_type is Some ==> m.contains_key("FilterType"@) && m["FilterType"@] == JsonView::Str(x.filter_type->0@)
            &&& x.value is None ==> !m.contains_key("Value"@)
            &&& x.value is Some ==> m.contains_key("Value"@) && m["Value"@] == JsonView::Str(x.value->0@)
        }),
{
    lemma_filter_rule_json_fields_0(x);
}

/// What tells the keys of `task_details_json` apart: their lengths, and a letter where two have the same length.
proof fn lemma_task_details_json_keys_differ()
    ensures
        "CloudWatchLogGroupArn"@.len() == 21,
        "CreationTime"@.len() == 12 && "CreationTime"@[0] == 'C',
        "DestinationLocationArn"@.len() == 22,
        "ErrorCode"@.len() == 9,
        "ErrorDetail"@.len() == 11,
        "Excludes"@.len() == 8 && "Excludes"@[0] == 'E',
        "Name"@.len() == 4,
        "Options"@.len() == 7 && "Options"@[0] == 'O',
        "ResourceId"@.len() == 10,
        "ResourceType"@.len() == 12 && "ResourceType"@[0] == 'R',
        "Schedule"@.len() == 8 && "Schedule"@[0] == 'S',
        "SourceLocationArn"@.len() == 17,
        "Status"@.len() == 6,
        "TaskArn"@.len() == 7 && "TaskArn"@[0] == 'T',
{
    reveal_strlit("CloudWatchLogGroupArn");
    reveal_strlit("CreationTime");
    reveal_strlit("DestinationLocationArn");
    reveal_strlit("ErrorCode");
    reveal_strlit("ErrorDetail");
    reveal_strlit("Excludes");
    reveal_strlit("Name");
    reveal_strlit("Options");
    reveal_strlit("ResourceId");
    reveal_strlit("ResourceType");
    reveal_strlit("Schedule");
    reveal_strlit("SourceLocationArn");
    reveal_strlit("Status");
    reveal_strlit("TaskArn");
}

#[verifier::spinoff_prover]
#[verifier::rlimit(30)]
proof fn lemma_task_details_json_fields_0(task: TaskDescription)
    ensures
        task_details_json(task) is Object,
        ({
            let m = task_details_json(task)->Object_0;
            &&& task.cloud_watch_log_group_arn is None ==> !m.contains_key("CloudWatchLogGroupArn"@)
            &&& task.cloud_watch_log_group_arn is Some ==> m.contains_key("CloudWatchLogGroupArn"@) && m["CloudWatchLogGroupArn"@] == JsonView::Str(task.cloud_watch_log_group_arn->0@)
            &&& task.destination_location_arn is None ==> !m.contains_key("DestinationLocationArn"@)
            &&& task.destination_location_arn is Some ==> m.contains_key("DestinationLocationArn"@) && m["DestinationLocationArn"@] == JsonView::Str(task.destination_location_arn->0@)
            &&& task.error_code is None ==> !m.contains_key("ErrorCode"@)
            &&& task.error_code is Some ==> m.contains_key("ErrorCode"@) && m["ErrorCode"@] == JsonView::Str(task.error_code->0@)
        }),
{
    lemma_task_details_json_keys_differ();
}

#[verifier::spinoff_prover]
#[verifier::rlimit(30)]
proof fn lemma_task_details_json_fields_1(task: TaskDescription)
    ensures
        task_details_json(task) is Object,
        ({
            let m = task_details_json(task)->Object_0;
            &&& task.error_detail is None ==> !m.contains_key("ErrorDetail"@)
            &&& task.error_detail is Some ==> m.contains_key("ErrorDetail"@) && m["ErrorDetail"@] == JsonView::Str(task.error_detail->0@)
            &&& task.name is None ==> !m.contains_key("Name"@)
            &&& task.name is Some ==> m.contains_key("Name"@) && m["Name"@] == JsonView::Str(task.name->0@)
            &&& task.task_arn is None ==> !m.contains_key("ResourceId"@)
            &&& task.task_arn is Some ==> m.contains_key("ResourceId"@) && m["ResourceId"@] == JsonView::Str(task.task_arn->0@)
        }),
{
    lemma_task_details_json_keys_differ();
}

#[verifier::spinoff_prover]
#[verifier::rlimit(30)]
proof fn lemma_task_details_json_fields_2(task: TaskDescription)
    ensures
        task_details_json(task) is Object,
        ({
            let m = task_details_json(task)->Object_0;
            &&& task.source_location_arn is None ==> !m.contains_key("SourceLocationArn"@)
            &&& task.source_location_arn is Some ==> m.contains_key("SourceLocationArn"@) && m["SourceLocationArn"@] == JsonView::Str(task.source_location_arn->0@)
            &&& task.status is None ==> !m.contains_key("Status"@)
            &&& task.status is Some ==> m.contains_key("Status"@) && m["Status"@] == JsonView::Str(task.status->0@)
            &&& task.task_arn is None ==> !m.contains_key("TaskArn"@)
            &&& task.task_arn is Some ==> m.contains_key("TaskArn"@) && m["TaskArn"@] == JsonView::Str(task.task_arn->0@)
        }),
{
    lemma_task_details_json_keys_differ();
}

/// The object of a task description holds each reported field of it under its own key, and such a key is missing exactly when AWS did not report the field.
pub proof fn law_task_details_fields(task: TaskDescription)
    ensures
        task_details_json(task) is Object,
        ({
            let m = task_details_json(task)->Object_0;
            &&& task.cloud_watch_log_group_arn is None ==> !m.contains_key("CloudWatchLogGroupArn"@)
            &&& task.cloud_watch_log_group_arn is Some ==> m.contains_key("CloudWatchLogGroupArn"@) && m["CloudWatchLogGroupArn"@] == JsonView::Str(task.cloud_watch_log_group_arn->0@)
            &&& task.destination_location_arn is None ==> !m.contains_key("DestinationLocationArn"@)
            &&& task.destination_location_arn is Some ==> m.contains_key("DestinationLocationArn"@) && m["DestinationLocationArn"@] == JsonView::Str(task.destination_location_arn->0@)
            &&& task.error_code is None ==> !m.contains_key("ErrorCode"@)
            &&& task.error_code is Some ==> m.contains_key("ErrorCode"@) && m["ErrorCode"@] == JsonView::Str(task.error_code->0@)
            &&& task.error_detail is None ==> !m.contains_key("ErrorDetail"@)
            &&& task.error_detail is Some ==> m.contains_key("ErrorDetail"@) && m["ErrorDetail"@] == JsonView::Str(task.error_detail->0@)
            &&& task.name is None ==> !m.contains_key("Name"@)
            &&& task.name is Some ==> m.contains_key("Name"@) && m["Name"@] == JsonView::Str(task.name->0@)
            &&& task.task_arn is None ==> !m.contains_key("ResourceId"@)
            &&& task.task_arn is Some ==> m.contains_key("ResourceId"@) && m["ResourceId"@] == JsonView::Str(task.task_arn->0@)
            &&& task.source_location_arn is None ==> !m.contains_key("SourceLocationArn"@)
            &&& task.source_location_arn is Some ==> m.contains_key("SourceLocationArn"@) && m["SourceLocationArn"@] == JsonView::Str(task.source_location_arn->0@)
            &&& task.status is None ==> !m.contains_key("Status"@)
            &&& task.status is Some ==> m.contains_key("Status"@) && m["Status"@] == JsonView::Str(task.status->0@)
            &&& task.task_arn is None ==> !m.contains_key("TaskArn"@)
            &&& task.task_arn is Some ==> m.contains_key("TaskArn"@) && m["TaskArn"@] == JsonView::Str(task.task_arn->0@)
        }),
{
    lemma_task_details_json_fields_0(task);
    lemma_task_details_json_fields_1(task);
    lemma_task_details_json_fields_2(task);
}

/// What tells the keys of `location_json` apart: their lengths, and a letter where two have the same length.
proof fn lemma_location_json_keys_differ()
    ensures
        "LocationArn"@.len() == 11 && "LocationArn"@[8] == 'A',
        "LocationUri"@.len() == 11 && "LocationUri"@[8] == 'U',
        "ResourceId"@.len() == 10,
        "ResourceType"@.len() == 12,
{
    reveal_strlit("LocationArn");
    reveal_strlit("LocationUri");
    reveal_strlit("ResourceId");
    reveal_strlit("ResourceType");
}

#[verifier::spinoff_prover]
#[verifier::rlimit(30)]
proof fn lemma_location_json_fields_0(location: LocationListEntry)
    ensures
        location_json(location) is Object,
        ({
            let m = location_json(location)->Object_0;
            &&& location.location_arn is None ==> !m.contains_key("LocationArn"@)
            &&& location.location_arn is Some ==> m.contains_key("LocationArn"@) && m["LocationArn"@] == JsonView::Str(location.location_arn->0@)
            &&& location.location_uri is None ==> !m.contains_key("LocationUri"@)
            &&& location.location_uri is Some ==> m.contains_key("LocationUri"@) && m["LocationUri"@] == JsonView::Str(location.location_uri->0@)
            &&& location.location_arn is None ==> !m.contains_key("ResourceId"@)
            &&& location.location_arn is Some ==> m.contains_key("ResourceId"@) && m["ResourceId"@] == JsonView::Str(location.location_arn->0@)
        }),
{
    lemma_location_json_keys_differ();
}

/// The object of a location list entry holds each reported field of it under its own key, and such a key is missing exactly when AWS did not report the field.
pub proof fn law_location_fields(location: LocationListEntry)
    ensures
        location_json(location) is Object,
        ({
            let m = location_json(location)->Object_0;
            &&& location.location_arn is None ==> !m.contains_key("LocationArn"@)
            &&& location.location_arn is Some ==> m.contains_key("LocationArn"@) && m["LocationArn"@] == JsonView::Str(location.location_arn->0@)
            &&& location.location_uri is None ==> !m.contains_key("LocationUri"@)
            &&& location.location_uri is Some ==> m.contains_key("LocationUri"@) && m["LocationUri"@] == JsonView::Str(location.location_uri->0@)
            &&& location.location_arn is None ==> !m.contains_key("ResourceId"@)
            &&& location.location_arn is Some ==> m.contains_key("ResourceId"@) && m["ResourceId"@] == JsonView::Str(location.location_arn->0@)
        }),
{
    lemma_location_json_fields_0(location);
}

} // verus!

//! CloudFormation stacks as JSON: the stacks, their events, resources, policies and drift.
use crate::json::{array_of, str_json, opt_bool_json, opt_int_json, opt_str_json, opt_strs_json, opt_view, with_opt, opt_text, opt_text_json, items_view, lemma_items_view_push, note_value, note_view, JsonObject, JsonValue, JsonView};
use crate::timestamp::{opt_ts_json, ts_json, Timestamp};
use crate::text::{concat_text, contains, has_substring};
use std::sync::Arc;
use vstd::prelude::*;

verus! {

/// A tag of a stack.
pub struct Tag {
    pub key: Option<String>,
    pub value: Option<String>,
}

/// An output of a stack.
pub struct Output {
    pub output_key: Option<String>,
    pub output_value: Option<String>,
    pub description: Option<String>,
    pub export_name: Option<String>,
}

/// A parameter of a stack.
pub struct Parameter {
    pub parameter_key: Option<String>,
    pub parameter_value: Option<String>,
    pub resolved_value: Option<String>,
}

/// When drift was last checked, and its outcome.
pub struct StackDriftInformation {
    pub stack_drift_status: Option<String>,
    pub last_check_timestamp: Option<Timestamp>,
}

/// A stack as `DescribeStacks` reports it; enumerations hold their AWS names.
pub struct Stack {
    pub stack_id: Option<String>,
    pub stack_name: Option<String>,
    pub description: Option<String>,
    pub creation_time: Option<Timestamp>,
    pub last_updated_time: Option<Timestamp>,
    pub stack_status: Option<String>,
    pub stack_status_reason: Option<String>,
    pub disable_rollback: Option<bool>,
    pub timeout_in_minutes: Option<i64>,
    pub capabilities: Option<Vec<String>>,
    pub outputs: Option<Vec<Output>>,
    pub parameters: Option<Vec<Parameter>>,
    pub tags: Option<Vec<Tag>>,
    pub role_arn: Option<String>,
    pub drift_information: Option<StackDriftInformation>,
    pub enable_termination_protection: Option<bool>,
    pub parent_id: Option<String>,
    pub root_id: Option<String>,
}

/// An event of a stack.
pub struct StackEvent {
    pub event_id: Option<String>,
    pub logical_resource_id: Option<String>,
    pub physical_resource_id: Option<String>,
    pub resource_type: Option<String>,
    pub timestamp: Option<Timestamp>,
    pub resource_status: Option<String>,
    pub resource_status_reason: Option<String>,
}

/// When a resource's drift was last checked, and its outcome.
pub struct StackResourceDriftInformationSummary {
    pub stack_resource_drift_status: Option<String>,
    pub last_check_timestamp: Option<Timestamp>,
}

/// A resource of a stack.
pub struct StackResourceSummary {
    pub logical_resource_id: Option<String>,
    pub physical_resource_id: Option<String>,
    pub resource_type: Option<String>,
    pub resource_status: Option<String>,
    pub resource_status_reason: Option<String>,
    pub last_updated_timestamp: Option<Timestamp>,
    pub drift_information: Option<StackResourceDriftInformationSummary>,
}

/// What `DescribeStackDriftDetectionStatus` reports.
pub struct StackDriftDetectionStatus {
    pub stack_id: Option<String>,
    pub stack_drift_detection_id: Option<String>,
    pub stack_drift_status: Option<String>,
    pub detection_status: Option<String>,
    pub detection_status_reason: Option<String>,
    pub drifted_stack_resource_count: Option<i64>,
    pub timestamp: Option<Timestamp>,
}

/// Reads CloudFormation stacks through a credential coordinator `C`.
pub struct CloudFormationService<C> {
    credential_coordinator: Arc<C>,
}

/// The JSON object of a `Tag`.
pub open spec fn tag_json(x: Tag) -> JsonView {
    let m = Map::<Seq<char>, JsonView>::empty();
    let m = with_opt(m, "Key"@, opt_str_json(x.key));
    let m = with_opt(m, "Value"@, opt_str_json(x.value));
    JsonView::Object(m)
}

fn tag_to_json(x: &Tag) -> (v: JsonValue)
    ensures
        v.view() == tag_json(*x),
{
    let mut json = JsonObject::new();
    json.insert_opt_str("Key", &x.key);
    json.insert_opt_str("Value", &x.value);
    JsonValue::Object(json)
}

/// The JSON object of a `Output`.
pub open spec fn output_json(x: Output) -> JsonView {
    let m = Map::<Seq<char>, JsonView>::empty();
    let m = with_opt(m, "OutputKey"@, opt_str_json(x.output_key));
    let m = with_opt(m, "OutputValue"@, opt_str_json(x.output_value));
    let m = with_opt(m, "Description"@, opt_str_json(x.description));
    let m = with_opt(m, "ExportName"@, opt_str_json(x.export_name));
    JsonView::Object(m)
}

fn output_to_json(x: &Output) -> (v: JsonValue)
    ensures
        v.view() == output_json(*x),
{
    let mut json = JsonObject::new();
    json.insert_opt_str("OutputKey", &x.output_key);
    json.insert_opt_str("OutputValue", &x.output_value);
    json.insert_opt_str("Description", &x.description);
    json.insert_opt_str("ExportName", &x.export_name);
    JsonValue::Object(json)
}

/// The JSON object of a `Parameter`.
pub open spec fn parameter_json(x: Parameter) -> JsonView {
    let m = Map::<Seq<char>, JsonView>::empty();
    let m = with_opt(m, "ParameterKey"@, opt_str_json(x.parameter_key));
    let m = with_opt(m, "ParameterValue"@, opt_str_json(x.parameter_value));
    let m = with_opt(m, "ResolvedValue"@, opt_str_json(x.resolved_value));
    JsonView::Object(m)
}

fn parameter_to_json(x: &Parameter) -> (v: JsonValue)
    ensures
        v.view() == parameter_json(*x),
{
    let mut json = JsonObject::new();
    json.insert_opt_str("ParameterKey", &x.parameter_key);
    json.insert_opt_str("ParameterValue", &x.parameter_value);
    json.insert_opt_str("ResolvedValue", &x.resolved_value);
    JsonValue::Object(json)
}

/// The JSON object of a `StackDriftInformation`.
pub open spec fn stack_drift_json(x: StackDriftInformation) -> JsonView {
    let m = Map::<Seq<char>, JsonView>::empty();
    let m = with_opt(m, "StackDriftStatus"@, opt_str_json(x.stack_drift_status));
    let m = with_opt(m, "LastCheckTimestamp"@, opt_ts_json(x.last_check_timestamp));
    JsonView::Object(m)
}

fn stack_drift_to_json(x: &StackDriftInformation) -> (v: JsonValue)
    ensures
        v.view() == stack_drift_json(*x),
{
    let mut json = JsonObject::new();
    json.insert_opt_str("StackDriftStatus", &x.stack_drift_status);
    json.insert_opt_ts("LastCheckTimestamp", &x.last_check_timestamp);
    JsonValue::Object(json)
}

/// The JSON object of a stack, with its name and status also under `Name` and `Status`.
pub open spec fn stack_json(stack: Stack) -> JsonView {
    let m = Map::<Seq<char>, JsonView>::empty();
    let m = with_opt(m, "StackId"@, opt_str_json(stack.stack_id));
    let m = with_opt(m, "StackName"@, opt_str_json(stack.stack_name));
    let m = with_opt(m, "Name"@, opt_str_json(stack.stack_name));
    let m = with_opt(m, "Description"@, opt_str_json(stack.description));
    let m = with_opt(m, "CreationTime"@, opt_ts_json(stack.creation_time));
    let m = with_opt(m, "LastUpdatedTime"@, opt_ts_json(stack.last_updated_time));
    let m = with_opt(m, "StackStatus"@, opt_str_json(stack.stack_status));
    let m = with_opt(m, "Status"@, opt_str_json(stack.stack_status));
    let m = with_opt(m, "StackStatusReason"@, opt_str_json(stack.stack_status_reason));
    let m = with_opt(m, "DisableRollback"@, opt_bool_json(stack.disable_rollback));
    let m = with_opt(m, "TimeoutInMinutes"@, opt_int_json(stack.timeout_in_minutes));
    let m = with_opt(m, "Capabilities"@, opt_strs_json(stack.capabilities));
    let m = match stack.outputs { Some(v) => m.insert("Outputs"@, JsonView::Array(v@.map_values(|e: Output| output_json(e)))), None => m };
    let m = match stack.parameters { Some(v) => m.insert("Parameters"@, JsonView::Array(v@.map_values(|e: Parameter| parameter_json(e)))), None => m };
    let m = match stack.tags { Some(v) => m.insert("Tags"@, JsonView::Array(v@.map_values(|e: Tag| tag_json(e)))), None => m };
    let m = with_opt(m, "RoleArn"@, opt_str_json(stack.role_arn));
    let m = match stack.drift_information { Some(e) => m.insert("DriftInformation"@, stack_drift_json(e)), None => m };
    let m = with_opt(m, "EnableTerminationProtection"@, opt_bool_json(stack.enable_termination_protection));
    let m = with_opt(m, "ParentId"@, opt_str_json(stack.parent_id));
    let m = with_opt(m, "RootId"@, opt_str_json(stack.root_id));
    JsonView::Object(m)
}

/// The JSON object of a `StackEvent`.
pub open spec fn stack_event_json(x: StackEvent) -> JsonView {
    let m = Map::<Seq<char>, JsonView>::empty();
    let m = with_opt(m, "EventId"@, opt_str_json(x.event_id));
    let m = with_opt(m, "LogicalResourceId"@, opt_str_json(x.logical_resource_id));
    let m = with_opt(m, "PhysicalResourceId"@, opt_str_json(x.physical_resource_id));
    let m = with_opt(m, "ResourceType"@, opt_str_json(x.resource_type));
    let m = with_opt(m, "Timestamp"@, opt_ts_json(x.timestamp));
    let m = with_opt(m, "ResourceStatus"@, opt_str_json(x.resource_status));
    let m = with_opt(m, "ResourceStatusReason"@, opt_str_json(x.resource_status_reason));
    JsonView::Object(m)
}

fn stack_event_to_json(x: &StackEvent) -> (v: JsonValue)
    ensures
        v.view() == stack_event_json(*x),
{
    let mut json = JsonObject::new();
    json.insert_opt_str("EventId", &x.event_id);
    json.insert_opt_str("LogicalResourceId", &x.logical_resource_id);
    json.insert_opt_str("PhysicalResourceId", &x.physical_resource_id);
    json.insert_opt_str("ResourceType", &x.resource_type);
    json.insert_opt_ts("Timestamp", &x.timestamp);
    json.insert_opt_str("ResourceStatus", &x.resource_status);
    json.insert_opt_str("ResourceStatusReason", &x.resource_status_reason);
    JsonValue::Object(json)
}

/// The JSON object of a `StackResourceDriftInformationSummary`.
pub open spec fn resource_drift_json(x: StackResourceDriftInformationSummary) -> JsonView {
    let m = Map::<Seq<char>, JsonView>::empty();
    let m = with_opt(m, "StackResourceDriftStatus"@, opt_str_json(x.stack_resource_drift_status));
    let m = with_opt(m, "LastCheckTimestamp"@, opt_ts_json(x.last_check_timestamp));
    JsonView::Object(m)
}

fn resource_drift_to_json(x: &StackResourceDriftInformationSummary) -> (v: JsonValue)
    ensures
        v.view() == resource_drift_json(*x),
{
    let mut json = JsonObject::new();
    json.insert_opt_str("StackResourceDriftStatus", &x.stack_resource_drift_status);
    json.insert_opt_ts("LastCheckTimestamp", &x.last_check_timestamp);
    JsonValue::Object(json)
}

/// The JSON object of a `StackResourceSummary`.
pub open spec fn stack_resource_json(x: StackResourceSummary) -> JsonView {
    let m = Map::<Seq<char>, JsonView>::empty();
    let m = with_opt(m, "LogicalResourceId"@, opt_str_json(x.logical_resource_id));
    let m = with_opt(m, "PhysicalResourceId"@, opt_str_json(x.physical_resource_id));
    let m = with_opt(m, "ResourceType"@, opt_str_json(x.resource_type));
    let m = with_opt(m, "ResourceStatus"@, opt_str_json(x.resource_status));
    let m = with_opt(m, "ResourceStatusReason"@, opt_str_json(x.resource_status_reason));
    let m = with_opt(m, "LastUpdatedTimestamp"@, opt_ts_json(x.last_updated_timestamp));
    let m = match x.drift_information { Some(e) => m.insert("DriftInformation"@, resource_drift_json(e)), None => m };
    JsonView::Object(m)
}

fn stack_resource_to_json(x: &StackResourceSummary) -> (v: JsonValue)
    ensures
        v.view() == stack_resource_json(*x),
{
    let mut json = JsonObject::new();
    json.insert_opt_str("LogicalResourceId", &x.logical_resource_id);
    json.insert_opt_str("PhysicalResourceId", &x.physical_resource_id);
    json.insert_opt_str("ResourceType", &x.resource_type);
    json.insert_opt_str("ResourceStatus", &x.resource_status);
    json.insert_opt_str("ResourceStatusReason", &x.resource_status_reason);
    json.insert_opt_ts("LastUpdatedTimestamp", &x.last_updated_timestamp);
    if let Some(e) = &x.drift_information {
        json.insert("DriftInformation", resource_drift_to_json(e));
    }
    JsonValue::Object(json)
}

/// The JSON object of a drift detection's status.
pub open spec fn drift_detection_status_json(status: StackDriftDetectionStatus) -> JsonView {
    let m = Map::<Seq<char>, JsonView>::empty();
    let m = with_opt(m, "StackId"@, opt_str_json(status.stack_id));
    let m = with_opt(m, "StackDriftDetectionId"@, opt_str_json(status.stack_drift_detection_id));
    let m = with_opt(m, "StackDriftStatus"@, opt_str_json(status.stack_drift_status));
    let m = with_opt(m, "DetectionStatus"@, opt_str_json(status.detection_status));
    let m = with_opt(m, "DetectionStatusReason"@, opt_str_json(status.detection_status_reason));
    let m = with_opt(m, "DriftedStackResourceCount"@, opt_int_json(status.drifted_stack_resource_count));
    let m = with_opt(m, "Timestamp"@, opt_ts_json(status.timestamp));
    JsonView::Object(m)
}

impl<C> CloudFormationService<C> {
    /// The coordinator that the service was made with.
    pub closed spec fn coordinator(&self) -> Arc<C> {
        self.credential_coordinator
    }

    /// A service that obtains its AWS configurations from `credential_coordinator`.
    pub fn new(credential_coordinator: Arc<C>) -> (s: Self)
        ensures
            s.coordinator() == credential_coordinator,
    {
        Self { credential_coordinator }
    }

    /// The coordinator that the service was made with.
    pub fn credential_coordinator(&self) -> (c: &Arc<C>)
        ensures
            *c == self.coordinator(),
    {
        &self.credential_coordinator
    }

    /// The JSON object of a stack, with its name and status also under `Name` and `Status`.
    pub fn stack_to_json(&self, stack: &Stack) -> (v: JsonValue)
        ensures
            v.view() == stack_json(*stack),
    {
        let mut json = JsonObject::new();
        json.insert_opt_str("StackId", &stack.stack_id);
        json.insert_opt_str("StackName", &stack.stack_name);
        json.insert_opt_str("Name", &stack.stack_name);
        json.insert_opt_str("Description", &stack.description);
        json.insert_opt_ts("CreationTime", &stack.creation_time);
        json.insert_opt_ts("LastUpdatedTime", &stack.last_updated_time);
        json.insert_opt_str("StackStatus", &stack.stack_status);
        json.insert_opt_str("Status", &stack.stack_status);
        json.insert_opt_str("StackStatusReason", &stack.stack_status_reason);
        json.insert_opt_bool("DisableRollback", stack.disable_rollback);
        json.insert_opt_int("TimeoutInMinutes", stack.timeout_in_minutes);
        json.insert_opt_strs("Capabilities", &stack.capabilities);
        if let Some(v) = &stack.outputs {
            json.insert("Outputs", array_of(v, output_to_json, Ghost(|e: Output| output_json(e))));
        }
        if let Some(v) = &stack.parameters {
            json.insert("Parameters", array_of(v, parameter_to_json, Ghost(|e: Parameter| parameter_json(e))));
        }
        if let Some(v) = &stack.tags {
            json.insert("Tags", array_of(v, tag_to_json, Ghost(|e: Tag| tag_json(e))));
        }
        json.insert_opt_str("RoleArn", &stack.role_arn);
        if let Some(e) = &stack.drift_information {
            json.insert("DriftInformation", stack_drift_to_json(e));
        }
        json.insert_opt_bool("EnableTerminationProtection", stack.enable_termination_protection);
        json.insert_opt_str("ParentId", &stack.parent_id);
        json.insert_opt_str("RootId", &stack.root_id);
        JsonValue::Object(json)
    }

    /// The JSON object of a drift detection's status.
    pub fn drift_detection_status_to_json(&self, status: &StackDriftDetectionStatus) -> (v: JsonValue)
        ensures
            v.view() == drift_detection_status_json(*status),
    {
        let mut json = JsonObject::new();
        json.insert_opt_str("StackId", &status.stack_id);
        json.insert_opt_str("StackDriftDetectionId", &status.stack_drift_detection_id);
        json.insert_opt_str("StackDriftStatus", &status.stack_drift_status);
        json.insert_opt_str("DetectionStatus", &status.detection_status);
        json.insert_opt_str("DetectionStatusReason", &status.detection_status_reason);
        json.insert_opt_int("DriftedStackResourceCount", status.drifted_stack_resource_count);
        json.insert_opt_ts("Timestamp", &status.timestamp);
        JsonValue::Object(json)
    }

}

/// A policy document as `GetStackPolicy` returns it: its text, and what
/// `serde_json` made of the text when it is JSON.
pub struct PolicyDocument {
    pub text: String,
    pub parsed: Option<JsonValue>,
}

/// The first `limit` items of `items`, or all of them without a limit.
pub open spec fn limited<T>(items: Seq<T>, limit: Option<usize>) -> Seq<T> {
    match limit {
        Some(n) => if n < items.len() {
            items.take(n as int)
        } else {
            items
        },
        None => items,
    }
}

/// The events of a stack as an array, cut to `limit` when there is one.
pub open spec fn stack_events_json(events: Option<Vec<StackEvent>>, limit: Option<usize>) -> JsonView {
    match events {
        Some(v) => JsonView::Array(limited(v@, limit).map_values(|e: StackEvent| stack_event_json(e))),
        None => JsonView::Array(Seq::empty()),
    }
}

/// The resources of a stack as an array.
pub open spec fn stack_resources_json(resources: Option<Vec<StackResourceSummary>>) -> JsonView {
    match resources {
        Some(v) => JsonView::Array(v@.map_values(|r: StackResourceSummary| stack_resource_json(r))),
        None => JsonView::Array(Seq::empty()),
    }
}

/// What `GetStackPolicy` comes to: the policy (as JSON when it parses, as
/// text otherwise), or a note that there is none; for a failure, a note when
/// the stack does not exist, and `None` for any other failure.
pub open spec fn stack_policy_outcome_json(outcome: Result<Option<PolicyDocument>, String>) -> Option<JsonView> {
    match outcome {
        Ok(Some(p)) => Some(
            JsonView::Object(
                Map::empty().insert(
                    "StackPolicyBody"@,
                    match p.parsed {
                        Some(v) => v.view(),
                        None => JsonView::Str(p.text@),
                    },
                ),
            ),
        ),
        Ok(None) => Some(note_view("StackPolicyBody"@, "No stack policy configured"@)),
        Err(e) => if has_substring(e@, "StackNotFoundException"@) {
            Some(note_view("StackPolicyBody"@, "Stack not found"@))
        } else {
            None
        },
    }
}

/// A stack's details with what the further calls answered bound in: its
/// resources, its recent events, its template body, its policy and its drift
/// status, each only when there is one. A value that is not an object is left
/// as it is.
pub open spec fn stack_details_view(
    details: JsonView,
    resources: Option<JsonView>,
    events: Option<JsonView>,
    template_body: Option<Seq<char>>,
    policy: Option<JsonView>,
    drift: Option<StackDriftInformation>,
) -> JsonView {
    match details {
        JsonView::Object(m) => {
            let m = with_opt(m, "Resources"@, resources);
            let m = with_opt(m, "RecentEvents"@, events);
            let m = with_opt(m, "TemplateBody"@, opt_text_json(template_body));
            let m = with_opt(m, "StackPolicy"@, policy);
            JsonView::Object(with_opt(m, "DriftInformation"@, opt_drift_json(drift)))
        },
        other => other,
    }
}

/// The JSON object of a drift status, when there is one.
pub open spec fn opt_drift_json(drift: Option<StackDriftInformation>) -> Option<JsonView> {
    match drift {
        Some(d) => Some(stack_drift_json(d)),
        None => None,
    }
}

impl<C> CloudFormationService<C> {
    /// The events of a stack as an array, the first `limit` of them when
    /// there is a limit.
    pub fn stack_events_to_json(&self, events: &Option<Vec<StackEvent>>, limit: Option<usize>) -> (v: JsonValue)
        ensures
            v.view() == stack_events_json(*events, limit),
    {
        match events {
            Some(list) => {
                let mut out: Vec<JsonValue> = Vec::new();
                let n = match limit {
                    Some(n) => if n < list.len() {
                        n
                    } else {
                        list.len()
                    },
                    None => list.len(),
                };
                let ghost chosen = limited(list@, limit);
                assert(chosen =~= list@.take(n as int));
                let mut i: usize = 0;
                while i < n
                    invariant
                        n <= list@.len(),
                        chosen == list@.take(n as int),
                        i <= n,
                        items_view(out@) =~= chosen.take(i as int).map_values(|e: StackEvent| stack_event_json(e)),
                    decreases n - i,
                {
                    let ghost before = out@;
                    let x = stack_event_to_json(&list[i]);
                    out.push(x);
                    proof {
                        lemma_items_view_push(before, x);
                        assert(chosen.take(i + 1) =~= chosen.take(i as int).push(list@[i as int]));
                    }
                    i = i + 1;
                }
                assert(chosen.take(n as int) =~= chosen);
                JsonValue::Array(out)
            },
            None => JsonValue::Array(Vec::new()),
        }
    }

    /// The resources of a stack as an array.
    pub fn stack_resources_to_json(&self, resources: &Option<Vec<StackResourceSummary>>) -> (v: JsonValue)
        ensures
            v.view() == stack_resources_json(*resources),
    {
        match resources {
            Some(list) => array_of(
                list,
                stack_resource_to_json,
                Ghost(|r: StackResourceSummary| stack_resource_json(r)),
            ),
            None => JsonValue::Array(Vec::new()),
        }
    }

    /// The JSON answer to `GetStackPolicy`; `outcome` holds the reply's policy
    /// document, or the failure's debug text.
    pub fn stack_policy_to_json(&self, outcome: Result<Option<PolicyDocument>, String>) -> (v: Option<JsonValue>)
        ensures
            opt_view(v) == stack_policy_outcome_json(outcome),
    {
        match outcome {
            Ok(Some(policy)) => {
                let mut json = JsonObject::new();
                match policy.parsed {
                    Some(parsed) => json.insert("StackPolicyBody", parsed),
                    None => json.insert_str("StackPolicyBody", &policy.text),
                }
                Some(JsonValue::Object(json))
            },
            Ok(None) => Some(note_value("StackPolicyBody", "No stack policy configured")),
            Err(error_text) => if contains(error_text.as_str(), "StackNotFoundException") {
                Some(note_value("StackPolicyBody", "Stack not found"))
            } else {
                None
            },
        }
    }

    /// A stack's details with the answers of the further calls bound in;
    /// `drift` is the stack's drift status, under `DriftInformation`.
    pub fn stack_with_details(
        &self,
        details: JsonValue,
        resources: Option<JsonValue>,
        events: Option<JsonValue>,
        template_body: Option<String>,
        policy: Option<JsonValue>,
        drift: Option<StackDriftInformation>,
    ) -> (v: JsonValue)
        ensures
            v.view() == stack_details_view(
                details.view(),
                opt_view(resources),
                opt_view(events),
                opt_text(template_body),
                opt_view(policy),
                drift,
            ),
    {
        match details {
            JsonValue::Object(mut obj) => {
                obj.insert_opt("Resources", resources);
                obj.insert_opt("RecentEvents", events);
                obj.insert_opt_text("TemplateBody", template_body);
                obj.insert_opt("StackPolicy", policy);
                match drift {
                    Some(d) => obj.insert("DriftInformation", stack_drift_to_json(&d)),
                    None => {},
                }
                JsonValue::Object(obj)
            },
            other => other,
        }
    }
}

/// Cutting events to a limit keeps the first ones in their order: the result
/// is a prefix of the events, no longer than the limit, and all of them when
/// there is no limit or it is not below their number.
pub proof fn law_limited_is_prefix<T>(items: Seq<T>, limit: Option<usize>)
    ensures
        items.take(limited(items, limit).len() as int) == limited(items, limit),
        limit matches Some(n) ==> limited(items, limit).len() == if n < items.len() {
            n as int
        } else {
            items.len() as int
        },
        limit is None ==> limited(items, limit) == items,
{
    assert(items.take(items.len() as int) =~= items);
}

impl<C> CloudFormationService<C> {
    /// The error for a stack that `DescribeStacks` did not answer.
    pub fn stack_not_found(&self, stack_name: &str) -> (e: String)
        ensures
            e@ == "Stack not found: "@ + stack_name@,
    {
        concat_text("Stack not found: ", stack_name)
    }
}

/// The keys that the laws of a stack's object speak of differ from every other key of it.
proof fn lemma_stack_keys_differ()
    ensures
        "StackName"@ != "StackId"@,
        "StackName"@ != "Name"@,
        "StackName"@ != "Description"@,
        "StackName"@ != "CreationTime"@,
        "StackName"@ != "LastUpdatedTime"@,
        "StackName"@ != "StackStatus"@,
        "StackName"@ != "Status"@,
        "StackName"@ != "StackStatusReason"@,
        "StackName"@ != "DisableRollback"@,
        "StackName"@ != "TimeoutInMinutes"@,
        "StackName"@ != "Capabilities"@,
        "StackName"@ != "Outputs"@,
        "StackName"@ != "Parameters"@,
        "StackName"@ != "Tags"@,
        "StackName"@ != "RoleArn"@,
        "StackName"@ != "DriftInformation"@,
        "StackName"@ != "EnableTerminationProtection"@,
        "StackName"@ != "ParentId"@,
        "StackName"@ != "RootId"@,
        "Name"@ != "StackId"@,
        "Name"@ != "Description"@,
        "Name"@ != "CreationTime"@,
        "Name"@ != "LastUpdatedTime"@,
        "Name"@ != "StackStatus"@,
        "Name"@ != "Status"@,
        "Name"@ != "StackStatusReason"@,
        "Name"@ != "DisableRollback"@,
        "Name"@ != "TimeoutInMinutes"@,
        "Name"@ != "Capabilities"@,
        "Name"@ != "Outputs"@,
        "Name"@ != "Parameters"@,
        "Name"@ != "Tags"@,
        "Name"@ != "RoleArn"@,
        "Name"@ != "DriftInformation"@,
        "Name"@ != "EnableTerminationProtection"@,
        "Name"@ != "ParentId"@,
        "Name"@ != "RootId"@,
        "StackStatus"@ != "StackId"@,
        "StackStatus"@ != "Description"@,
        "StackStatus"@ != "CreationTime"@,
        "StackStatus"@ != "LastUpdatedTime"@,
        "StackStatus"@ != "Status"@,
        "StackStatus"@ != "StackStatusReason"@,
        "StackStatus"@ != "DisableRollback"@,
        "StackStatus"@ != "TimeoutInMinutes"@,
        "StackStatus"@ != "Capabilities"@,
        "StackStatus"@ != "Outputs"@,
        "StackStatus"@ != "Parameters"@,
        "StackStatus"@ != "Tags"@,
        "StackStatus"@ != "RoleArn"@,
        "StackStatus"@ != "DriftInformation"@,
        "StackStatus"@ != "EnableTerminationProtection"@,
        "StackStatus"@ != "ParentId"@,
        "StackStatus"@ != "RootId"@,
        "Status"@ != "StackId"@,
        "Status"@ != "Description"@,
        "Status"@ != "CreationTime"@,
        "Status"@ != "LastUpdatedTime"@,
        "Status"@ != "StackStatusReason"@,
        "Status"@ != "DisableRollback"@,
        "Status"@ != "TimeoutInMinutes"@,
        "Status"@ != "Capabilities"@,
        "Status"@ != "Outputs"@,
        "Status"@ != "Parameters"@,
        "Status"@ != "Tags"@,
        "Status"@ != "RoleArn"@,
        "Status"@ != "DriftInformation"@,
        "Status"@ != "EnableTerminationProtection"@,
        "Status"@ != "ParentId"@,
        "Status"@ != "RootId"@,
        "Capabilities"@ != "StackId"@,
        "Capabilities"@ != "Description"@,
        "Capabilities"@ != "CreationTime"@,
        "Capabilities"@ != "LastUpdatedTime"@,
        "Capabilities"@ != "StackStatusReason"@,
        "Capabilities"@ != "DisableRollback"@,
        "Capabilities"@ != "TimeoutInMinutes"@,
        "Capabilities"@ != "Outputs"@,
        "Capabilities"@ != "Parameters"@,
        "Capabilities"@ != "Tags"@,
        "Capabilities"@ != "RoleArn"@,
        "Capabilities"@ != "DriftInformation"@,
        "Capabilities"@ != "EnableTerminationProtection"@,
        "Capabilities"@ != "ParentId"@,
        "Capabilities"@ != "RootId"@,
        "Outputs"@ != "StackId"@,
        "Outputs"@ != "Description"@,
        "Outputs"@ != "CreationTime"@,
        "Outputs"@ != "LastUpdatedTime"@,
        "Outputs"@ != "StackStatusReason"@,
        "Outputs"@ != "DisableRollback"@,
        "Outputs"@ != "TimeoutInMinutes"@,
        "Outputs"@ != "Parameters"@,
        "Outputs"@ != "Tags"@,
        "Outputs"@ != "RoleArn"@,
        "Outputs"@ != "DriftInformation"@,
        "Outputs"@ != "EnableTerminationProtection"@,
        "Outputs"@ != "ParentId"@,
        "Outputs"@ != "RootId"@,
        "Parameters"@ != "StackId"@,
        "Parameters"@ != "Description"@,
        "Parameters"@ != "CreationTime"@,
        "Parameters"@ != "LastUpdatedTime"@,
        "Parameters"@ != "StackStatusReason"@,
        "Parameters"@ != "DisableRollback"@,
        "Parameters"@ != "TimeoutInMinutes"@,
        "Parameters"@ != "Tags"@,
        "Parameters"@ != "RoleArn"@,
        "Parameters"@ != "DriftInformation"@,
        "Parameters"@ != "EnableTerminationProtection"@,
        "Parameters"@ != "ParentId"@,
        "Parameters"@ != "RootId"@,
        "Tags"@ != "StackId"@,
        "Tags"@ != "Description"@,
        "Tags"@ != "CreationTime"@,
        "Tags"@ != "LastUpdatedTime"@,
        "Tags"@ != "StackStatusReason"@,
        "Tags"@ != "DisableRollback"@,
        "Tags"@ != "TimeoutInMinutes"@,
        "Tags"@ != "RoleArn"@,
        "Tags"@ != "DriftInformation"@,
        "Tags"@ != "EnableTerminationProtection"@,
        "Tags"@ != "ParentId"@,
        "Tags"@ != "RootId"@,
{
    assert("StackName"@ != "StackId"@) by {
        reveal_strlit("StackName");
        reveal_strlit("StackId");
        assert("StackName"@.len() != "StackId"@.len());
    }
    assert("StackName"@ != "Name"@) by {
        reveal_strlit("StackName");
        reveal_strlit("Name");
        assert("StackName"@.len() != "Name"@.len());
    }
    assert("StackName"@ != "Description"@) by {
        reveal_strlit("StackName");
        reveal_strlit("Description");
        assert("StackName"@.len() != "Description"@.len());
    }
    assert("StackName"@ != "CreationTime"@) by {
        reveal_strlit("StackName");
        reveal_strlit("CreationTime");
        assert("StackName"@.len() != "CreationTime"@.len());
    }
    assert("StackName"@ != "LastUpdatedTime"@) by {
        reveal_strlit("StackName");
        reveal_strlit("LastUpdatedTime");
        assert("StackName"@.len() != "LastUpdatedTime"@.len());
    }
    assert("StackName"@ != "StackStatus"@) by {
        reveal_strlit("StackName");
        reveal_strlit("StackStatus");
        assert("StackName"@.len() != "StackStatus"@.len());
    }
    assert("StackName"@ != "Status"@) by {
        reveal_strlit("StackName");
        reveal_strlit("Status");
        assert("StackName"@.len() != "Status"@.len());
    }
    assert("StackName"@ != "StackStatusReason"@) by {
        reveal_strlit("StackName");
        reveal_strlit("StackStatusReason");
        assert("StackName"@.len() != "StackStatusReason"@.len());
    }
    assert("StackName"@ != "DisableRollback"@) by {
        reveal_strlit("StackName");
        reveal_strlit("DisableRollback");
        assert("StackName"@.len() != "DisableRollback"@.len());
    }
    assert("StackName"@ != "TimeoutInMinutes"@) by {
        reveal_strlit("StackName");
        reveal_strlit("TimeoutInMinutes");
        assert("StackName"@.len() != "TimeoutInMinutes"@.len());
    }
    assert("StackName"@ != "Capabilities"@) by {
        reveal_strlit("StackName");
        reveal_strlit("Capabilities");
        assert("StackName"@.len() != "Capabilities"@.len());
    }
    assert("StackName"@ != "Outputs"@) by {
        reveal_strlit("StackName");
        reveal_strlit("Outputs");
        assert("StackName"@.len() != "Outputs"@.len());
    }
    assert("StackName"@ != "Parameters"@) by {
        reveal_strlit("StackName");
        reveal_strlit("Parameters");
        assert("StackName"@.len() != "Parameters"@.len());
    }
    assert("StackName"@ != "Tags"@) by {
        reveal_strlit("StackName");
        reveal_strlit("Tags");
        assert("StackName"@.len() != "Tags"@.len());
    }
    assert("StackName"@ != "RoleArn"@) by {
        reveal_strlit("StackName");
        reveal_strlit("RoleArn");
        assert("StackName"@.len() != "RoleArn"@.len());
    }
    assert("StackName"@ != "DriftInformation"@) by {
        reveal_strlit("StackName");
        reveal_strlit("DriftInformation");
        assert("StackName"@.len() != "DriftInformation"@.len());
    }
    assert("StackName"@ != "EnableTerminationProtection"@) by {
        reveal_strlit("StackName");
        reveal_strlit("EnableTerminationProtection");
        assert("StackName"@.len() != "EnableTerminationProtection"@.len());
    }
    assert("StackName"@ != "ParentId"@) by {
        reveal_strlit("StackName");
        reveal_strlit("ParentId");
        assert("StackName"@.len() != "ParentId"@.len());
    }
    assert("StackName"@ != "RootId"@) by {
        reveal_strlit("StackName");
        reveal_strlit("RootId");
        assert("StackName"@.len() != "RootId"@.len());
    }
    assert("Name"@ != "StackId"@) by {
        reveal_strlit("Name");
        reveal_strlit("StackId");
        assert("Name"@.len() != "StackId"@.len());
    }
    assert("Name"@ != "Description"@) by {
        reveal_strlit("Name");
        reveal_strlit("Description");
        assert("Name"@.len() != "Description"@.len());
    }
    assert("Name"@ != "CreationTime"@) by {
        reveal_strlit("Name");
        reveal_strlit("CreationTime");
        assert("Name"@.len() != "CreationTime"@.len());
    }
    assert("Name"@ != "LastUpdatedTime"@) by {
        reveal_strlit("Name");
        reveal_strlit("LastUpdatedTime");
        assert("Name"@.len() != "LastUpdatedTime"@.len());
    }
    assert("Name"@ != "StackStatus"@) by {
        reveal_strlit("Name");
        reveal_strlit("StackStatus");
        assert("Name"@.len() != "StackStatus"@.len());
    }
    assert("Name"@ != "Status"@) by {
        reveal_strlit("Name");
        reveal_strlit("Status");
        assert("Name"@.len() != "Status"@.len());
    }
    assert("Name"@ != "StackStatusReason"@) by {
        reveal_strlit("Name");
        reveal_strlit("StackStatusReason");
        assert("Name"@.len() != "StackStatusReason"@.len());
    }
    assert("Name"@ != "DisableRollback"@) by {
        reveal_strlit("Name");
        reveal_strlit("DisableRollback");
        assert("Name"@.len() != "DisableRollback"@.len());
    }
    assert("Name"@ != "TimeoutInMinutes"@) by {
        reveal_strlit("Name");
        reveal_strlit("TimeoutInMinutes");
        assert("Name"@.len() != "TimeoutInMinutes"@.len());
    }
    assert("Name"@ != "Capabilities"@) by {
        reveal_strlit("Name");
        reveal_strlit("Capabilities");
        assert("Name"@.len() != "Capabilities"@.len());
    }
    assert("Name"@ != "Outputs"@) by {
        reveal_strlit("Name");
        reveal_strlit("Outputs");
        assert("Name"@.len() != "Outputs"@.len());
    }
    assert("Name"@ != "Parameters"@) by {
        reveal_strlit("Name");
        reveal_strlit("Parameters");
        assert("Name"@.len() != "Parameters"@.len());
    }
    assert("Name"@ != "Tags"@) by {
        reveal_strlit("Name");
        reveal_strlit("Tags");
        assert("Name"@[0] != "Tags"@[0]);
    }
    assert("Name"@ != "RoleArn"@) by {
        reveal_strlit("Name");
        reveal_strlit("RoleArn");
        assert("Name"@.len() != "RoleArn"@.len());
    }
    assert("Name"@ != "DriftInformation"@) by {
        reveal_strlit("Name");
        reveal_strlit("DriftInformation");
        assert("Name"@.len() != "DriftInformation"@.len());
    }
    assert("Name"@ != "EnableTerminationProtection"@) by {
        reveal_strlit("Name");
        reveal_strlit("EnableTerminationProtection");
        assert("Name"@.len() != "EnableTerminationProtection"@.len());
    }
    assert("Name"@ != "ParentId"@) by {
        reveal_strlit("Name");
        reveal_strlit("ParentId");
        assert("Name"@.len() != "ParentId"@.len());
    }
    assert("Name"@ != "RootId"@) by {
        reveal_strlit("Name");
        reveal_strlit("RootId");
        assert("Name"@.len() != "RootId"@.len());
    }
    assert("StackStatus"@ != "StackId"@) by {
        reveal_strlit("StackStatus");
        reveal_strlit("StackId");
        assert("StackStatus"@.len() != "StackId"@.len());
    }
    assert("StackStatus"@ != "Description"@) by {
        reveal_strlit("StackStatus");
        reveal_strlit("Description");
        assert("StackStatus"@[0] != "Description"@[0]);
    }
    assert("StackStatus"@ != "CreationTime"@) by {
        reveal_strlit("StackStatus");
        reveal_strlit("CreationTime");
        assert("StackStatus"@.len() != "CreationTime"@.len());
    }
    assert("StackStatus"@ != "LastUpdatedTime"@) by {
        reveal_strlit("StackStatus");
        reveal_strlit("LastUpdatedTime");
        assert("StackStatus"@.len() != "LastUpdatedTime"@.len());
    }
    assert("StackStatus"@ != "Status"@) by {
        reveal_strlit("StackStatus");
        reveal_strlit("Status");
        assert("StackStatus"@.len() != "Status"@.len());
    }
    assert("StackStatus"@ != "StackStatusReason"@) by {
        reveal_strlit("StackStatus");
        reveal_strlit("StackStatusReason");
        assert("StackStatus"@.len() != "StackStatusReason"@.len());
    }
    assert("StackStatus"@ != "DisableRollback"@) by {
        reveal_strlit("StackStatus");
        reveal_strlit("DisableRollback");
        assert("StackStatus"@.len() != "DisableRollback"@.len());
    }
    assert("StackStatus"@ != "TimeoutInMinutes"@) by {
        reveal_strlit("StackStatus");
        reveal_strlit("TimeoutInMinutes");
        assert("StackStatus"@.len() != "TimeoutInMinutes"@.len());
    }
    assert("StackStatus"@ != "Capabilities"@) by {
        reveal_strlit("StackStatus");
        reveal_strlit("Capabilities");
        assert("StackStatus"@.len() != "Capabilities"@.len());
    }
    assert("StackStatus"@ != "Outputs"@) by {
        reveal_strlit("StackStatus");
        reveal_strlit("Outputs");
        assert("StackStatus"@.len() != "Outputs"@.len());
    }
    assert("StackStatus"@ != "Parameters"@) by {
        reveal_strlit("StackStatus");
        reveal_strlit("Parameters");
        assert("StackStatus"@.len() != "Parameters"@.len());
    }
    assert("StackStatus"@ != "Tags"@) by {
        reveal_strlit("StackStatus");
        reveal_strlit("Tags");
        assert("StackStatus"@.len() != "Tags"@.len());
    }
    assert("StackStatus"@ != "RoleArn"@) by {
        reveal_strlit("StackStatus");
        reveal_strlit("RoleArn");
        assert("StackStatus"@.len() != "RoleArn"@.len());
    }
    assert("StackStatus"@ != "DriftInformation"@) by {
        reveal_strlit("StackStatus");
        reveal_strlit("DriftInformation");
        assert("StackStatus"@.len() != "DriftInformation"@.len());
    }
    assert("StackStatus"@ != "EnableTerminationProtection"@) by {
        reveal_strlit("StackStatus");
        reveal_strlit("EnableTerminationProtection");
        assert("StackStatus"@.len() != "EnableTerminationProtection"@.len());
    }
    assert("StackStatus"@ != "ParentId"@) by {
        reveal_strlit("StackStatus");
        reveal_strlit("ParentId");
        assert("StackStatus"@.len() != "ParentId"@.len());
    }
    assert("StackStatus"@ != "RootId"@) by {
        reveal_strlit("StackStatus");
        reveal_strlit("RootId");
        assert("StackStatus"@.len() != "RootId"@.len());
    }
    assert("Status"@ != "StackId"@) by {
        reveal_strlit("Status");
        reveal_strlit("StackId");
        assert("Status"@.len() != "StackId"@.len());
    }
    assert("Status"@ != "Description"@) by {
        reveal_strlit("Status");
        reveal_strlit("Description");
        assert("Status"@.len() != "Description"@.len());
    }
    assert("Status"@ != "CreationTime"@) by {
        reveal_strlit("Status");
        reveal_strlit("CreationTime");
        assert("Status"@.len() != "CreationTime"@.len());
    }
    assert("Status"@ != "LastUpdatedTime"@) by {
        reveal_strlit("Status");
        reveal_strlit("LastUpdatedTime");
        assert("Status"@.len() != "LastUpdatedTime"@.len());
    }
    assert("Status"@ != "StackStatusReason"@) by {
        reveal_strlit("Status");
        reveal_strlit("StackStatusReason");
        assert("Status"@.len() != "StackStatusReason"@.len());
    }
    assert("Status"@ != "DisableRollback"@) by {
        reveal_strlit("Status");
        reveal_strlit("DisableRollback");
        assert("Status"@.len() != "DisableRollback"@.len());
    }
    assert("Status"@ != "TimeoutInMinutes"@) by {
        reveal_strlit("Status");
        reveal_strlit("TimeoutInMinutes");
        assert("Status"@.len() != "TimeoutInMinutes"@.len());
    }
    assert("Status"@ != "Capabilities"@) by {
        reveal_strlit("Status");
        reveal_strlit("Capabilities");
        assert("Status"@.len() != "Capabilities"@.len());
    }
    assert("Status"@ != "Outputs"@) by {
        reveal_strlit("Status");
        reveal_strlit("Outputs");
        assert("Status"@.len() != "Outputs"@.len());
    }
    assert("Status"@ != "Parameters"@) by {
        reveal_strlit("Status");
        reveal_strlit("Parameters");
        assert("Status"@.len() != "Parameters"@.len());
    }
    assert("Status"@ != "Tags"@) by {
        reveal_strlit("Status");
        reveal_strlit("Tags");
        assert("Status"@.len() != "Tags"@.len());
    }
    assert("Status"@ != "RoleArn"@) by {
        reveal_strlit("Status");
        reveal_strlit("RoleArn");
        assert("Status"@.len() != "RoleArn"@.len());
    }
    assert("Status"@ != "DriftInformation"@) by {
        reveal_strlit("Status");
        reveal_strlit("DriftInformation");
        assert("Status"@.len() != "DriftInformation"@.len());
    }
    assert("Status"@ != "EnableTerminationProtection"@) by {
        reveal_strlit("Status");
        reveal_strlit("EnableTerminationProtection");
        assert("Status"@.len() != "EnableTerminationProtection"@.len());
    }
    assert("Status"@ != "ParentId"@) by {
        reveal_strlit("Status");
        reveal_strlit("ParentId");
        assert("Status"@.len() != "ParentId"@.len());
    }
    assert("Status"@ != "RootId"@) by {
        reveal_strlit("Status");
        reveal_strlit("RootId");
        assert("Status"@[0] != "RootId"@[0]);
    }
    assert("Capabilities"@ != "StackId"@) by {
        reveal_strlit("Capabilities");
        reveal_strlit("StackId");
        assert("Capabilities"@.len() != "StackId"@.len());
    }
    assert("Capabilities"@ != "Description"@) by {
        reveal_strlit("Capabilities");
        reveal_strlit("Description");
        assert("Capabilities"@.len() != "Description"@.len());
    }
    assert("Capabilities"@ != "CreationTime"@) by {
        reveal_strlit("Capabilities");
        reveal_strlit("CreationTime");
        assert("Capabilities"@[1] != "CreationTime"@[1]);
    }
    assert("Capabilities"@ != "LastUpdatedTime"@) by {
        reveal_strlit("Capabilities");
        reveal_strlit("LastUpdatedTime");
        assert("Capabilities"@.len() != "LastUpdatedTime"@.len());
    }
    assert("Capabilities"@ != "StackStatusReason"@) by {
        reveal_strlit("Capabilities");
        reveal_strlit("StackStatusReason");
        assert("Capabilities"@.len() != "StackStatusReason"@.len());
    }
    assert("Capabilities"@ != "DisableRollback"@) by {
        reveal_strlit("Capabilities");
        reveal_strlit("DisableRollback");
        assert("Capabilities"@.len() != "DisableRollback"@.len());
    }
    assert("Capabilities"@ != "TimeoutInMinutes"@) by {
        reveal_strlit("Capabilities");
        reveal_strlit("TimeoutInMinutes");
        assert("Capabilities"@.len() != "TimeoutInMinutes"@.len());
    }
    assert("Capabilities"@ != "Outputs"@) by {
        reveal_strlit("Capabilities");
        reveal_strlit("Outputs");
        assert("Capabilities"@.len() != "Outputs"@.len());
    }
    assert("Capabilities"@ != "Parameters"@) by {
        reveal_strlit("Capabilities");
        reveal_strlit("Parameters");
        assert("Capabilities"@.len() != "Parameters"@.len());
    }
    assert("Capabilities"@ != "Tags"@) by {
        reveal_strlit("Capabilities");
        reveal_strlit("Tags");
        assert("Capabilities"@.len() != "Tags"@.len());
    }
    assert("Capabilities"@ != "RoleArn"@) by {
        reveal_strlit("Capabilities");
        reveal_strlit("RoleArn");
        assert("Capabilities"@.len() != "RoleArn"@.len());
    }
    assert("Capabilities"@ != "DriftInformation"@) by {
        reveal_strlit("Capabilities");
        reveal_strlit("DriftInformation");
        assert("Capabilities"@.len() != "DriftInformation"@.len());
    }
    assert("Capabilities"@ != "EnableTerminationProtection"@) by {
        reveal_strlit("Capabilities");
        reveal_strlit("EnableTerminationProtection");
        assert("Capabilities"@.len() != "EnableTerminationProtection"@.len());
    }
    assert("Capabilities"@ != "ParentId"@) by {
        reveal_strlit("Capabilities");
        reveal_strlit("ParentId");
        assert("Capabilities"@.len() != "ParentId"@.len());
    }
    assert("Capabilities"@ != "RootId"@) by {
        reveal_strlit("Capabilities");
        reveal_strlit("RootId");
        assert("Capabilities"@.len() != "RootId"@.len());
    }
    assert("Outputs"@ != "StackId"@) by {
        reveal_strlit("Outputs");
        reveal_strlit("StackId");
        assert("Outputs"@[0] != "StackId"@[0]);
    }
    assert("Outputs"@ != "Description"@) by {
        reveal_strlit("Outputs");
        reveal_strlit("Description");
        assert("Outputs"@.len() != "Description"@.len());
    }
    assert("Outputs"@ != "CreationTime"@) by {
        reveal_strlit("Outputs");
        reveal_strlit("CreationTime");
        assert("Outputs"@.len() != "CreationTime"@.len());
    }
    assert("Outputs"@ != "LastUpdatedTime"@) by {
        reveal_strlit("Outputs");
        reveal_strlit("LastUpdatedTime");
        assert("Outputs"@.len() != "LastUpdatedTime"@.len());
    }
    assert("Outputs"@ != "StackStatusReason"@) by {
        reveal_strlit("Outputs");
        reveal_strlit("StackStatusReason");
        assert("Outputs"@.len() != "StackStatusReason"@.len());
    }
    assert("Outputs"@ != "DisableRollback"@) by {
        reveal_strlit("Outputs");
        reveal_strlit("DisableRollback");
        assert("Outputs"@.len() != "DisableRollback"@.len());
    }
    assert("Outputs"@ != "TimeoutInMinutes"@) by {
        reveal_strlit("Outputs");
        reveal_strlit("TimeoutInMinutes");
        assert("Outputs"@.len() != "TimeoutInMinutes"@.len());
    }
    assert("Outputs"@ != "Parameters"@) by {
        reveal_strlit("Outputs");
        reveal_strlit("Parameters");
        assert("Outputs"@.len() != "Parameters"@.len());
    }
    assert("Outputs"@ != "Tags"@) by {
        reveal_strlit("Outputs");
        reveal_strlit("Tags");
        assert("Outputs"@.len() != "Tags"@.len());
    }
    assert("Outputs"@ != "RoleArn"@) by {
        reveal_strlit("Outputs");
        reveal_strlit("RoleArn");
        assert("Outputs"@[0] != "RoleArn"@[0]);
    }
    assert("Outputs"@ != "DriftInformation"@) by {
        reveal_strlit("Outputs");
        reveal_strlit("DriftInformation");
        assert("Outputs"@.len() != "DriftInformation"@.len());
    }
    assert("Outputs"@ != "EnableTerminationProtection"@) by {
        reveal_strlit("Outputs");
        reveal_strlit("EnableTerminationProtection");
        assert("Outputs"@.len() != "EnableTerminationProtection"@.len());
    }
    assert("Outputs"@ != "ParentId"@) by {
        reveal_strlit("Outputs");
        reveal_strlit("ParentId");
        assert("Outputs"@.len() != "ParentId"@.len());
    }
    assert("Outputs"@ != "RootId"@) by {
        reveal_strlit("Outputs");
        reveal_strlit("RootId");
        assert("Outputs"@.len() != "RootId"@.len());
    }
    assert("Parameters"@ != "StackId"@) by {
        reveal_strlit("Parameters");
        reveal_strlit("StackId");
        assert("Parameters"@.len() != "StackId"@.len());
    }
    assert("Parameters"@ != "Description"@) by {
        reveal_strlit("Parameters");
        reveal_strlit("Description");
        assert("Parameters"@.len() != "Description"@.len());
    }
    assert("Parameters"@ != "CreationTime"@) by {
        reveal_strlit("Parameters");
        reveal_strlit("CreationTime");
        assert("Parameters"@.len() != "CreationTime"@.len());
    }
    assert("Parameters"@ != "LastUpdatedTime"@) by {
        reveal_strlit("Parameters");
        reveal_strlit("LastUpdatedTime");
        assert("Parameters"@.len() != "LastUpdatedTime"@.len());
    }
    assert("Parameters"@ != "StackStatusReason"@) by {
        reveal_strlit("Parameters");
        reveal_strlit("StackStatusReason");
        assert("Parameters"@.len() != "StackStatusReason"@.len());
    }
    assert("Parameters"@ != "DisableRollback"@) by {
        reveal_strlit("Parameters");
        reveal_strlit("DisableRollback");
        assert("Parameters"@.len() != "DisableRollback"@.len());
    }
    assert("Parameters"@ != "TimeoutInMinutes"@) by {
        reveal_strlit("Parameters");
        reveal_strlit("TimeoutInMinutes");
        assert("Parameters"@.len() != "TimeoutInMinutes"@.len());
    }
    assert("Parameters"@ != "Tags"@) by {
        reveal_strlit("Parameters");
        reveal_strlit("Tags");
        assert("Parameters"@.len() != "Tags"@.len());
    }
    assert("Parameters"@ != "RoleArn"@) by {
        reveal_strlit("Parameters");
        reveal_strlit("RoleArn");
        assert("Parameters"@.len() != "RoleArn"@.len());
    }
    assert("Parameters"@ != "DriftInformation"@) by {
        reveal_strlit("Parameters");
        reveal_strlit("DriftInformation");
        assert("Parameters"@.len() != "DriftInformation"@.len());
    }
    assert("Parameters"@ != "EnableTerminationProtection"@) by {
        reveal_strlit("Parameters");
        reveal_strlit("EnableTerminationProtection");
        assert("Parameters"@.len() != "EnableTerminationProtection"@.len());
    }
    assert("Parameters"@ != "ParentId"@) by {
        reveal_strlit("Parameters");
        reveal_strlit("ParentId");
        assert("Parameters"@.len() != "ParentId"@.len());
    }
    assert("Parameters"@ != "RootId"@) by {
        reveal_strlit("Parameters");
        reveal_strlit("RootId");
        assert("Parameters"@.len() != "RootId"@.len());
    }
    assert("Tags"@ != "StackId"@) by {
        reveal_strlit("Tags");
        reveal_strlit("StackId");
        assert("Tags"@.len() != "StackId"@.len());
    }
    assert("Tags"@ != "Description"@) by {
        reveal_strlit("Tags");
        reveal_strlit("Description");
        assert("Tags"@.len() != "Description"@.len());
    }
    assert("Tags"@ != "CreationTime"@) by {
        reveal_strlit("Tags");
        reveal_strlit("CreationTime");
        assert("Tags"@.len() != "CreationTime"@.len());
    }
    assert("Tags"@ != "LastUpdatedTime"@) by {
        reveal_strlit("Tags");
        reveal_strlit("LastUpdatedTime");
        assert("Tags"@.len() != "LastUpdatedTime"@.len());
    }
    assert("Tags"@ != "StackStatusReason"@) by {
        reveal_strlit("Tags");
        reveal_strlit("StackStatusReason");
        assert("Tags"@.len() != "StackStatusReason"@.len());
    }
    assert("Tags"@ != "DisableRollback"@) by {
        reveal_strlit("Tags");
        reveal_strlit("DisableRollback");
        assert("Tags"@.len() != "DisableRollback"@.len());
    }
    assert("Tags"@ != "TimeoutInMinutes"@) by {
        reveal_strlit("Tags");
        reveal_strlit("TimeoutInMinutes");
        assert("Tags"@.len() != "TimeoutInMinutes"@.len());
    }
    assert("Tags"@ != "RoleArn"@) by {
        reveal_strlit("Tags");
        reveal_strlit("RoleArn");
        assert("Tags"@.len() != "RoleArn"@.len());
    }
    assert("Tags"@ != "DriftInformation"@) by {
        reveal_strlit("Tags");
        reveal_strlit("DriftInformation");
        assert("Tags"@.len() != "DriftInformation"@.len());
    }
    assert("Tags"@ != "EnableTerminationProtection"@) by {
        reveal_strlit("Tags");
        reveal_strlit("EnableTerminationProtection");
        assert("Tags"@.len() != "EnableTerminationProtection"@.len());
    }
    assert("Tags"@ != "ParentId"@) by {
        reveal_strlit("Tags");
        reveal_strlit("ParentId");
        assert("Tags"@.len() != "ParentId"@.len());
    }
    assert("Tags"@ != "RootId"@) by {
        reveal_strlit("Tags");
        reveal_strlit("RootId");
        assert("Tags"@.len() != "RootId"@.len());
    }
}

/// A stack's object holds its name under `StackName` and `Name` alike and its
/// status under `StackStatus` and `Status` alike, each there exactly when AWS
/// reported the field.
pub proof fn law_stack_name_and_status(stack: Stack)
    ensures
        stack_json(stack) is Object,
        ({
            let m = stack_json(stack)->Object_0;
            &&& stack.stack_name is None ==> !m.contains_key("StackName"@)
            &&& stack.stack_name is Some ==> m.contains_key("StackName"@) && m["StackName"@] == JsonView::Str(stack.stack_name->0@)
            &&& stack.stack_name is None ==> !m.contains_key("Name"@)
            &&& stack.stack_name is Some ==> m.contains_key("Name"@) && m["Name"@] == JsonView::Str(stack.stack_name->0@)
            &&& stack.stack_status is None ==> !m.contains_key("StackStatus"@)
            &&& stack.stack_status is Some ==> m.contains_key("StackStatus"@) && m["StackStatus"@] == JsonView::Str(stack.stack_status->0@)
            &&& stack.stack_status is None ==> !m.contains_key("Status"@)
            &&& stack.stack_status is Some ==> m.contains_key("Status"@) && m["Status"@] == JsonView::Str(stack.stack_status->0@)
        }),
{
    lemma_stack_name_binds(stack);
    lemma_stack_status_binds(stack);
}

#[verifier::spinoff_prover]
#[verifier::rlimit(60)]
proof fn lemma_stack_name_binds(stack: Stack)
    ensures
        stack_json(stack) is Object,
        ({
            let m = stack_json(stack)->Object_0;
            &&& stack.stack_name is None ==> !m.contains_key("StackName"@)
            &&& stack.stack_name is Some ==> m.contains_key("StackName"@) && m["StackName"@] == JsonView::Str(stack.stack_name->0@)
            &&& stack.stack_name is None ==> !m.contains_key("Name"@)
            &&& stack.stack_name is Some ==> m.contains_key("Name"@) && m["Name"@] == JsonView::Str(stack.stack_name->0@)
        }),
{
    lemma_stack_keys_differ();
}

#[verifier::spinoff_prover]
#[verifier::rlimit(60)]
proof fn lemma_stack_status_binds(stack: Stack)
    ensures
        stack_json(stack) is Object,
        ({
            let m = stack_json(stack)->Object_0;
            &&& stack.stack_status is None ==> !m.contains_key("StackStatus"@)
            &&& stack.stack_status is Some ==> m.contains_key("StackStatus"@) && m["StackStatus"@] == JsonView::Str(stack.stack_status->0@)
            &&& stack.stack_status is None ==> !m.contains_key("Status"@)
            &&& stack.stack_status is Some ==> m.contains_key("Status"@) && m["Status"@] == JsonView::Str(stack.stack_status->0@)
        }),
{
    lemma_stack_keys_differ();
}

/// A stack's capabilities, outputs, parameters and tags are arrays with one
/// entry per reported item, in the reported order; each key is missing
/// exactly when AWS reported no list.
#[verifier::spinoff_prover]
#[verifier::rlimit(60)]
pub proof fn law_stack_lists_keep_order(stack: Stack)
    ensures
        stack_json(stack) is Object,
        ({
            let m = stack_json(stack)->Object_0;
            &&& stack.capabilities is None ==> !m.contains_key("Capabilities"@)
            &&& stack.capabilities is Some ==> {
                let xs = stack.capabilities->0@;
                &&& m.contains_key("Capabilities"@) && m["Capabilities"@] is Array
                &&& m["Capabilities"@]->Array_0.len() == xs.len()
                &&& forall|i: int| 0 <= i < xs.len() ==> #[trigger] m["Capabilities"@]->Array_0[i] == str_json(xs[i])
            }
            &&& stack.outputs is None ==> !m.contains_key("Outputs"@)
            &&& stack.outputs is Some ==> {
                let xs = stack.outputs->0@;
                &&& m.contains_key("Outputs"@) && m["Outputs"@] is Array
                &&& m["Outputs"@]->Array_0.len() == xs.len()
                &&& forall|i: int| 0 <= i < xs.len() ==> #[trigger] m["Outputs"@]->Array_0[i] == output_json(xs[i])
            }
            &&& stack.parameters is None ==> !m.contains_key("Parameters"@)
            &&& stack.parameters is Some ==> {
                let xs = stack.parameters->0@;
                &&& m.contains_key("Parameters"@) && m["Parameters"@] is Array
                &&& m["Parameters"@]->Array_0.len() == xs.len()
                &&& forall|i: int| 0 <= i < xs.len() ==> #[trigger] m["Parameters"@]->Array_0[i] == parameter_json(xs[i])
            }
            &&& stack.tags is None ==> !m.contains_key("Tags"@)
            &&& stack.tags is Some ==> {
                let xs = stack.tags->0@;
                &&& m.contains_key("Tags"@) && m["Tags"@] is Array
                &&& m["Tags"@]->Array_0.len() == xs.len()
                &&& forall|i: int| 0 <= i < xs.len() ==> #[trigger] m["Tags"@]->Array_0[i] == tag_json(xs[i])
            }
        }),
{
    lemma_stack_keys_differ();
}

/// What tells the keys of `stack_json` apart: their lengths, and a letter where two have the same length.
proof fn lemma_stack_json_keys_differ()
    ensures
        "Capabilities"@.len() == 12 && "Capabilities"@[1] == 'a',
        "CreationTime"@.len() == 12 && "CreationTime"@[1] == 'r',
        "Description"@.len() == 11 && "Description"@[0] == 'D',
        "DisableRollback"@.len() == 15 && "DisableRollback"@[0] == 'D',
        "DriftInformation"@.len() == 16 && "DriftInformation"@[0] == 'D',
        "EnableTerminationProtection"@.len() == 27,
        "LastUpdatedTime"@.len() == 15 && "LastUpdatedTime"@[0] == 'L',
        "Name"@.len() == 4 && "Name"@[0] == 'N',
        "Outputs"@.len() == 7 && "Outputs"@[0] == 'O',
        "Parameters"@.len() == 10,
        "ParentId"@.len() == 8,
        "RoleArn"@.len() == 7 && "RoleArn"@[0] == 'R',
        "RootId"@.len() == 6 && "RootId"@[0] == 'R',
        "StackId"@.len() == 7 && "StackId"@[0] == 'S',
        "StackName"@.len() == 9,
        "StackStatus"@.len() == 11 && "StackStatus"@[0] == 'S',
        "StackStatusReason"@.len() == 17,
        "Status"@.len() == 6 && "Status"@[0] == 'S',
        "Tags"@.len() == 4 && "Tags"@[0] == 'T',
        "TimeoutInMinutes"@.len() == 16 && "TimeoutInMinutes"@[0] == 'T',
{
    reveal_strlit("Capabilities");
    reveal_strlit("CreationTime");
    reveal_strlit("Description");
    reveal_strlit("DisableRollback");
    reveal_strlit("DriftInformation");
    reveal_strlit("EnableTerminationProtection");
    reveal_strlit("LastUpdatedTime");
    reveal_strlit("Name");
    reveal_strlit("Outputs");
    reveal_strlit("Parameters");
    reveal_strlit("ParentId");
    reveal_strlit("RoleArn");
    reveal_strlit("RootId");
    reveal_strlit("StackId");
    reveal_strlit("StackName");
    reveal_strlit("StackStatus");
    reveal_strlit("StackStatusReason");
    reveal_strlit("Status");
    reveal_strlit("Tags");
    reveal_strlit("TimeoutInMinutes");
}

#[verifier::spinoff_prover]
#[verifier::rlimit(80)]
proof fn lemma_stack_json_fields_0(stack: Stack)
    ensures
        stack_json(stack) is Object,
        ({
            let m = stack_json(stack)->Object_0;
            &&& stack.stack_name is None ==> !m.contains_key("Name"@)
            &&& stack.stack_name is Some ==> m.contains_key("Name"@) && m["Name"@] == JsonView::Str(stack.stack_name->0@)
            &&& stack.stack_id is None ==> !m.contains_key("StackId"@)
            &&& stack.stack_id is Some ==> m.contains_key("StackId"@) && m["StackId"@] == JsonView::Str(stack.stack_id->0@)
            &&& stack.stack_name is None ==> !m.contains_key("StackName"@)
            &&& stack.stack_name is Some ==> m.contains_key("StackName"@) && m["StackName"@] == JsonView::Str(stack.stack_name->0@)
        }),
{
    lemma_stack_json_keys_differ();
}

#[verifier::spinoff_prover]
#[verifier::rlimit(80)]
proof fn lemma_stack_json_fields_1(stack: Stack)
    ensures
        stack_json(stack) is Object,
        ({
            let m = stack_json(stack)->Object_0;
            &&& stack.creation_time is None ==> !m.contains_key("CreationTime"@)
            &&& stack.creation_time is Some ==> m.contains_key("CreationTime"@) && m["CreationTime"@] == ts_json(stack.creation_time->0)
            &&& stack.description is None ==> !m.contains_key("Description"@)
            &&& stack.description is Some ==> m.contains_key("Description"@) && m["Description"@] == JsonView::Str(stack.description->0@)
            &&& stack.last_updated_time is None ==> !m.contains_key("LastUpdatedTime"@)
            &&& stack.last_updated_time is Some ==> m.contains_key("LastUpdatedTime"@) && m["LastUpdatedTime"@] == ts_json(stack.last_updated_time->0)
        }),
{
    lemma_stack_json_keys_differ();
}

#[verifier::spinoff_prover]
#[verifier::rlimit(80)]
proof fn lemma_stack_json_fields_2(stack: Stack)
    ensures
        stack_json(stack) is Object,
        ({
            let m = stack_json(stack)->Object_0;
            &&& stack.stack_status is None ==> !m.contains_key("StackStatus"@)
            &&& stack.stack_status is Some ==> m.contains_key("StackStatus"@) && m["StackStatus"@] == JsonView::Str(stack.stack_status->0@)
            &&& stack.stack_status_reason is None ==> !m.contains_key("StackStatusReason"@)
            &&& stack.stack_status_reason is Some ==> m.contains_key("StackStatusReason"@) && m["StackStatusReason"@] == JsonView::Str(stack.stack_status_reason->0@)
            &&& stack.stack_status is None ==> !m.contains_key("Status"@)
            &&& stack.stack_status is Some ==> m.contains_key("Status"@) && m["Status"@] == JsonView::Str(stack.stack_status->0@)
        }),
{
    lemma_stack_json_keys_differ();
}

#[verifier::spinoff_prover]
#[verifier::rlimit(80)]
proof fn lemma_stack_json_fields_3(stack: Stack)
    ensures
        stack_json(stack) is Object,
        ({
            let m = stack_json(stack)->Object_0;
            &&& stack.disable_rollback is None ==> !m.contains_key("DisableRollback"@)
            &&& stack.disable_rollback is Some ==> m.contains_key("DisableRollback"@) && m["DisableRollback"@] == JsonView::Bool(stack.disable_rollback->0)
            &&& stack.role_arn is None ==> !m.contains_key("RoleArn"@)
            &&& stack.role_arn is Some ==> m.contains_key("RoleArn"@) && m["RoleArn"@] == JsonView::Str(stack.role_arn->0@)
            &&& stack.timeout_in_minutes is None ==> !m.contains_key("TimeoutInMinutes"@)
            &&& stack.timeout_in_minutes is Some ==> m.contains_key("TimeoutInMinutes"@) && m["TimeoutInMinutes"@] == JsonView::Number(stack.timeout_in_minutes->0 as int)
        }),
{
    lemma_stack_json_keys_differ();
}

#[verifier::spinoff_prover]
#[verifier::rlimit(80)]
proof fn lemma_stack_json_fields_4(stack: Stack)
    ensures
        stack_json(stack) is Object,
        ({
            let m = stack_json(stack)->Object_0;
            &&& stack.enable_termination_protection is None ==> !m.contains_key("EnableTerminationProtection"@)
            &&& stack.enable_termination_protection is Some ==> m.contains_key("EnableTerminationProtection"@) && m["EnableTerminationProtection"@] == JsonView::Bool(stack.enable_termination_protection->0)
            &&& stack.parent_id is None ==> !m.contains_key("ParentId"@)
            &&& stack.parent_id is Some ==> m.contains_key("ParentId"@) && m["ParentId"@] == JsonView::Str(stack.parent_id->0@)
            &&& stack.root_id is None ==> !m.contains_key("RootId"@)
            &&& stack.root_id is Some ==> m.contains_key("RootId"@) && m["RootId"@] == JsonView::Str(stack.root_id->0@)
        }),
{
    lemma_stack_json_keys_differ();
}

/// A stack's object holds each reported field under its own key (its creation time under `CreationTime`, its last update under `LastUpdatedTime`, ...), and a key is missing exactly when AWS did not report its field.
pub proof fn law_stack_fields(stack: Stack)
    ensures
        stack_json(stack) is Object,
        ({
            let m = stack_json(stack)->Object_0;
            &&& stack.creation_time is None ==> !m.contains_key("CreationTime"@)
            &&& stack.creation_time is Some ==> m.contains_key("CreationTime"@) && m["CreationTime"@] == ts_json(stack.creation_time->0)
            &&& stack.description is None ==> !m.contains_key("Description"@)
            &&& stack.description is Some ==> m.contains_key("Description"@) && m["Description"@] == JsonView::Str(stack.description->0@)
            &&& stack.disable_rollback is None ==> !m.contains_key("DisableRollback"@)
            &&& stack.disable_rollback is Some ==> m.contains_key("DisableRollback"@) && m["DisableRollback"@] == JsonView::Bool(stack.disable_rollback->0)
            &&& stack.enable_termination_protection is None ==> !m.contains_key("EnableTerminationProtection"@)
            &&& stack.enable_termination_protection is Some ==> m.contains_key("EnableTerminationProtection"@) && m["EnableTerminationProtection"@] == JsonView::Bool(stack.enable_termination_protection->0)
            &&& stack.last_updated_time is None ==> !m.contains_key("LastUpdatedTime"@)
            &&& stack.last_updated_time is Some ==> m.contains_key("LastUpdatedTime"@) && m["LastUpdatedTime"@] == ts_json(stack.last_updated_time->0)
            &&& stack.stack_name is None ==> !m.contains_key("Name"@)
            &&& stack.stack_name is Some ==> m.contains_key("Name"@) && m["Name"@] == JsonView::Str(stack.stack_name->0@)
            &&& stack.parent_id is None ==> !m.contains_key("ParentId"@)
            &&& stack.parent_id is Some ==> m.contains_key("ParentId"@) && m["ParentId"@] == JsonView::Str(stack.parent_id->0@)
            &&& stack.role_arn is None ==> !m.contains_key("RoleArn"@)
            &&& stack.role_arn is Some ==> m.contains_key("RoleArn"@) && m["RoleArn"@] == JsonView::Str(stack.role_arn->0@)
            &&& stack.root_id is None ==> !m.contains_key("RootId"@)
            &&& stack.root_id is Some ==> m.contains_key("RootId"@) && m["RootId"@] == JsonView::Str(stack.root_id->0@)
            &&& stack.stack_id is None ==> !m.contains_key("StackId"@)
            &&& stack.stack_id is Some ==> m.contains_key("StackId"@) && m["StackId"@] == JsonView::Str(stack.stack_id->0@)
            &&& stack.stack_name is None ==> !m.contains_key("StackName"@)
            &&& stack.stack_name is Some ==> m.contains_key("StackName"@) && m["StackName"@] == JsonView::Str(stack.stack_name->0@)
            &&& stack.stack_status is None ==> !m.contains_key("StackStatus"@)
            &&& stack.stack_status is Some ==> m.contains_key("StackStatus"@) && m["StackStatus"@] == JsonView::Str(stack.stack_status->0@)
            &&& stack.stack_status_reason is None ==> !m.contains_key("StackStatusReason"@)
            &&& stack.stack_status_reason is Some ==> m.contains_key("StackStatusReason"@) && m["StackStatusReason"@] == JsonView::Str(stack.stack_status_reason->0@)
            &&& stack.stack_status is None ==> !m.contains_key("Status"@)
            &&& stack.stack_status is Some ==> m.contains_key("Status"@) && m["Status"@] == JsonView::Str(stack.stack_status->0@)
            &&& stack.timeout_in_minutes is None ==> !m.contains_key("TimeoutInMinutes"@)
            &&& stack.timeout_in_minutes is Some ==> m.contains_key("TimeoutInMinutes"@) && m["TimeoutInMinutes"@] == JsonView::Number(stack.timeout_in_minutes->0 as int)
        }),
{
    lemma_stack_json_fields_0(stack);
    lemma_stack_json_fields_1(stack);
    lemma_stack_json_fields_2(stack);
    lemma_stack_json_fields_3(stack);
    lemma_stack_json_fields_4(stack);
}


// ----- each reported field under its own key -----

/// What tells the keys of `tag_json` apart: their lengths, and a letter where two have the same length.
proof fn lemma_tag_json_keys_differ()
    ensures
        "Key"@.len() == 3,
        "Value"@.len() == 5,
{
    reveal_strlit("Key");
    reveal_strlit("Value");
}

#[verifier::spinoff_prover]
#[verifier::rlimit(30)]
proof fn lemma_tag_json_fields_0(x: Tag)
    ensures
        tag_json(x) is Object,
        ({
            let m = tag_json(x)->Object_0;
            &&& x.key is None ==> !m.contains_key("Key"@)
            &&& x.key is Some ==> m.contains_key("Key"@) && m["Key"@] == JsonView::Str(x.key->0@)
            &&& x.value is None ==> !m.contains_key("Value"@)
            &&& x.value is Some ==> m.contains_key("Value"@) && m["Value"@] == JsonView::Str(x.value->0@)
        }),
{
    lemma_tag_json_keys_differ();
}

/// The object of a tag holds each reported field of it under its own key, and such a key is missing exactly when AWS did not report the field.
pub proof fn law_tag_fields(x: Tag)
    ensures
        tag_json(x) is Object,
        ({
            let m = tag_json(x)->Object_0;
            &&& x.key is None ==> !m.contains_key("Key"@)
            &&& x.key is Some ==> m.contains_key("Key"@) && m["Key"@] == JsonView::Str(x.key->0@)
            &&& x.value is None ==> !m.contains_key("Value"@)
            &&& x.value is Some ==> m.contains_key("Value"@) && m["Value"@] == JsonView::Str(x.value->0@)
        }),
{
    lemma_tag_json_fields_0(x);
}

/// What tells the keys of `output_json` apart: their lengths, and a letter where two have the same length.
proof fn lemma_output_json_keys_differ()
    ensures
        "Description"@.len() == 11 && "Description"@[0] == 'D',
        "ExportName"@.len() == 10,
        "OutputKey"@.len() == 9,
        "OutputValue"@.len() == 11 && "OutputValue"@[0] == 'O',
{
    reveal_strlit("Description");
    reveal_strlit("ExportName");
    reveal_strlit("OutputKey");
    reveal_strlit("OutputValue");
}

#[verifier::spinoff_prover]
#[verifier::rlimit(30)]
proof fn lemma_output_json_fields_0(x: Output)
    ensures
        output_json(x) is Object,
        ({
            let m = output_json(x)->Object_0;
            &&& x.description is None ==> !m.contains_key("Description"@)
            &&& x.description is Some ==> m.contains_key("Description"@) && m["Description"@] == JsonView::Str(x.description->0@)
            &&& x.export_name is None ==> !m.contains_key("ExportName"@)
            &&& x.export_name is Some ==> m.contains_key("ExportName"@) && m["ExportName"@] == JsonView::Str(x.export_name->0@)
            &&& x.output_key is None ==> !m.contains_key("OutputKey"@)
            &&& x.output_key is Some ==> m.contains_key("OutputKey"@) && m["OutputKey"@] == JsonView::Str(x.output_key->0@)
        }),
{
    lemma_output_json_keys_differ();
}

#[verifier::spinoff_prover]
#[verifier::rlimit(30)]
proof fn lemma_output_json_fields_1(x: Output)
    ensures
        output_json(x) is Object,
        ({
            let m = output_json(x)->Object_0;
            &&& x.output_value is None ==> !m.contains_key("OutputValue"@)
            &&& x.output_value is Some ==> m.contains_key("OutputValue"@) && m["OutputValue"@] == JsonView::Str(x.output_value->0@)
        }),
{
    lemma_output_json_keys_differ();
}

/// The object of a output holds each reported field of it under its own key, and such a key is missing exactly when AWS did not report the field.
pub proof fn law_output_fields(x: Output)
    ensures
        output_json(x) is Object,
        ({
            let m = output_json(x)->Object_0;
            &&& x.description is None ==> !m.contains_key("Description"@)
            &&& x.description is Some ==> m.contains_key("Description"@) && m["Description"@] == JsonView::Str(x.description->0@)
            &&& x.export_name is None ==> !m.contains_key("ExportName"@)
            &&& x.export_name is Some ==> m.contains_key("ExportName"@) && m["ExportName"@] == JsonView::Str(x.export_name->0@)
            &&& x.output_key is None ==> !m.contains_key("OutputKey"@)
            &&& x.output_key is Some ==> m.contains_key("OutputKey"@) && m["OutputKey"@] == JsonView::Str(x.output_key->0@)
            &&& x.output_value is None ==> !m.contains_key("OutputValue"@)
            &&& x.output_value is Some ==> m.contains_key("OutputValue"@) && m["OutputValue"@] == JsonView::Str(x.output_value->0@)
        }),
{
    lemma_output_json_fields_0(x);
    lemma_output_json_fields_1(x);
}

/// What tells the keys of `parameter_json` apart: their lengths, and a letter where two have the same length.
proof fn lemma_parameter_json_keys_differ()
    ensures
        "ParameterKey"@.len() == 12,
        "ParameterValue"@.len() == 14,
        "ResolvedValue"@.len() == 13,
{
    reveal_strlit("ParameterKey");
    reveal_strlit("ParameterValue");
    reveal_strlit("ResolvedValue");
}

#[verifier::spinoff_prover]
#[verifier::rlimit(30)]
proof fn lemma_parameter_json_fields_0(x: Parameter)
    ensures
        parameter_json(x) is Object,
        ({
            let m = parameter_json(x)->Object_0;
            &&& x.parameter_key is None ==> !m.contains_key("ParameterKey"@)
            &&& x.parameter_key is Some ==> m.contains_key("ParameterKey"@) && m["ParameterKey"@] == JsonView::Str(x.parameter_key->0@)
            &&& x.parameter_value is None ==> !m.contains_key("ParameterValue"@)
            &&& x.parameter_value is Some ==> m.contains_key("ParameterValue"@) && m["ParameterValue"@] == JsonView::Str(x.parameter_value->0@)
            &&& x.resolved_value is None ==> !m.contains_key("ResolvedValue"@)
            &&& x.resolved_value is Some ==> m.contains_key("ResolvedValue"@) && m["ResolvedValue"@] == JsonView::Str(x.resolved_value->0@)
        }),
{
    lemma_parameter_json_keys_differ();
}

/// The object of a parameter holds each reported field of it under its own key, and such a key is missing exactly when AWS did not report the field.
pub proof fn law_parameter_fields(x: Parameter)
    ensures
        parameter_json(x) is Object,
        ({
            let m = parameter_json(x)->Object_0;
            &&& x.parameter_key is None ==> !m.contains_key("ParameterKey"@)
            &&& x.parameter_key is Some ==> m.contains_key("ParameterKey"@) && m["ParameterKey"@] == JsonView::Str(x.parameter_key->0@)
            &&& x.parameter_value is None ==> !m.contains_key("ParameterValue"@)
            &&& x.parameter_value is Some ==> m.contains_key("ParameterValue"@) && m["ParameterValue"@] == JsonView::Str(x.parameter_value->0@)
            &&& x.resolved_value is None ==> !m.contains_key("ResolvedValue"@)
            &&& x.resolved_value is Some ==> m.contains_key("ResolvedValue"@) && m["ResolvedValue"@] == JsonView::Str(x.resolved_value->0@)
        }),
{
    lemma_parameter_json_fields_0(x);
}

/// What tells the keys of `stack_drift_json` apart: their lengths, and a letter where two have the same length.
proof fn lemma_stack_drift_json_keys_differ()
    ensures
        "LastCheckTimestamp"@.len() == 18,
        "StackDriftStatus"@.len() == 16,
{
    reveal_strlit("LastCheckTimestamp");
    reveal_strlit("StackDriftStatus");
}

#[verifier::spinoff_prover]
#[verifier::rlimit(30)]
proof fn lemma_stack_drift_json_fields_0(x: StackDriftInformation)
    ensures
        stack_drift_json(x) is Object,
        ({
            let m = stack_drift_json(x)->Object_0;
            &&& x.last_check_timestamp is None ==> !m.contains_key("LastCheckTimestamp"@)
            &&& x.last_check_timestamp is Some ==> m.contains_key("LastCheckTimestamp"@) && m["LastCheckTimestamp"@] == ts_json(x.last_check_timestamp->0)
            &&& x.stack_drift_status is None ==> !m.contains_key("StackDriftStatus"@)
            &&& x.stack_drift_status is Some ==> m.contains_key("StackDriftStatus"@) && m["StackDriftStatus"@] == JsonView::Str(x.stack_drift_status->0@)
        }),
{
    lemma_stack_drift_json_keys_differ();
}

/// The object of a stack drift information holds each reported field of it under its own key, and such a key is missing exactly when AWS did not report the field.
pub proof fn law_stack_drift_fields(x: StackDriftInformation)
    ensures
        stack_drift_json(x) is Object,
        ({
            let m = stack_drift_json(x)->Object_0;
            &&& x.last_check_timestamp is None ==> !m.contains_key("LastCheckTimestamp"@)
            &&& x.last_check_timestamp is Some ==> m.contains_key("LastCheckTimestamp"@) && m["LastCheckTimestamp"@] == ts_json(x.last_check_timestamp->0)
            &&& x.stack_drift_status is None ==> !m.contains_key("StackDriftStatus"@)
            &&& x.stack_drift_status is Some ==> m.contains_key("StackDriftStatus"@) && m["StackDriftStatus"@] == JsonView::Str(x.stack_drift_status->0@)
        }),
{
    lemma_stack_drift_json_fields_0(x);
}

/// What tells the keys of `stack_event_json` apart: their lengths, and a letter where two have the same length.
proof fn lemma_stack_event_json_keys_differ()
    ensures
        "EventId"@.len() == 7,
        "LogicalResourceId"@.len() == 17,
        "PhysicalResourceId"@.len() == 18,
        "ResourceStatus"@.len() == 14,
        "ResourceStatusReason"@.len() == 20,
        "ResourceType"@.len() == 12,
        "Timestamp"@.len() == 9,
{
    reveal_strlit("EventId");
    reveal_strlit("LogicalResourceId");
    reveal_strlit("PhysicalResourceId");
    reveal_strlit("ResourceStatus");
    reveal_strlit("ResourceStatusReason");
    reveal_strlit("ResourceType");
    reveal_strlit("Timestamp");
}

#[verifier::spinoff_prover]
#[verifier::rlimit(30)]
proof fn lemma_stack_event_json_fields_0(x: StackEvent)
    ensures
        stack_event_json(x) is Object,
        ({
            let m = stack_event_json(x)->Object_0;
            &&& x.event_id is None ==> !m.contains_key("EventId"@)
            &&& x.event_id is Some ==> m.contains_key("EventId"@) && m["EventId"@] == JsonView::Str(x.event_id->0@)
            &&& x.logical_resource_id is None ==> !m.contains_key("LogicalResourceId"@)
            &&& x.logical_resource_id is Some ==> m.contains_key("LogicalResourceId"@) && m["LogicalResourceId"@] == JsonView::Str(x.logical_resource_id->0@)
            &&& x.physical_resource_id is None ==> !m.contains_key("PhysicalResourceId"@)
            &&& x.physical_resource_id is Some ==> m.contains_key("PhysicalResourceId"@) && m["PhysicalResourceId"@] == JsonView::Str(x.physical_resource_id->0@)
        }),
{
    lemma_stack_event_json_keys_differ();
}

#[verifier::spinoff_prover]
#[verifier::rlimit(30)]
proof fn lemma_stack_event_json_fields_1(x: StackEvent)
    ensures
        stack_event_json(x) is Object,
        ({
            let m = stack_event_json(x)->Object_0;
            &&& x.resource_status is None ==> !m.contains_key("ResourceStatus"@)
            &&& x.resource_status is Some ==> m.contains_key("ResourceStatus"@) && m["ResourceStatus"@] == JsonView::Str(x.resource_status->0@)
            &&& x.resource_status_reason is None ==> !m.contains_key("ResourceStatusReason"@)
            &&& x.resource_status_reason is Some ==> m.contains_key("ResourceStatusReason"@) && m["ResourceStatusReason"@] == JsonView::Str(x.resource_status_reason->0@)
            &&& x.resource_type is None ==> !m.contains_key("ResourceType"@)
            &&& x.resource_type is Some ==> m.contains_key("ResourceType"@) && m["ResourceType"@] == JsonView::Str(x.resource_type->0@)
        }),
{
    lemma_stack_event_json_keys_differ();
}

#[verifier::spinoff_prover]
#[verifier::rlimit(30)]
proof fn lemma_stack_event_json_fields_2(x: StackEvent)
    ensures
        stack_event_json(x) is Object,
        ({
            let m = stack_event_json(x)->Object_0;
            &&& x.timestamp is None ==> !m.contains_key("Timestamp"@)
            &&& x.timestamp is Some ==> m.contains_key("Timestamp"@) && m["Timestamp"@] == ts_json(x.timestamp->0)
        }),
{
    lemma_stack_event_json_keys_differ();
}

/// The object of a stack event holds each reported field of it under its own key, and such a key is missing exactly when AWS did not report the field.
pub proof fn law_stack_event_fields(x: StackEvent)
    ensures
        stack_event_json(x) is Object,
        ({
            let m = stack_event_json(x)->Object_0;
            &&& x.event_id is None ==> !m.contains_key("EventId"@)
            &&& x.event_id is Some ==> m.contains_key("EventId"@) && m["EventId"@] == JsonView::Str(x.event_id->0@)
            &&& x.logical_resource_id is None ==> !m.contains_key("LogicalResourceId"@)
            &&& x.logical_resource_id is Some ==> m.contains_key("LogicalResourceId"@) && m["LogicalResourceId"@] == JsonView::Str(x.logical_resource_id->0@)
            &&& x.physical_resource_id is None ==> !m.contains_key("PhysicalResourceId"@)
            &&& x.physical_resource_id is Some ==> m.contains_key("PhysicalResourceId"@) && m["PhysicalResourceId"@] == JsonView::Str(x.physical_resource_id->0@)
            &&& x.resource_status is None ==> !m.contains_key("ResourceStatus"@)
            &&& x.resource_status is Some ==> m.contains_key("ResourceStatus"@) && m["ResourceStatus"@] == JsonView::Str(x.resource_status->0@)
            &&& x.resource_status_reason is None ==> !m.contains_key("ResourceStatusReason"@)
            &&& x.resource_status_reason is Some ==> m.contains_key("ResourceStatusReason"@) && m["ResourceStatusReason"@] == JsonView::Str(x.resource_status_reason->0@)
            &&& x.resource_type is None ==> !m.contains_key("ResourceType"@)
            &&& x.resource_type is Some ==> m.contains_key("ResourceType"@) && m["ResourceType"@] == JsonView::Str(x.resource_type->0@)
            &&& x.timestamp is None ==> !m.contains_key("Timestamp"@)
            &&& x.timestamp is Some ==> m.contains_key("Timestamp"@) && m["Timestamp"@] == ts_json(x.timestamp->0)
        }),
{
    lemma_stack_event_json_fields_0(x);
    lemma_stack_event_json_fields_1(x);
    lemma_stack_event_json_fields_2(x);
}

/// What tells the keys of `resource_drift_json` apart: their lengths, and a letter where two have the same length.
proof fn lemma_resource_drift_json_keys_differ()
    ensures
        "LastCheckTimestamp"@.len() == 18,
        "StackResourceDriftStatus"@.len() == 24,
{
    reveal_strlit("LastCheckTimestamp");
    reveal_strlit("StackResourceDriftStatus");
}

#[verifier::spinoff_prover]
#[verifier::rlimit(30)]
proof fn lemma_resource_drift_json_fields_0(x: StackResourceDriftInformationSummary)
    ensures
        resource_drift_json(x) is Object,
        ({
            let m = resource_drift_json(x)->Object_0;
            &&& x.last_check_timestamp is None ==> !m.contains_key("LastCheckTimestamp"@)
            &&& x.last_check_timestamp is Some ==> m.contains_key("LastCheckTimestamp"@) && m["LastCheckTimestamp"@] == ts_json(x.last_check_timestamp->0)
            &&& x.stack_resource_drift_status is None ==> !m.contains_key("StackResourceDriftStatus"@)
            &&& x.stack_resource_drift_status is Some ==> m.contains_key("StackResourceDriftStatus"@) && m["StackResourceDriftStatus"@] == JsonView::Str(x.stack_resource_drift_status->0@)
        }),
{
    lemma_resource_drift_json_keys_differ();
}

/// The object of a stack resource drift information summary holds each reported field of it under its own key, and such a key is missing exactly when AWS did not report the field.
pub proof fn law_resource_drift_fields(x: StackResourceDriftInformationSummary)
    ensures
        resource_drift_json(x) is Object,
        ({
            let m = resource_drift_json(x)->Object_0;
            &&& x.last_check_timestamp is None ==> !m.contains_key("LastCheckTimestamp"@)
            &&& x.last_check_timestamp is Some ==> m.contains_key("LastCheckTimestamp"@) && m["LastCheckTimestamp"@] == ts_json(x.last_check_timestamp->0)
            &&& x.stack_resource_drift_status is None ==> !m.contains_key("StackResourceDriftStatus"@)
            &&& x.stack_resource_drift_status is Some ==> m.contains_key("StackResourceDriftStatus"@) && m["StackResourceDriftStatus"@] == JsonView::Str(x.stack_resource_drift_status->0@)
        }),
{
    lemma_resource_drift_json_fields_0(x);
}

/// What tells the keys of `stack_resource_json` apart: their lengths, and a letter where two have the same length.
proof fn lemma_stack_resource_json_keys_differ()
    ensures
        "DriftInformation"@.len() == 16,
        "LastUpdatedTimestamp"@.len() == 20 && "LastUpdatedTimestamp"@[0] == 'L',
        "LogicalResourceId"@.len() == 17,
        "PhysicalResourceId"@.len() == 18,
        "ResourceStatus"@.len() == 14,
        "ResourceStatusReason"@.len() == 20 && "ResourceStatusReason"@[0] == 'R',
        "ResourceType"@.len() == 12,
{
    reveal_strlit("DriftInformation");
    reveal_strlit("LastUpdatedTimestamp");
    reveal_strlit("LogicalResourceId");
    reveal_strlit("PhysicalResourceId");
    reveal_strlit("ResourceStatus");
    reveal_strlit("ResourceStatusReason");
    reveal_strlit("ResourceType");
}

#[verifier::spinoff_prover]
#[verifier::rlimit(30)]
proof fn lemma_stack_resource_json_fields_0(x: StackResourceSummary)
    ensures
        stack_resource_json(x) is Object,
        ({
            let m = stack_resource_json(x)->Object_0;
            &&& x.last_updated_timestamp is None ==> !m.contains_key("LastUpdatedTimestamp"@)
            &&& x.last_updated_timestamp is Some ==> m.contains_key("LastUpdatedTimestamp"@) && m["LastUpdatedTimestamp"@] == ts_json(x.last_updated_timestamp->0)
            &&& x.logical_resource_id is None ==> !m.contains_key("LogicalResourceId"@)
            &&& x.logical_resource_id is Some ==> m.contains_key("LogicalResourceId"@) && m["LogicalResourceId"@] == JsonView::Str(x.logical_resource_id->0@)
            &&& x.physical_resource_id is None ==> !m.contains_key("PhysicalResourceId"@)
            &&& x.physical_resource_id is Some ==> m.contains_key("PhysicalResourceId"@) && m["PhysicalResourceId"@] == JsonView::Str(x.physical_resource_id->0@)
        }),
{
    lemma_stack_resource_json_keys_differ();
}

#[verifier::spinoff_prover]
#[verifier::rlimit(30)]
proof fn lemma_stack_resource_json_fields_1(x: StackResourceSummary)
    ensures
        stack_resource_json(x) is Object,
        ({
            let m = stack_resource_json(x)->Object_0;
            &&& x.resource_status is None ==> !m.contains_key("ResourceStatus"@)
            &&& x.resource_status is Some ==> m.contains_key("ResourceStatus"@) && m["ResourceStatus"@] == JsonView::Str(x.resource_status->0@)
            &&& x.resource_status_reason is None ==> !m.contains_key("ResourceStatusReason"@)
            &&& x.resource_status_reason is Some ==> m.contains_key("ResourceStatusReason"@) && m["ResourceStatusReason"@] == JsonView::Str(x.resource_status_reason->0@)
            &&& x.resource_type is None ==> !m.contains_key("ResourceType"@)
            &&& x.resource_type is Some ==> m.contains_key("ResourceType"@) && m["ResourceType"@] == JsonView::Str(x.resource_type->0@)
        }),
{
    lemma_stack_resource_json_keys_differ();
}

/// The object of a stack resource summary holds each reported field of it under its own key, and such a key is missing exactly when AWS did not report the field.
pub proof fn law_stack_resource_fields(x: StackResourceSummary)
    ensures
        stack_resource_json(x) is Object,
        ({
            let m = stack_resource_json(x)->Object_0;
            &&& x.last_updated_timestamp is None ==> !m.contains_key("LastUpdatedTimestamp"@)
            &&& x.last_updated_timestamp is Some ==> m.contains_key("LastUpdatedTimestamp"@) && m["LastUpdatedTimestamp"@] == ts_json(x.last_updated_timestamp->0)
            &&& x.logical_resource_id is None ==> !m.contains_key("LogicalResourceId"@)
            &&& x.logical_resource_id is Some ==> m.contains_key("LogicalResourceId"@) && m["LogicalResourceId"@] == JsonView::Str(x.logical_resource_id->0@)
            &&& x.physical_resource_id is None ==> !m.contains_key("PhysicalResourceId"@)
            &&& x.physical_resource_id is Some ==> m.contains_key("PhysicalResourceId"@) && m["PhysicalResourceId"@] == JsonView::Str(x.physical_resource_id->0@)
            &&& x.resource_status is None ==> !m.contains_key("ResourceStatus"@)
            &&& x.resource_status is Some ==> m.contains_key("ResourceStatus"@) && m["ResourceStatus"@] == JsonView::Str(x.resource_status->0@)
            &&& x.resource_status_reason is None ==> !m.contains_key("ResourceStatusReason"@)
            &&& x.resource_status_reason is Some ==> m.contains_key("ResourceStatusReason"@) && m["ResourceStatusReason"@] == JsonView::Str(x.resource_status_reason->0@)
            &&& x.resource_type is None ==> !m.contains_key("ResourceType"@)
            &&& x.resource_type is Some ==> m.contains_key("ResourceType"@) && m["ResourceType"@] == JsonView::Str(x.resource_type->0@)
        }),
{
    lemma_stack_resource_json_fields_0(x);
    lemma_stack_resource_json_fields_1(x);
}

/// What tells the keys of `drift_detection_status_json` apart: their lengths, and a letter where two have the same length.
proof fn lemma_drift_detection_status_json_keys_differ()
    ensures
        "DetectionStatus"@.len() == 15,
        "DetectionStatusReason"@.len() == 21 && "DetectionStatusReason"@[0] == 'D',
        "DriftedStackResourceCount"@.len() == 25,
        "StackDriftDetectionId"@.len() == 21 && "StackDriftDetectionId"@[0] == 'S',
        "StackDriftStatus"@.len() == 16,
        "StackId"@.len() == 7,
        "Timestamp"@.len() == 9,
{
    reveal_strlit("DetectionStatus");
    reveal_strlit("DetectionStatusReason");
    reveal_strlit("DriftedStackResourceCount");
    reveal_strlit("StackDriftDetectionId");
    reveal_strlit("StackDriftStatus");
    reveal_strlit("StackId");
    reveal_strlit("Timestamp");
}

#[verifier::spinoff_prover]
#[verifier::rlimit(30)]
proof fn lemma_drift_detection_status_json_fields_0(status: StackDriftDetectionStatus)
    ensures
        drift_detection_status_json(status) is Object,
        ({
            let m = drift_detection_status_json(status)->Object_0;
            &&& status.detection_status is None ==> !m.contains_key("DetectionStatus"@)
            &&& status.detection_status is Some ==> m.contains_key("DetectionStatus"@) && m["DetectionStatus"@] == JsonView::Str(status.detection_status->0@)
            &&& status.detection_status_reason is None ==> !m.contains_key("DetectionStatusReason"@)
            &&& status.detection_status_reason is Some ==> m.contains_key("DetectionStatusReason"@) && m["DetectionStatusReason"@] == JsonView::Str(status.detection_status_reason->0@)
            &&& status.drifted_stack_resource_count is None ==> !m.contains_key("DriftedStackResourceCount"@)
            &&& status.drifted_stack_resource_count is Some ==> m.contains_key("DriftedStackResourceCount"@) && m["DriftedStackResourceCount"@] == JsonView::Number(status.drifted_stack_resource_count->0 as int)
        }),
{
    lemma_drift_detection_status_json_keys_differ();
}

#[verifier::spinoff_prover]
#[verifier::rlimit(30)]
proof fn lemma_drift_detection_status_json_fields_1(status: StackDriftDetectionStatus)
    ensures
        drift_detection_status_json(status) is Object,
        ({
            let m = drift_detection_status_json(status)->Object_0;
            &&& status.stack_drift_detection_id is None ==> !m.contains_key("StackDriftDetectionId"@)
            &&& status.stack_drift_detection_id is Some ==> m.contains_key("StackDriftDetectionId"@) && m["StackDriftDetectionId"@] == JsonView::Str(status.stack_drift_detection_id->0@)
            &&& status.stack_drift_status is None ==> !m.contains_key("StackDriftStatus"@)
            &&& status.stack_drift_status is Some ==> m.contains_key("StackDriftStatus"@) && m["StackDriftStatus"@] == JsonView::Str(status.stack_drift_status->0@)
            &&& status.stack_id is None ==> !m.contains_key("StackId"@)
            &&& status.stack_id is Some ==> m.contains_key("StackId"@) && m["StackId"@] == JsonView::Str(status.stack_id->0@)
        }),
{
    lemma_drift_detection_status_json_keys_differ();
}

#[verifier::spinoff_prover]
#[verifier::rlimit(30)]
proof fn lemma_drift_detection_status_json_fields_2(status: StackDriftDetectionStatus)
    ensures
        drift_detection_status_json(status) is Object,
        ({
            let m = drift_detection_status_json(status)->Object_0;
            &&& status.timestamp is None ==> !m.contains_key("Timestamp"@)
            &&& status.timestamp is Some ==> m.contains_key("Timestamp"@) && m["Timestamp"@] == ts_json(status.timestamp->0)
        }),
{
    lemma_drift_detection_status_json_keys_differ();
}

/// The object of a stack drift detection status holds each reported field of it under its own key, and such a key is missing exactly when AWS did not report the field.
pub proof fn law_drift_detection_status_fields(status: StackDriftDetectionStatus)
    ensures
        drift_detection_status_json(status) is Object,
        ({
            let m = drift_detection_status_json(status)->Object_0;
            &&& status.detection_status is None ==> !m.contains_key("DetectionStatus"@)
            &&& status.detection_status is Some ==> m.contains_key("DetectionStatus"@) && m["DetectionStatus"@] == JsonView::Str(status.detection_status->0@)
            &&& status.detection_status_reason is None ==> !m.contains_key("DetectionStatusReason"@)
            &&& status.detection_status_reason is Some ==> m.contains_key("DetectionStatusReason"@) && m["DetectionStatusReason"@] == JsonView::Str(status.detection_status_reason->0@)
            &&& status.drifted_stack_resource_count is None ==> !m.contains_key("DriftedStackResourceCount"@)
            &&& status.drifted_stack_resource_count is Some ==> m.contains_key("DriftedStackResourceCount"@) && m["DriftedStackResourceCount"@] == JsonView::Number(status.drifted_stack_resource_count->0 as int)
            &&& status.stack_drift_detection_id is None ==> !m.contains_key("StackDriftDetectionId"@)
            &&& status.stack_drift_detection_id is Some ==> m.contains_key("StackDriftDetectionId"@) && m["StackDriftDetectionId"@] == JsonView::Str(status.stack_drift_detection_id->0@)
            &&& status.stack_drift_status is None ==> !m.contains_key("StackDriftStatus"@)
            &&& status.stack_drift_status is Some ==> m.contains_key("StackDriftStatus"@) && m["StackDriftStatus"@] == JsonView::Str(status.stack_drift_status->0@)
            &&& status.stack_id is None ==> !m.contains_key("StackId"@)
            &&& status.stack_id is Some ==> m.contains_key("StackId"@) && m["StackId"@] == JsonView::Str(status.stack_id->0@)
            &&& status.timestamp is None ==> !m.contains_key("Timestamp"@)
            &&& status.timestamp is Some ==> m.contains_key("Timestamp"@) && m["Timestamp"@] == ts_json(status.timestamp->0)
        }),
{
    lemma_drift_detection_status_json_fields_0(status);
    lemma_drift_detection_status_json_fields_1(status);
    lemma_drift_detection_status_json_fields_2(status);
}

} // verus!

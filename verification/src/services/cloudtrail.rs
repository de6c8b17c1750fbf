//! CloudTrail trails and events as JSON, and how event lookups are asked for and paged.
use crate::json::{array_of, opt_str_json, text_value, with_opt, JsonObject, JsonValue, JsonView};
use crate::timestamp::{ts_json, opt_ts_json, Timestamp};
use crate::json::str_value;
use crate::text::{concat_text, contains, has_substring, lowercase_text, to_lowercase};
use std::sync::Arc;
use vstd::prelude::*;

verus! {

/// A trail as `ListTrails` reports it.
pub struct TrailInfo {
    pub trail_arn: Option<String>,
    pub name: Option<String>,
    pub home_region: Option<String>,
}

/// A trail as `DescribeTrails` reports it.
pub struct Trail {
    pub name: Option<String>,
    pub s3_bucket_name: Option<String>,
    pub s3_key_prefix: Option<String>,
    pub sns_topic_arn: Option<String>,
    pub include_global_service_events: Option<bool>,
    pub is_multi_region_trail: Option<bool>,
    pub home_region: Option<String>,
    pub trail_arn: Option<String>,
    pub log_file_validation_enabled: Option<bool>,
    pub cloud_watch_logs_log_group_arn: Option<String>,
    pub cloud_watch_logs_role_arn: Option<String>,
    pub kms_key_id: Option<String>,
    pub has_custom_event_selectors: Option<bool>,
    pub has_insight_selectors: Option<bool>,
    pub is_organization_trail: Option<bool>,
}

/// A resource that an event names.
pub struct Resource {
    pub resource_type: Option<String>,
    pub resource_name: Option<String>,
}

/// The full record of an event: its JSON text, and what `serde_json` made of the text when it is JSON.
pub struct EventRecord {
    pub text: String,
    pub parsed: Option<JsonValue>,
}

/// An event as `LookupEvents` reports it.
pub struct Event {
    pub event_id: Option<String>,
    pub event_name: Option<String>,
    pub read_only: Option<String>,
    pub access_key_id: Option<String>,
    pub event_time: Option<Timestamp>,
    pub event_source: Option<String>,
    pub username: Option<String>,
    pub resources: Option<Vec<Resource>>,
    pub cloud_trail_event: Option<EventRecord>,
}

/// Reads CloudTrail trails and events through a credential coordinator `C`.
pub struct CloudTrailService<C> {
    credential_coordinator: Arc<C>,
}

/// The JSON object of a listed trail, with status `ACTIVE`.
pub open spec fn trail_info_json(trail: TrailInfo) -> JsonView {
    let m = Map::<Seq<char>, JsonView>::empty();
    let m = with_opt(m, "TrailArn"@, opt_str_json(trail.trail_arn));
    let m = with_opt(m, "Name"@, opt_str_json(trail.name));
    let m = with_opt(m, "ResourceId"@, opt_str_json(trail.name));
    let m = with_opt(m, "HomeRegion"@, opt_str_json(trail.home_region));
    let m = m.insert("Status"@, JsonView::Str("ACTIVE"@));
    JsonView::Object(m)
}

/// The JSON object of a trail: missing flags read as false, and the status is `ACTIVE`.
pub open spec fn trail_json(trail: Trail) -> JsonView {
    let m = Map::<Seq<char>, JsonView>::empty();
    let m = with_opt(m, "Name"@, opt_str_json(trail.name));
    let m = with_opt(m, "ResourceId"@, opt_str_json(trail.name));
    let m = with_opt(m, "S3BucketName"@, opt_str_json(trail.s3_bucket_name));
    let m = with_opt(m, "S3KeyPrefix"@, opt_str_json(trail.s3_key_prefix));
    let m = with_opt(m, "SnsTopicArn"@, opt_str_json(trail.sns_topic_arn));
    let m = m.insert("IncludeGlobalServiceEvents"@, JsonView::Bool(trail.include_global_service_events == Some(true)));
    let m = m.insert("IsMultiRegionTrail"@, JsonView::Bool(trail.is_multi_region_trail == Some(true)));
    let m = with_opt(m, "HomeRegion"@, opt_str_json(trail.home_region));
    let m = with_opt(m, "TrailArn"@, opt_str_json(trail.trail_arn));
    let m = m.insert("LogFileValidationEnabled"@, JsonView::Bool(trail.log_file_validation_enabled == Some(true)));
    let m = with_opt(m, "CloudWatchLogsLogGroupArn"@, opt_str_json(trail.cloud_watch_logs_log_group_arn));
    let m = with_opt(m, "CloudWatchLogsRoleArn"@, opt_str_json(trail.cloud_watch_logs_role_arn));
    let m = with_opt(m, "KmsKeyId"@, opt_str_json(trail.kms_key_id));
    let m = m.insert("HasCustomEventSelectors"@, JsonView::Bool(trail.has_custom_event_selectors == Some(true)));
    let m = m.insert("HasInsightSelectors"@, JsonView::Bool(trail.has_insight_selectors == Some(true)));
    let m = m.insert("IsOrganizationTrail"@, JsonView::Bool(trail.is_organization_trail == Some(true)));
    let m = m.insert("Status"@, JsonView::Str("ACTIVE"@));
    JsonView::Object(m)
}

/// The JSON object of a `Resource`.
pub open spec fn resource_json(x: Resource) -> JsonView {
    let m = Map::<Seq<char>, JsonView>::empty();
    let m = with_opt(m, "ResourceType"@, opt_str_json(x.resource_type));
    let m = with_opt(m, "ResourceName"@, opt_str_json(x.resource_name));
    JsonView::Object(m)
}

fn resource_to_json(x: &Resource) -> (v: JsonValue)
    ensures
        v.view() == resource_json(*x),
{
    let mut json = JsonObject::new();
    json.insert_opt_str("ResourceType", &x.resource_type);
    json.insert_opt_str("ResourceName", &x.resource_name);
    JsonValue::Object(json)
}

/// The JSON object of an event; its full record is included as JSON when it parses, and as text otherwise.
pub open spec fn event_json(event: Event) -> JsonView {
    let m = Map::<Seq<char>, JsonView>::empty();
    let m = with_opt(m, "EventId"@, opt_str_json(event.event_id));
    let m = with_opt(m, "EventName"@, opt_str_json(event.event_name));
    let m = with_opt(m, "ReadOnly"@, opt_str_json(event.read_only));
    let m = with_opt(m, "AccessKeyId"@, opt_str_json(event.access_key_id));
    let m = with_opt(m, "EventTime"@, opt_ts_json(event.event_time));
    let m = with_opt(m, "EventSource"@, opt_str_json(event.event_source));
    let m = with_opt(m, "Username"@, opt_str_json(event.username));
    let m = match event.resources { Some(v) => m.insert("Resources"@, JsonView::Array(v@.map_values(|e: Resource| resource_json(e)))), None => m };
    let m = match event.cloud_trail_event { Some(r) => m.insert("CloudTrailEvent"@, event_record_json(r)), None => m };
    JsonView::Object(m)
}

impl<C> CloudTrailService<C> {
    /// The coordinator that the service was made with.
    pub closed spec fn coordinator(&self) -> Arc<C> {
        self.credential_coordinator
    }

    /// A service that obtains its AWS configurations from `credential_coordinator`.
    pub fn new(credential_coordinator: Arc<C>) -> (s: Self)
        ensures
            s.coordinator() == credential_coordinator,
    {
        Self { credential_coordinator }
    }

    /// The coordinator that the service was made with.
    pub fn credential_coordinator(&self) -> (c: &Arc<C>)
        ensures
            *c == self.coordinator(),
    {
        &self.credential_coordinator
    }

    /// The JSON object of a listed trail, with status `ACTIVE`.
    pub fn trail_info_to_json(&self, trail: &TrailInfo) -> (v: JsonValue)
        ensures
            v.view() == trail_info_json(*trail),
    {
        let mut json = JsonObject::new();
        json.insert_opt_str("TrailArn", &trail.trail_arn);
        json.insert_opt_str("Name", &trail.name);
        json.insert_opt_str("ResourceId", &trail.name);
        json.insert_opt_str("HomeRegion", &trail.home_region);
        json.insert("Status", text_value("ACTIVE"));
        JsonValue::Object(json)
    }

    /// The JSON object of a trail: missing flags read as false, and the status is `ACTIVE`.
    pub fn trail_to_json(&self, trail: &Trail) -> (v: JsonValue)
        ensures
            v.view() == trail_json(*trail),
    {
        let mut json = JsonObject::new();
        json.insert_opt_str("Name", &trail.name);
        json.insert_opt_str("ResourceId", &trail.name);
        json.insert_opt_str("S3BucketName", &trail.s3_bucket_name);
        json.insert_opt_str("S3KeyPrefix", &trail.s3_key_prefix);
        json.insert_opt_str("SnsTopicArn", &trail.sns_topic_arn);
        json.insert_bool("IncludeGlobalServiceEvents", trail.include_global_service_events == Some(true));
        json.insert_bool("IsMultiRegionTrail", trail.is_multi_region_trail == Some(true));
        json.insert_opt_str("HomeRegion", &trail.home_region);
        json.insert_opt_str("TrailArn", &trail.trail_arn);
        json.insert_bool("LogFileValidationEnabled", trail.log_file_validation_enabled == Some(true));
        json.insert_opt_str("CloudWatchLogsLogGroupArn", &trail.cloud_watch_logs_log_group_arn);
        json.insert_opt_str("CloudWatchLogsRoleArn", &trail.cloud_watch_logs_role_arn);
        json.insert_opt_str("KmsKeyId", &trail.kms_key_id);
        json.insert_bool("HasCustomEventSelectors", trail.has_custom_event_selectors == Some(true));
        json.insert_bool("HasInsightSelectors", trail.has_insight_selectors == Some(true));
        json.insert_bool("IsOrganizationTrail", trail.is_organization_trail == Some(true));
        json.insert("Status", text_value("ACTIVE"));
        JsonValue::Object(json)
    }

    /// The JSON object of an event; its full record is included as JSON when it parses, and as text otherwise.
    pub fn event_to_json(&self, event: &Event) -> (v: JsonValue)
        ensures
            v.view() == event_json(*event),
    {
        let mut json = JsonObject::new();
        json.insert_opt_str("EventId", &event.event_id);
        json.insert_opt_str("EventName", &event.event_name);
        json.insert_opt_str("ReadOnly", &event.read_only);
        json.insert_opt_str("AccessKeyId", &event.access_key_id);
        json.insert_opt_ts("EventTime", &event.event_time);
        json.insert_opt_str("EventSource", &event.event_source);
        json.insert_opt_str("Username", &event.username);
        if let Some(v) = &event.resources {
            json.insert("Resources", array_of(v, resource_to_json, Ghost(|e: Resource| resource_json(e))));
        }
        if let Some(r) = &event.cloud_trail_event {
            json.insert("CloudTrailEvent", match &r.parsed {
                Some(p) => p.clone_value(),
                None => str_value(&r.text),
            });
        }
        JsonValue::Object(json)
    }

}

/// The JSON of an event's full record: the parsed JSON, or else its text.
pub open spec fn event_record_json(r: EventRecord) -> JsonView {
    match r.parsed {
        Some(p) => p.view(),
        None => JsonView::Str(r.text@),
    }
}

// ----- lookups -----

/// An attribute that events are filtered by (`EventId`, `EventName`,
/// `ReadOnly`, `Username`, `ResourceType`, `ResourceName`, `EventSource` or
/// `AccessKeyId`) and the value it must have.
pub struct LookupAttribute {
    pub attribute_key: String,
    pub attribute_value: String,
}

/// What an event lookup asks for. Instants are milliseconds since the Unix
/// epoch.
pub struct LookupEventsParams {
    pub start_time: Option<i64>,
    pub end_time: Option<i64>,
    pub lookup_attribute: Option<LookupAttribute>,
    pub max_results: usize,
    /// `insight` for Insights events; other categories are not asked for.
    pub event_category: Option<String>,
}

/// The events listed when no limit is given.
pub const DEFAULT_MAX_RESULTS: usize = 100;

/// The most events that one `LookupEvents` call returns.
pub const MAX_PAGE_SIZE: usize = 50;

impl Default for LookupEventsParams {
    fn default() -> (p: Self)
        ensures
            p.start_time is None,
            p.end_time is None,
            p.lookup_attribute is None,
            p.max_results == DEFAULT_MAX_RESULTS,
            p.event_category is None,
    {
        LookupEventsParams {
            start_time: None,
            end_time: None,
            lookup_attribute: None,
            max_results: DEFAULT_MAX_RESULTS,
            event_category: None,
        }
    }
}

/// A lookup of up to `max_results` events (100 when unset) whose attribute
/// `key` has the value `value`.
pub open spec fn attribute_lookup(p: LookupEventsParams, key: Seq<char>, value: Seq<char>, max_results: Option<usize>) -> bool {
    &&& p.start_time is None
    &&& p.end_time is None
    &&& p.event_category is None
    &&& p.lookup_attribute matches Some(a) && a.attribute_key@ == key && a.attribute_value@ == value
    &&& p.max_results == match max_results {
        Some(n) => n,
        None => DEFAULT_MAX_RESULTS,
    }
}

fn attribute_params(key: &str, value: &str, max_results: Option<usize>) -> (p: LookupEventsParams)
    ensures
        attribute_lookup(p, key@, value@, max_results),
{
    LookupEventsParams {
        lookup_attribute: Some(LookupAttribute { attribute_key: key.to_owned(), attribute_value: value.to_owned() }),
        max_results: match max_results {
            Some(n) => n,
            None => DEFAULT_MAX_RESULTS,
        },
        start_time: None,
        end_time: None,
        event_category: None,
    }
}

/// The services that have a short name, and their event sources.
pub open spec fn service_event_sources() -> Seq<(Seq<char>, Seq<char>)> {
    seq![
        ("s3"@, "s3.amazonaws.com"@), ("ec2"@, "ec2.amazonaws.com"@), ("lambda"@, "lambda.amazonaws.com"@),
        ("efs"@, "elasticfilesystem.amazonaws.com"@), ("ecs"@, "ecs.amazonaws.com"@), ("eks"@, "eks.amazonaws.com"@),
        ("batch"@, "batch.amazonaws.com"@), ("rds"@, "rds.amazonaws.com"@), ("dynamodb"@, "dynamodb.amazonaws.com"@),
        ("elasticache"@, "elasticache.amazonaws.com"@), ("neptune"@, "neptune.amazonaws.com"@),
        ("redshift"@, "redshift.amazonaws.com"@), ("iam"@, "iam.amazonaws.com"@), ("sts"@, "sts.amazonaws.com"@),
        ("kms"@, "kms.amazonaws.com"@), ("secretsmanager"@, "secretsmanager.amazonaws.com"@),
        ("secrets"@, "secretsmanager.amazonaws.com"@), ("ssm"@, "ssm.amazonaws.com"@),
        ("guardduty"@, "guardduty.amazonaws.com"@), ("securityhub"@, "securityhub.amazonaws.com"@),
        ("acm"@, "acm.amazonaws.com"@), ("organizations"@, "organizations.amazonaws.com"@),
        ("elb"@, "elasticloadbalancing.amazonaws.com"@), ("elasticloadbalancing"@, "elasticloadbalancing.amazonaws.com"@),
        ("elbv2"@, "elasticloadbalancingv2.amazonaws.com"@),
        ("elasticloadbalancingv2"@, "elasticloadbalancingv2.amazonaws.com"@), ("route53"@, "route53.amazonaws.com"@),
        ("apigateway"@, "apigateway.amazonaws.com"@), ("apigatewayv2"@, "apigatewayv2.amazonaws.com"@),
        ("cloudfront"@, "cloudfront.amazonaws.com"@), ("waf"@, "wafv2.amazonaws.com"@), ("wafv2"@, "wafv2.amazonaws.com"@),
        ("sns"@, "sns.amazonaws.com"@), ("sqs"@, "sqs.amazonaws.com"@), ("eventbridge"@, "events.amazonaws.com"@),
        ("events"@, "events.amazonaws.com"@), ("kinesis"@, "kinesis.amazonaws.com"@),
        ("firehose"@, "firehose.amazonaws.com"@), ("kinesisfirehose"@, "firehose.amazonaws.com"@),
        ("codecommit"@, "codecommit.amazonaws.com"@), ("codebuild"@, "codebuild.amazonaws.com"@),
        ("codedeploy"@, "codedeploy.amazonaws.com"@), ("codepipeline"@, "codepipeline.amazonaws.com"@),
        ("athena"@, "athena.amazonaws.com"@), ("glue"@, "glue.amazonaws.com"@), ("emr"@, "elasticmapreduce.amazonaws.com"@),
        ("sagemaker"@, "sagemaker.amazonaws.com"@), ("opensearch"@, "opensearch.amazonaws.com"@),
        ("elasticsearch"@, "opensearch.amazonaws.com"@), ("quicksight"@, "quicksight.amazonaws.com"@),
        ("stepfunctions"@, "states.amazonaws.com"@), ("states"@, "states.amazonaws.com"@),
        ("appsync"@, "appsync.amazonaws.com"@), ("cognito"@, "cognito-idp.amazonaws.com"@),
        ("cloudformation"@, "cloudformation.amazonaws.com"@), ("cfn"@, "cloudformation.amazonaws.com"@),
        ("cloudtrail"@, "cloudtrail.amazonaws.com"@), ("logs"@, "logs.amazonaws.com"@),
        ("cloudwatch-logs"@, "logs.amazonaws.com"@), ("cloudwatch"@, "monitoring.amazonaws.com"@),
        ("config"@, "config.amazonaws.com"@), ("configservice"@, "config.amazonaws.com"@),
        ("backup"@, "backup.amazonaws.com"@), ("transfer"@, "transfer.amazonaws.com"@)
    ]
}

fn service_event_source_table() -> (t: Vec<(&'static str, &'static str)>)
    ensures
        t@.len() == service_event_sources().len(),
        forall|i: int| 0 <= i < t@.len() ==> (#[trigger] t@[i].0@, t@[i].1@) == service_event_sources()[i],
{
    let t = vec![
        ("s3", "s3.amazonaws.com"), ("ec2", "ec2.amazonaws.com"), ("lambda", "lambda.amazonaws.com"),
        ("efs", "elasticfilesystem.amazonaws.com"), ("ecs", "ecs.amazonaws.com"), ("eks", "eks.amazonaws.com"),
        ("batch", "batch.amazonaws.com"), ("rds", "rds.amazonaws.com"), ("dynamodb", "dynamodb.amazonaws.com"),
        ("elasticache", "elasticache.amazonaws.com"), ("neptune", "neptune.amazonaws.com"),
        ("redshift", "redshift.amazonaws.com"), ("iam", "iam.amazonaws.com"), ("sts", "sts.amazonaws.com"),
        ("kms", "kms.amazonaws.com"), ("secretsmanager", "secretsmanager.amazonaws.com"),
        ("secrets", "secretsmanager.amazonaws.com"), ("ssm", "ssm.amazonaws.com"),
        ("guardduty", "guardduty.amazonaws.com"), ("securityhub", "securityhub.amazonaws.com"),
        ("acm", "acm.amazonaws.com"), ("organizations", "organizations.amazonaws.com"),
        ("elb", "elasticloadbalancing.amazonaws.com"), ("elasticloadbalancing", "elasticloadbalancing.amazonaws.com"),
        ("elbv2", "elasticloadbalancingv2.amazonaws.com"),
        ("elasticloadbalancingv2", "elasticloadbalancingv2.amazonaws.com"), ("route53", "route53.amazonaws.com"),
        ("apigateway", "apigateway.amazonaws.com"), ("apigatewayv2", "apigatewayv2.amazonaws.com"),
        ("cloudfront", "cloudfront.amazonaws.com"), ("waf", "wafv2.amazonaws.com"), ("wafv2", "wafv2.amazonaws.com"),
        ("sns", "sns.amazonaws.com"), ("sqs", "sqs.amazonaws.com"), ("eventbridge", "events.amazonaws.com"),
        ("events", "events.amazonaws.com"), ("kinesis", "kinesis.amazonaws.com"),
        ("firehose", "firehose.amazonaws.com"), ("kinesisfirehose", "firehose.amazonaws.com"),
        ("codecommit", "codecommit.amazonaws.com"), ("codebuild", "codebuild.amazonaws.com"),
        ("codedeploy", "codedeploy.amazonaws.com"), ("codepipeline", "codepipeline.amazonaws.com"),
        ("athena", "athena.amazonaws.com"), ("glue", "glue.amazonaws.com"), ("emr", "elasticmapreduce.amazonaws.com"),
        ("sagemaker", "sagemaker.amazonaws.com"), ("opensearch", "opensearch.amazonaws.com"),
        ("elasticsearch", "opensearch.amazonaws.com"), ("quicksight", "quicksight.amazonaws.com"),
        ("stepfunctions", "states.amazonaws.com"), ("states", "states.amazonaws.com"),
        ("appsync", "appsync.amazonaws.com"), ("cognito", "cognito-idp.amazonaws.com"),
        ("cloudformation", "cloudformation.amazonaws.com"), ("cfn", "cloudformation.amazonaws.com"),
        ("cloudtrail", "cloudtrail.amazonaws.com"), ("logs", "logs.amazonaws.com"),
        ("cloudwatch-logs", "logs.amazonaws.com"), ("cloudwatch", "monitoring.amazonaws.com"),
        ("config", "config.amazonaws.com"), ("configservice", "config.amazonaws.com"),
        ("backup", "backup.amazonaws.com"), ("transfer", "transfer.amazonaws.com"),
    ];
    t
}

/// The event source of the first table entry named `key`, if any.
pub open spec fn table_lookup(table: Seq<(Seq<char>, Seq<char>)>, key: Seq<char>) -> Option<Seq<char>>
    decreases table.len(),
{
    if table.len() == 0 {
        None
    } else if table[0].0 == key {
        Some(table[0].1)
    } else {
        table_lookup(table.drop_first(), key)
    }
}

/// The event source of a service name: the table's entry for its lower-case
/// form; else the lower-case form itself when it contains `.amazonaws.com`;
/// else the name as given.
pub open spec fn event_source_of(service_name: Seq<char>) -> Seq<char> {
    let lower = lowercase_text(service_name);
    match table_lookup(service_event_sources(), lower) {
        Some(source) => source,
        None => if has_substring(lower, ".amazonaws.com"@) {
            lower
        } else {
            service_name
        },
    }
}

impl<C: Clone> Clone for CloudTrailService<C> {
    fn clone(&self) -> (s: Self)
        ensures
            s.coordinator() == self.coordinator(),
    {
        CloudTrailService { credential_coordinator: Arc::clone(&self.credential_coordinator) }
    }
}

impl<C> CloudTrailService<C> {
    /// The JSON object of a trail in detail: the same as `trail_to_json`.
    pub fn trail_details_to_json(&self, trail: &Trail) -> (v: JsonValue)
        ensures
            v.view() == trail_json(*trail),
    {
        self.trail_to_json(trail)
    }

    /// The event source that a service name stands for.
    pub fn event_source_for_service(&self, service_name: &str) -> (s: String)
        ensures
            s@ == event_source_of(service_name@),
    {
        let lower = to_lowercase(service_name);
        let table = service_event_source_table();
        let mut i: usize = 0;
        assert(service_event_sources().skip(0) =~= service_event_sources());
        while i < table.len()
            invariant
                i <= table@.len(),
                lower@ == lowercase_text(service_name@),
                table@.len() == service_event_sources().len(),
                forall|k: int| 0 <= k < table@.len() ==> (#[trigger] table@[k].0@, table@[k].1@) == service_event_sources()[k],
                table_lookup(service_event_sources(), lower@) == table_lookup(service_event_sources().skip(i as int), lower@),
            decreases table@.len() - i,
        {
            let entry = table[i];
            assert(service_event_sources().skip(i as int)[0] == service_event_sources()[i as int]);
            assert(service_event_sources().skip(i as int).drop_first() =~= service_event_sources().skip(i + 1));
            if lower == entry.0.to_owned() {
                return entry.1.to_owned();
            }
            i = i + 1;
        }
        if contains(lower.as_str(), ".amazonaws.com") {
            lower
        } else {
            service_name.to_owned()
        }
    }

    /// A lookup of the events about a resource id.
    pub fn lookup_params_by_resource_id(&self, resource_id: &str, max_results: Option<usize>) -> (p: LookupEventsParams)
        ensures
            attribute_lookup(p, "ResourceName"@, resource_id@, max_results),
    {
        attribute_params("ResourceName", resource_id, max_results)
    }

    /// A lookup of the events about a resource type.
    pub fn lookup_params_by_resource_type(&self, resource_type: &str, max_results: Option<usize>) -> (p:
        LookupEventsParams)
        ensures
            attribute_lookup(p, "ResourceType"@, resource_type@, max_results),
    {
        attribute_params("ResourceType", resource_type, max_results)
    }

    /// A lookup of the events of a service, by the event source it stands for.
    pub fn lookup_params_by_service(&self, service_name: &str, max_results: Option<usize>) -> (p: LookupEventsParams)
        ensures
            attribute_lookup(p, "EventSource"@, event_source_of(service_name@), max_results),
    {
        let source = self.event_source_for_service(service_name);
        attribute_params("EventSource", source.as_str(), max_results)
    }

    /// A lookup of the events with a name.
    pub fn lookup_params_by_event_name(&self, event_name: &str, max_results: Option<usize>) -> (p: LookupEventsParams)
        ensures
            attribute_lookup(p, "EventName"@, event_name@, max_results),
    {
        attribute_params("EventName", event_name, max_results)
    }

    /// A lookup of the events of a user.
    pub fn lookup_params_by_username(&self, username: &str, max_results: Option<usize>) -> (p: LookupEventsParams)
        ensures
            attribute_lookup(p, "Username"@, username@, max_results),
    {
        attribute_params("Username", username, max_results)
    }

    /// A lookup of the events between two instants.
    pub fn lookup_params_between(&self, start_time: i64, end_time: i64, max_results: Option<usize>) -> (p:
        LookupEventsParams)
        ensures
            p.start_time == Some(start_time),
            p.end_time == Some(end_time),
            p.lookup_attribute is None,
            p.event_category is None,
            p.max_results == match max_results {
                Some(n) => n,
                None => DEFAULT_MAX_RESULTS,
            },
    {
        LookupEventsParams {
            start_time: Some(start_time),
            end_time: Some(end_time),
            lookup_attribute: None,
            max_results: match max_results {
                Some(n) => n,
                None => DEFAULT_MAX_RESULTS,
            },
            event_category: None,
        }
    }

    /// Whether a lookup asks for Insights events (category `insight`).
    pub fn wants_insight_events(&self, params: &LookupEventsParams) -> (b: bool)
        ensures
            b == (params.event_category matches Some(c) && c@ == "insight"@),
    {
        match &params.event_category {
            Some(c) => *c == "insight".to_owned(),
            None => false,
        }
    }

    /// How many events the next request asks for: what is still wanted, at
    /// most 50.
    pub fn lookup_page_size(&self, max_results: usize, fetched: usize) -> (n: i32)
        requires
            fetched <= max_results,
        ensures
            n as int == page_request_size(max_results, fetched),
    {
        let remaining = max_results - fetched;
        if remaining < MAX_PAGE_SIZE {
            remaining as i32
        } else {
            MAX_PAGE_SIZE as i32
        }
    }

    /// Whether the lookup asks for another page: there is a next page and
    /// fewer events than wanted have come.
    pub fn lookup_continues(&self, next_token: &Option<String>, fetched: usize, max_results: usize) -> (b: bool)
        ensures
            b == (next_token is Some && fetched < max_results),
    {
        next_token.is_some() && fetched < max_results
    }
}

/// The number of events the next request asks for, when `fetched` of
/// `max_results` have come.
pub open spec fn page_request_size(max_results: usize, fetched: usize) -> int {
    if max_results - fetched < MAX_PAGE_SIZE {
        max_results - fetched
    } else {
        MAX_PAGE_SIZE as int
    }
}

/// A lookup that goes on asks for at least one event, at most 50, and never
/// for more than are still wanted; so the events gathered never exceed the
/// maximum asked for.
pub proof fn law_lookup_stays_within_max(max_results: usize, fetched: usize)
    requires
        fetched < max_results,
    ensures
        0 < page_request_size(max_results, fetched) <= MAX_PAGE_SIZE,
        fetched + page_request_size(max_results, fetched) <= max_results,
{
}

impl<C> CloudTrailService<C> {
    /// The trail `trail_name`: the first of those that `DescribeTrails` answered for it, or the
    /// error that names it.
    pub fn describe_trail(&self, trails: &Option<Vec<Trail>>, trail_name: &str) -> (r: Result<JsonValue, String>)
        ensures
            match *trails {
                Some(v) => if v@.len() > 0 {
                    r matches Ok(j) && j.view() == trail_json(v@[0])
                } else {
                    r matches Err(e) && e@ == "Trail "@ + trail_name@ + " not found"@
                },
                None => r matches Err(e) && e@ == "Trail "@ + trail_name@ + " not found"@,
            },
    {
        if let Some(list) = trails {
            if list.len() > 0 {
                return Ok(self.trail_details_to_json(&list[0]));
            }
        }
        let mut text = concat_text("Trail ", trail_name);
        text.append(" not found");
        Err(text)
    }
}


// ----- laws of the event sources -----

/// The short service names whose event source is named after them:
/// `<name>.amazonaws.com`.
pub open spec fn self_named_services() -> Seq<Seq<char>> {
    seq![
        "s3"@,
        "ec2"@,
        "lambda"@,
        "ecs"@,
        "eks"@,
        "batch"@,
        "rds"@,
        "dynamodb"@,
        "elasticache"@,
        "neptune"@,
        "redshift"@,
        "iam"@,
        "sts"@,
        "kms"@,
        "secretsmanager"@,
        "ssm"@,
        "guardduty"@,
        "securityhub"@,
        "acm"@,
        "organizations"@,
        "elasticloadbalancing"@,
        "elasticloadbalancingv2"@,
        "route53"@,
        "apigateway"@,
        "apigatewayv2"@,
        "cloudfront"@,
        "wafv2"@,
        "sns"@,
        "sqs"@,
        "events"@,
        "kinesis"@,
        "firehose"@,
        "codecommit"@,
        "codebuild"@,
        "codedeploy"@,
        "codepipeline"@,
        "athena"@,
        "glue"@,
        "sagemaker"@,
        "opensearch"@,
        "quicksight"@,
        "states"@,
        "appsync"@,
        "cloudformation"@,
        "cloudtrail"@,
        "logs"@,
        "config"@,
        "backup"@,
        "transfer"@,
    ]
}

/// The short service names whose event source is named after another
/// service, each with that service's name: the source is
/// `<other>.amazonaws.com`.
pub open spec fn renamed_services() -> Seq<(Seq<char>, Seq<char>)> {
    seq![
        ("efs"@, "elasticfilesystem"@),
        ("secrets"@, "secretsmanager"@),
        ("elb"@, "elasticloadbalancing"@),
        ("elbv2"@, "elasticloadbalancingv2"@),
        ("waf"@, "wafv2"@),
        ("eventbridge"@, "events"@),
        ("kinesisfirehose"@, "firehose"@),
        ("emr"@, "elasticmapreduce"@),
        ("elasticsearch"@, "opensearch"@),
        ("stepfunctions"@, "states"@),
        ("cognito"@, "cognito-idp"@),
        ("cfn"@, "cloudformation"@),
        ("cloudwatch-logs"@, "logs"@),
        ("cloudwatch"@, "monitoring"@),
        ("configservice"@, "config"@),
    ]
}

/// Looking a key up in a table finds the entry at `i` when that entry has the
/// key and no earlier one does.
proof fn lemma_table_lookup_at(table: Seq<(Seq<char>, Seq<char>)>, key: Seq<char>, i: int)
    requires
        0 <= i < table.len(),
        table[i].0 == key,
        forall|j: int| 0 <= j < i ==> (#[trigger] table[j]).0 != key,
    ensures
        table_lookup(table, key) == Some(table[i].1),
    decreases i,
{
    if i > 0 {
        assert(table[0].0 != key);
        let rest = table.drop_first();
        assert forall|j: int| 0 <= j < i - 1 implies (#[trigger] rest[j]).0 != key by {
            assert(rest[j] == table[j + 1]);
        }
        lemma_table_lookup_at(rest, key, i - 1);
    }
}

#[verifier::spinoff_prover]
proof fn lemma_event_source_entry_0()
    ensures
        table_lookup(service_event_sources(), "s3"@) == Some("s3.amazonaws.com"@),
{
    reveal_strlit("s3");
    reveal_strlit("s3.amazonaws.com");
    let t = service_event_sources();
    assert(t[0].0 == "s3"@ && t[0].1 == "s3.amazonaws.com"@);
    lemma_table_lookup_at(t, "s3"@, 0);
}

#[verifier::spinoff_prover]
proof fn lemma_event_source_entry_1()
    ensures
        table_lookup(service_event_sources(), "ec2"@) == Some("ec2.amazonaws.com"@),
{
    reveal_strlit("ec2");
    reveal_strlit("ec2.amazonaws.com");
    reveal_strlit("s3");
    let t = service_event_sources();
    assert(t[1].0 == "ec2"@ && t[1].1 == "ec2.amazonaws.com"@);
    assert(t[0].0 == "s3"@);
    lemma_table_lookup_at(t, "ec2"@, 1);
}

#[verifier::spinoff_prover]
proof fn lemma_event_source_entry_2()
    ensures
        table_lookup(service_event_sources(), "lambda"@) == Some("lambda.amazonaws.com"@),
{
    reveal_strlit("lambda");
    reveal_strlit("lambda.amazonaws.com");
    reveal_strlit("s3");
    reveal_strlit("ec2");
    let t = service_event_sources();
    assert(t[2].0 == "lambda"@ && t[2].1 == "lambda.amazonaws.com"@);
    assert(t[0].0 == "s3"@);
    assert(t[1].0 == "ec2"@);
    lemma_table_lookup_at(t, "lambda"@, 2);
}

#[verifier::spinoff_prover]
proof fn lemma_event_source_entry_3()
    ensures
        table_lookup(service_event_sources(), "efs"@) == Some("elasticfilesystem.amazonaws.com"@),
{
    reveal_strlit("efs");
    reveal_strlit("elasticfilesystem.amazonaws.com");
    reveal_strlit("s3");
    reveal_strlit("ec2");
    reveal_strlit("lambda");
    let t = service_event_sources();
    assert(t[3].0 == "efs"@ && t[3].1 == "elasticfilesystem.amazonaws.com"@);
    assert(t[0].0 == "s3"@);
    assert(t[1].0 == "ec2"@);
    assert("ec2"@[1] != "efs"@[1]);
    assert(t[2].0 == "lambda"@);
    lemma_table_lookup_at(t, "efs"@, 3);
}

#[verifier::spinoff_prover]
proof fn lemma_event_source_entry_4()
    ensures
        table_lookup(service_event_sources(), "ecs"@) == Some("ecs.amazonaws.com"@),
{
    reveal_strlit("ecs");
    reveal_strlit("ecs.amazonaws.com");
    reveal_strlit("s3");
    reveal_strlit("ec2");
    reveal_strlit("lambda");
    reveal_strlit("efs");
    let t = service_event_sources();
    assert(t[4].0 == "ecs"@ && t[4].1 == "ecs.amazonaws.com"@);
    assert(t[0].0 == "s3"@);
    assert(t[1].0 == "ec2"@);
    assert("ec2"@[2] != "ecs"@[2]);
    assert(t[2].0 == "lambda"@);
    assert(t[3].0 == "efs"@);
    assert("efs"@[1] != "ecs"@[1]);
    lemma_table_lookup_at(t, "ecs"@, 4);
}

#[verifier::spinoff_prover]
proof fn lemma_event_source_entry_5()
    ensures
        table_lookup(service_event_sources(), "eks"@) == Some("eks.amazonaws.com"@),
{
    reveal_strlit("eks");
    reveal_strlit("eks.amazonaws.com");
    reveal_strlit("s3");
    reveal_strlit("ec2");
    reveal_strlit("lambda");
    reveal_strlit("efs");
    reveal_strlit("ecs");
    let t = service_event_sources();
    assert(t[5].0 == "eks"@ && t[5].1 == "eks.amazonaws.com"@);
    assert(t[0].0 == "s3"@);
    assert(t[1].0 == "ec2"@);
    assert("ec2"@[1] != "eks"@[1]);
    assert(t[2].0 == "lambda"@);
    assert(t[3].0 == "efs"@);
    assert("efs"@[1] != "eks"@[1]);
    assert(t[4].0 == "ecs"@);
    assert("ecs"@[1] != "eks"@[1]);
    lemma_table_lookup_at(t, "eks"@, 5);
}

#[verifier::spinoff_prover]
proof fn lemma_event_source_entry_6()
    ensures
        table_lookup(service_event_sources(), "batch"@) == Some("batch.amazonaws.com"@),
{
    reveal_strlit("batch");
    reveal_strlit("batch.amazonaws.com");
    reveal_strlit("s3");
    reveal_strlit("ec2");
    reveal_strlit("lambda");
    reveal_strlit("efs");
    reveal_strlit("ecs");
    reveal_strlit("eks");
    let t = service_event_sources();
    assert(t[6].0 == "batch"@ && t[6].1 == "batch.amazonaws.com"@);
    assert(t[0].0 == "s3"@);
    assert(t[1].0 == "ec2"@);
    assert(t[2].0 == "lambda"@);
    assert(t[3].0 == "efs"@);
    assert(t[4].0 == "ecs"@);
    assert(t[5].0 == "eks"@);
    lemma_table_lookup_at(t, "batch"@, 6);
}

#[verifier::spinoff_prover]
proof fn lemma_event_source_entry_7()
    ensures
        table_lookup(service_event_sources(), "rds"@) == Some("rds.amazonaws.com"@),
{
    reveal_strlit("rds");
    reveal_strlit("rds.amazonaws.com");
    reveal_strlit("s3");
    reveal_strlit("ec2");
    reveal_strlit("lambda");
    reveal_strlit("efs");
    reveal_strlit("ecs");
    reveal_strlit("eks");
    reveal_strlit("batch");
    let t = service_event_sources();
    assert(t[7].0 == "rds"@ && t[7].1 == "rds.amazonaws.com"@);
    assert(t[0].0 == "s3"@);
    assert(t[1].0 == "ec2"@);
    assert("ec2"@[0] != "rds"@[0]);
    assert(t[2].0 == "lambda"@);
    assert(t[3].0 == "efs"@);
    assert("efs"@[0] != "rds"@[0]);
    assert(t[4].0 == "ecs"@);
    assert("ecs"@[0] != "rds"@[0]);
    assert(t[5].0 == "eks"@);
    assert("eks"@[0] != "rds"@[0]);
    assert(t[6].0 == "batch"@);
    lemma_table_lookup_at(t, "rds"@, 7);
}

#[verifier::spinoff_prover]
proof fn lemma_event_source_entry_8()
    ensures
        table_lookup(service_event_sources(), "dynamodb"@) == Some("dynamodb.amazonaws.com"@),
{
    reveal_strlit("dynamodb");
    reveal_strlit("dynamodb.amazonaws.com");
    reveal_strlit("s3");
    reveal_strlit("ec2");
    reveal_strlit("lambda");
    reveal_strlit("efs");
    reveal_strlit("ecs");
    reveal_strlit("eks");
    reveal_strlit("batch");
    reveal_strlit("rds");
    let t = service_event_sources();
    assert(t[8].0 == "dynamodb"@ && t[8].1 == "dynamodb.amazonaws.com"@);
    assert(t[0].0 == "s3"@);
    assert(t[1].0 == "ec2"@);
    assert(t[2].0 == "lambda"@);
    assert(t[3].0 == "efs"@);
    assert(t[4].0 == "ecs"@);
    assert(t[5].0 == "eks"@);
    assert(t[6].0 == "batch"@);
    assert(t[7].0 == "rds"@);
    lemma_table_lookup_at(t, "dynamodb"@, 8);
}

#[verifier::spinoff_prover]
proof fn lemma_event_source_entry_9()
    ensures
        table_lookup(service_event_sources(), "elasticache"@) == Some("elasticache.amazonaws.com"@),
{
    reveal_strlit("elasticache");
    reveal_strlit("elasticache.amazonaws.com");
    reveal_strlit("s3");
    reveal_strlit("ec2");
    reveal_strlit("lambda");
    reveal_strlit("efs");
    reveal_strlit("ecs");
    reveal_strlit("eks");
    reveal_strlit("batch");
    reveal_strlit("rds");
    reveal_strlit("dynamodb");
    let t = service_event_sources();
    assert(t[9].0 == "elasticache"@ && t[9].1 == "elasticache.amazonaws.com"@);
    assert(t[0].0 == "s3"@);
    assert(t[1].0 == "ec2"@);
    assert(t[2].0 == "lambda"@);
    assert(t[3].0 == "efs"@);
    assert(t[4].0 == "ecs"@);
    assert(t[5].0 == "eks"@);
    assert(t[6].0 == "batch"@);
    assert(t[7].0 == "rds"@);
    assert(t[8].0 == "dynamodb"@);
    lemma_table_lookup_at(t, "elasticache"@, 9);
}

#[verifier::spinoff_prover]
proof fn lemma_event_source_entry_10()
    ensures
        table_lookup(service_event_sources(), "neptune"@) == Some("neptune.amazonaws.com"@),
{
    reveal_strlit("neptune");
    reveal_strlit("neptune.amazonaws.com");
    reveal_strlit("s3");
    reveal_strlit("ec2");
    reveal_strlit("lambda");
    reveal_strlit("efs");
    reveal_strlit("ecs");
    reveal_strlit("eks");
    reveal_strlit("batch");
    reveal_strlit("rds");
    reveal_strlit("dynamodb");
    reveal_strlit("elasticache");
    let t = service_event_sources();
    assert(t[10].0 == "neptune"@ && t[10].1 == "neptune.amazonaws.com"@);
    assert(t[0].0 == "s3"@);
    assert(t[1].0 == "ec2"@);
    assert(t[2].0 == "lambda"@);
    assert(t[3].0 == "efs"@);
    assert(t[4].0 == "ecs"@);
    assert(t[5].0 == "eks"@);
    assert(t[6].0 == "batch"@);
    assert(t[7].0 == "rds"@);
    assert(t[8].0 == "dynamodb"@);
    assert(t[9].0 == "elasticache"@);
    lemma_table_lookup_at(t, "neptune"@, 10);
}

#[verifier::spinoff_prover]
proof fn lemma_event_source_entry_11()
    ensures
        table_lookup(service_event_sources(), "redshift"@) == Some("redshift.amazonaws.com"@),
{
    reveal_strlit("redshift");
    reveal_strlit("redshift.amazonaws.com");
    reveal_strlit("s3");
    reveal_strlit("ec2");
    reveal_strlit("lambda");
    reveal_strlit("efs");
    reveal_strlit("ecs");
    reveal_strlit("eks");
    reveal_strlit("batch");
    reveal_strlit("rds");
    reveal_strlit("dynamodb");
    reveal_strlit("elasticache");
    reveal_strlit("neptune");
    let t = service_event_sources();
    assert(t[11].0 == "redshift"@ && t[11].1 == "redshift.amazonaws.com"@);
    assert(t[0].0 == "s3"@);
    assert(t[1].0 == "ec2"@);
    assert(t[2].0 == "lambda"@);
    assert(t[3].0 == "efs"@);
    assert(t[4].0 == "ecs"@);
    assert(t[5].0 == "eks"@);
    assert(t[6].0 == "batch"@);
    assert(t[7].0 == "rds"@);
    assert(t[8].0 == "dynamodb"@);
    assert("dynamodb"@[0] != "redshift"@[0]);
    assert(t[9].0 == "elasticache"@);
    assert(t[10].0 == "neptune"@);
    lemma_table_lookup_at(t, "redshift"@, 11);
}

#[verifier::spinoff_prover]
proof fn lemma_event_source_entry_12()
    ensures
        table_lookup(service_event_sources(), "iam"@) == Some("iam.amazonaws.com"@),
{
    reveal_strlit("iam");
    reveal_strlit("iam.amazonaws.com");
    reveal_strlit("s3");
    reveal_strlit("ec2");
    reveal_strlit("lambda");
    reveal_strlit("efs");
    reveal_strlit("ecs");
    reveal_strlit("eks");
    reveal_strlit("batch");
    reveal_strlit("rds");
    reveal_strlit("dynamodb");
    reveal_strlit("elasticache");
    reveal_strlit("neptune");
    reveal_strlit("redshift");
    let t = service_event_sources();
    assert(t[12].0 == "iam"@ && t[12].1 == "iam.amazonaws.com"@);
    assert(t[0].0 == "s3"@);
    assert(t[1].0 == "ec2"@);
    assert("ec2"@[0] != "iam"@[0]);
    assert(t[2].0 == "lambda"@);
    assert(t[3].0 == "efs"@);
    assert("efs"@[0] != "iam"@[0]);
    assert(t[4].0 == "ecs"@);
    assert("ecs"@[0] != "iam"@[0]);
    assert(t[5].0 == "eks"@);
    assert("eks"@[0] != "iam"@[0]);
    assert(t[6].0 == "batch"@);
    assert(t[7].0 == "rds"@);
    assert("rds"@[0] != "iam"@[0]);
    assert(t[8].0 == "dynamodb"@);
    assert(t[9].0 == "elasticache"@);
    assert(t[10].0 == "neptune"@);
    assert(t[11].0 == "redshift"@);
    lemma_table_lookup_at(t, "iam"@, 12);
}

#[verifier::spinoff_prover]
proof fn lemma_event_source_entry_13()
    ensures
        table_lookup(service_event_sources(), "sts"@) == Some("sts.amazonaws.com"@),
{
    reveal_strlit("sts");
    reveal_strlit("sts.amazonaws.com");
    reveal_strlit("s3");
    reveal_strlit("ec2");
    reveal_strlit("lambda");
    reveal_strlit("efs");
    reveal_strlit("ecs");
    reveal_strlit("eks");
    reveal_strlit("batch");
    reveal_strlit("rds");
    reveal_strlit("dynamodb");
    reveal_strlit("elasticache");
    reveal_strlit("neptune");
    reveal_strlit("redshift");
    reveal_strlit("iam");
    let t = service_event_sources();
    assert(t[13].0 == "sts"@ && t[13].1 == "sts.amazonaws.com"@);
    assert(t[0].0 == "s3"@);
    assert(t[1].0 == "ec2"@);
    assert("ec2"@[0] != "sts"@[0]);
    assert(t[2].0 == "lambda"@);
    assert(t[3].0 == "efs"@);
    assert("efs"@[0] != "sts"@[0]);
    assert(t[4].0 == "ecs"@);
    assert("ecs"@[0] != "sts"@[0]);
    assert(t[5].0 == "eks"@);
    assert("eks"@[0] != "sts"@[0]);
    assert(t[6].0 == "batch"@);
    assert(t[7].0 == "rds"@);
    assert("rds"@[0] != "sts"@[0]);
    assert(t[8].0 == "dynamodb"@);
    assert(t[9].0 == "elasticache"@);
    assert(t[10].0 == "neptune"@);
    assert(t[11].0 == "redshift"@);
    assert(t[12].0 == "iam"@);
    assert("iam"@[0] != "sts"@[0]);
    lemma_table_lookup_at(t, "sts"@, 13);
}

#[verifier::spinoff_prover]
proof fn lemma_event_source_entry_14()
    ensures
        table_lookup(service_event_sources(), "kms"@) == Some("kms.amazonaws.com"@),
{
    reveal_strlit("kms");
    reveal_strlit("kms.amazonaws.com");
    reveal_strlit("s3");
    reveal_strlit("ec2");
    reveal_strlit("lambda");
    reveal_strlit("efs");
    reveal_strlit("ecs");
    reveal_strlit("eks");
    reveal_strlit("batch");
    reveal_strlit("rds");
    reveal_strlit("dynamodb");
    reveal_strlit("elasticache");
    reveal_strlit("neptune");
    reveal_strlit("redshift");
    reveal_strlit("iam");
    reveal_strlit("sts");
    let t = service_event_sources();
    assert(t[14].0 == "kms"@ && t[14].1 == "kms.amazonaws.com"@);
    assert(t[0].0 == "s3"@);
    assert(t[1].0 == "ec2"@);
    assert("ec2"@[0] != "kms"@[0]);
    assert(t[2].0 == "lambda"@);
    assert(t[3].0 == "efs"@);
    assert("efs"@[0] != "kms"@[0]);
    assert(t[4].0 == "ecs"@);
    assert("ecs"@[0] != "kms"@[0]);
    assert(t[5].0 == "eks"@);
    assert("eks"@[0] != "kms"@[0]);
    assert(t[6].0 == "batch"@);
    assert(t[7].0 == "rds"@);
    assert("rds"@[0] != "kms"@[0]);
    assert(t[8].0 == "dynamodb"@);
    assert(t[9].0 == "elasticache"@);
    assert(t[10].0 == "neptune"@);
    assert(t[11].0 == "redshift"@);
    assert(t[12].0 == "iam"@);
    assert("iam"@[0] != "kms"@[0]);
    assert(t[13].0 == "sts"@);
    assert("sts"@[0] != "kms"@[0]);
    lemma_table_lookup_at(t, "kms"@, 14);
}

#[verifier::spinoff_prover]
proof fn lemma_event_source_entry_15()
    ensures
        table_lookup(service_event_sources(), "secretsmanager"@) == Some("secretsmanager.amazonaws.com"@),
{
    reveal_strlit("secretsmanager");
    reveal_strlit("secretsmanager.amazonaws.com");
    reveal_strlit("s3");
    reveal_strlit("ec2");
    reveal_strlit("lambda");
    reveal_strlit("efs");
    reveal_strlit("ecs");
    reveal_strlit("eks");
    reveal_strlit("batch");
    reveal_strlit("rds");
    reveal_strlit("dynamodb");
    reveal_strlit("elasticache");
    reveal_strlit("neptune");
    reveal_strlit("redshift");
    reveal_strlit("iam");
    reveal_strlit("sts");
    reveal_strlit("kms");
    let t = service_event_sources();
    assert(t[15].0 == "secretsmanager"@ && t[15].1 == "secretsmanager.amazonaws.com"@);
    assert(t[0].0 == "s3"@);
    assert(t[1].0 == "ec2"@);
    assert(t[2].0 == "lambda"@);
    assert(t[3].0 == "efs"@);
    assert(t[4].0 == "ecs"@);
    assert(t[5].0 == "eks"@);
    assert(t[6].0 == "batch"@);
    assert(t[7].0 == "rds"@);
    assert(t[8].0 == "dynamodb"@);
    assert(t[9].0 == "elasticache"@);
    assert(t[10].0 == "neptune"@);
    assert(t[11].0 == "redshift"@);
    assert(t[12].0 == "iam"@);
    assert(t[13].0 == "sts"@);
    assert(t[14].0 == "kms"@);
    lemma_table_lookup_at(t, "secretsmanager"@, 15);
}

#[verifier::spinoff_prover]
proof fn lemma_event_source_entry_16()
    ensures
        table_lookup(service_event_sources(), "secrets"@) == Some("secretsmanager.amazonaws.com"@),
{
    reveal_strlit("secrets");
    reveal_strlit("secretsmanager.amazonaws.com");
    reveal_strlit("s3");
    reveal_strlit("ec2");
    reveal_strlit("lambda");
    reveal_strlit("efs");
    reveal_strlit("ecs");
    reveal_strlit("eks");
    reveal_strlit("batch");
    reveal_strlit("rds");
    reveal_strlit("dynamodb");
    reveal_strlit("elasticache");
    reveal_strlit("neptune");
    reveal_strlit("redshift");
    reveal_strlit("iam");
    reveal_strlit("sts");
    reveal_strlit("kms");
    reveal_strlit("secretsmanager");
    let t = service_event_sources();
    assert(t[16].0 == "secrets"@ && t[16].1 == "secretsmanager.amazonaws.com"@);
    assert(t[0].0 == "s3"@);
    assert(t[1].0 == "ec2"@);
    assert(t[2].0 == "lambda"@);
    assert(t[3].0 == "efs"@);
    assert(t[4].0 == "ecs"@);
    assert(t[5].0 == "eks"@);
    assert(t[6].0 == "batch"@);
    assert(t[7].0 == "rds"@);
    assert(t[8].0 == "dynamodb"@);
    assert(t[9].0 == "elasticache"@);
    assert(t[10].0 == "neptune"@);
    assert("neptune"@[0] != "secrets"@[0]);
    assert(t[11].0 == "redshift"@);
    assert(t[12].0 == "iam"@);
    assert(t[13].0 == "sts"@);
    assert(t[14].0 == "kms"@);
    assert(t[15].0 == "secretsmanager"@);
    lemma_table_lookup_at(t, "secrets"@, 16);
}

#[verifier::spinoff_prover]
proof fn lemma_event_source_entry_17()
    ensures
        table_lookup(service_event_sources(), "ssm"@) == Some("ssm.amazonaws.com"@),
{
    reveal_strlit("ssm");
    reveal_strlit("ssm.amazonaws.com");
    reveal_strlit("s3");
    reveal_strlit("ec2");
    reveal_strlit("lambda");
    reveal_strlit("efs");
    reveal_strlit("ecs");
    reveal_strlit("eks");
    reveal_strlit("batch");
    reveal_strlit("rds");
    reveal_strlit("dynamodb");
    reveal_strlit("elasticache");
    reveal_strlit("neptune");
    reveal_strlit("redshift");
    reveal_strlit("iam");
    reveal_strlit("sts");
    reveal_strlit("kms");
    reveal_strlit("secretsmanager");
    reveal_strlit("secrets");
    let t = service_event_sources();
    assert(t[17].0 == "ssm"@ && t[17].1 == "ssm.amazonaws.com"@);
    assert(t[0].0 == "s3"@);
    assert(t[1].0 == "ec2"@);
    assert("ec2"@[0] != "ssm"@[0]);
    assert(t[2].0 == "lambda"@);
    assert(t[3].0 == "efs"@);
    assert("efs"@[0] != "ssm"@[0]);
    assert(t[4].0 == "ecs"@);
    assert("ecs"@[0] != "ssm"@[0]);
    assert(t[5].0 == "eks"@);
    assert("eks"@[0] != "ssm"@[0]);
    assert(t[6].0 == "batch"@);
    assert(t[7].0 == "rds"@);
    assert("rds"@[0] != "ssm"@[0]);
    assert(t[8].0 == "dynamodb"@);
    assert(t[9].0 == "elasticache"@);
    assert(t[10].0 == "neptune"@);
    assert(t[11].0 == "redshift"@);
    assert(t[12].0 == "iam"@);
    assert("iam"@[0] != "ssm"@[0]);
    assert(t[13].0 == "sts"@);
    assert("sts"@[1] != "ssm"@[1]);
    assert(t[14].0 == "kms"@);
    assert("kms"@[0] != "ssm"@[0]);
    assert(t[15].0 == "secretsmanager"@);
    assert(t[16].0 == "secrets"@);
    lemma_table_lookup_at(t, "ssm"@, 17);
}

#[verifier::spinoff_prover]
proof fn lemma_event_source_entry_18()
    ensures
        table_lookup(service_event_sources(), "guardduty"@) == Some("guardduty.amazonaws.com"@),
{
    reveal_strlit("guardduty");
    reveal_strlit("guardduty.amazonaws.com");
    reveal_strlit("s3");
    reveal_strlit("ec2");
    reveal_strlit("lambda");
    reveal_strlit("efs");
    reveal_strlit("ecs");
    reveal_strlit("eks");
    reveal_strlit("batch");
    reveal_strlit("rds");
    reveal_strlit("dynamodb");
    reveal_strlit("elasticache");
    reveal_strlit("neptune");
    reveal_strlit("redshift");
    reveal_strlit("iam");
    reveal_strlit("sts");
    reveal_strlit("kms");
    reveal_strlit("secretsmanager");
    reveal_strlit("secrets");
    reveal_strlit("ssm");
    let t = service_event_sources();
    assert(t[18].0 == "guardduty"@ && t[18].1 == "guardduty.amazonaws.com"@);
    assert(t[0].0 == "s3"@);
    assert(t[1].0 == "ec2"@);
    assert(t[2].0 == "lambda"@);
    assert(t[3].0 == "efs"@);
    assert(t[4].0 == "ecs"@);
    assert(t[5].0 == "eks"@);
    assert(t[6].0 == "batch"@);
    assert(t[7].0 == "rds"@);
    assert(t[8].0 == "dynamodb"@);
    assert(t[9].0 == "elasticache"@);
    assert(t[10].0 == "neptune"@);
    assert(t[11].0 == "redshift"@);
    assert(t[12].0 == "iam"@);
    assert(t[13].0 == "sts"@);
    assert(t[14].0 == "kms"@);
    assert(t[15].0 == "secretsmanager"@);
    assert(t[16].0 == "secrets"@);
    assert(t[17].0 == "ssm"@);
    lemma_table_lookup_at(t, "guardduty"@, 18);
}

#[verifier::spinoff_prover]
proof fn lemma_event_source_entry_19()
    ensures
        table_lookup(service_event_sources(), "securityhub"@) == Some("securityhub.amazonaws.com"@),
{
    reveal_strlit("securityhub");
    reveal_strlit("securityhub.amazonaws.com");
    reveal_strlit("s3");
    reveal_strlit("ec2");
    reveal_strlit("lambda");
    reveal_strlit("efs");
    reveal_strlit("ecs");
    reveal_strlit("eks");
    reveal_strlit("batch");
    reveal_strlit("rds");
    reveal_strlit("dynamodb");
    reveal_strlit("elasticache");
    reveal_strlit("neptune");
    reveal_strlit("redshift");
    reveal_strlit("iam");
    reveal_strlit("sts");
    reveal_strlit("kms");
    reveal_strlit("secretsmanager");
    reveal_strlit("secrets");
    reveal_strlit("ssm");
    reveal_strlit("guardduty");
    let t = service_event_sources();
    assert(t[19].0 == "securityhub"@ && t[19].1 == "securityhub.amazonaws.com"@);
    assert(t[0].0 == "s3"@);
    assert(t[1].0 == "ec2"@);
    assert(t[2].0 == "lambda"@);
    assert(t[3].0 == "efs"@);
    assert(t[4].0 == "ecs"@);
    assert(t[5].0 == "eks"@);
    assert(t[6].0 == "batch"@);
    assert(t[7].0 == "rds"@);
    assert(t[8].0 == "dynamodb"@);
    assert(t[9].0 == "elasticache"@);
    assert("elasticache"@[0] != "securityhub"@[0]);
    assert(t[10].0 == "neptune"@);
    assert(t[11].0 == "redshift"@);
    assert(t[12].0 == "iam"@);
    assert(t[13].0 == "sts"@);
    assert(t[14].0 == "kms"@);
    assert(t[15].0 == "secretsmanager"@);
    assert(t[16].0 == "secrets"@);
    assert(t[17].0 == "ssm"@);
    assert(t[18].0 == "guardduty"@);
    lemma_table_lookup_at(t, "securityhub"@, 19);
}

#[verifier::spinoff_prover]
proof fn lemma_event_source_entry_20()
    ensures
        table_lookup(service_event_sources(), "acm"@) == Some("acm.amazonaws.com"@),
{
    reveal_strlit("acm");
    reveal_strlit("acm.amazonaws.com");
    reveal_strlit("s3");
    reveal_strlit("ec2");
    reveal_strlit("lambda");
    reveal_strlit("efs");
    reveal_strlit("ecs");
    reveal_strlit("eks");
    reveal_strlit("batch");
    reveal_strlit("rds");
    reveal_strlit("dynamodb");
    reveal_strlit("elasticache");
    reveal_strlit("neptune");
    reveal_strlit("redshift");
    reveal_strlit("iam");
    reveal_strlit("sts");
    reveal_strlit("kms");
    reveal_strlit("secretsmanager");
    reveal_strlit("secrets");
    reveal_strlit("ssm");
    reveal_strlit("guardduty");
    reveal_strlit("securityhub");
    let t = service_event_sources();
    assert(t[20].0 == "acm"@ && t[20].1 == "acm.amazonaws.com"@);
    assert(t[0].0 == "s3"@);
    assert(t[1].0 == "ec2"@);
    assert("ec2"@[0] != "acm"@[0]);
    assert(t[2].0 == "lambda"@);
    assert(t[3].0 == "efs"@);
    assert("efs"@[0] != "acm"@[0]);
    assert(t[4].0 == "ecs"@);
    assert("ecs"@[0] != "acm"@[0]);
    assert(t[5].0 == "eks"@);
    assert("eks"@[0] != "acm"@[0]);
    assert(t[6].0 == "batch"@);
    assert(t[7].0 == "rds"@);
    assert("rds"@[0] != "acm"@[0]);
    assert(t[8].0 == "dynamodb"@);
    assert(t[9].0 == "elasticache"@);
    assert(t[10].0 == "neptune"@);
    assert(t[11].0 == "redshift"@);
    assert(t[12].0 == "iam"@);
    assert("iam"@[0] != "acm"@[0]);
    assert(t[13].0 == "sts"@);
    assert("sts"@[0] != "acm"@[0]);
    assert(t[14].0 == "kms"@);
    assert("kms"@[0] != "acm"@[0]);
    assert(t[15].0 == "secretsmanager"@);
    assert(t[16].0 == "secrets"@);
    assert(t[17].0 == "ssm"@);
    assert("ssm"@[0] != "acm"@[0]);
    assert(t[18].0 == "guardduty"@);
    assert(t[19].0 == "securityhub"@);
    lemma_table_lookup_at(t, "acm"@, 20);
}

#[verifier::spinoff_prover]
proof fn lemma_event_source_entry_21()
    ensures
        table_lookup(service_event_sources(), "organizations"@) == Some("organizations.amazonaws.com"@),
{
    reveal_strlit("organizations");
    reveal_strlit("organizations.amazonaws.com");
    reveal_strlit("s3");
    reveal_strlit("ec2");
    reveal_strlit("lambda");
    reveal_strlit("efs");
    reveal_strlit("ecs");
    reveal_strlit("eks");
    reveal_strlit("batch");
    reveal_strlit("rds");
    reveal_strlit("dynamodb");
    reveal_strlit("elasticache");
    reveal_strlit("neptune");
    reveal_strlit("redshift");
    reveal_strlit("iam");
    reveal_strlit("sts");
    reveal_strlit("kms");
    reveal_strlit("secretsmanager");
    reveal_strlit("secrets");
    reveal_strlit("ssm");
    reveal_strlit("guardduty");
    reveal_strlit("securityhub");
    reveal_strlit("acm");
    let t = service_event_sources();
    assert(t[21].0 == "organizations"@ && t[21].1 == "organizations.amazonaws.com"@);
    assert(t[0].0 == "s3"@);
    assert(t[1].0 == "ec2"@);
    assert(t[2].0 == "lambda"@);
    assert(t[3].0 == "efs"@);
    assert(t[4].0 == "ecs"@);
    assert(t[5].0 == "eks"@);
    assert(t[6].0 == "batch"@);
    assert(t[7].0 == "rds"@);
    assert(t[8].0 == "dynamodb"@);
    assert(t[9].0 == "elasticache"@);
    assert(t[10].0 == "neptune"@);
    assert(t[11].0 == "redshift"@);
    assert(t[12].0 == "iam"@);
    assert(t[13].0 == "sts"@);
    assert(t[14].0 == "kms"@);
    assert(t[15].0 == "secretsmanager"@);
    assert(t[16].0 == "secrets"@);
    assert(t[17].0 == "ssm"@);
    assert(t[18].0 == "guardduty"@);
    assert(t[19].0 == "securityhub"@);
    assert(t[20].0 == "acm"@);
    lemma_table_lookup_at(t, "organizations"@, 21);
}

#[verifier::spinoff_prover]
proof fn lemma_event_source_entry_22()
    ensures
        table_lookup(service_event_sources(), "elb"@) == Some("elasticloadbalancing.amazonaws.com"@),
{
    reveal_strlit("elb");
    reveal_strlit("elasticloadbalancing.amazonaws.com");
    reveal_strlit("s3");
    reveal_strlit("ec2");
    reveal_strlit("lambda");
    reveal_strlit("efs");
    reveal_strlit("ecs");
    reveal_strlit("eks");
    reveal_strlit("batch");
    reveal_strlit("rds");
    reveal_strlit("dynamodb");
    reveal_strlit("elasticache");
    reveal_strlit("neptune");
    reveal_strlit("redshift");
    reveal_strlit("iam");
    reveal_strlit("sts");
    reveal_strlit("kms");
    reveal_strlit("secretsmanager");
    reveal_strlit("secrets");
    reveal_strlit("ssm");
    reveal_strlit("guardduty");
    reveal_strlit("securityhub");
    reveal_strlit("acm");
    reveal_strlit("organizations");
    let t = service_event_sources();
    assert(t[22].0 == "elb"@ && t[22].1 == "elasticloadbalancing.amazonaws.com"@);
    assert(t[0].0 == "s3"@);
    assert(t[1].0 == "ec2"@);
    assert("ec2"@[1] != "elb"@[1]);
    assert(t[2].0 == "lambda"@);
    assert(t[3].0 == "efs"@);
    assert("efs"@[1] != "elb"@[1]);
    assert(t[4].0 == "ecs"@);
    assert("ecs"@[1] != "elb"@[1]);
    assert(t[5].0 == "eks"@);
    assert("eks"@[1] != "elb"@[1]);
    assert(t[6].0 == "batch"@);
    assert(t[7].0 == "rds"@);
    assert("rds"@[0] != "elb"@[0]);
    assert(t[8].0 == "dynamodb"@);
    assert(t[9].0 == "elasticache"@);
    assert(t[10].0 == "neptune"@);
    assert(t[11].0 == "redshift"@);
    assert(t[12].0 == "iam"@);
    assert("iam"@[0] != "elb"@[0]);
    assert(t[13].0 == "sts"@);
    assert("sts"@[0] != "elb"@[0]);
    assert(t[14].0 == "kms"@);
    assert("kms"@[0] != "elb"@[0]);
    assert(t[15].0 == "secretsmanager"@);
    assert(t[16].0 == "secrets"@);
    assert(t[17].0 == "ssm"@);
    assert("ssm"@[0] != "elb"@[0]);
    assert(t[18].0 == "guardduty"@);
    assert(t[19].0 == "securityhub"@);
    assert(t[20].0 == "acm"@);
    assert("acm"@[0] != "elb"@[0]);
    assert(t[21].0 == "organizations"@);
    lemma_table_lookup_at(t, "elb"@, 22);
}

#[verifier::spinoff_prover]
proof fn lemma_event_source_entry_23()
    ensures
        table_lookup(service_event_sources(), "elasticloadbalancing"@) == Some("elasticloadbalancing.amazonaws.com"@),
{
    reveal_strlit("elasticloadbalancing");
    reveal_strlit("elasticloadbalancing.amazonaws.com");
    reveal_strlit("s3");
    reveal_strlit("ec2");
    reveal_strlit("lambda");
    reveal_strlit("efs");
    reveal_strlit("ecs");
    reveal_strlit("eks");
    reveal_strlit("batch");
    reveal_strlit("rds");
    reveal_strlit("dynamodb");
    reveal_strlit("elasticache");
    reveal_strlit("neptune");
    reveal_strlit("redshift");
    reveal_strlit("iam");
    reveal_strlit("sts");
    reveal_strlit("kms");
    reveal_strlit("secretsmanager");
    reveal_strlit("secrets");
    reveal_strlit("ssm");
    reveal_strlit("guardduty");
    reveal_strlit("securityhub");
    reveal_strlit("acm");
    reveal_strlit("organizations");
    reveal_strlit("elb");
    let t = service_event_sources();
    assert(t[23].0 == "elasticloadbalancing"@ && t[23].1 == "elasticloadbalancing.amazonaws.com"@);
    assert(t[0].0 == "s3"@);
    assert(t[1].0 == "ec2"@);
    assert(t[2].0 == "lambda"@);
    assert(t[3].0 == "efs"@);
    assert(t[4].0 == "ecs"@);
    assert(t[5].0 == "eks"@);
    assert(t[6].0 == "batch"@);
    assert(t[7].0 == "rds"@);
    assert(t[8].0 == "dynamodb"@);
    assert(t[9].0 == "elasticache"@);
    assert(t[10].0 == "neptune"@);
    assert(t[11].0 == "redshift"@);
    assert(t[12].0 == "iam"@);
    assert(t[13].0 == "sts"@);
    assert(t[14].0 == "kms"@);
    assert(t[15].0 == "secretsmanager"@);
    assert(t[16].0 == "secrets"@);
    assert(t[17].0 == "ssm"@);
    assert(t[18].0 == "guardduty"@);
    assert(t[19].0 == "securityhub"@);
    assert(t[20].0 == "acm"@);
    assert(t[21].0 == "organizations"@);
    assert(t[22].0 == "elb"@);
    lemma_table_lookup_at(t, "elasticloadbalancing"@, 23);
}

#[verifier::spinoff_prover]
proof fn lemma_event_source_entry_24()
    ensures
        table_lookup(service_event_sources(), "elbv2"@) == Some("elasticloadbalancingv2.amazonaws.com"@),
{
    reveal_strlit("elbv2");
    reveal_strlit("elasticloadbalancingv2.amazonaws.com");
    reveal_strlit("s3");
    reveal_strlit("ec2");
    reveal_strlit("lambda");
    reveal_strlit("efs");
    reveal_strlit("ecs");
    reveal_strlit("eks");
    reveal_strlit("batch");
    reveal_strlit("rds");
    reveal_strlit("dynamodb");
    reveal_strlit("elasticache");
    reveal_strlit("neptune");
    reveal_strlit("redshift");
    reveal_strlit("iam");
    reveal_strlit("sts");
    reveal_strlit("kms");
    reveal_strlit("secretsmanager");
    reveal_strlit("secrets");
    reveal_strlit("ssm");
    reveal_strlit("guardduty");
    reveal_strlit("securityhub");
    reveal_strlit("acm");
    reveal_strlit("organizations");
    reveal_strlit("elb");
    reveal_strlit("elasticloadbalancing");
    let t = service_event_sources();
    assert(t[24].0 == "elbv2"@ && t[24].1 == "elasticloadbalancingv2.amazonaws.com"@);
    assert(t[0].0 == "s3"@);
    assert(t[1].0 == "ec2"@);
    assert(t[2].0 == "lambda"@);
    assert(t[3].0 == "efs"@);
    assert(t[4].0 == "ecs"@);
    assert(t[5].0 == "eks"@);
    assert(t[6].0 == "batch"@);
    assert("batch"@[0] != "elbv2"@[0]);
    assert(t[7].0 == "rds"@);
    assert(t[8].0 == "dynamodb"@);
    assert(t[9].0 == "elasticache"@);
    assert(t[10].0 == "neptune"@);
    assert(t[11].0 == "redshift"@);
    assert(t[12].0 == "iam"@);
    assert(t[13].0 == "sts"@);
    assert(t[14].0 == "kms"@);
    assert(t[15].0 == "secretsmanager"@);
    assert(t[16].0 == "secrets"@);
    assert(t[17].0 == "ssm"@);
    assert(t[18].0 == "guardduty"@);
    assert(t[19].0 == "securityhub"@);
    assert(t[20].0 == "acm"@);
    assert(t[21].0 == "organizations"@);
    assert(t[22].0 == "elb"@);
    assert(t[23].0 == "elasticloadbalancing"@);
    lemma_table_lookup_at(t, "elbv2"@, 24);
}

#[verifier::spinoff_prover]
proof fn lemma_event_source_entry_25()
    ensures
        table_lookup(service_event_sources(), "elasticloadbalancingv2"@) == Some("elasticloadbalancingv2.amazonaws.com"@),
{
    reveal_strlit("elasticloadbalancingv2");
    reveal_strlit("elasticloadbalancingv2.amazonaws.com");
    reveal_strlit("s3");
    reveal_strlit("ec2");
    reveal_strlit("lambda");
    reveal_strlit("efs");
    reveal_strlit("ecs");
    reveal_strlit("eks");
    reveal_strlit("batch");
    reveal_strlit("rds");
    reveal_strlit("dynamodb");
    reveal_strlit("elasticache");
    reveal_strlit("neptune");
    reveal_strlit("redshift");
    reveal_strlit("iam");
    reveal_strlit("sts");
    reveal_strlit("kms");
    reveal_strlit("secretsmanager");
    reveal_strlit("secrets");
    reveal_strlit("ssm");
    reveal_strlit("guardduty");
    reveal_strlit("securityhub");
    reveal_strlit("acm");
    reveal_strlit("organizations");
    reveal_strlit("elb");
    reveal_strlit("elasticloadbalancing");
    reveal_strlit("elbv2");
    let t = service_event_sources();
    assert(t[25].0 == "elasticloadbalancingv2"@ && t[25].1 == "elasticloadbalancingv2.amazonaws.com"@);
    assert(t[0].0 == "s3"@);
    assert(t[1].0 == "ec2"@);
    assert(t[2].0 == "lambda"@);
    assert(t[3].0 == "efs"@);
    assert(t[4].0 == "ecs"@);
    assert(t[5].0 == "eks"@);
    assert(t[6].0 == "batch"@);
    assert(t[7].0 == "rds"@);
    assert(t[8].0 == "dynamodb"@);
    assert(t[9].0 == "elasticache"@);
    assert(t[10].0 == "neptune"@);
    assert(t[11].0 == "redshift"@);
    assert(t[12].0 == "iam"@);
    assert(t[13].0 == "sts"@);
    assert(t[14].0 == "kms"@);
    assert(t[15].0 == "secretsmanager"@);
    assert(t[16].0 == "secrets"@);
    assert(t[17].0 == "ssm"@);
    assert(t[18].0 == "guardduty"@);
    assert(t[19].0 == "securityhub"@);
    assert(t[20].0 == "acm"@);
    assert(t[21].0 == "organizations"@);
    assert(t[22].0 == "elb"@);
    assert(t[23].0 == "elasticloadbalancing"@);
    assert(t[24].0 == "elbv2"@);
    lemma_table_lookup_at(t, "elasticloadbalancingv2"@, 25);
}

#[verifier::spinoff_prover]
proof fn lemma_event_source_entry_26()
    ensures
        table_lookup(service_event_sources(), "route53"@) == Some("route53.amazonaws.com"@),
{
    reveal_strlit("route53");
    reveal_strlit("route53.amazonaws.com");
    reveal_strlit("s3");
    reveal_strlit("ec2");
    reveal_strlit("lambda");
    reveal_strlit("efs");
    reveal_strlit("ecs");
    reveal_strlit("eks");
    reveal_strlit("batch");
    reveal_strlit("rds");
    reveal_strlit("dynamodb");
    reveal_strlit("elasticache");
    reveal_strlit("neptune");
    reveal_strlit("redshift");
    reveal_strlit("iam");
    reveal_strlit("sts");
    reveal_strlit("kms");
    reveal_strlit("secretsmanager");
    reveal_strlit("secrets");
    reveal_strlit("ssm");
    reveal_strlit("guardduty");
    reveal_strlit("securityhub");
    reveal_strlit("acm");
    reveal_strlit("organizations");
    reveal_strlit("elb");
    reveal_strlit("elasticloadbalancing");
    reveal_strlit("elbv2");
    reveal_strlit("elasticloadbalancingv2");
    let t = service_event_sources();
    assert(t[26].0 == "route53"@ && t[26].1 == "route53.amazonaws.com"@);
    assert(t[0].0 == "s3"@);
    assert(t[1].0 == "ec2"@);
    assert(t[2].0 == "lambda"@);
    assert(t[3].0 == "efs"@);
    assert(t[4].0 == "ecs"@);
    assert(t[5].0 == "eks"@);
    assert(t[6].0 == "batch"@);
    assert(t[7].0 == "rds"@);
    assert(t[8].0 == "dynamodb"@);
    assert(t[9].0 == "elasticache"@);
    assert(t[10].0 == "neptune"@);
    assert("neptune"@[0] != "route53"@[0]);
    assert(t[11].0 == "redshift"@);
    assert(t[12].0 == "iam"@);
    assert(t[13].0 == "sts"@);
    assert(t[14].0 == "kms"@);
    assert(t[15].0 == "secretsmanager"@);
    assert(t[16].0 == "secrets"@);
    assert("secrets"@[0] != "route53"@[0]);
    assert(t[17].0 == "ssm"@);
    assert(t[18].0 == "guardduty"@);
    assert(t[19].0 == "securityhub"@);
    assert(t[20].0 == "acm"@);
    assert(t[21].0 == "organizations"@);
    assert(t[22].0 == "elb"@);
    assert(t[23].0 == "elasticloadbalancing"@);
    assert(t[24].0 == "elbv2"@);
    assert(t[25].0 == "elasticloadbalancingv2"@);
    lemma_table_lookup_at(t, "route53"@, 26);
}

#[verifier::spinoff_prover]
proof fn lemma_event_source_entry_27()
    ensures
        table_lookup(service_event_sources(), "apigateway"@) == Some("apigateway.amazonaws.com"@),
{
    reveal_strlit("apigateway");
    reveal_strlit("apigateway.amazonaws.com");
    reveal_strlit("s3");
    reveal_strlit("ec2");
    reveal_strlit("lambda");
    reveal_strlit("efs");
    reveal_strlit("ecs");
    reveal_strlit("eks");
    reveal_strlit("batch");
    reveal_strlit("rds");
    reveal_strlit("dynamodb");
    reveal_strlit("elasticache");
    reveal_strlit("neptune");
    reveal_strlit("redshift");
    reveal_strlit("iam");
    reveal_strlit("sts");
    reveal_strlit("kms");
    reveal_strlit("secretsmanager");
    reveal_strlit("secrets");
    reveal_strlit("ssm");
    reveal_strlit("guardduty");
    reveal_strlit("securityhub");
    reveal_strlit("acm");
    reveal_strlit("organizations");
    reveal_strlit("elb");
    reveal_strlit("elasticloadbalancing");
    reveal_strlit("elbv2");
    reveal_strlit("elasticloadbalancingv2");
    reveal_strlit("route53");
    let t = service_event_sources();
    assert(t[27].0 == "apigateway"@ && t[27].1 == "apigateway.amazonaws.com"@);
    assert(t[0].0 == "s3"@);
    assert(t[1].0 == "ec2"@);
    assert(t[2].0 == "lambda"@);
    assert(t[3].0 == "efs"@);
    assert(t[4].0 == "ecs"@);
    assert(t[5].0 == "eks"@);
    assert(t[6].0 == "batch"@);
    assert(t[7].0 == "rds"@);
    assert(t[8].0 == "dynamodb"@);
    assert(t[9].0 == "elasticache"@);
    assert(t[10].0 == "neptune"@);
    assert(t[11].0 == "redshift"@);
    assert(t[12].0 == "iam"@);
    assert(t[13].0 == "sts"@);
    assert(t[14].0 == "kms"@);
    assert(t[15].0 == "secretsmanager"@);
    assert(t[16].0 == "secrets"@);
    assert(t[17].0 == "ssm"@);
    assert(t[18].0 == "guardduty"@);
    assert(t[19].0 == "securityhub"@);
    assert(t[20].0 == "acm"@);
    assert(t[21].0 == "organizations"@);
    assert(t[22].0 == "elb"@);
    assert(t[23].0 == "elasticloadbalancing"@);
    assert(t[24].0 == "elbv2"@);
    assert(t[25].0 == "elasticloadbalancingv2"@);
    assert(t[26].0 == "route53"@);
    lemma_table_lookup_at(t, "apigateway"@, 27);
}

#[verifier::spinoff_prover]
proof fn lemma_event_source_entry_28()
    ensures
        table_lookup(service_event_sources(), "apigatewayv2"@) == Some("apigatewayv2.amazonaws.com"@),
{
    reveal_strlit("apigatewayv2");
    reveal_strlit("apigatewayv2.amazonaws.com");
    reveal_strlit("s3");
    reveal_strlit("ec2");
    reveal_strlit("lambda");
    reveal_strlit("efs");
    reveal_strlit("ecs");
    reveal_strlit("eks");
    reveal_strlit("batch");
    reveal_strlit("rds");
    reveal_strlit("dynamodb");
    reveal_strlit("elasticache");
    reveal_strlit("neptune");
    reveal_strlit("redshift");
    reveal_strlit("iam");
    reveal_strlit("sts");
    reveal_strlit("kms");
    reveal_strlit("secretsmanager");
    reveal_strlit("secrets");
    reveal_strlit("ssm");
    reveal_strlit("guardduty");
    reveal_strlit("securityhub");
    reveal_strlit("acm");
    reveal_strlit("organizations");
    reveal_strlit("elb");
    reveal_strlit("elasticloadbalancing");
    reveal_strlit("elbv2");
    reveal_strlit("elasticloadbalancingv2");
    reveal_strlit("route53");
    reveal_strlit("apigateway");
    let t = service_event_sources();
    assert(t[28].0 == "apigatewayv2"@ && t[28].1 == "apigatewayv2.amazonaws.com"@);
    assert(t[0].0 == "s3"@);
    assert(t[1].0 == "ec2"@);
    assert(t[2].0 == "lambda"@);
    assert(t[3].0 == "efs"@);
    assert(t[4].0 == "ecs"@);
    assert(t[5].0 == "eks"@);
    assert(t[6].0 == "batch"@);
    assert(t[7].0 == "rds"@);
    assert(t[8].0 == "dynamodb"@);
    assert(t[9].0 == "elasticache"@);
    assert(t[10].0 == "neptune"@);
    assert(t[11].0 == "redshift"@);
    assert(t[12].0 == "iam"@);
    assert(t[13].0 == "sts"@);
    assert(t[14].0 == "kms"@);
    assert(t[15].0 == "secretsmanager"@);
    assert(t[16].0 == "secrets"@);
    assert(t[17].0 == "ssm"@);
    assert(t[18].0 == "guardduty"@);
    assert(t[19].0 == "securityhub"@);
    assert(t[20].0 == "acm"@);
    assert(t[21].0 == "organizations"@);
    assert(t[22].0 == "elb"@);
    assert(t[23].0 == "elasticloadbalancing"@);
    assert(t[24].0 == "elbv2"@);
    assert(t[25].0 == "elasticloadbalancingv2"@);
    assert(t[26].0 == "route53"@);
    assert(t[27].0 == "apigateway"@);
    lemma_table_lookup_at(t, "apigatewayv2"@, 28);
}

#[verifier::spinoff_prover]
proof fn lemma_event_source_entry_29()
    ensures
        table_lookup(service_event_sources(), "cloudfront"@) == Some("cloudfront.amazonaws.com"@),
{
    reveal_strlit("cloudfront");
    reveal_strlit("cloudfront.amazonaws.com");
    reveal_strlit("s3");
    reveal_strlit("ec2");
    reveal_strlit("lambda");
    reveal_strlit("efs");
    reveal_strlit("ecs");
    reveal_strlit("eks");
    reveal_strlit("batch");
    reveal_strlit("rds");
    reveal_strlit("dynamodb");
    reveal_strlit("elasticache");
    reveal_strlit("neptune");
    reveal_strlit("redshift");
    reveal_strlit("iam");
    reveal_strlit("sts");
    reveal_strlit("kms");
    reveal_strlit("secretsmanager");
    reveal_strlit("secrets");
    reveal_strlit("ssm");
    reveal_strlit("guardduty");
    reveal_strlit("securityhub");
    reveal_strlit("acm");
    reveal_strlit("organizations");
    reveal_strlit("elb");
    reveal_strlit("elasticloadbalancing");
    reveal_strlit("elbv2");
    reveal_strlit("elasticloadbalancingv2");
    reveal_strlit("route53");
    reveal_strlit("apigateway");
    reveal_strlit("apigatewayv2");
    let t = service_event_sources();
    assert(t[29].0 == "cloudfront"@ && t[29].1 == "cloudfront.amazonaws.com"@);
    assert(t[0].0 == "s3"@);
    assert(t[1].0 == "ec2"@);
    assert(t[2].0 == "lambda"@);
    assert(t[3].0 == "efs"@);
    assert(t[4].0 == "ecs"@);
    assert(t[5].0 == "eks"@);
    assert(t[6].0 == "batch"@);
    assert(t[7].0 == "rds"@);
    assert(t[8].0 == "dynamodb"@);
    assert(t[9].0 == "elasticache"@);
    assert(t[10].0 == "neptune"@);
    assert(t[11].0 == "redshift"@);
    assert(t[12].0 == "iam"@);
    assert(t[13].0 == "sts"@);
    assert(t[14].0 == "kms"@);
    assert(t[15].0 == "secretsmanager"@);
    assert(t[16].0 == "secrets"@);
    assert(t[17].0 == "ssm"@);
    assert(t[18].0 == "guardduty"@);
    assert(t[19].0 == "securityhub"@);
    assert(t[20].0 == "acm"@);
    assert(t[21].0 == "organizations"@);
    assert(t[22].0 == "elb"@);
    assert(t[23].0 == "elasticloadbalancing"@);
    assert(t[24].0 == "elbv2"@);
    assert(t[25].0 == "elasticloadbalancingv2"@);
    assert(t[26].0 == "route53"@);
    assert(t[27].0 == "apigateway"@);
    assert("apigateway"@[0] != "cloudfront"@[0]);
    assert(t[28].0 == "apigatewayv2"@);
    lemma_table_lookup_at(t, "cloudfront"@, 29);
}

#[verifier::spinoff_prover]
proof fn lemma_event_source_entry_30()
    ensures
        table_lookup(service_event_sources(), "waf"@) == Some("wafv2.amazonaws.com"@),
{
    reveal_strlit("waf");
    reveal_strlit("wafv2.amazonaws.com");
    reveal_strlit("s3");
    reveal_strlit("ec2");
    reveal_strlit("lambda");
    reveal_strlit("efs");
    reveal_strlit("ecs");
    reveal_strlit("eks");
    reveal_strlit("batch");
    reveal_strlit("rds");
    reveal_strlit("dynamodb");
    reveal_strlit("elasticache");
    reveal_strlit("neptune");
    reveal_strlit("redshift");
    reveal_strlit("iam");
    reveal_strlit("sts");
    reveal_strlit("kms");
    reveal_strlit("secretsmanager");
    reveal_strlit("secrets");
    reveal_strlit("ssm");
    reveal_strlit("guardduty");
    reveal_strlit("securityhub");
    reveal_strlit("acm");
    reveal_strlit("organizations");
    reveal_strlit("elb");
    reveal_strlit("elasticloadbalancing");
    reveal_strlit("elbv2");
    reveal_strlit("elasticloadbalancingv2");
    reveal_strlit("route53");
    reveal_strlit("apigateway");
    reveal_strlit("apigatewayv2");
    reveal_strlit("cloudfront");
    let t = service_event_sources();
    assert(t[30].0 == "waf"@ && t[30].1 == "wafv2.amazonaws.com"@);
    assert(t[0].0 == "s3"@);
    assert(t[1].0 == "ec2"@);
    assert("ec2"@[0] != "waf"@[0]);
    assert(t[2].0 == "lambda"@);
    assert(t[3].0 == "efs"@);
    assert("efs"@[0] != "waf"@[0]);
    assert(t[4].0 == "ecs"@);
    assert("ecs"@[0] != "waf"@[0]);
    assert(t[5].0 == "eks"@);
    assert("eks"@[0] != "waf"@[0]);
    assert(t[6].0 == "batch"@);
    assert(t[7].0 == "rds"@);
    assert("rds"@[0] != "waf"@[0]);
    assert(t[8].0 == "dynamodb"@);
    assert(t[9].0 == "elasticache"@);
    assert(t[10].0 == "neptune"@);
    assert(t[11].0 == "redshift"@);
    assert(t[12].0 == "iam"@);
    assert("iam"@[0] != "waf"@[0]);
    assert(t[13].0 == "sts"@);
    assert("sts"@[0] != "waf"@[0]);
    assert(t[14].0 == "kms"@);
    assert("kms"@[0] != "waf"@[0]);
    assert(t[15].0 == "secretsmanager"@);
    assert(t[16].0 == "secrets"@);
    assert(t[17].0 == "ssm"@);
    assert("ssm"@[0] != "waf"@[0]);
    assert(t[18].0 == "guardduty"@);
    assert(t[19].0 == "securityhub"@);
    assert(t[20].0 == "acm"@);
    assert("acm"@[0] != "waf"@[0]);
    assert(t[21].0 == "organizations"@);
    assert(t[22].0 == "elb"@);
    assert("elb"@[0] != "waf"@[0]);
    assert(t[23].0 == "elasticloadbalancing"@);
    assert(t[24].0 == "elbv2"@);
    assert(t[25].0 == "elasticloadbalancingv2"@);
    assert(t[26].0 == "route53"@);
    assert(t[27].0 == "apigateway"@);
    assert(t[28].0 == "apigatewayv2"@);
    assert(t[29].0 == "cloudfront"@);
    lemma_table_lookup_at(t, "waf"@, 30);
}

#[verifier::spinoff_prover]
proof fn lemma_event_source_entry_31()
    ensures
        table_lookup(service_event_sources(), "wafv2"@) == Some("wafv2.amazonaws.com"@),
{
    reveal_strlit("wafv2");
    reveal_strlit("wafv2.amazonaws.com");
    reveal_strlit("s3");
    reveal_strlit("ec2");
    reveal_strlit("lambda");
    reveal_strlit("efs");
    reveal_strlit("ecs");
    reveal_strlit("eks");
    reveal_strlit("batch");
    reveal_strlit("rds");
    reveal_strlit("dynamodb");
    reveal_strlit("elasticache");
    reveal_strlit("neptune");
    reveal_strlit("redshift");
    reveal_strlit("iam");
    reveal_strlit("sts");
    reveal_strlit("kms");
    reveal_strlit("secretsmanager");
    reveal_strlit("secrets");
    reveal_strlit("ssm");
    reveal_strlit("guardduty");
    reveal_strlit("securityhub");
    reveal_strlit("acm");
    reveal_strlit("organizations");
    reveal_strlit("elb");
    reveal_strlit("elasticloadbalancing");
    reveal_strlit("elbv2");
    reveal_strlit("elasticloadbalancingv2");
    reveal_strlit("route53");
    reveal_strlit("apigateway");
    reveal_strlit("apigatewayv2");
    reveal_strlit("cloudfront");
    reveal_strlit("waf");
    let t = service_event_sources();
    assert(t[31].0 == "wafv2"@ && t[31].1 == "wafv2.amazonaws.com"@);
    assert(t[0].0 == "s3"@);
    assert(t[1].0 == "ec2"@);
    assert(t[2].0 == "lambda"@);
    assert(t[3].0 == "efs"@);
    assert(t[4].0 == "ecs"@);
    assert(t[5].0 == "eks"@);
    assert(t[6].0 == "batch"@);
    assert("batch"@[0] != "wafv2"@[0]);
    assert(t[7].0 == "rds"@);
    assert(t[8].0 == "dynamodb"@);
    assert(t[9].0 == "elasticache"@);
    assert(t[10].0 == "neptune"@);
    assert(t[11].0 == "redshift"@);
    assert(t[12].0 == "iam"@);
    assert(t[13].0 == "sts"@);
    assert(t[14].0 == "kms"@);
    assert(t[15].0 == "secretsmanager"@);
    assert(t[16].0 == "secrets"@);
    assert(t[17].0 == "ssm"@);
    assert(t[18].0 == "guardduty"@);
    assert(t[19].0 == "securityhub"@);
    assert(t[20].0 == "acm"@);
    assert(t[21].0 == "organizations"@);
    assert(t[22].0 == "elb"@);
    assert(t[23].0 == "elasticloadbalancing"@);
    assert(t[24].0 == "elbv2"@);
    assert("elbv2"@[0] != "wafv2"@[0]);
    assert(t[25].0 == "elasticloadbalancingv2"@);
    assert(t[26].0 == "route53"@);
    assert(t[27].0 == "apigateway"@);
    assert(t[28].0 == "apigatewayv2"@);
    assert(t[29].0 == "cloudfront"@);
    assert(t[30].0 == "waf"@);
    lemma_table_lookup_at(t, "wafv2"@, 31);
}

#[verifier::spinoff_prover]
proof fn lemma_event_source_entry_32()
    ensures
        table_lookup(service_event_sources(), "sns"@) == Some("sns.amazonaws.com"@),
{
    reveal_strlit("sns");
    reveal_strlit("sns.amazonaws.com");
    reveal_strlit("s3");
    reveal_strlit("ec2");
    reveal_strlit("lambda");
    reveal_strlit("efs");
    reveal_strlit("ecs");
    reveal_strlit("eks");
    reveal_strlit("batch");
    reveal_strlit("rds");
    reveal_strlit("dynamodb");
    reveal_strlit("elasticache");
    reveal_strlit("neptune");
    reveal_strlit("redshift");
    reveal_strlit("iam");
    reveal_strlit("sts");
    reveal_strlit("kms");
    reveal_strlit("secretsmanager");
    reveal_strlit("secrets");
    reveal_strlit("ssm");
    reveal_strlit("guardduty");
    reveal_strlit("securityhub");
    reveal_strlit("acm");
    reveal_strlit("organizations");
    reveal_strlit("elb");
    reveal_strlit("elasticloadbalancing");
    reveal_strlit("elbv2");
    reveal_strlit("elasticloadbalancingv2");
    reveal_strlit("route53");
    reveal_strlit("apigateway");
    reveal_strlit("apigatewayv2");
    reveal_strlit("cloudfront");
    reveal_strlit("waf");
    reveal_strlit("wafv2");
    let t = service_event_sources();
    assert(t[32].0 == "sns"@ && t[32].1 == "sns.amazonaws.com"@);
    assert(t[0].0 == "s3"@);
    assert(t[1].0 == "ec2"@);
    assert("ec2"@[0] != "sns"@[0]);
    assert(t[2].0 == "lambda"@);
    assert(t[3].0 == "efs"@);
    assert("efs"@[0] != "sns"@[0]);
    assert(t[4].0 == "ecs"@);
    assert("ecs"@[0] != "sns"@[0]);
    assert(t[5].0 == "eks"@);
    assert("eks"@[0] != "sns"@[0]);
    assert(t[6].0 == "batch"@);
    assert(t[7].0 == "rds"@);
    assert("rds"@[0] != "sns"@[0]);
    assert(t[8].0 == "dynamodb"@);
    assert(t[9].0 == "elasticache"@);
    assert(t[10].0 == "neptune"@);
    assert(t[11].0 == "redshift"@);
    assert(t[12].0 == "iam"@);
    assert("iam"@[0] != "sns"@[0]);
    assert(t[13].0 == "sts"@);
    assert("sts"@[1] != "sns"@[1]);
    assert(t[14].0 == "kms"@);
    assert("kms"@[0] != "sns"@[0]);
    assert(t[15].0 == "secretsmanager"@);
    assert(t[16].0 == "secrets"@);
    assert(t[17].0 == "ssm"@);
    assert("ssm"@[1] != "sns"@[1]);
    assert(t[18].0 == "guardduty"@);
    assert(t[19].0 == "securityhub"@);
    assert(t[20].0 == "acm"@);
    assert("acm"@[0] != "sns"@[0]);
    assert(t[21].0 == "organizations"@);
    assert(t[22].0 == "elb"@);
    assert("elb"@[0] != "sns"@[0]);
    assert(t[23].0 == "elasticloadbalancing"@);
    assert(t[24].0 == "elbv2"@);
    assert(t[25].0 == "elasticloadbalancingv2"@);
    assert(t[26].0 == "route53"@);
    assert(t[27].0 == "apigateway"@);
    assert(t[28].0 == "apigatewayv2"@);
    assert(t[29].0 == "cloudfront"@);
    assert(t[30].0 == "waf"@);
    assert("waf"@[0] != "sns"@[0]);
    assert(t[31].0 == "wafv2"@);
    lemma_table_lookup_at(t, "sns"@, 32);
}

#[verifier::spinoff_prover]
proof fn lemma_event_source_entry_33()
    ensures
        table_lookup(service_event_sources(), "sqs"@) == Some("sqs.amazonaws.com"@),
{
    reveal_strlit("sqs");
    reveal_strlit("sqs.amazonaws.com");
    reveal_strlit("s3");
    reveal_strlit("ec2");
    reveal_strlit("lambda");
    reveal_strlit("efs");
    reveal_strlit("ecs");
    reveal_strlit("eks");
    reveal_strlit("batch");
    reveal_strlit("rds");
    reveal_strlit("dynamodb");
    reveal_strlit("elasticache");
    reveal_strlit("neptune");
    reveal_strlit("redshift");
    reveal_strlit("iam");
    reveal_strlit("sts");
    reveal_strlit("kms");
    reveal_strlit("secretsmanager");
    reveal_strlit("secrets");
    reveal_strlit("ssm");
    reveal_strlit("guardduty");
    reveal_strlit("securityhub");
    reveal_strlit("acm");
    reveal_strlit("organizations");
    reveal_strlit("elb");
    reveal_strlit("elasticloadbalancing");
    reveal_strlit("elbv2");
    reveal_strlit("elasticloadbalancingv2");
    reveal_strlit("route53");
    reveal_strlit("apigateway");
    reveal_strlit("apigatewayv2");
    reveal_strlit("cloudfront");
    reveal_strlit("waf");
    reveal_strlit("wafv2");
    reveal_strlit("sns");
    let t = service_event_sources();
    assert(t[33].0 == "sqs"@ && t[33].1 == "sqs.amazonaws.com"@);
    assert(t[0].0 == "s3"@);
    assert(t[1].0 == "ec2"@);
    assert("ec2"@[0] != "sqs"@[0]);
    assert(t[2].0 == "lambda"@);
    assert(t[3].0 == "efs"@);
    assert("efs"@[0] != "sqs"@[0]);
    assert(t[4].0 == "ecs"@);
    assert("ecs"@[0] != "sqs"@[0]);
    assert(t[5].0 == "eks"@);
    assert("eks"@[0] != "sqs"@[0]);
    assert(t[6].0 == "batch"@);
    assert(t[7].0 == "rds"@);
    assert("rds"@[0] != "sqs"@[0]);
    assert(t[8].0 == "dynamodb"@);
    assert(t[9].0 == "elasticache"@);
    assert(t[10].0 == "neptune"@);
    assert(t[11].0 == "redshift"@);
    assert(t[12].0 == "iam"@);
    assert("iam"@[0] != "sqs"@[0]);
    assert(t[13].0 == "sts"@);
    assert("sts"@[1] != "sqs"@[1]);
    assert(t[14].0 == "kms"@);
    assert("kms"@[0] != "sqs"@[0]);
    assert(t[15].0 == "secretsmanager"@);
    assert(t[16].0 == "secrets"@);
    assert(t[17].0 == "ssm"@);
    assert("ssm"@[1] != "sqs"@[1]);
    assert(t[18].0 == "guardduty"@);
    assert(t[19].0 == "securityhub"@);
    assert(t[20].0 == "acm"@);
    assert("acm"@[0] != "sqs"@[0]);
    assert(t[21].0 == "organizations"@);
    assert(t[22].0 == "elb"@);
    assert("elb"@[0] != "sqs"@[0]);
    assert(t[23].0 == "elasticloadbalancing"@);
    assert(t[24].0 == "elbv2"@);
    assert(t[25].0 == "elasticloadbalancingv2"@);
    assert(t[26].0 == "route53"@);
    assert(t[27].0 == "apigateway"@);
    assert(t[28].0 == "apigatewayv2"@);
    assert(t[29].0 == "cloudfront"@);
    assert(t[30].0 == "waf"@);
    assert("waf"@[0] != "sqs"@[0]);
    assert(t[31].0 == "wafv2"@);
    assert(t[32].0 == "sns"@);
    assert("sns"@[1] != "sqs"@[1]);
    lemma_table_lookup_at(t, "sqs"@, 33);
}

#[verifier::spinoff_prover]
proof fn lemma_event_source_entry_34()
    ensures
        table_lookup(service_event_sources(), "eventbridge"@) == Some("events.amazonaws.com"@),
{
    reveal_strlit("eventbridge");
    reveal_strlit("events.amazonaws.com");
    reveal_strlit("s3");
    reveal_strlit("ec2");
    reveal_strlit("lambda");
    reveal_strlit("efs");
    reveal_strlit("ecs");
    reveal_strlit("eks");
    reveal_strlit("batch");
    reveal_strlit("rds");
    reveal_strlit("dynamodb");
    reveal_strlit("elasticache");
    reveal_strlit("neptune");
    reveal_strlit("redshift");
    reveal_strlit("iam");
    reveal_strlit("sts");
    reveal_strlit("kms");
    reveal_strlit("secretsmanager");
    reveal_strlit("secrets");
    reveal_strlit("ssm");
    reveal_strlit("guardduty");
    reveal_strlit("securityhub");
    reveal_strlit("acm");
    reveal_strlit("organizations");
    reveal_strlit("elb");
    reveal_strlit("elasticloadbalancing");
    reveal_strlit("elbv2");
    reveal_strlit("elasticloadbalancingv2");
    reveal_strlit("route53");
    reveal_strlit("apigateway");
    reveal_strlit("apigatewayv2");
    reveal_strlit("cloudfront");
    reveal_strlit("waf");
    reveal_strlit("wafv2");
    reveal_strlit("sns");
    reveal_strlit("sqs");
    let t = service_event_sources();
    assert(t[34].0 == "eventbridge"@ && t[34].1 == "events.amazonaws.com"@);
    assert(t[0].0 == "s3"@);
    assert(t[1].0 == "ec2"@);
    assert(t[2].0 == "lambda"@);
    assert(t[3].0 == "efs"@);
    assert(t[4].0 == "ecs"@);
    assert(t[5].0 == "eks"@);
    assert(t[6].0 == "batch"@);
    assert(t[7].0 == "rds"@);
    assert(t[8].0 == "dynamodb"@);
    assert(t[9].0 == "elasticache"@);
    assert("elasticache"@[1] != "eventbridge"@[1]);
    assert(t[10].0 == "neptune"@);
    assert(t[11].0 == "redshift"@);
    assert(t[12].0 == "iam"@);
    assert(t[13].0 == "sts"@);
    assert(t[14].0 == "kms"@);
    assert(t[15].0 == "secretsmanager"@);
    assert(t[16].0 == "secrets"@);
    assert(t[17].0 == "ssm"@);
    assert(t[18].0 == "guardduty"@);
    assert(t[19].0 == "securityhub"@);
    assert("securityhub"@[0] != "eventbridge"@[0]);
    assert(t[20].0 == "acm"@);
    assert(t[21].0 == "organizations"@);
    assert(t[22].0 == "elb"@);
    assert(t[23].0 == "elasticloadbalancing"@);
    assert(t[24].0 == "elbv2"@);
    assert(t[25].0 == "elasticloadbalancingv2"@);
    assert(t[26].0 == "route53"@);
    assert(t[27].0 == "apigateway"@);
    assert(t[28].0 == "apigatewayv2"@);
    assert(t[29].0 == "cloudfront"@);
    assert(t[30].0 == "waf"@);
    assert(t[31].0 == "wafv2"@);
    assert(t[32].0 == "sns"@);
    assert(t[33].0 == "sqs"@);
    lemma_table_lookup_at(t, "eventbridge"@, 34);
}

#[verifier::spinoff_prover]
proof fn lemma_event_source_entry_35()
    ensures
        table_lookup(service_event_sources(), "events"@) == Some("events.amazonaws.com"@),
{
    reveal_strlit("events");
    reveal_strlit("events.amazonaws.com");
    reveal_strlit("s3");
    reveal_strlit("ec2");
    reveal_strlit("lambda");
    reveal_strlit("efs");
    reveal_strlit("ecs");
    reveal_strlit("eks");
    reveal_strlit("batch");
    reveal_strlit("rds");
    reveal_strlit("dynamodb");
    reveal_strlit("elasticache");
    reveal_strlit("neptune");
    reveal_strlit("redshift");
    reveal_strlit("iam");
    reveal_strlit("sts");
    reveal_strlit("kms");
    reveal_strlit("secretsmanager");
    reveal_strlit("secrets");
    reveal_strlit("ssm");
    reveal_strlit("guardduty");
    reveal_strlit("securityhub");
    reveal_strlit("acm");
    reveal_strlit("organizations");
    reveal_strlit("elb");
    reveal_strlit("elasticloadbalancing");
    reveal_strlit("elbv2");
    reveal_strlit("elasticloadbalancingv2");
    reveal_strlit("route53");
    reveal_strlit("apigateway");
    reveal_strlit("apigatewayv2");
    reveal_strlit("cloudfront");
    reveal_strlit("waf");
    reveal_strlit("wafv2");
    reveal_strlit("sns");
    reveal_strlit("sqs");
    reveal_strlit("eventbridge");
    let t = service_event_sources();
    assert(t[35].0 == "events"@ && t[35].1 == "events.amazonaws.com"@);
    assert(t[0].0 == "s3"@);
    assert(t[1].0 == "ec2"@);
    assert(t[2].0 == "lambda"@);
    assert("lambda"@[0] != "events"@[0]);
    assert(t[3].0 == "efs"@);
    assert(t[4].0 == "ecs"@);
    assert(t[5].0 == "eks"@);
    assert(t[6].0 == "batch"@);
    assert(t[7].0 == "rds"@);
    assert(t[8].0 == "dynamodb"@);
    assert(t[9].0 == "elasticache"@);
    assert(t[10].0 == "neptune"@);
    assert(t[11].0 == "redshift"@);
    assert(t[12].0 == "iam"@);
    assert(t[13].0 == "sts"@);
    assert(t[14].0 == "kms"@);
    assert(t[15].0 == "secretsmanager"@);
    assert(t[16].0 == "secrets"@);
    assert(t[17].0 == "ssm"@);
    assert(t[18].0 == "guardduty"@);
    assert(t[19].0 == "securityhub"@);
    assert(t[20].0 == "acm"@);
    assert(t[21].0 == "organizations"@);
    assert(t[22].0 == "elb"@);
    assert(t[23].0 == "elasticloadbalancing"@);
    assert(t[24].0 == "elbv2"@);
    assert(t[25].0 == "elasticloadbalancingv2"@);
    assert(t[26].0 == "route53"@);
    assert(t[27].0 == "apigateway"@);
    assert(t[28].0 == "apigatewayv2"@);
    assert(t[29].0 == "cloudfront"@);
    assert(t[30].0 == "waf"@);
    assert(t[31].0 == "wafv2"@);
    assert(t[32].0 == "sns"@);
    assert(t[33].0 == "sqs"@);
    assert(t[34].0 == "eventbridge"@);
    lemma_table_lookup_at(t, "events"@, 35);
}

#[verifier::spinoff_prover]
proof fn lemma_event_source_entry_36()
    ensures
        table_lookup(service_event_sources(), "kinesis"@) == Some("kinesis.amazonaws.com"@),
{
    reveal_strlit("kinesis");
    reveal_strlit("kinesis.amazonaws.com");
    reveal_strlit("s3");
    reveal_strlit("ec2");
    reveal_strlit("lambda");
    reveal_strlit("efs");
    reveal_strlit("ecs");
    reveal_strlit("eks");
    reveal_strlit("batch");
    reveal_strlit("rds");
    reveal_strlit("dynamodb");
    reveal_strlit("elasticache");
    reveal_strlit("neptune");
    reveal_strlit("redshift");
    reveal_strlit("iam");
    reveal_strlit("sts");
    reveal_strlit("kms");
    reveal_strlit("secretsmanager");
    reveal_strlit("secrets");
    reveal_strlit("ssm");
    reveal_strlit("guardduty");
    reveal_strlit("securityhub");
    reveal_strlit("acm");
    reveal_strlit("organizations");
    reveal_strlit("elb");
    reveal_strlit("elasticloadbalancing");
    reveal_strlit("elbv2");
    reveal_strlit("elasticloadbalancingv2");
    reveal_strlit("route53");
    reveal_strlit("apigateway");
    reveal_strlit("apigatewayv2");
    reveal_strlit("cloudfront");
    reveal_strlit("waf");
    reveal_strlit("wafv2");
    reveal_strlit("sns");
    reveal_strlit("sqs");
    reveal_strlit("eventbridge");
    reveal_strlit("events");
    let t = service_event_sources();
    assert(t[36].0 == "kinesis"@ && t[36].1 == "kinesis.amazonaws.com"@);
    assert(t[0].0 == "s3"@);
    assert(t[1].0 == "ec2"@);
    assert(t[2].0 == "lambda"@);
    assert(t[3].0 == "efs"@);
    assert(t[4].0 == "ecs"@);
    assert(t[5].0 == "eks"@);
    assert(t[6].0 == "batch"@);
    assert(t[7].0 == "rds"@);
    assert(t[8].0 == "dynamodb"@);
    assert(t[9].0 == "elasticache"@);
    assert(t[10].0 == "neptune"@);
    assert("neptune"@[0] != "kinesis"@[0]);
    assert(t[11].0 == "redshift"@);
    assert(t[12].0 == "iam"@);
    assert(t[13].0 == "sts"@);
    assert(t[14].0 == "kms"@);
    assert(t[15].0 == "secretsmanager"@);
    assert(t[16].0 == "secrets"@);
    assert("secrets"@[0] != "kinesis"@[0]);
    assert(t[17].0 == "ssm"@);
    assert(t[18].0 == "guardduty"@);
    assert(t[19].0 == "securityhub"@);
    assert(t[20].0 == "acm"@);
    assert(t[21].0 == "organizations"@);
    assert(t[22].0 == "elb"@);
    assert(t[23].0 == "elasticloadbalancing"@);
    assert(t[24].0 == "elbv2"@);
    assert(t[25].0 == "elasticloadbalancingv2"@);
    assert(t[26].0 == "route53"@);
    assert("route53"@[0] != "kinesis"@[0]);
    assert(t[27].0 == "apigateway"@);
    assert(t[28].0 == "apigatewayv2"@);
    assert(t[29].0 == "cloudfront"@);
    assert(t[30].0 == "waf"@);
    assert(t[31].0 == "wafv2"@);
    assert(t[32].0 == "sns"@);
    assert(t[33].0 == "sqs"@);
    assert(t[34].0 == "eventbridge"@);
    assert(t[35].0 == "events"@);
    lemma_table_lookup_at(t, "kinesis"@, 36);
}

#[verifier::spinoff_prover]
proof fn lemma_event_source_entry_37()
    ensures
        table_lookup(service_event_sources(), "firehose"@) == Some("firehose.amazonaws.com"@),
{
    reveal_strlit("firehose");
    reveal_strlit("firehose.amazonaws.com");
    reveal_strlit("s3");
    reveal_strlit("ec2");
    reveal_strlit("lambda");
    reveal_strlit("efs");
    reveal_strlit("ecs");
    reveal_strlit("eks");
    reveal_strlit("batch");
    reveal_strlit("rds");
    reveal_strlit("dynamodb");
    reveal_strlit("elasticache");
    reveal_strlit("neptune");
    reveal_strlit("redshift");
    reveal_strlit("iam");
    reveal_strlit("sts");
    reveal_strlit("kms");
    reveal_strlit("secretsmanager");
    reveal_strlit("secrets");
    reveal_strlit("ssm");
    reveal_strlit("guardduty");
    reveal_strlit("securityhub");
    reveal_strlit("acm");
    reveal_strlit("organizations");
    reveal_strlit("elb");
    reveal_strlit("elasticloadbalancing");
    reveal_strlit("elbv2");
    reveal_strlit("elasticloadbalancingv2");
    reveal_strlit("route53");
    reveal_strlit("apigateway");
    reveal_strlit("apigatewayv2");
    reveal_strlit("cloudfront");
    reveal_strlit("waf");
    reveal_strlit("wafv2");
    reveal_strlit("sns");
    reveal_strlit("sqs");
    reveal_strlit("eventbridge");
    reveal_strlit("events");
    reveal_strlit("kinesis");
    let t = service_event_sources();
    assert(t[37].0 == "firehose"@ && t[37].1 == "firehose.amazonaws.com"@);
    assert(t[0].0 == "s3"@);
    assert(t[1].0 == "ec2"@);
    assert(t[2].0 == "lambda"@);
    assert(t[3].0 == "efs"@);
    assert(t[4].0 == "ecs"@);
    assert(t[5].0 == "eks"@);
    assert(t[6].0 == "batch"@);
    assert(t[7].0 == "rds"@);
    assert(t[8].0 == "dynamodb"@);
    assert("dynamodb"@[0] != "firehose"@[0]);
    assert(t[9].0 == "elasticache"@);
    assert(t[10].0 == "neptune"@);
    assert(t[11].0 == "redshift"@);
    assert("redshift"@[0] != "firehose"@[0]);
    assert(t[12].0 == "iam"@);
    assert(t[13].0 == "sts"@);
    assert(t[14].0 == "kms"@);
    assert(t[15].0 == "secretsmanager"@);
    assert(t[16].0 == "secrets"@);
    assert(t[17].0 == "ssm"@);
    assert(t[18].0 == "guardduty"@);
    assert(t[19].0 == "securityhub"@);
    assert(t[20].0 == "acm"@);
    assert(t[21].0 == "organizations"@);
    assert(t[22].0 == "elb"@);
    assert(t[23].0 == "elasticloadbalancing"@);
    assert(t[24].0 == "elbv2"@);
    assert(t[25].0 == "elasticloadbalancingv2"@);
    assert(t[26].0 == "route53"@);
    assert(t[27].0 == "apigateway"@);
    assert(t[28].0 == "apigatewayv2"@);
    assert(t[29].0 == "cloudfront"@);
    assert(t[30].0 == "waf"@);
    assert(t[31].0 == "wafv2"@);
    assert(t[32].0 == "sns"@);
    assert(t[33].0 == "sqs"@);
    assert(t[34].0 == "eventbridge"@);
    assert(t[35].0 == "events"@);
    assert(t[36].0 == "kinesis"@);
    lemma_table_lookup_at(t, "firehose"@, 37);
}

#[verifier::spinoff_prover]
proof fn lemma_event_source_entry_38()
    ensures
        table_lookup(service_event_sources(), "kinesisfirehose"@) == Some("firehose.amazonaws.com"@),
{
    reveal_strlit("kinesisfirehose");
    reveal_strlit("firehose.amazonaws.com");
    reveal_strlit("s3");
    reveal_strlit("ec2");
    reveal_strlit("lambda");
    reveal_strlit("efs");
    reveal_strlit("ecs");
    reveal_strlit("eks");
    reveal_strlit("batch");
    reveal_strlit("rds");
    reveal_strlit("dynamodb");
    reveal_strlit("elasticache");
    reveal_strlit("neptune");
    reveal_strlit("redshift");
    reveal_strlit("iam");
    reveal_strlit("sts");
    reveal_strlit("kms");
    reveal_strlit("secretsmanager");
    reveal_strlit("secrets");
    reveal_strlit("ssm");
    reveal_strlit("guardduty");
    reveal_strlit("securityhub");
    reveal_strlit("acm");
    reveal_strlit("organizations");
    reveal_strlit("elb");
    reveal_strlit("elasticloadbalancing");
    reveal_strlit("elbv2");
    reveal_strlit("elasticloadbalancingv2");
    reveal_strlit("route53");
    reveal_strlit("apigateway");
    reveal_strlit("apigatewayv2");
    reveal_strlit("cloudfront");
    reveal_strlit("waf");
    reveal_strlit("wafv2");
    reveal_strlit("sns");
    reveal_strlit("sqs");
    reveal_strlit("eventbridge");
    reveal_strlit("events");
    reveal_strlit("kinesis");
    reveal_strlit("firehose");
    let t = service_event_sources();
    assert(t[38].0 == "kinesisfirehose"@ && t[38].1 == "firehose.amazonaws.com"@);
    assert(t[0].0 == "s3"@);
    assert(t[1].0 == "ec2"@);
    assert(t[2].0 == "lambda"@);
    assert(t[3].0 == "efs"@);
    assert(t[4].0 == "ecs"@);
    assert(t[5].0 == "eks"@);
    assert(t[6].0 == "batch"@);
    assert(t[7].0 == "rds"@);
    assert(t[8].0 == "dynamodb"@);
    assert(t[9].0 == "elasticache"@);
    assert(t[10].0 == "neptune"@);
    assert(t[11].0 == "redshift"@);
    assert(t[12].0 == "iam"@);
    assert(t[13].0 == "sts"@);
    assert(t[14].0 == "kms"@);
    assert(t[15].0 == "secretsmanager"@);
    assert(t[16].0 == "secrets"@);
    assert(t[17].0 == "ssm"@);
    assert(t[18].0 == "guardduty"@);
    assert(t[19].0 == "securityhub"@);
    assert(t[20].0 == "acm"@);
    assert(t[21].0 == "organizations"@);
    assert(t[22].0 == "elb"@);
    assert(t[23].0 == "elasticloadbalancing"@);
    assert(t[24].0 == "elbv2"@);
    assert(t[25].0 == "elasticloadbalancingv2"@);
    assert(t[26].0 == "route53"@);
    assert(t[27].0 == "apigateway"@);
    assert(t[28].0 == "apigatewayv2"@);
    assert(t[29].0 == "cloudfront"@);
    assert(t[30].0 == "waf"@);
    assert(t[31].0 == "wafv2"@);
    assert(t[32].0 == "sns"@);
    assert(t[33].0 == "sqs"@);
    assert(t[34].0 == "eventbridge"@);
    assert(t[35].0 == "events"@);
    assert(t[36].0 == "kinesis"@);
    assert(t[37].0 == "firehose"@);
    lemma_table_lookup_at(t, "kinesisfirehose"@, 38);
}

#[verifier::spinoff_prover]
proof fn lemma_event_source_entry_39()
    ensures
        table_lookup(service_event_sources(), "codecommit"@) == Some("codecommit.amazonaws.com"@),
{
    reveal_strlit("codecommit");
    reveal_strlit("codecommit.amazonaws.com");
    reveal_strlit("s3");
    reveal_strlit("ec2");
    reveal_strlit("lambda");
    reveal_strlit("efs");
    reveal_strlit("ecs");
    reveal_strlit("eks");
    reveal_strlit("batch");
    reveal_strlit("rds");
    reveal_strlit("dynamodb");
    reveal_strlit("elasticache");
    reveal_strlit("neptune");
    reveal_strlit("redshift");
    reveal_strlit("iam");
    reveal_strlit("sts");
    reveal_strlit("kms");
    reveal_strlit("secretsmanager");
    reveal_strlit("secrets");
    reveal_strlit("ssm");
    reveal_strlit("guardduty");
    reveal_strlit("securityhub");
    reveal_strlit("acm");
    reveal_strlit("organizations");
    reveal_strlit("elb");
    reveal_strlit("elasticloadbalancing");
    reveal_strlit("elbv2");
    reveal_strlit("elasticloadbalancingv2");
    reveal_strlit("route53");
    reveal_strlit("apigateway");
    reveal_strlit("apigatewayv2");
    reveal_strlit("cloudfront");
    reveal_strlit("waf");
    reveal_strlit("wafv2");
    reveal_strlit("sns");
    reveal_strlit("sqs");
    reveal_strlit("eventbridge");
    reveal_strlit("events");
    reveal_strlit("kinesis");
    reveal_strlit("firehose");
    reveal_strlit("kinesisfirehose");
    let t = service_event_sources();
    assert(t[39].0 == "codecommit"@ && t[39].1 == "codecommit.amazonaws.com"@);
    assert(t[0].0 == "s3"@);
    assert(t[1].0 == "ec2"@);
    assert(t[2].0 == "lambda"@);
    assert(t[3].0 == "efs"@);
    assert(t[4].0 == "ecs"@);
    assert(t[5].0 == "eks"@);
    assert(t[6].0 == "batch"@);
    assert(t[7].0 == "rds"@);
    assert(t[8].0 == "dynamodb"@);
    assert(t[9].0 == "elasticache"@);
    assert(t[10].0 == "neptune"@);
    assert(t[11].0 == "redshift"@);
    assert(t[12].0 == "iam"@);
    assert(t[13].0 == "sts"@);
    assert(t[14].0 == "kms"@);
    assert(t[15].0 == "secretsmanager"@);
    assert(t[16].0 == "secrets"@);
    assert(t[17].0 == "ssm"@);
    assert(t[18].0 == "guardduty"@);
    assert(t[19].0 == "securityhub"@);
    assert(t[20].0 == "acm"@);
    assert(t[21].0 == "organizations"@);
    assert(t[22].0 == "elb"@);
    assert(t[23].0 == "elasticloadbalancing"@);
    assert(t[24].0 == "elbv2"@);
    assert(t[25].0 == "elasticloadbalancingv2"@);
    assert(t[26].0 == "route53"@);
    assert(t[27].0 == "apigateway"@);
    assert("apigateway"@[0] != "codecommit"@[0]);
    assert(t[28].0 == "apigatewayv2"@);
    assert(t[29].0 == "cloudfront"@);
    assert("cloudfront"@[1] != "codecommit"@[1]);
    assert(t[30].0 == "waf"@);
    assert(t[31].0 == "wafv2"@);
    assert(t[32].0 == "sns"@);
    assert(t[33].0 == "sqs"@);
    assert(t[34].0 == "eventbridge"@);
    assert(t[35].0 == "events"@);
    assert(t[36].0 == "kinesis"@);
    assert(t[37].0 == "firehose"@);
    assert(t[38].0 == "kinesisfirehose"@);
    lemma_table_lookup_at(t, "codecommit"@, 39);
}

#[verifier::spinoff_prover]
proof fn lemma_event_source_entry_40()
    ensures
        table_lookup(service_event_sources(), "codebuild"@) == Some("codebuild.amazonaws.com"@),
{
    reveal_strlit("codebuild");
    reveal_strlit("codebuild.amazonaws.com");
    reveal_strlit("s3");
    reveal_strlit("ec2");
    reveal_strlit("lambda");
    reveal_strlit("efs");
    reveal_strlit("ecs");
    reveal_strlit("eks");
    reveal_strlit("batch");
    reveal_strlit("rds");
    reveal_strlit("dynamodb");
    reveal_strlit("elasticache");
    reveal_strlit("neptune");
    reveal_strlit("redshift");
    reveal_strlit("iam");
    reveal_strlit("sts");
    reveal_strlit("kms");
    reveal_strlit("secretsmanager");
    reveal_strlit("secrets");
    reveal_strlit("ssm");
    reveal_strlit("guardduty");
    reveal_strlit("securityhub");
    reveal_strlit("acm");
    reveal_strlit("organizations");
    reveal_strlit("elb");
    reveal_strlit("elasticloadbalancing");
    reveal_strlit("elbv2");
    reveal_strlit("elasticloadbalancingv2");
    reveal_strlit("route53");
    reveal_strlit("apigateway");
    reveal_strlit("apigatewayv2");
    reveal_strlit("cloudfront");
    reveal_strlit("waf");
    reveal_strlit("wafv2");
    reveal_strlit("sns");
    reveal_strlit("sqs");
    reveal_strlit("eventbridge");
    reveal_strlit("events");
    reveal_strlit("kinesis");
    reveal_strlit("firehose");
    reveal_strlit("kinesisfirehose");
    reveal_strlit("codecommit");
    let t = service_event_sources();
    assert(t[40].0 == "codebuild"@ && t[40].1 == "codebuild.amazonaws.com"@);
    assert(t[0].0 == "s3"@);
    assert(t[1].0 == "ec2"@);
    assert(t[2].0 == "lambda"@);
    assert(t[3].0 == "efs"@);
    assert(t[4].0 == "ecs"@);
    assert(t[5].0 == "eks"@);
    assert(t[6].0 == "batch"@);
    assert(t[7].0 == "rds"@);
    assert(t[8].0 == "dynamodb"@);
    assert(t[9].0 == "elasticache"@);
    assert(t[10].0 == "neptune"@);
    assert(t[11].0 == "redshift"@);
    assert(t[12].0 == "iam"@);
    assert(t[13].0 == "sts"@);
    assert(t[14].0 == "kms"@);
    assert(t[15].0 == "secretsmanager"@);
    assert(t[16].0 == "secrets"@);
    assert(t[17].0 == "ssm"@);
    assert(t[18].0 == "guardduty"@);
    assert("guardduty"@[0] != "codebuild"@[0]);
    assert(t[19].0 == "securityhub"@);
    assert(t[20].0 == "acm"@);
    assert(t[21].0 == "organizations"@);
    assert(t[22].0 == "elb"@);
    assert(t[23].0 == "elasticloadbalancing"@);
    assert(t[24].0 == "elbv2"@);
    assert(t[25].0 == "elasticloadbalancingv2"@);
    assert(t[26].0 == "route53"@);
    assert(t[27].0 == "apigateway"@);
    assert(t[28].0 == "apigatewayv2"@);
    assert(t[29].0 == "cloudfront"@);
    assert(t[30].0 == "waf"@);
    assert(t[31].0 == "wafv2"@);
    assert(t[32].0 == "sns"@);
    assert(t[33].0 == "sqs"@);
    assert(t[34].0 == "eventbridge"@);
    assert(t[35].0 == "events"@);
    assert(t[36].0 == "kinesis"@);
    assert(t[37].0 == "firehose"@);
    assert(t[38].0 == "kinesisfirehose"@);
    assert(t[39].0 == "codecommit"@);
    lemma_table_lookup_at(t, "codebuild"@, 40);
}

#[verifier::spinoff_prover]
proof fn lemma_event_source_entry_41()
    ensures
        table_lookup(service_event_sources(), "codedeploy"@) == Some("codedeploy.amazonaws.com"@),
{
    reveal_strlit("codedeploy");
    reveal_strlit("codedeploy.amazonaws.com");
    reveal_strlit("s3");
    reveal_strlit("ec2");
    reveal_strlit("lambda");
    reveal_strlit("efs");
    reveal_strlit("ecs");
    reveal_strlit("eks");
    reveal_strlit("batch");
    reveal_strlit("rds");
    reveal_strlit("dynamodb");
    reveal_strlit("elasticache");
    reveal_strlit("neptune");
    reveal_strlit("redshift");
    reveal_strlit("iam");
    reveal_strlit("sts");
    reveal_strlit("kms");
    reveal_strlit("secretsmanager");
    reveal_strlit("secrets");
    reveal_strlit("ssm");
    reveal_strlit("guardduty");
    reveal_strlit("securityhub");
    reveal_strlit("acm");
    reveal_strlit("organizations");
    reveal_strlit("elb");
    reveal_strlit("elasticloadbalancing");
    reveal_strlit("elbv2");
    reveal_strlit("elasticloadbalancingv2");
    reveal_strlit("route53");
    reveal_strlit("apigateway");
    reveal_strlit("apigatewayv2");
    reveal_strlit("cloudfront");
    reveal_strlit("waf");
    reveal_strlit("wafv2");
    reveal_strlit("sns");
    reveal_strlit("sqs");
    reveal_strlit("eventbridge");
    reveal_strlit("events");
    reveal_strlit("kinesis");
    reveal_strlit("firehose");
    reveal_strlit("kinesisfirehose");
    reveal_strlit("codecommit");
    reveal_strlit("codebuild");
    let t = service_event_sources();
    assert(t[41].0 == "codedeploy"@ && t[41].1 == "codedeploy.amazonaws.com"@);
    assert(t[0].0 == "s3"@);
    assert(t[1].0 == "ec2"@);
    assert(t[2].0 == "lambda"@);
    assert(t[3].0 == "efs"@);
    assert(t[4].0 == "ecs"@);
    assert(t[5].0 == "eks"@);
    assert(t[6].0 == "batch"@);
    assert(t[7].0 == "rds"@);
    assert(t[8].0 == "dynamodb"@);
    assert(t[9].0 == "elasticache"@);
    assert(t[10].0 == "neptune"@);
    assert(t[11].0 == "redshift"@);
    assert(t[12].0 == "iam"@);
    assert(t[13].0 == "sts"@);
    assert(t[14].0 == "kms"@);
    assert(t[15].0 == "secretsmanager"@);
    assert(t[16].0 == "secrets"@);
    assert(t[17].0 == "ssm"@);
    assert(t[18].0 == "guardduty"@);
    assert(t[19].0 == "securityhub"@);
    assert(t[20].0 == "acm"@);
    assert(t[21].0 == "organizations"@);
    assert(t[22].0 == "elb"@);
    assert(t[23].0 == "elasticloadbalancing"@);
    assert(t[24].0 == "elbv2"@);
    assert(t[25].0 == "elasticloadbalancingv2"@);
    assert(t[26].0 == "route53"@);
    assert(t[27].0 == "apigateway"@);
    assert("apigateway"@[0] != "codedeploy"@[0]);
    assert(t[28].0 == "apigatewayv2"@);
    assert(t[29].0 == "cloudfront"@);
    assert("cloudfront"@[1] != "codedeploy"@[1]);
    assert(t[30].0 == "waf"@);
    assert(t[31].0 == "wafv2"@);
    assert(t[32].0 == "sns"@);
    assert(t[33].0 == "sqs"@);
    assert(t[34].0 == "eventbridge"@);
    assert(t[35].0 == "events"@);
    assert(t[36].0 == "kinesis"@);
    assert(t[37].0 == "firehose"@);
    assert(t[38].0 == "kinesisfirehose"@);
    assert(t[39].0 == "codecommit"@);
    assert("codecommit"@[4] != "codedeploy"@[4]);
    assert(t[40].0 == "codebuild"@);
    lemma_table_lookup_at(t, "codedeploy"@, 41);
}

#[verifier::spinoff_prover]
proof fn lemma_event_source_entry_42()
    ensures
        table_lookup(service_event_sources(), "codepipeline"@) == Some("codepipeline.amazonaws.com"@),
{
    reveal_strlit("codepipeline");
    reveal_strlit("codepipeline.amazonaws.com");
    reveal_strlit("s3");
    reveal_strlit("ec2");
    reveal_strlit("lambda");
    reveal_strlit("efs");
    reveal_strlit("ecs");
    reveal_strlit("eks");
    reveal_strlit("batch");
    reveal_strlit("rds");
    reveal_strlit("dynamodb");
    reveal_strlit("elasticache");
    reveal_strlit("neptune");
    reveal_strlit("redshift");
    reveal_strlit("iam");
    reveal_strlit("sts");
    reveal_strlit("kms");
    reveal_strlit("secretsmanager");
    reveal_strlit("secrets");
    reveal_strlit("ssm");
    reveal_strlit("guardduty");
    reveal_strlit("securityhub");
    reveal_strlit("acm");
    reveal_strlit("organizations");
    reveal_strlit("elb");
    reveal_strlit("elasticloadbalancing");
    reveal_strlit("elbv2");
    reveal_strlit("elasticloadbalancingv2");
    reveal_strlit("route53");
    reveal_strlit("apigateway");
    reveal_strlit("apigatewayv2");
    reveal_strlit("cloudfront");
    reveal_strlit("waf");
    reveal_strlit("wafv2");
    reveal_strlit("sns");
    reveal_strlit("sqs");
    reveal_strlit("eventbridge");
    reveal_strlit("events");
    reveal_strlit("kinesis");
    reveal_strlit("firehose");
    reveal_strlit("kinesisfirehose");
    reveal_strlit("codecommit");
    reveal_strlit("codebuild");
    reveal_strlit("codedeploy");
    let t = service_event_sources();
    assert(t[42].0 == "codepipeline"@ && t[42].1 == "codepipeline.amazonaws.com"@);
    assert(t[0].0 == "s3"@);
    assert(t[1].0 == "ec2"@);
    assert(t[2].0 == "lambda"@);
    assert(t[3].0 == "efs"@);
    assert(t[4].0 == "ecs"@);
    assert(t[5].0 == "eks"@);
    assert(t[6].0 == "batch"@);
    assert(t[7].0 == "rds"@);
    assert(t[8].0 == "dynamodb"@);
    assert(t[9].0 == "elasticache"@);
    assert(t[10].0 == "neptune"@);
    assert(t[11].0 == "redshift"@);
    assert(t[12].0 == "iam"@);
    assert(t[13].0 == "sts"@);
    assert(t[14].0 == "kms"@);
    assert(t[15].0 == "secretsmanager"@);
    assert(t[16].0 == "secrets"@);
    assert(t[17].0 == "ssm"@);
    assert(t[18].0 == "guardduty"@);
    assert(t[19].0 == "securityhub"@);
    assert(t[20].0 == "acm"@);
    assert(t[21].0 == "organizations"@);
    assert(t[22].0 == "elb"@);
    assert(t[23].0 == "elasticloadbalancing"@);
    assert(t[24].0 == "elbv2"@);
    assert(t[25].0 == "elasticloadbalancingv2"@);
    assert(t[26].0 == "route53"@);
    assert(t[27].0 == "apigateway"@);
    assert(t[28].0 == "apigatewayv2"@);
    assert("apigatewayv2"@[0] != "codepipeline"@[0]);
    assert(t[29].0 == "cloudfront"@);
    assert(t[30].0 == "waf"@);
    assert(t[31].0 == "wafv2"@);
    assert(t[32].0 == "sns"@);
    assert(t[33].0 == "sqs"@);
    assert(t[34].0 == "eventbridge"@);
    assert(t[35].0 == "events"@);
    assert(t[36].0 == "kinesis"@);
    assert(t[37].0 == "firehose"@);
    assert(t[38].0 == "kinesisfirehose"@);
    assert(t[39].0 == "codecommit"@);
    assert(t[40].0 == "codebuild"@);
    assert(t[41].0 == "codedeploy"@);
    lemma_table_lookup_at(t, "codepipeline"@, 42);
}

#[verifier::spinoff_prover]
proof fn lemma_event_source_entry_43()
    ensures
        table_lookup(service_event_sources(), "athena"@) == Some("athena.amazonaws.com"@),
{
    reveal_strlit("athena");
    reveal_strlit("athena.amazonaws.com");
    reveal_strlit("s3");
    reveal_strlit("ec2");
    reveal_strlit("lambda");
    reveal_strlit("efs");
    reveal_strlit("ecs");
    reveal_strlit("eks");
    reveal_strlit("batch");
    reveal_strlit("rds");
    reveal_strlit("dynamodb");
    reveal_strlit("elasticache");
    reveal_strlit("neptune");
    reveal_strlit("redshift");
    reveal_strlit("iam");
    reveal_strlit("sts");
    reveal_strlit("kms");
    reveal_strlit("secretsmanager");
    reveal_strlit("secrets");
    reveal_strlit("ssm");
    reveal_strlit("guardduty");
    reveal_strlit("securityhub");
    reveal_strlit("acm");
    reveal_strlit("organizations");
    reveal_strlit("elb");
    reveal_strlit("elasticloadbalancing");
    reveal_strlit("elbv2");
    reveal_strlit("elasticloadbalancingv2");
    reveal_strlit("route53");
    reveal_strlit("apigateway");
    reveal_strlit("apigatewayv2");
    reveal_strlit("cloudfront");
    reveal_strlit("waf");
    reveal_strlit("wafv2");
    reveal_strlit("sns");
    reveal_strlit("sqs");
    reveal_strlit("eventbridge");
    reveal_strlit("events");
    reveal_strlit("kinesis");
    reveal_strlit("firehose");
    reveal_strlit("kinesisfirehose");
    reveal_strlit("codecommit");
    reveal_strlit("codebuild");
    reveal_strlit("codedeploy");
    reveal_strlit("codepipeline");
    let t = service_event_sources();
    assert(t[43].0 == "athena"@ && t[43].1 == "athena.amazonaws.com"@);
    assert(t[0].0 == "s3"@);
    assert(t[1].0 == "ec2"@);
    assert(t[2].0 == "lambda"@);
    assert("lambda"@[0] != "athena"@[0]);
    assert(t[3].0 == "efs"@);
    assert(t[4].0 == "ecs"@);
    assert(t[5].0 == "eks"@);
    assert(t[6].0 == "batch"@);
    assert(t[7].0 == "rds"@);
    assert(t[8].0 == "dynamodb"@);
    assert(t[9].0 == "elasticache"@);
    assert(t[10].0 == "neptune"@);
    assert(t[11].0 == "redshift"@);
    assert(t[12].0 == "iam"@);
    assert(t[13].0 == "sts"@);
    assert(t[14].0 == "kms"@);
    assert(t[15].0 == "secretsmanager"@);
    assert(t[16].0 == "secrets"@);
    assert(t[17].0 == "ssm"@);
    assert(t[18].0 == "guardduty"@);
    assert(t[19].0 == "securityhub"@);
    assert(t[20].0 == "acm"@);
    assert(t[21].0 == "organizations"@);
    assert(t[22].0 == "elb"@);
    assert(t[23].0 == "elasticloadbalancing"@);
    assert(t[24].0 == "elbv2"@);
    assert(t[25].0 == "elasticloadbalancingv2"@);
    assert(t[26].0 == "route53"@);
    assert(t[27].0 == "apigateway"@);
    assert(t[28].0 == "apigatewayv2"@);
    assert(t[29].0 == "cloudfront"@);
    assert(t[30].0 == "waf"@);
    assert(t[31].0 == "wafv2"@);
    assert(t[32].0 == "sns"@);
    assert(t[33].0 == "sqs"@);
    assert(t[34].0 == "eventbridge"@);
    assert(t[35].0 == "events"@);
    assert("events"@[0] != "athena"@[0]);
    assert(t[36].0 == "kinesis"@);
    assert(t[37].0 == "firehose"@);
    assert(t[38].0 == "kinesisfirehose"@);
    assert(t[39].0 == "codecommit"@);
    assert(t[40].0 == "codebuild"@);
    assert(t[41].0 == "codedeploy"@);
    assert(t[42].0 == "codepipeline"@);
    lemma_table_lookup_at(t, "athena"@, 43);
}

#[verifier::spinoff_prover]
proof fn lemma_event_source_entry_44()
    ensures
        table_lookup(service_event_sources(), "glue"@) == Some("glue.amazonaws.com"@),
{
    reveal_strlit("glue");
    reveal_strlit("glue.amazonaws.com");
    reveal_strlit("s3");
    reveal_strlit("ec2");
    reveal_strlit("lambda");
    reveal_strlit("efs");
    reveal_strlit("ecs");
    reveal_strlit("eks");
    reveal_strlit("batch");
    reveal_strlit("rds");
    reveal_strlit("dynamodb");
    reveal_strlit("elasticache");
    reveal_strlit("neptune");
    reveal_strlit("redshift");
    reveal_strlit("iam");
    reveal_strlit("sts");
    reveal_strlit("kms");
    reveal_strlit("secretsmanager");
    reveal_strlit("secrets");
    reveal_strlit("ssm");
    reveal_strlit("guardduty");
    reveal_strlit("securityhub");
    reveal_strlit("acm");
    reveal_strlit("organizations");
    reveal_strlit("elb");
    reveal_strlit("elasticloadbalancing");
    reveal_strlit("elbv2");
    reveal_strlit("elasticloadbalancingv2");
    reveal_strlit("route53");
    reveal_strlit("apigateway");
    reveal_strlit("apigatewayv2");
    reveal_strlit("cloudfront");
    reveal_strlit("waf");
    reveal_strlit("wafv2");
    reveal_strlit("sns");
    reveal_strlit("sqs");
    reveal_strlit("eventbridge");
    reveal_strlit("events");
    reveal_strlit("kinesis");
    reveal_strlit("firehose");
    reveal_strlit("kinesisfirehose");
    reveal_strlit("codecommit");
    reveal_strlit("codebuild");
    reveal_strlit("codedeploy");
    reveal_strlit("codepipeline");
    reveal_strlit("athena");
    let t = service_event_sources();
    assert(t[44].0 == "glue"@ && t[44].1 == "glue.amazonaws.com"@);
    assert(t[0].0 == "s3"@);
    assert(t[1].0 == "ec2"@);
    assert(t[2].0 == "lambda"@);
    assert(t[3].0 == "efs"@);
    assert(t[4].0 == "ecs"@);
    assert(t[5].0 == "eks"@);
    assert(t[6].0 == "batch"@);
    assert(t[7].0 == "rds"@);
    assert(t[8].0 == "dynamodb"@);
    assert(t[9].0 == "elasticache"@);
    assert(t[10].0 == "neptune"@);
    assert(t[11].0 == "redshift"@);
    assert(t[12].0 == "iam"@);
    assert(t[13].0 == "sts"@);
    assert(t[14].0 == "kms"@);
    assert(t[15].0 == "secretsmanager"@);
    assert(t[16].0 == "secrets"@);
    assert(t[17].0 == "ssm"@);
    assert(t[18].0 == "guardduty"@);
    assert(t[19].0 == "securityhub"@);
    assert(t[20].0 == "acm"@);
    assert(t[21].0 == "organizations"@);
    assert(t[22].0 == "elb"@);
    assert(t[23].0 == "elasticloadbalancing"@);
    assert(t[24].0 == "elbv2"@);
    assert(t[25].0 == "elasticloadbalancingv2"@);
    assert(t[26].0 == "route53"@);
    assert(t[27].0 == "apigateway"@);
    assert(t[28].0 == "apigatewayv2"@);
    assert(t[29].0 == "cloudfront"@);
    assert(t[30].0 == "waf"@);
    assert(t[31].0 == "wafv2"@);
    assert(t[32].0 == "sns"@);
    assert(t[33].0 == "sqs"@);
    assert(t[34].0 == "eventbridge"@);
    assert(t[35].0 == "events"@);
    assert(t[36].0 == "kinesis"@);
    assert(t[37].0 == "firehose"@);
    assert(t[38].0 == "kinesisfirehose"@);
    assert(t[39].0 == "codecommit"@);
    assert(t[40].0 == "codebuild"@);
    assert(t[41].0 == "codedeploy"@);
    assert(t[42].0 == "codepipeline"@);
    assert(t[43].0 == "athena"@);
    lemma_table_lookup_at(t, "glue"@, 44);
}

#[verifier::spinoff_prover]
proof fn lemma_event_source_entry_45()
    ensures
        table_lookup(service_event_sources(), "emr"@) == Some("elasticmapreduce.amazonaws.com"@),
{
    reveal_strlit("emr");
    reveal_strlit("elasticmapreduce.amazonaws.com");
    reveal_strlit("s3");
    reveal_strlit("ec2");
    reveal_strlit("lambda");
    reveal_strlit("efs");
    reveal_strlit("ecs");
    reveal_strlit("eks");
    reveal_strlit("batch");
    reveal_strlit("rds");
    reveal_strlit("dynamodb");
    reveal_strlit("elasticache");
    reveal_strlit("neptune");
    reveal_strlit("redshift");
    reveal_strlit("iam");
    reveal_strlit("sts");
    reveal_strlit("kms");
    reveal_strlit("secretsmanager");
    reveal_strlit("secrets");
    reveal_strlit("ssm");
    reveal_strlit("guardduty");
    reveal_strlit("securityhub");
    reveal_strlit("acm");
    reveal_strlit("organizations");
    reveal_strlit("elb");
    reveal_strlit("elasticloadbalancing");
    reveal_strlit("elbv2");
    reveal_strlit("elasticloadbalancingv2");
    reveal_strlit("route53");
    reveal_strlit("apigateway");
    reveal_strlit("apigatewayv2");
    reveal_strlit("cloudfront");
    reveal_strlit("waf");
    reveal_strlit("wafv2");
    reveal_strlit("sns");
    reveal_strlit("sqs");
    reveal_strlit("eventbridge");
    reveal_strlit("events");
    reveal_strlit("kinesis");
    reveal_strlit("firehose");
    reveal_strlit("kinesisfirehose");
    reveal_strlit("codecommit");
    reveal_strlit("codebuild");
    reveal_strlit("codedeploy");
    reveal_strlit("codepipeline");
    reveal_strlit("athena");
    reveal_strlit("glue");
    let t = service_event_sources();
    assert(t[45].0 == "emr"@ && t[45].1 == "elasticmapreduce.amazonaws.com"@);
    assert(t[0].0 == "s3"@);
    assert(t[1].0 == "ec2"@);
    assert("ec2"@[1] != "emr"@[1]);
    assert(t[2].0 == "lambda"@);
    assert(t[3].0 == "efs"@);
    assert("efs"@[1] != "emr"@[1]);
    assert(t[4].0 == "ecs"@);
    assert("ecs"@[1] != "emr"@[1]);
    assert(t[5].0 == "eks"@);
    assert("eks"@[1] != "emr"@[1]);
    assert(t[6].0 == "batch"@);
    assert(t[7].0 == "rds"@);
    assert("rds"@[0] != "emr"@[0]);
    assert(t[8].0 == "dynamodb"@);
    assert(t[9].0 == "elasticache"@);
    assert(t[10].0 == "neptune"@);
    assert(t[11].0 == "redshift"@);
    assert(t[12].0 == "iam"@);
    assert("iam"@[0] != "emr"@[0]);
    assert(t[13].0 == "sts"@);
    assert("sts"@[0] != "emr"@[0]);
    assert(t[14].0 == "kms"@);
    assert("kms"@[0] != "emr"@[0]);
    assert(t[15].0 == "secretsmanager"@);
    assert(t[16].0 == "secrets"@);
    assert(t[17].0 == "ssm"@);
    assert("ssm"@[0] != "emr"@[0]);
    assert(t[18].0 == "guardduty"@);
    assert(t[19].0 == "securityhub"@);
    assert(t[20].0 == "acm"@);
    assert("acm"@[0] != "emr"@[0]);
    assert(t[21].0 == "organizations"@);
    assert(t[22].0 == "elb"@);
    assert("elb"@[1] != "emr"@[1]);
    assert(t[23].0 == "elasticloadbalancing"@);
    assert(t[24].0 == "elbv2"@);
    assert(t[25].0 == "elasticloadbalancingv2"@);
    assert(t[26].0 == "route53"@);
    assert(t[27].0 == "apigateway"@);
    assert(t[28].0 == "apigatewayv2"@);
    assert(t[29].0 == "cloudfront"@);
    assert(t[30].0 == "waf"@);
    assert("waf"@[0] != "emr"@[0]);
    assert(t[31].0 == "wafv2"@);
    assert(t[32].0 == "sns"@);
    assert("sns"@[0] != "emr"@[0]);
    assert(t[33].0 == "sqs"@);
    assert("sqs"@[0] != "emr"@[0]);
    assert(t[34].0 == "eventbridge"@);
    assert(t[35].0 == "events"@);
    assert(t[36].0 == "kinesis"@);
    assert(t[37].0 == "firehose"@);
    assert(t[38].0 == "kinesisfirehose"@);
    assert(t[39].0 == "codecommit"@);
    assert(t[40].0 == "codebuild"@);
    assert(t[41].0 == "codedeploy"@);
    assert(t[42].0 == "codepipeline"@);
    assert(t[43].0 == "athena"@);
    assert(t[44].0 == "glue"@);
    lemma_table_lookup_at(t, "emr"@, 45);
}

#[verifier::spinoff_prover]
proof fn lemma_event_source_entry_46()
    ensures
        table_lookup(service_event_sources(), "sagemaker"@) == Some("sagemaker.amazonaws.com"@),
{
    reveal_strlit("sagemaker");
    reveal_strlit("sagemaker.amazonaws.com");
    reveal_strlit("s3");
    reveal_strlit("ec2");
    reveal_strlit("lambda");
    reveal_strlit("efs");
    reveal_strlit("ecs");
    reveal_strlit("eks");
    reveal_strlit("batch");
    reveal_strlit("rds");
    reveal_strlit("dynamodb");
    reveal_strlit("elasticache");
    reveal_strlit("neptune");
    reveal_strlit("redshift");
    reveal_strlit("iam");
    reveal_strlit("sts");
    reveal_strlit("kms");
    reveal_strlit("secretsmanager");
    reveal_strlit("secrets");
    reveal_strlit("ssm");
    reveal_strlit("guardduty");
    reveal_strlit("securityhub");
    reveal_strlit("acm");
    reveal_strlit("organizations");
    reveal_strlit("elb");
    reveal_strlit("elasticloadbalancing");
    reveal_strlit("elbv2");
    reveal_strlit("elasticloadbalancingv2");
    reveal_strlit("route53");
    reveal_strlit("apigateway");
    reveal_strlit("apigatewayv2");
    reveal_strlit("cloudfront");
    reveal_strlit("waf");
    reveal_strlit("wafv2");
    reveal_strlit("sns");
    reveal_strlit("sqs");
    reveal_strlit("eventbridge");
    reveal_strlit("events");
    reveal_strlit("kinesis");
    reveal_strlit("firehose");
    reveal_strlit("kinesisfirehose");
    reveal_strlit("codecommit");
    reveal_strlit("codebuild");
    reveal_strlit("codedeploy");
    reveal_strlit("codepipeline");
    reveal_strlit("athena");
    reveal_strlit("glue");
    reveal_strlit("emr");
    let t = service_event_sources();
    assert(t[46].0 == "sagemaker"@ && t[46].1 == "sagemaker.amazonaws.com"@);
    assert(t[0].0 == "s3"@);
    assert(t[1].0 == "ec2"@);
    assert(t[2].0 == "lambda"@);
    assert(t[3].0 == "efs"@);
    assert(t[4].0 == "ecs"@);
    assert(t[5].0 == "eks"@);
    assert(t[6].0 == "batch"@);
    assert(t[7].0 == "rds"@);
    assert(t[8].0 == "dynamodb"@);
    assert(t[9].0 == "elasticache"@);
    assert(t[10].0 == "neptune"@);
    assert(t[11].0 == "redshift"@);
    assert(t[12].0 == "iam"@);
    assert(t[13].0 == "sts"@);
    assert(t[14].0 == "kms"@);
    assert(t[15].0 == "secretsmanager"@);
    assert(t[16].0 == "secrets"@);
    assert(t[17].0 == "ssm"@);
    assert(t[18].0 == "guardduty"@);
    assert("guardduty"@[0] != "sagemaker"@[0]);
    assert(t[19].0 == "securityhub"@);
    assert(t[20].0 == "acm"@);
    assert(t[21].0 == "organizations"@);
    assert(t[22].0 == "elb"@);
    assert(t[23].0 == "elasticloadbalancing"@);
    assert(t[24].0 == "elbv2"@);
    assert(t[25].0 == "elasticloadbalancingv2"@);
    assert(t[26].0 == "route53"@);
    assert(t[27].0 == "apigateway"@);
    assert(t[28].0 == "apigatewayv2"@);
    assert(t[29].0 == "cloudfront"@);
    assert(t[30].0 == "waf"@);
    assert(t[31].0 == "wafv2"@);
    assert(t[32].0 == "sns"@);
    assert(t[33].0 == "sqs"@);
    assert(t[34].0 == "eventbridge"@);
    assert(t[35].0 == "events"@);
    assert(t[36].0 == "kinesis"@);
    assert(t[37].0 == "firehose"@);
    assert(t[38].0 == "kinesisfirehose"@);
    assert(t[39].0 == "codecommit"@);
    assert(t[40].0 == "codebuild"@);
    assert("codebuild"@[0] != "sagemaker"@[0]);
    assert(t[41].0 == "codedeploy"@);
    assert(t[42].0 == "codepipeline"@);
    assert(t[43].0 == "athena"@);
    assert(t[44].0 == "glue"@);
    assert(t[45].0 == "emr"@);
    lemma_table_lookup_at(t, "sagemaker"@, 46);
}

#[verifier::spinoff_prover]
proof fn lemma_event_source_entry_47()
    ensures
        table_lookup(service_event_sources(), "opensearch"@) == Some("opensearch.amazonaws.com"@),
{
    reveal_strlit("opensearch");
    reveal_strlit("opensearch.amazonaws.com");
    reveal_strlit("s3");
    reveal_strlit("ec2");
    reveal_strlit("lambda");
    reveal_strlit("efs");
    reveal_strlit("ecs");
    reveal_strlit("eks");
    reveal_strlit("batch");
    reveal_strlit("rds");
    reveal_strlit("dynamodb");
    reveal_strlit("elasticache");
    reveal_strlit("neptune");
    reveal_strlit("redshift");
    reveal_strlit("iam");
    reveal_strlit("sts");
    reveal_strlit("kms");
    reveal_strlit("secretsmanager");
    reveal_strlit("secrets");
    reveal_strlit("ssm");
    reveal_strlit("guardduty");
    reveal_strlit("securityhub");
    reveal_strlit("acm");
    reveal_strlit("organizations");
    reveal_strlit("elb");
    reveal_strlit("elasticloadbalancing");
    reveal_strlit("elbv2");
    reveal_strlit("elasticloadbalancingv2");
    reveal_strlit("route53");
    reveal_strlit("apigateway");
    reveal_strlit("apigatewayv2");
    reveal_strlit("cloudfront");
    reveal_strlit("waf");
    reveal_strlit("wafv2");
    reveal_strlit("sns");
    reveal_strlit("sqs");
    reveal_strlit("eventbridge");
    reveal_strlit("events");
    reveal_strlit("kinesis");
    reveal_strlit("firehose");
    reveal_strlit("kinesisfirehose");
    reveal_strlit("codecommit");
    reveal_strlit("codebuild");
    reveal_strlit("codedeploy");
    reveal_strlit("codepipeline");
    reveal_strlit("athena");
    reveal_strlit("glue");
    reveal_strlit("emr");
    reveal_strlit("sagemaker");
    let t = service_event_sources();
    assert(t[47].0 == "opensearch"@ && t[47].1 == "opensearch.amazonaws.com"@);
    assert(t[0].0 == "s3"@);
    assert(t[1].0 == "ec2"@);
    assert(t[2].0 == "lambda"@);
    assert(t[3].0 == "efs"@);
    assert(t[4].0 == "ecs"@);
    assert(t[5].0 == "eks"@);
    assert(t[6].0 == "batch"@);
    assert(t[7].0 == "rds"@);
    assert(t[8].0 == "dynamodb"@);
    assert(t[9].0 == "elasticache"@);
    assert(t[10].0 == "neptune"@);
    assert(t[11].0 == "redshift"@);
    assert(t[12].0 == "iam"@);
    assert(t[13].0 == "sts"@);
    assert(t[14].0 == "kms"@);
    assert(t[15].0 == "secretsmanager"@);
    assert(t[16].0 == "secrets"@);
    assert(t[17].0 == "ssm"@);
    assert(t[18].0 == "guardduty"@);
    assert(t[19].0 == "securityhub"@);
    assert(t[20].0 == "acm"@);
    assert(t[21].0 == "organizations"@);
    assert(t[22].0 == "elb"@);
    assert(t[23].0 == "elasticloadbalancing"@);
    assert(t[24].0 == "elbv2"@);
    assert(t[25].0 == "elasticloadbalancingv2"@);
    assert(t[26].0 == "route53"@);
    assert(t[27].0 == "apigateway"@);
    assert("apigateway"@[0] != "opensearch"@[0]);
    assert(t[28].0 == "apigatewayv2"@);
    assert(t[29].0 == "cloudfront"@);
    assert("cloudfront"@[0] != "opensearch"@[0]);
    assert(t[30].0 == "waf"@);
    assert(t[31].0 == "wafv2"@);
    assert(t[32].0 == "sns"@);
    assert(t[33].0 == "sqs"@);
    assert(t[34].0 == "eventbridge"@);
    assert(t[35].0 == "events"@);
    assert(t[36].0 == "kinesis"@);
    assert(t[37].0 == "firehose"@);
    assert(t[38].0 == "kinesisfirehose"@);
    assert(t[39].0 == "codecommit"@);
    assert("codecommit"@[0] != "opensearch"@[0]);
    assert(t[40].0 == "codebuild"@);
    assert(t[41].0 == "codedeploy"@);
    assert("codedeploy"@[0] != "opensearch"@[0]);
    assert(t[42].0 == "codepipeline"@);
    assert(t[43].0 == "athena"@);
    assert(t[44].0 == "glue"@);
    assert(t[45].0 == "emr"@);
    assert(t[46].0 == "sagemaker"@);
    lemma_table_lookup_at(t, "opensearch"@, 47);
}

#[verifier::spinoff_prover]
proof fn lemma_event_source_entry_48()
    ensures
        table_lookup(service_event_sources(), "elasticsearch"@) == Some("opensearch.amazonaws.com"@),
{
    reveal_strlit("elasticsearch");
    reveal_strlit("opensearch.amazonaws.com");
    reveal_strlit("s3");
    reveal_strlit("ec2");
    reveal_strlit("lambda");
    reveal_strlit("efs");
    reveal_strlit("ecs");
    reveal_strlit("eks");
    reveal_strlit("batch");
    reveal_strlit("rds");
    reveal_strlit("dynamodb");
    reveal_strlit("elasticache");
    reveal_strlit("neptune");
    reveal_strlit("redshift");
    reveal_strlit("iam");
    reveal_strlit("sts");
    reveal_strlit("kms");
    reveal_strlit("secretsmanager");
    reveal_strlit("secrets");
    reveal_strlit("ssm");
    reveal_strlit("guardduty");
    reveal_strlit("securityhub");
    reveal_strlit("acm");
    reveal_strlit("organizations");
    reveal_strlit("elb");
    reveal_strlit("elasticloadbalancing");
    reveal_strlit("elbv2");
    reveal_strlit("elasticloadbalancingv2");
    reveal_strlit("route53");
    reveal_strlit("apigateway");
    reveal_strlit("apigatewayv2");
    reveal_strlit("cloudfront");
    reveal_strlit("waf");
    reveal_strlit("wafv2");
    reveal_strlit("sns");
    reveal_strlit("sqs");
    reveal_strlit("eventbridge");
    reveal_strlit("events");
    reveal_strlit("kinesis");
    reveal_strlit("firehose");
    reveal_strlit("kinesisfirehose");
    reveal_strlit("codecommit");
    reveal_strlit("codebuild");
    reveal_strlit("codedeploy");
    reveal_strlit("codepipeline");
    reveal_strlit("athena");
    reveal_strlit("glue");
    reveal_strlit("emr");
    reveal_strlit("sagemaker");
    reveal_strlit("opensearch");
    let t = service_event_sources();
    assert(t[48].0 == "elasticsearch"@ && t[48].1 == "opensearch.amazonaws.com"@);
    assert(t[0].0 == "s3"@);
    assert(t[1].0 == "ec2"@);
    assert(t[2].0 == "lambda"@);
    assert(t[3].0 == "efs"@);
    assert(t[4].0 == "ecs"@);
    assert(t[5].0 == "eks"@);
    assert(t[6].0 == "batch"@);
    assert(t[7].0 == "rds"@);
    assert(t[8].0 == "dynamodb"@);
    assert(t[9].0 == "elasticache"@);
    assert(t[10].0 == "neptune"@);
    assert(t[11].0 == "redshift"@);
    assert(t[12].0 == "iam"@);
    assert(t[13].0 == "sts"@);
    assert(t[14].0 == "kms"@);
    assert(t[15].0 == "secretsmanager"@);
    assert(t[16].0 == "secrets"@);
    assert(t[17].0 == "ssm"@);
    assert(t[18].0 == "guardduty"@);
    assert(t[19].0 == "securityhub"@);
    assert(t[20].0 == "acm"@);
    assert(t[21].0 == "organizations"@);
    assert("organizations"@[0] != "elasticsearch"@[0]);
    assert(t[22].0 == "elb"@);
    assert(t[23].0 == "elasticloadbalancing"@);
    assert(t[24].0 == "elbv2"@);
    assert(t[25].0 == "elasticloadbalancingv2"@);
    assert(t[26].0 == "route53"@);
    assert(t[27].0 == "apigateway"@);
    assert(t[28].0 == "apigatewayv2"@);
    assert(t[29].0 == "cloudfront"@);
    assert(t[30].0 == "waf"@);
    assert(t[31].0 == "wafv2"@);
    assert(t[32].0 == "sns"@);
    assert(t[33].0 == "sqs"@);
    assert(t[34].0 == "eventbridge"@);
    assert(t[35].0 == "events"@);
    assert(t[36].0 == "kinesis"@);
    assert(t[37].0 == "firehose"@);
    assert(t[38].0 == "kinesisfirehose"@);
    assert(t[39].0 == "codecommit"@);
    assert(t[40].0 == "codebuild"@);
    assert(t[41].0 == "codedeploy"@);
    assert(t[42].0 == "codepipeline"@);
    assert(t[43].0 == "athena"@);
    assert(t[44].0 == "glue"@);
    assert(t[45].0 == "emr"@);
    assert(t[46].0 == "sagemaker"@);
    assert(t[47].0 == "opensearch"@);
    lemma_table_lookup_at(t, "elasticsearch"@, 48);
}

#[verifier::spinoff_prover]
proof fn lemma_event_source_entry_49()
    ensures
        table_lookup(service_event_sources(), "quicksight"@) == Some("quicksight.amazonaws.com"@),
{
    reveal_strlit("quicksight");
    reveal_strlit("quicksight.amazonaws.com");
    reveal_strlit("s3");
    reveal_strlit("ec2");
    reveal_strlit("lambda");
    reveal_strlit("efs");
    reveal_strlit("ecs");
    reveal_strlit("eks");
    reveal_strlit("batch");
    reveal_strlit("rds");
    reveal_strlit("dynamodb");
    reveal_strlit("elasticache");
    reveal_strlit("neptune");
    reveal_strlit("redshift");
    reveal_strlit("iam");
    reveal_strlit("sts");
    reveal_strlit("kms");
    reveal_strlit("secretsmanager");
    reveal_strlit("secrets");
    reveal_strlit("ssm");
    reveal_strlit("guardduty");
    reveal_strlit("securityhub");
    reveal_strlit("acm");
    reveal_strlit("organizations");
    reveal_strlit("elb");
    reveal_strlit("elasticloadbalancing");
    reveal_strlit("elbv2");
    reveal_strlit("elasticloadbalancingv2");
    reveal_strlit("route53");
    reveal_strlit("apigateway");
    reveal_strlit("apigatewayv2");
    reveal_strlit("cloudfront");
    reveal_strlit("waf");
    reveal_strlit("wafv2");
    reveal_strlit("sns");
    reveal_strlit("sqs");
    reveal_strlit("eventbridge");
    reveal_strlit("events");
    reveal_strlit("kinesis");
    reveal_strlit("firehose");
    reveal_strlit("kinesisfirehose");
    reveal_strlit("codecommit");
    reveal_strlit("codebuild");
    reveal_strlit("codedeploy");
    reveal_strlit("codepipeline");
    reveal_strlit("athena");
    reveal_strlit("glue");
    reveal_strlit("emr");
    reveal_strlit("sagemaker");
    reveal_strlit("opensearch");
    reveal_strlit("elasticsearch");
    let t = service_event_sources();
    assert(t[49].0 == "quicksight"@ && t[49].1 == "quicksight.amazonaws.com"@);
    assert(t[0].0 == "s3"@);
    assert(t[1].0 == "ec2"@);
    assert(t[2].0 == "lambda"@);
    assert(t[3].0 == "efs"@);
    assert(t[4].0 == "ecs"@);
    assert(t[5].0 == "eks"@);
    assert(t[6].0 == "batch"@);
    assert(t[7].0 == "rds"@);
    assert(t[8].0 == "dynamodb"@);
    assert(t[9].0 == "elasticache"@);
    assert(t[10].0 == "neptune"@);
    assert(t[11].0 == "redshift"@);
    assert(t[12].0 == "iam"@);
    assert(t[13].0 == "sts"@);
    assert(t[14].0 == "kms"@);
    assert(t[15].0 == "secretsmanager"@);
    assert(t[16].0 == "secrets"@);
    assert(t[17].0 == "ssm"@);
    assert(t[18].0 == "guardduty"@);
    assert(t[19].0 == "securityhub"@);
    assert(t[20].0 == "acm"@);
    assert(t[21].0 == "organizations"@);
    assert(t[22].0 == "elb"@);
    assert(t[23].0 == "elasticloadbalancing"@);
    assert(t[24].0 == "elbv2"@);
    assert(t[25].0 == "elasticloadbalancingv2"@);
    assert(t[26].0 == "route53"@);
    assert(t[27].0 == "apigateway"@);
    assert("apigateway"@[0] != "quicksight"@[0]);
    assert(t[28].0 == "apigatewayv2"@);
    assert(t[29].0 == "cloudfront"@);
    assert("cloudfront"@[0] != "quicksight"@[0]);
    assert(t[30].0 == "waf"@);
    assert(t[31].0 == "wafv2"@);
    assert(t[32].0 == "sns"@);
    assert(t[33].0 == "sqs"@);
    assert(t[34].0 == "eventbridge"@);
    assert(t[35].0 == "events"@);
    assert(t[36].0 == "kinesis"@);
    assert(t[37].0 == "firehose"@);
    assert(t[38].0 == "kinesisfirehose"@);
    assert(t[39].0 == "codecommit"@);
    assert("codecommit"@[0] != "quicksight"@[0]);
    assert(t[40].0 == "codebuild"@);
    assert(t[41].0 == "codedeploy"@);
    assert("codedeploy"@[0] != "quicksight"@[0]);
    assert(t[42].0 == "codepipeline"@);
    assert(t[43].0 == "athena"@);
    assert(t[44].0 == "glue"@);
    assert(t[45].0 == "emr"@);
    assert(t[46].0 == "sagemaker"@);
    assert(t[47].0 == "opensearch"@);
    assert("opensearch"@[0] != "quicksight"@[0]);
    assert(t[48].0 == "elasticsearch"@);
    lemma_table_lookup_at(t, "quicksight"@, 49);
}

#[verifier::spinoff_prover]
proof fn lemma_event_source_entry_50()
    ensures
        table_lookup(service_event_sources(), "stepfunctions"@) == Some("states.amazonaws.com"@),
{
    reveal_strlit("stepfunctions");
    reveal_strlit("states.amazonaws.com");
    reveal_strlit("s3");
    reveal_strlit("ec2");
    reveal_strlit("lambda");
    reveal_strlit("efs");
    reveal_strlit("ecs");
    reveal_strlit("eks");
    reveal_strlit("batch");
    reveal_strlit("rds");
    reveal_strlit("dynamodb");
    reveal_strlit("elasticache");
    reveal_strlit("neptune");
    reveal_strlit("redshift");
    reveal_strlit("iam");
    reveal_strlit("sts");
    reveal_strlit("kms");
    reveal_strlit("secretsmanager");
    reveal_strlit("secrets");
    reveal_strlit("ssm");
    reveal_strlit("guardduty");
    reveal_strlit("securityhub");
    reveal_strlit("acm");
    reveal_strlit("organizations");
    reveal_strlit("elb");
    reveal_strlit("elasticloadbalancing");
    reveal_strlit("elbv2");
    reveal_strlit("elasticloadbalancingv2");
    reveal_strlit("route53");
    reveal_strlit("apigateway");
    reveal_strlit("apigatewayv2");
    reveal_strlit("cloudfront");
    reveal_strlit("waf");
    reveal_strlit("wafv2");
    reveal_strlit("sns");
    reveal_strlit("sqs");
    reveal_strlit("eventbridge");
    reveal_strlit("events");
    reveal_strlit("kinesis");
    reveal_strlit("firehose");
    reveal_strlit("kinesisfirehose");
    reveal_strlit("codecommit");
    reveal_strlit("codebuild");
    reveal_strlit("codedeploy");
    reveal_strlit("codepipeline");
    reveal_strlit("athena");
    reveal_strlit("glue");
    reveal_strlit("emr");
    reveal_strlit("sagemaker");
    reveal_strlit("opensearch");
    reveal_strlit("elasticsearch");
    reveal_strlit("quicksight");
    let t = service_event_sources();
    assert(t[50].0 == "stepfunctions"@ && t[50].1 == "states.amazonaws.com"@);
    assert(t[0].0 == "s3"@);
    assert(t[1].0 == "ec2"@);
    assert(t[2].0 == "lambda"@);
    assert(t[3].0 == "efs"@);
    assert(t[4].0 == "ecs"@);
    assert(t[5].0 == "eks"@);
    assert(t[6].0 == "batch"@);
    assert(t[7].0 == "rds"@);
    assert(t[8].0 == "dynamodb"@);
    assert(t[9].0 == "elasticache"@);
    assert(t[10].0 == "neptune"@);
    assert(t[11].0 == "redshift"@);
    assert(t[12].0 == "iam"@);
    assert(t[13].0 == "sts"@);
    assert(t[14].0 == "kms"@);
    assert(t[15].0 == "secretsmanager"@);
    assert(t[16].0 == "secrets"@);
    assert(t[17].0 == "ssm"@);
    assert(t[18].0 == "guardduty"@);
    assert(t[19].0 == "securityhub"@);
    assert(t[20].0 == "acm"@);
    assert(t[21].0 == "organizations"@);
    assert("organizations"@[0] != "stepfunctions"@[0]);
    assert(t[22].0 == "elb"@);
    assert(t[23].0 == "elasticloadbalancing"@);
    assert(t[24].0 == "elbv2"@);
    assert(t[25].0 == "elasticloadbalancingv2"@);
    assert(t[26].0 == "route53"@);
    assert(t[27].0 == "apigateway"@);
    assert(t[28].0 == "apigatewayv2"@);
    assert(t[29].0 == "cloudfront"@);
    assert(t[30].0 == "waf"@);
    assert(t[31].0 == "wafv2"@);
    assert(t[32].0 == "sns"@);
    assert(t[33].0 == "sqs"@);
    assert(t[34].0 == "eventbridge"@);
    assert(t[35].0 == "events"@);
    assert(t[36].0 == "kinesis"@);
    assert(t[37].0 == "firehose"@);
    assert(t[38].0 == "kinesisfirehose"@);
    assert(t[39].0 == "codecommit"@);
    assert(t[40].0 == "codebuild"@);
    assert(t[41].0 == "codedeploy"@);
    assert(t[42].0 == "codepipeline"@);
    assert(t[43].0 == "athena"@);
    assert(t[44].0 == "glue"@);
    assert(t[45].0 == "emr"@);
    assert(t[46].0 == "sagemaker"@);
    assert(t[47].0 == "opensearch"@);
    assert(t[48].0 == "elasticsearch"@);
    assert("elasticsearch"@[0] != "stepfunctions"@[0]);
    assert(t[49].0 == "quicksight"@);
    lemma_table_lookup_at(t, "stepfunctions"@, 50);
}

#[verifier::spinoff_prover]
proof fn lemma_event_source_entry_51()
    ensures
        table_lookup(service_event_sources(), "states"@) == Some("states.amazonaws.com"@),
{
    reveal_strlit("states");
    reveal_strlit("states.amazonaws.com");
    reveal_strlit("s3");
    reveal_strlit("ec2");
    reveal_strlit("lambda");
    reveal_strlit("efs");
    reveal_strlit("ecs");
    reveal_strlit("eks");
    reveal_strlit("batch");
    reveal_strlit("rds");
    reveal_strlit("dynamodb");
    reveal_strlit("elasticache");
    reveal_strlit("neptune");
    reveal_strlit("redshift");
    reveal_strlit("iam");
    reveal_strlit("sts");
    reveal_strlit("kms");
    reveal_strlit("secretsmanager");
    reveal_strlit("secrets");
    reveal_strlit("ssm");
    reveal_strlit("guardduty");
    reveal_strlit("securityhub");
    reveal_strlit("acm");
    reveal_strlit("organizations");
    reveal_strlit("elb");
    reveal_strlit("elasticloadbalancing");
    reveal_strlit("elbv2");
    reveal_strlit("elasticloadbalancingv2");
    reveal_strlit("route53");
    reveal_strlit("apigateway");
    reveal_strlit("apigatewayv2");
    reveal_strlit("cloudfront");
    reveal_strlit("waf");
    reveal_strlit("wafv2");
    reveal_strlit("sns");
    reveal_strlit("sqs");
    reveal_strlit("eventbridge");
    reveal_strlit("events");
    reveal_strlit("kinesis");
    reveal_strlit("firehose");
    reveal_strlit("kinesisfirehose");
    reveal_strlit("codecommit");
    reveal_strlit("codebuild");
    reveal_strlit("codedeploy");
    reveal_strlit("codepipeline");
    reveal_strlit("athena");
    reveal_strlit("glue");
    reveal_strlit("emr");
    reveal_strlit("sagemaker");
    reveal_strlit("opensearch");
    reveal_strlit("elasticsearch");
    reveal_strlit("quicksight");
    reveal_strlit("stepfunctions");
    let t = service_event_sources();
    assert(t[51].0 == "states"@ && t[51].1 == "states.amazonaws.com"@);
    assert(t[0].0 == "s3"@);
    assert(t[1].0 == "ec2"@);
    assert(t[2].0 == "lambda"@);
    assert("lambda"@[0] != "states"@[0]);
    assert(t[3].0 == "efs"@);
    assert(t[4].0 == "ecs"@);
    assert(t[5].0 == "eks"@);
    assert(t[6].0 == "batch"@);
    assert(t[7].0 == "rds"@);
    assert(t[8].0 == "dynamodb"@);
    assert(t[9].0 == "elasticache"@);
    assert(t[10].0 == "neptune"@);
    assert(t[11].0 == "redshift"@);
    assert(t[12].0 == "iam"@);
    assert(t[13].0 == "sts"@);
    assert(t[14].0 == "kms"@);
    assert(t[15].0 == "secretsmanager"@);
    assert(t[16].0 == "secrets"@);
    assert(t[17].0 == "ssm"@);
    assert(t[18].0 == "guardduty"@);
    assert(t[19].0 == "securityhub"@);
    assert(t[20].0 == "acm"@);
    assert(t[21].0 == "organizations"@);
    assert(t[22].0 == "elb"@);
    assert(t[23].0 == "elasticloadbalancing"@);
    assert(t[24].0 == "elbv2"@);
    assert(t[25].0 == "elasticloadbalancingv2"@);
    assert(t[26].0 == "route53"@);
    assert(t[27].0 == "apigateway"@);
    assert(t[28].0 == "apigatewayv2"@);
    assert(t[29].0 == "cloudfront"@);
    assert(t[30].0 == "waf"@);
    assert(t[31].0 == "wafv2"@);
    assert(t[32].0 == "sns"@);
    assert(t[33].0 == "sqs"@);
    assert(t[34].0 == "eventbridge"@);
    assert(t[35].0 == "events"@);
    assert("events"@[0] != "states"@[0]);
    assert(t[36].0 == "kinesis"@);
    assert(t[37].0 == "firehose"@);
    assert(t[38].0 == "kinesisfirehose"@);
    assert(t[39].0 == "codecommit"@);
    assert(t[40].0 == "codebuild"@);
    assert(t[41].0 == "codedeploy"@);
    assert(t[42].0 == "codepipeline"@);
    assert(t[43].0 == "athena"@);
    assert("athena"@[0] != "states"@[0]);
    assert(t[44].0 == "glue"@);
    assert(t[45].0 == "emr"@);
    assert(t[46].0 == "sagemaker"@);
    assert(t[47].0 == "opensearch"@);
    assert(t[48].0 == "elasticsearch"@);
    assert(t[49].0 == "quicksight"@);
    assert(t[50].0 == "stepfunctions"@);
    lemma_table_lookup_at(t, "states"@, 51);
}

#[verifier::spinoff_prover]
proof fn lemma_event_source_entry_52()
    ensures
        table_lookup(service_event_sources(), "appsync"@) == Some("appsync.amazonaws.com"@),
{
    reveal_strlit("appsync");
    reveal_strlit("appsync.amazonaws.com");
    reveal_strlit("s3");
    reveal_strlit("ec2");
    reveal_strlit("lambda");
    reveal_strlit("efs");
    reveal_strlit("ecs");
    reveal_strlit("eks");
    reveal_strlit("batch");
    reveal_strlit("rds");
    reveal_strlit("dynamodb");
    reveal_strlit("elasticache");
    reveal_strlit("neptune");
    reveal_strlit("redshift");
    reveal_strlit("iam");
    reveal_strlit("sts");
    reveal_strlit("kms");
    reveal_strlit("secretsmanager");
    reveal_strlit("secrets");
    reveal_strlit("ssm");
    reveal_strlit("guardduty");
    reveal_strlit("securityhub");
    reveal_strlit("acm");
    reveal_strlit("organizations");
    reveal_strlit("elb");
    reveal_strlit("elasticloadbalancing");
    reveal_strlit("elbv2");
    reveal_strlit("elasticloadbalancingv2");
    reveal_strlit("route53");
    reveal_strlit("apigateway");
    reveal_strlit("apigatewayv2");
    reveal_strlit("cloudfront");
    reveal_strlit("waf");
    reveal_strlit("wafv2");
    reveal_strlit("sns");
    reveal_strlit("sqs");
    reveal_strlit("eventbridge");
    reveal_strlit("events");
    reveal_strlit("kinesis");
    reveal_strlit("firehose");
    reveal_strlit("kinesisfirehose");
    reveal_strlit("codecommit");
    reveal_strlit("codebuild");
    reveal_strlit("codedeploy");
    reveal_strlit("codepipeline");
    reveal_strlit("athena");
    reveal_strlit("glue");
    reveal_strlit("emr");
    reveal_strlit("sagemaker");
    reveal_strlit("opensearch");
    reveal_strlit("elasticsearch");
    reveal_strlit("quicksight");
    reveal_strlit("stepfunctions");
    reveal_strlit("states");
    let t = service_event_sources();
    assert(t[52].0 == "appsync"@ && t[52].1 == "appsync.amazonaws.com"@);
    assert(t[0].0 == "s3"@);
    assert(t[1].0 == "ec2"@);
    assert(t[2].0 == "lambda"@);
    assert(t[3].0 == "efs"@);
    assert(t[4].0 == "ecs"@);
    assert(t[5].0 == "eks"@);
    assert(t[6].0 == "batch"@);
    assert(t[7].0 == "rds"@);
    assert(t[8].0 == "dynamodb"@);
    assert(t[9].0 == "elasticache"@);
    assert(t[10].0 == "neptune"@);
    assert("neptune"@[0] != "appsync"@[0]);
    assert(t[11].0 == "redshift"@);
    assert(t[12].0 == "iam"@);
    assert(t[13].0 == "sts"@);
    assert(t[14].0 == "kms"@);
    assert(t[15].0 == "secretsmanager"@);
    assert(t[16].0 == "secrets"@);
    assert("secrets"@[0] != "appsync"@[0]);
    assert(t[17].0 == "ssm"@);
    assert(t[18].0 == "guardduty"@);
    assert(t[19].0 == "securityhub"@);
    assert(t[20].0 == "acm"@);
    assert(t[21].0 == "organizations"@);
    assert(t[22].0 == "elb"@);
    assert(t[23].0 == "elasticloadbalancing"@);
    assert(t[24].0 == "elbv2"@);
    assert(t[25].0 == "elasticloadbalancingv2"@);
    assert(t[26].0 == "route53"@);
    assert("route53"@[0] != "appsync"@[0]);
    assert(t[27].0 == "apigateway"@);
    assert(t[28].0 == "apigatewayv2"@);
    assert(t[29].0 == "cloudfront"@);
    assert(t[30].0 == "waf"@);
    assert(t[31].0 == "wafv2"@);
    assert(t[32].0 == "sns"@);
    assert(t[33].0 == "sqs"@);
    assert(t[34].0 == "eventbridge"@);
    assert(t[35].0 == "events"@);
    assert(t[36].0 == "kinesis"@);
    assert("kinesis"@[0] != "appsync"@[0]);
    assert(t[37].0 == "firehose"@);
    assert(t[38].0 == "kinesisfirehose"@);
    assert(t[39].0 == "codecommit"@);
    assert(t[40].0 == "codebuild"@);
    assert(t[41].0 == "codedeploy"@);
    assert(t[42].0 == "codepipeline"@);
    assert(t[43].0 == "athena"@);
    assert(t[44].0 == "glue"@);
    assert(t[45].0 == "emr"@);
    assert(t[46].0 == "sagemaker"@);
    assert(t[47].0 == "opensearch"@);
    assert(t[48].0 == "elasticsearch"@);
    assert(t[49].0 == "quicksight"@);
    assert(t[50].0 == "stepfunctions"@);
    assert(t[51].0 == "states"@);
    lemma_table_lookup_at(t, "appsync"@, 52);
}

#[verifier::spinoff_prover]
proof fn lemma_event_source_entry_53()
    ensures
        table_lookup(service_event_sources(), "cognito"@) == Some("cognito-idp.amazonaws.com"@),
{
    reveal_strlit("cognito");
    reveal_strlit("cognito-idp.amazonaws.com");
    reveal_strlit("s3");
    reveal_strlit("ec2");
    reveal_strlit("lambda");
    reveal_strlit("efs");
    reveal_strlit("ecs");
    reveal_strlit("eks");
    reveal_strlit("batch");
    reveal_strlit("rds");
    reveal_strlit("dynamodb");
    reveal_strlit("elasticache");
    reveal_strlit("neptune");
    reveal_strlit("redshift");
    reveal_strlit("iam");
    reveal_strlit("sts");
    reveal_strlit("kms");
    reveal_strlit("secretsmanager");
    reveal_strlit("secrets");
    reveal_strlit("ssm");
    reveal_strlit("guardduty");
    reveal_strlit("securityhub");
    reveal_strlit("acm");
    reveal_strlit("organizations");
    reveal_strlit("elb");
    reveal_strlit("elasticloadbalancing");
    reveal_strlit("elbv2");
    reveal_strlit("elasticloadbalancingv2");
    reveal_strlit("route53");
    reveal_strlit("apigateway");
    reveal_strlit("apigatewayv2");
    reveal_strlit("cloudfront");
    reveal_strlit("waf");
    reveal_strlit("wafv2");
    reveal_strlit("sns");
    reveal_strlit("sqs");
    reveal_strlit("eventbridge");
    reveal_strlit("events");
    reveal_strlit("kinesis");
    reveal_strlit("firehose");
    reveal_strlit("kinesisfirehose");
    reveal_strlit("codecommit");
    reveal_strlit("codebuild");
    reveal_strlit("codedeploy");
    reveal_strlit("codepipeline");
    reveal_strlit("athena");
    reveal_strlit("glue");
    reveal_strlit("emr");
    reveal_strlit("sagemaker");
    reveal_strlit("opensearch");
    reveal_strlit("elasticsearch");
    reveal_strlit("quicksight");
    reveal_strlit("stepfunctions");
    reveal_strlit("states");
    reveal_strlit("appsync");
    let t = service_event_sources();
    assert(t[53].0 == "cognito"@ && t[53].1 == "cognito-idp.amazonaws.com"@);
    assert(t[0].0 == "s3"@);
    assert(t[1].0 == "ec2"@);
    assert(t[2].0 == "lambda"@);
    assert(t[3].0 == "efs"@);
    assert(t[4].0 == "ecs"@);
    assert(t[5].0 == "eks"@);
    assert(t[6].0 == "batch"@);
    assert(t[7].0 == "rds"@);
    assert(t[8].0 == "dynamodb"@);
    assert(t[9].0 == "elasticache"@);
    assert(t[10].0 == "neptune"@);
    assert("neptune"@[0] != "cognito"@[0]);
    assert(t[11].0 == "redshift"@);
    assert(t[12].0 == "iam"@);
    assert(t[13].0 == "sts"@);
    assert(t[14].0 == "kms"@);
    assert(t[15].0 == "secretsmanager"@);
    assert(t[16].0 == "secrets"@);
    assert("secrets"@[0] != "cognito"@[0]);
    assert(t[17].0 == "ssm"@);
    assert(t[18].0 == "guardduty"@);
    assert(t[19].0 == "securityhub"@);
    assert(t[20].0 == "acm"@);
    assert(t[21].0 == "organizations"@);
    assert(t[22].0 == "elb"@);
    assert(t[23].0 == "elasticloadbalancing"@);
    assert(t[24].0 == "elbv2"@);
    assert(t[25].0 == "elasticloadbalancingv2"@);
    assert(t[26].0 == "route53"@);
    assert("route53"@[0] != "cognito"@[0]);
    assert(t[27].0 == "apigateway"@);
    assert(t[28].0 == "apigatewayv2"@);
    assert(t[29].0 == "cloudfront"@);
    assert(t[30].0 == "waf"@);
    assert(t[31].0 == "wafv2"@);
    assert(t[32].0 == "sns"@);
    assert(t[33].0 == "sqs"@);
    assert(t[34].0 == "eventbridge"@);
    assert(t[35].0 == "events"@);
    assert(t[36].0 == "kinesis"@);
    assert("kinesis"@[0] != "cognito"@[0]);
    assert(t[37].0 == "firehose"@);
    assert(t[38].0 == "kinesisfirehose"@);
    assert(t[39].0 == "codecommit"@);
    assert(t[40].0 == "codebuild"@);
    assert(t[41].0 == "codedeploy"@);
    assert(t[42].0 == "codepipeline"@);
    assert(t[43].0 == "athena"@);
    assert(t[44].0 == "glue"@);
    assert(t[45].0 == "emr"@);
    assert(t[46].0 == "sagemaker"@);
    assert(t[47].0 == "opensearch"@);
    assert(t[48].0 == "elasticsearch"@);
    assert(t[49].0 == "quicksight"@);
    assert(t[50].0 == "stepfunctions"@);
    assert(t[51].0 == "states"@);
    assert(t[52].0 == "appsync"@);
    assert("appsync"@[0] != "cognito"@[0]);
    lemma_table_lookup_at(t, "cognito"@, 53);
}

#[verifier::spinoff_prover]
proof fn lemma_event_source_entry_54()
    ensures
        table_lookup(service_event_sources(), "cloudformation"@) == Some("cloudformation.amazonaws.com"@),
{
    reveal_strlit("cloudformation");
    reveal_strlit("cloudformation.amazonaws.com");
    reveal_strlit("s3");
    reveal_strlit("ec2");
    reveal_strlit("lambda");
    reveal_strlit("efs");
    reveal_strlit("ecs");
    reveal_strlit("eks");
    reveal_strlit("batch");
    reveal_strlit("rds");
    reveal_strlit("dynamodb");
    reveal_strlit("elasticache");
    reveal_strlit("neptune");
    reveal_strlit("redshift");
    reveal_strlit("iam");
    reveal_strlit("sts");
    reveal_strlit("kms");
    reveal_strlit("secretsmanager");
    reveal_strlit("secrets");
    reveal_strlit("ssm");
    reveal_strlit("guardduty");
    reveal_strlit("securityhub");
    reveal_strlit("acm");
    reveal_strlit("organizations");
    reveal_strlit("elb");
    reveal_strlit("elasticloadbalancing");
    reveal_strlit("elbv2");
    reveal_strlit("elasticloadbalancingv2");
    reveal_strlit("route53");
    reveal_strlit("apigateway");
    reveal_strlit("apigatewayv2");
    reveal_strlit("cloudfront");
    reveal_strlit("waf");
    reveal_strlit("wafv2");
    reveal_strlit("sns");
    reveal_strlit("sqs");
    reveal_strlit("eventbridge");
    reveal_strlit("events");
    reveal_strlit("kinesis");
    reveal_strlit("firehose");
    reveal_strlit("kinesisfirehose");
    reveal_strlit("codecommit");
    reveal_strlit("codebuild");
    reveal_strlit("codedeploy");
    reveal_strlit("codepipeline");
    reveal_strlit("athena");
    reveal_strlit("glue");
    reveal_strlit("emr");
    reveal_strlit("sagemaker");
    reveal_strlit("opensearch");
    reveal_strlit("elasticsearch");
    reveal_strlit("quicksight");
    reveal_strlit("stepfunctions");
    reveal_strlit("states");
    reveal_strlit("appsync");
    reveal_strlit("cognito");
    let t = service_event_sources();
    assert(t[54].0 == "cloudformation"@ && t[54].1 == "cloudformation.amazonaws.com"@);
    assert(t[0].0 == "s3"@);
    assert(t[1].0 == "ec2"@);
    assert(t[2].0 == "lambda"@);
    assert(t[3].0 == "efs"@);
    assert(t[4].0 == "ecs"@);
    assert(t[5].0 == "eks"@);
    assert(t[6].0 == "batch"@);
    assert(t[7].0 == "rds"@);
    assert(t[8].0 == "dynamodb"@);
    assert(t[9].0 == "elasticache"@);
    assert(t[10].0 == "neptune"@);
    assert(t[11].0 == "redshift"@);
    assert(t[12].0 == "iam"@);
    assert(t[13].0 == "sts"@);
    assert(t[14].0 == "kms"@);
    assert(t[15].0 == "secretsmanager"@);
    assert("secretsmanager"@[0] != "cloudformation"@[0]);
    assert(t[16].0 == "secrets"@);
    assert(t[17].0 == "ssm"@);
    assert(t[18].0 == "guardduty"@);
    assert(t[19].0 == "securityhub"@);
    assert(t[20].0 == "acm"@);
    assert(t[21].0 == "organizations"@);
    assert(t[22].0 == "elb"@);
    assert(t[23].0 == "elasticloadbalancing"@);
    assert(t[24].0 == "elbv2"@);
    assert(t[25].0 == "elasticloadbalancingv2"@);
    assert(t[26].0 == "route53"@);
    assert(t[27].0 == "apigateway"@);
    assert(t[28].0 == "apigatewayv2"@);
    assert(t[29].0 == "cloudfront"@);
    assert(t[30].0 == "waf"@);
    assert(t[31].0 == "wafv2"@);
    assert(t[32].0 == "sns"@);
    assert(t[33].0 == "sqs"@);
    assert(t[34].0 == "eventbridge"@);
    assert(t[35].0 == "events"@);
    assert(t[36].0 == "kinesis"@);
    assert(t[37].0 == "firehose"@);
    assert(t[38].0 == "kinesisfirehose"@);
    assert(t[39].0 == "codecommit"@);
    assert(t[40].0 == "codebuild"@);
    assert(t[41].0 == "codedeploy"@);
    assert(t[42].0 == "codepipeline"@);
    assert(t[43].0 == "athena"@);
    assert(t[44].0 == "glue"@);
    assert(t[45].0 == "emr"@);
    assert(t[46].0 == "sagemaker"@);
    assert(t[47].0 == "opensearch"@);
    assert(t[48].0 == "elasticsearch"@);
    assert(t[49].0 == "quicksight"@);
    assert(t[50].0 == "stepfunctions"@);
    assert(t[51].0 == "states"@);
    assert(t[52].0 == "appsync"@);
    assert(t[53].0 == "cognito"@);
    lemma_table_lookup_at(t, "cloudformation"@, 54);
}

#[verifier::spinoff_prover]
proof fn lemma_event_source_entry_55()
    ensures
        table_lookup(service_event_sources(), "cfn"@) == Some("cloudformation.amazonaws.com"@),
{
    reveal_strlit("cfn");
    reveal_strlit("cloudformation.amazonaws.com");
    reveal_strlit("s3");
    reveal_strlit("ec2");
    reveal_strlit("lambda");
    reveal_strlit("efs");
    reveal_strlit("ecs");
    reveal_strlit("eks");
    reveal_strlit("batch");
    reveal_strlit("rds");
    reveal_strlit("dynamodb");
    reveal_strlit("elasticache");
    reveal_strlit("neptune");
    reveal_strlit("redshift");
    reveal_strlit("iam");
    reveal_strlit("sts");
    reveal_strlit("kms");
    reveal_strlit("secretsmanager");
    reveal_strlit("secrets");
    reveal_strlit("ssm");
    reveal_strlit("guardduty");
    reveal_strlit("securityhub");
    reveal_strlit("acm");
    reveal_strlit("organizations");
    reveal_strlit("elb");
    reveal_strlit("elasticloadbalancing");
    reveal_strlit("elbv2");
    reveal_strlit("elasticloadbalancingv2");
    reveal_strlit("route53");
    reveal_strlit("apigateway");
    reveal_strlit("apigatewayv2");
    reveal_strlit("cloudfront");
    reveal_strlit("waf");
    reveal_strlit("wafv2");
    reveal_strlit("sns");
    reveal_strlit("sqs");
    reveal_strlit("eventbridge");
    reveal_strlit("events");
    reveal_strlit("kinesis");
    reveal_strlit("firehose");
    reveal_strlit("kinesisfirehose");
    reveal_strlit("codecommit");
    reveal_strlit("codebuild");
    reveal_strlit("codedeploy");
    reveal_strlit("codepipeline");
    reveal_strlit("athena");
    reveal_strlit("glue");
    reveal_strlit("emr");
    reveal_strlit("sagemaker");
    reveal_strlit("opensearch");
    reveal_strlit("elasticsearch");
    reveal_strlit("quicksight");
    reveal_strlit("stepfunctions");
    reveal_strlit("states");
    reveal_strlit("appsync");
    reveal_strlit("cognito");
    reveal_strlit("cloudformation");
    let t = service_event_sources();
    assert(t[55].0 == "cfn"@ && t[55].1 == "cloudformation.amazonaws.com"@);
    assert(t[0].0 == "s3"@);
    assert(t[1].0 == "ec2"@);
    assert("ec2"@[0] != "cfn"@[0]);
    assert(t[2].0 == "lambda"@);
    assert(t[3].0 == "efs"@);
    assert("efs"@[0] != "cfn"@[0]);
    assert(t[4].0 == "ecs"@);
    assert("ecs"@[0] != "cfn"@[0]);
    assert(t[5].0 == "eks"@);
    assert("eks"@[0] != "cfn"@[0]);
    assert(t[6].0 == "batch"@);
    assert(t[7].0 == "rds"@);
    assert("rds"@[0] != "cfn"@[0]);
    assert(t[8].0 == "dynamodb"@);
    assert(t[9].0 == "elasticache"@);
    assert(t[10].0 == "neptune"@);
    assert(t[11].0 == "redshift"@);
    assert(t[12].0 == "iam"@);
    assert("iam"@[0] != "cfn"@[0]);
    assert(t[13].0 == "sts"@);
    assert("sts"@[0] != "cfn"@[0]);
    assert(t[14].0 == "kms"@);
    assert("kms"@[0] != "cfn"@[0]);
    assert(t[15].0 == "secretsmanager"@);
    assert(t[16].0 == "secrets"@);
    assert(t[17].0 == "ssm"@);
    assert("ssm"@[0] != "cfn"@[0]);
    assert(t[18].0 == "guardduty"@);
    assert(t[19].0 == "securityhub"@);
    assert(t[20].0 == "acm"@);
    assert("acm"@[0] != "cfn"@[0]);
    assert(t[21].0 == "organizations"@);
    assert(t[22].0 == "elb"@);
    assert("elb"@[0] != "cfn"@[0]);
    assert(t[23].0 == "elasticloadbalancing"@);
    assert(t[24].0 == "elbv2"@);
    assert(t[25].0 == "elasticloadbalancingv2"@);
    assert(t[26].0 == "route53"@);
    assert(t[27].0 == "apigateway"@);
    assert(t[28].0 == "apigatewayv2"@);
    assert(t[29].0 == "cloudfront"@);
    assert(t[30].0 == "waf"@);
    assert("waf"@[0] != "cfn"@[0]);
    assert(t[31].0 == "wafv2"@);
    assert(t[32].0 == "sns"@);
    assert("sns"@[0] != "cfn"@[0]);
    assert(t[33].0 == "sqs"@);
    assert("sqs"@[0] != "cfn"@[0]);
    assert(t[34].0 == "eventbridge"@);
    assert(t[35].0 == "events"@);
    assert(t[36].0 == "kinesis"@);
    assert(t[37].0 == "firehose"@);
    assert(t[38].0 == "kinesisfirehose"@);
    assert(t[39].0 == "codecommit"@);
    assert(t[40].0 == "codebuild"@);
    assert(t[41].0 == "codedeploy"@);
    assert(t[42].0 == "codepipeline"@);
    assert(t[43].0 == "athena"@);
    assert(t[44].0 == "glue"@);
    assert(t[45].0 == "emr"@);
    assert("emr"@[0] != "cfn"@[0]);
    assert(t[46].0 == "sagemaker"@);
    assert(t[47].0 == "opensearch"@);
    assert(t[48].0 == "elasticsearch"@);
    assert(t[49].0 == "quicksight"@);
    assert(t[50].0 == "stepfunctions"@);
    assert(t[51].0 == "states"@);
    assert(t[52].0 == "appsync"@);
    assert(t[53].0 == "cognito"@);
    assert(t[54].0 == "cloudformation"@);
    lemma_table_lookup_at(t, "cfn"@, 55);
}

#[verifier::spinoff_prover]
proof fn lemma_event_source_entry_56()
    ensures
        table_lookup(service_event_sources(), "cloudtrail"@) == Some("cloudtrail.amazonaws.com"@),
{
    reveal_strlit("cloudtrail");
    reveal_strlit("cloudtrail.amazonaws.com");
    reveal_strlit("s3");
    reveal_strlit("ec2");
    reveal_strlit("lambda");
    reveal_strlit("efs");
    reveal_strlit("ecs");
    reveal_strlit("eks");
    reveal_strlit("batch");
    reveal_strlit("rds");
    reveal_strlit("dynamodb");
    reveal_strlit("elasticache");
    reveal_strlit("neptune");
    reveal_strlit("redshift");
    reveal_strlit("iam");
    reveal_strlit("sts");
    reveal_strlit("kms");
    reveal_strlit("secretsmanager");
    reveal_strlit("secrets");
    reveal_strlit("ssm");
    reveal_strlit("guardduty");
    reveal_strlit("securityhub");
    reveal_strlit("acm");
    reveal_strlit("organizations");
    reveal_strlit("elb");
    reveal_strlit("elasticloadbalancing");
    reveal_strlit("elbv2");
    reveal_strlit("elasticloadbalancingv2");
    reveal_strlit("route53");
    reveal_strlit("apigateway");
    reveal_strlit("apigatewayv2");
    reveal_strlit("cloudfront");
    reveal_strlit("waf");
    reveal_strlit("wafv2");
    reveal_strlit("sns");
    reveal_strlit("sqs");
    reveal_strlit("eventbridge");
    reveal_strlit("events");
    reveal_strlit("kinesis");
    reveal_strlit("firehose");
    reveal_strlit("kinesisfirehose");
    reveal_strlit("codecommit");
    reveal_strlit("codebuild");
    reveal_strlit("codedeploy");
    reveal_strlit("codepipeline");
    reveal_strlit("athena");
    reveal_strlit("glue");
    reveal_strlit("emr");
    reveal_strlit("sagemaker");
    reveal_strlit("opensearch");
    reveal_strlit("elasticsearch");
    reveal_strlit("quicksight");
    reveal_strlit("stepfunctions");
    reveal_strlit("states");
    reveal_strlit("appsync");
    reveal_strlit("cognito");
    reveal_strlit("cloudformation");
    reveal_strlit("cfn");
    let t = service_event_sources();
    assert(t[56].0 == "cloudtrail"@ && t[56].1 == "cloudtrail.amazonaws.com"@);
    assert(t[0].0 == "s3"@);
    assert(t[1].0 == "ec2"@);
    assert(t[2].0 == "lambda"@);
    assert(t[3].0 == "efs"@);
    assert(t[4].0 == "ecs"@);
    assert(t[5].0 == "eks"@);
    assert(t[6].0 == "batch"@);
    assert(t[7].0 == "rds"@);
    assert(t[8].0 == "dynamodb"@);
    assert(t[9].0 == "elasticache"@);
    assert(t[10].0 == "neptune"@);
    assert(t[11].0 == "redshift"@);
    assert(t[12].0 == "iam"@);
    assert(t[13].0 == "sts"@);
    assert(t[14].0 == "kms"@);
    assert(t[15].0 == "secretsmanager"@);
    assert(t[16].0 == "secrets"@);
    assert(t[17].0 == "ssm"@);
    assert(t[18].0 == "guardduty"@);
    assert(t[19].0 == "securityhub"@);
    assert(t[20].0 == "acm"@);
    assert(t[21].0 == "organizations"@);
    assert(t[22].0 == "elb"@);
    assert(t[23].0 == "elasticloadbalancing"@);
    assert(t[24].0 == "elbv2"@);
    assert(t[25].0 == "elasticloadbalancingv2"@);
    assert(t[26].0 == "route53"@);
    assert(t[27].0 == "apigateway"@);
    assert("apigateway"@[0] != "cloudtrail"@[0]);
    assert(t[28].0 == "apigatewayv2"@);
    assert(t[29].0 == "cloudfront"@);
    assert("cloudfront"@[5] != "cloudtrail"@[5]);
    assert(t[30].0 == "waf"@);
    assert(t[31].0 == "wafv2"@);
    assert(t[32].0 == "sns"@);
    assert(t[33].0 == "sqs"@);
    assert(t[34].0 == "eventbridge"@);
    assert(t[35].0 == "events"@);
    assert(t[36].0 == "kinesis"@);
    assert(t[37].0 == "firehose"@);
    assert(t[38].0 == "kinesisfirehose"@);
    assert(t[39].0 == "codecommit"@);
    assert("codecommit"@[1] != "cloudtrail"@[1]);
    assert(t[40].0 == "codebuild"@);
    assert(t[41].0 == "codedeploy"@);
    assert("codedeploy"@[1] != "cloudtrail"@[1]);
    assert(t[42].0 == "codepipeline"@);
    assert(t[43].0 == "athena"@);
    assert(t[44].0 == "glue"@);
    assert(t[45].0 == "emr"@);
    assert(t[46].0 == "sagemaker"@);
    assert(t[47].0 == "opensearch"@);
    assert("opensearch"@[0] != "cloudtrail"@[0]);
    assert(t[48].0 == "elasticsearch"@);
    assert(t[49].0 == "quicksight"@);
    assert("quicksight"@[0] != "cloudtrail"@[0]);
    assert(t[50].0 == "stepfunctions"@);
    assert(t[51].0 == "states"@);
    assert(t[52].0 == "appsync"@);
    assert(t[53].0 == "cognito"@);
    assert(t[54].0 == "cloudformation"@);
    assert(t[55].0 == "cfn"@);
    lemma_table_lookup_at(t, "cloudtrail"@, 56);
}

#[verifier::spinoff_prover]
proof fn lemma_event_source_entry_57()
    ensures
        table_lookup(service_event_sources(), "logs"@) == Some("logs.amazonaws.com"@),
{
    reveal_strlit("logs");
    reveal_strlit("logs.amazonaws.com");
    reveal_strlit("s3");
    reveal_strlit("ec2");
    reveal_strlit("lambda");
    reveal_strlit("efs");
    reveal_strlit("ecs");
    reveal_strlit("eks");
    reveal_strlit("batch");
    reveal_strlit("rds");
    reveal_strlit("dynamodb");
    reveal_strlit("elasticache");
    reveal_strlit("neptune");
    reveal_strlit("redshift");
    reveal_strlit("iam");
    reveal_strlit("sts");
    reveal_strlit("kms");
    reveal_strlit("secretsmanager");
    reveal_strlit("secrets");
    reveal_strlit("ssm");
    reveal_strlit("guardduty");
    reveal_strlit("securityhub");
    reveal_strlit("acm");
    reveal_strlit("organizations");
    reveal_strlit("elb");
    reveal_strlit("elasticloadbalancing");
    reveal_strlit("elbv2");
    reveal_strlit("elasticloadbalancingv2");
    reveal_strlit("route53");
    reveal_strlit("apigateway");
    reveal_strlit("apigatewayv2");
    reveal_strlit("cloudfront");
    reveal_strlit("waf");
    reveal_strlit("wafv2");
    reveal_strlit("sns");
    reveal_strlit("sqs");
    reveal_strlit("eventbridge");
    reveal_strlit("events");
    reveal_strlit("kinesis");
    reveal_strlit("firehose");
    reveal_strlit("kinesisfirehose");
    reveal_strlit("codecommit");
    reveal_strlit("codebuild");
    reveal_strlit("codedeploy");
    reveal_strlit("codepipeline");
    reveal_strlit("athena");
    reveal_strlit("glue");
    reveal_strlit("emr");
    reveal_strlit("sagemaker");
    reveal_strlit("opensearch");
    reveal_strlit("elasticsearch");
    reveal_strlit("quicksight");
    reveal_strlit("stepfunctions");
    reveal_strlit("states");
    reveal_strlit("appsync");
    reveal_strlit("cognito");
    reveal_strlit("cloudformation");
    reveal_strlit("cfn");
    reveal_strlit("cloudtrail");
    let t = service_event_sources();
    assert(t[57].0 == "logs"@ && t[57].1 == "logs.amazonaws.com"@);
    assert(t[0].0 == "s3"@);
    assert(t[1].0 == "ec2"@);
    assert(t[2].0 == "lambda"@);
    assert(t[3].0 == "efs"@);
    assert(t[4].0 == "ecs"@);
    assert(t[5].0 == "eks"@);
    assert(t[6].0 == "batch"@);
    assert(t[7].0 == "rds"@);
    assert(t[8].0 == "dynamodb"@);
    assert(t[9].0 == "elasticache"@);
    assert(t[10].0 == "neptune"@);
    assert(t[11].0 == "redshift"@);
    assert(t[12].0 == "iam"@);
    assert(t[13].0 == "sts"@);
    assert(t[14].0 == "kms"@);
    assert(t[15].0 == "secretsmanager"@);
    assert(t[16].0 == "secrets"@);
    assert(t[17].0 == "ssm"@);
    assert(t[18].0 == "guardduty"@);
    assert(t[19].0 == "securityhub"@);
    assert(t[20].0 == "acm"@);
    assert(t[21].0 == "organizations"@);
    assert(t[22].0 == "elb"@);
    assert(t[23].0 == "elasticloadbalancing"@);
    assert(t[24].0 == "elbv2"@);
    assert(t[25].0 == "elasticloadbalancingv2"@);
    assert(t[26].0 == "route53"@);
    assert(t[27].0 == "apigateway"@);
    assert(t[28].0 == "apigatewayv2"@);
    assert(t[29].0 == "cloudfront"@);
    assert(t[30].0 == "waf"@);
    assert(t[31].0 == "wafv2"@);
    assert(t[32].0 == "sns"@);
    assert(t[33].0 == "sqs"@);
    assert(t[34].0 == "eventbridge"@);
    assert(t[35].0 == "events"@);
    assert(t[36].0 == "kinesis"@);
    assert(t[37].0 == "firehose"@);
    assert(t[38].0 == "kinesisfirehose"@);
    assert(t[39].0 == "codecommit"@);
    assert(t[40].0 == "codebuild"@);
    assert(t[41].0 == "codedeploy"@);
    assert(t[42].0 == "codepipeline"@);
    assert(t[43].0 == "athena"@);
    assert(t[44].0 == "glue"@);
    assert("glue"@[0] != "logs"@[0]);
    assert(t[45].0 == "emr"@);
    assert(t[46].0 == "sagemaker"@);
    assert(t[47].0 == "opensearch"@);
    assert(t[48].0 == "elasticsearch"@);
    assert(t[49].0 == "quicksight"@);
    assert(t[50].0 == "stepfunctions"@);
    assert(t[51].0 == "states"@);
    assert(t[52].0 == "appsync"@);
    assert(t[53].0 == "cognito"@);
    assert(t[54].0 == "cloudformation"@);
    assert(t[55].0 == "cfn"@);
    assert(t[56].0 == "cloudtrail"@);
    lemma_table_lookup_at(t, "logs"@, 57);
}

#[verifier::spinoff_prover]
proof fn lemma_event_source_entry_58()
    ensures
        table_lookup(service_event_sources(), "cloudwatch-logs"@) == Some("logs.amazonaws.com"@),
{
    reveal_strlit("cloudwatch-logs");
    reveal_strlit("logs.amazonaws.com");
    reveal_strlit("s3");
    reveal_strlit("ec2");
    reveal_strlit("lambda");
    reveal_strlit("efs");
    reveal_strlit("ecs");
    reveal_strlit("eks");
    reveal_strlit("batch");
    reveal_strlit("rds");
    reveal_strlit("dynamodb");
    reveal_strlit("elasticache");
    reveal_strlit("neptune");
    reveal_strlit("redshift");
    reveal_strlit("iam");
    reveal_strlit("sts");
    reveal_strlit("kms");
    reveal_strlit("secretsmanager");
    reveal_strlit("secrets");
    reveal_strlit("ssm");
    reveal_strlit("guardduty");
    reveal_strlit("securityhub");
    reveal_strlit("acm");
    reveal_strlit("organizations");
    reveal_strlit("elb");
    reveal_strlit("elasticloadbalancing");
    reveal_strlit("elbv2");
    reveal_strlit("elasticloadbalancingv2");
    reveal_strlit("route53");
    reveal_strlit("apigateway");
    reveal_strlit("apigatewayv2");
    reveal_strlit("cloudfront");
    reveal_strlit("waf");
    reveal_strlit("wafv2");
    reveal_strlit("sns");
    reveal_strlit("sqs");
    reveal_strlit("eventbridge");
    reveal_strlit("events");
    reveal_strlit("kinesis");
    reveal_strlit("firehose");
    reveal_strlit("kinesisfirehose");
    reveal_strlit("codecommit");
    reveal_strlit("codebuild");
    reveal_strlit("codedeploy");
    reveal_strlit("codepipeline");
    reveal_strlit("athena");
    reveal_strlit("glue");
    reveal_strlit("emr");
    reveal_strlit("sagemaker");
    reveal_strlit("opensearch");
    reveal_strlit("elasticsearch");
    reveal_strlit("quicksight");
    reveal_strlit("stepfunctions");
    reveal_strlit("states");
    reveal_strlit("appsync");
    reveal_strlit("cognito");
    reveal_strlit("cloudformation");
    reveal_strlit("cfn");
    reveal_strlit("cloudtrail");
    reveal_strlit("logs");
    let t = service_event_sources();
    assert(t[58].0 == "cloudwatch-logs"@ && t[58].1 == "logs.amazonaws.com"@);
    assert(t[0].0 == "s3"@);
    assert(t[1].0 == "ec2"@);
    assert(t[2].0 == "lambda"@);
    assert(t[3].0 == "efs"@);
    assert(t[4].0 == "ecs"@);
    assert(t[5].0 == "eks"@);
    assert(t[6].0 == "batch"@);
    assert(t[7].0 == "rds"@);
    assert(t[8].0 == "dynamodb"@);
    assert(t[9].0 == "elasticache"@);
    assert(t[10].0 == "neptune"@);
    assert(t[11].0 == "redshift"@);
    assert(t[12].0 == "iam"@);
    assert(t[13].0 == "sts"@);
    assert(t[14].0 == "kms"@);
    assert(t[15].0 == "secretsmanager"@);
    assert(t[16].0 == "secrets"@);
    assert(t[17].0 == "ssm"@);
    assert(t[18].0 == "guardduty"@);
    assert(t[19].0 == "securityhub"@);
    assert(t[20].0 == "acm"@);
    assert(t[21].0 == "organizations"@);
    assert(t[22].0 == "elb"@);
    assert(t[23].0 == "elasticloadbalancing"@);
    assert(t[24].0 == "elbv2"@);
    assert(t[25].0 == "elasticloadbalancingv2"@);
    assert(t[26].0 == "route53"@);
    assert(t[27].0 == "apigateway"@);
    assert(t[28].0 == "apigatewayv2"@);
    assert(t[29].0 == "cloudfront"@);
    assert(t[30].0 == "waf"@);
    assert(t[31].0 == "wafv2"@);
    assert(t[32].0 == "sns"@);
    assert(t[33].0 == "sqs"@);
    assert(t[34].0 == "eventbridge"@);
    assert(t[35].0 == "events"@);
    assert(t[36].0 == "kinesis"@);
    assert(t[37].0 == "firehose"@);
    assert(t[38].0 == "kinesisfirehose"@);
    assert("kinesisfirehose"@[0] != "cloudwatch-logs"@[0]);
    assert(t[39].0 == "codecommit"@);
    assert(t[40].0 == "codebuild"@);
    assert(t[41].0 == "codedeploy"@);
    assert(t[42].0 == "codepipeline"@);
    assert(t[43].0 == "athena"@);
    assert(t[44].0 == "glue"@);
    assert(t[45].0 == "emr"@);
    assert(t[46].0 == "sagemaker"@);
    assert(t[47].0 == "opensearch"@);
    assert(t[48].0 == "elasticsearch"@);
    assert(t[49].0 == "quicksight"@);
    assert(t[50].0 == "stepfunctions"@);
    assert(t[51].0 == "states"@);
    assert(t[52].0 == "appsync"@);
    assert(t[53].0 == "cognito"@);
    assert(t[54].0 == "cloudformation"@);
    assert(t[55].0 == "cfn"@);
    assert(t[56].0 == "cloudtrail"@);
    assert(t[57].0 == "logs"@);
    lemma_table_lookup_at(t, "cloudwatch-logs"@, 58);
}

#[verifier::spinoff_prover]
proof fn lemma_event_source_entry_59()
    ensures
        table_lookup(service_event_sources(), "cloudwatch"@) == Some("monitoring.amazonaws.com"@),
{
    reveal_strlit("cloudwatch");
    reveal_strlit("monitoring.amazonaws.com");
    reveal_strlit("s3");
    reveal_strlit("ec2");
    reveal_strlit("lambda");
    reveal_strlit("efs");
    reveal_strlit("ecs");
    reveal_strlit("eks");
    reveal_strlit("batch");
    reveal_strlit("rds");
    reveal_strlit("dynamodb");
    reveal_strlit("elasticache");
    reveal_strlit("neptune");
    reveal_strlit("redshift");
    reveal_strlit("iam");
    reveal_strlit("sts");
    reveal_strlit("kms");
    reveal_strlit("secretsmanager");
    reveal_strlit("secrets");
    reveal_strlit("ssm");
    reveal_strlit("guardduty");
    reveal_strlit("securityhub");
    reveal_strlit("acm");
    reveal_strlit("organizations");
    reveal_strlit("elb");
    reveal_strlit("elasticloadbalancing");
    reveal_strlit("elbv2");
    reveal_strlit("elasticloadbalancingv2");
    reveal_strlit("route53");
    reveal_strlit("apigateway");
    reveal_strlit("apigatewayv2");
    reveal_strlit("cloudfront");
    reveal_strlit("waf");
    reveal_strlit("wafv2");
    reveal_strlit("sns");
    reveal_strlit("sqs");
    reveal_strlit("eventbridge");
    reveal_strlit("events");
    reveal_strlit("kinesis");
    reveal_strlit("firehose");
    reveal_strlit("kinesisfirehose");
    reveal_strlit("codecommit");
    reveal_strlit("codebuild");
    reveal_strlit("codedeploy");
    reveal_strlit("codepipeline");
    reveal_strlit("athena");
    reveal_strlit("glue");
    reveal_strlit("emr");
    reveal_strlit("sagemaker");
    reveal_strlit("opensearch");
    reveal_strlit("elasticsearch");
    reveal_strlit("quicksight");
    reveal_strlit("stepfunctions");
    reveal_strlit("states");
    reveal_strlit("appsync");
    reveal_strlit("cognito");
    reveal_strlit("cloudformation");
    reveal_strlit("cfn");
    reveal_strlit("cloudtrail");
    reveal_strlit("logs");
    reveal_strlit("cloudwatch-logs");
    let t = service_event_sources();
    assert(t[59].0 == "cloudwatch"@ && t[59].1 == "monitoring.amazonaws.com"@);
    assert(t[0].0 == "s3"@);
    assert(t[1].0 == "ec2"@);
    assert(t[2].0 == "lambda"@);
    assert(t[3].0 == "efs"@);
    assert(t[4].0 == "ecs"@);
    assert(t[5].0 == "eks"@);
    assert(t[6].0 == "batch"@);
    assert(t[7].0 == "rds"@);
    assert(t[8].0 == "dynamodb"@);
    assert(t[9].0 == "elasticache"@);
    assert(t[10].0 == "neptune"@);
    assert(t[11].0 == "redshift"@);
    assert(t[12].0 == "iam"@);
    assert(t[13].0 == "sts"@);
    assert(t[14].0 == "kms"@);
    assert(t[15].0 == "secretsmanager"@);
    assert(t[16].0 == "secrets"@);
    assert(t[17].0 == "ssm"@);
    assert(t[18].0 == "guardduty"@);
    assert(t[19].0 == "securityhub"@);
    assert(t[20].0 == "acm"@);
    assert(t[21].0 == "organizations"@);
    assert(t[22].0 == "elb"@);
    assert(t[23].0 == "elasticloadbalancing"@);
    assert(t[24].0 == "elbv2"@);
    assert(t[25].0 == "elasticloadbalancingv2"@);
    assert(t[26].0 == "route53"@);
    assert(t[27].0 == "apigateway"@);
    assert("apigateway"@[0] != "cloudwatch"@[0]);
    assert(t[28].0 == "apigatewayv2"@);
    assert(t[29].0 == "cloudfront"@);
    assert("cloudfront"@[5] != "cloudwatch"@[5]);
    assert(t[30].0 == "waf"@);
    assert(t[31].0 == "wafv2"@);
    assert(t[32].0 == "sns"@);
    assert(t[33].0 == "sqs"@);
    assert(t[34].0 == "eventbridge"@);
    assert(t[35].0 == "events"@);
    assert(t[36].0 == "kinesis"@);
    assert(t[37].0 == "firehose"@);
    assert(t[38].0 == "kinesisfirehose"@);
    assert(t[39].0 == "codecommit"@);
    assert("codecommit"@[1] != "cloudwatch"@[1]);
    assert(t[40].0 == "codebuild"@);
    assert(t[41].0 == "codedeploy"@);
    assert("codedeploy"@[1] != "cloudwatch"@[1]);
    assert(t[42].0 == "codepipeline"@);
    assert(t[43].0 == "athena"@);
    assert(t[44].0 == "glue"@);
    assert(t[45].0 == "emr"@);
    assert(t[46].0 == "sagemaker"@);
    assert(t[47].0 == "opensearch"@);
    assert("opensearch"@[0] != "cloudwatch"@[0]);
    assert(t[48].0 == "elasticsearch"@);
    assert(t[49].0 == "quicksight"@);
    assert("quicksight"@[0] != "cloudwatch"@[0]);
    assert(t[50].0 == "stepfunctions"@);
    assert(t[51].0 == "states"@);
    assert(t[52].0 == "appsync"@);
    assert(t[53].0 == "cognito"@);
    assert(t[54].0 == "cloudformation"@);
    assert(t[55].0 == "cfn"@);
    assert(t[56].0 == "cloudtrail"@);
    assert("cloudtrail"@[5] != "cloudwatch"@[5]);
    assert(t[57].0 == "logs"@);
    assert(t[58].0 == "cloudwatch-logs"@);
    lemma_table_lookup_at(t, "cloudwatch"@, 59);
}

#[verifier::spinoff_prover]
proof fn lemma_event_source_entry_60()
    ensures
        table_lookup(service_event_sources(), "config"@) == Some("config.amazonaws.com"@),
{
    reveal_strlit("config");
    reveal_strlit("config.amazonaws.com");
    reveal_strlit("s3");
    reveal_strlit("ec2");
    reveal_strlit("lambda");
    reveal_strlit("efs");
    reveal_strlit("ecs");
    reveal_strlit("eks");
    reveal_strlit("batch");
    reveal_strlit("rds");
    reveal_strlit("dynamodb");
    reveal_strlit("elasticache");
    reveal_strlit("neptune");
    reveal_strlit("redshift");
    reveal_strlit("iam");
    reveal_strlit("sts");
    reveal_strlit("kms");
    reveal_strlit("secretsmanager");
    reveal_strlit("secrets");
    reveal_strlit("ssm");
    reveal_strlit("guardduty");
    reveal_strlit("securityhub");
    reveal_strlit("acm");
    reveal_strlit("organizations");
    reveal_strlit("elb");
    reveal_strlit("elasticloadbalancing");
    reveal_strlit("elbv2");
    reveal_strlit("elasticloadbalancingv2");
    reveal_strlit("route53");
    reveal_strlit("apigateway");
    reveal_strlit("apigatewayv2");
    reveal_strlit("cloudfront");
    reveal_strlit("waf");
    reveal_strlit("wafv2");
    reveal_strlit("sns");
    reveal_strlit("sqs");
    reveal_strlit("eventbridge");
    reveal_strlit("events");
    reveal_strlit("kinesis");
    reveal_strlit("firehose");
    reveal_strlit("kinesisfirehose");
    reveal_strlit("codecommit");
    reveal_strlit("codebuild");
    reveal_strlit("codedeploy");
    reveal_strlit("codepipeline");
    reveal_strlit("athena");
    reveal_strlit("glue");
    reveal_strlit("emr");
    reveal_strlit("sagemaker");
    reveal_strlit("opensearch");
    reveal_strlit("elasticsearch");
    reveal_strlit("quicksight");
    reveal_strlit("stepfunctions");
    reveal_strlit("states");
    reveal_strlit("appsync");
    reveal_strlit("cognito");
    reveal_strlit("cloudformation");
    reveal_strlit("cfn");
    reveal_strlit("cloudtrail");
    reveal_strlit("logs");
    reveal_strlit("cloudwatch-logs");
    reveal_strlit("cloudwatch");
    let t = service_event_sources();
    assert(t[60].0 == "config"@ && t[60].1 == "config.amazonaws.com"@);
    assert(t[0].0 == "s3"@);
    assert(t[1].0 == "ec2"@);
    assert(t[2].0 == "lambda"@);
    assert("lambda"@[0] != "config"@[0]);
    assert(t[3].0 == "efs"@);
    assert(t[4].0 == "ecs"@);
    assert(t[5].0 == "eks"@);
    assert(t[6].0 == "batch"@);
    assert(t[7].0 == "rds"@);
    assert(t[8].0 == "dynamodb"@);
    assert(t[9].0 == "elasticache"@);
    assert(t[10].0 == "neptune"@);
    assert(t[11].0 == "redshift"@);
    assert(t[12].0 == "iam"@);
    assert(t[13].0 == "sts"@);
    assert(t[14].0 == "kms"@);
    assert(t[15].0 == "secretsmanager"@);
    assert(t[16].0 == "secrets"@);
    assert(t[17].0 == "ssm"@);
    assert(t[18].0 == "guardduty"@);
    assert(t[19].0 == "securityhub"@);
    assert(t[20].0 == "acm"@);
    assert(t[21].0 == "organizations"@);
    assert(t[22].0 == "elb"@);
    assert(t[23].0 == "elasticloadbalancing"@);
    assert(t[24].0 == "elbv2"@);
    assert(t[25].0 == "elasticloadbalancingv2"@);
    assert(t[26].0 == "route53"@);
    assert(t[27].0 == "apigateway"@);
    assert(t[28].0 == "apigatewayv2"@);
    assert(t[29].0 == "cloudfront"@);
    assert(t[30].0 == "waf"@);
    assert(t[31].0 == "wafv2"@);
    assert(t[32].0 == "sns"@);
    assert(t[33].0 == "sqs"@);
    assert(t[34].0 == "eventbridge"@);
    assert(t[35].0 == "events"@);
    assert("events"@[0] != "config"@[0]);
    assert(t[36].0 == "kinesis"@);
    assert(t[37].0 == "firehose"@);
    assert(t[38].0 == "kinesisfirehose"@);
    assert(t[39].0 == "codecommit"@);
    assert(t[40].0 == "codebuild"@);
    assert(t[41].0 == "codedeploy"@);
    assert(t[42].0 == "codepipeline"@);
    assert(t[43].0 == "athena"@);
    assert("athena"@[0] != "config"@[0]);
    assert(t[44].0 == "glue"@);
    assert(t[45].0 == "emr"@);
    assert(t[46].0 == "sagemaker"@);
    assert(t[47].0 == "opensearch"@);
    assert(t[48].0 == "elasticsearch"@);
    assert(t[49].0 == "quicksight"@);
    assert(t[50].0 == "stepfunctions"@);
    assert(t[51].0 == "states"@);
    assert("states"@[0] != "config"@[0]);
    assert(t[52].0 == "appsync"@);
    assert(t[53].0 == "cognito"@);
    assert(t[54].0 == "cloudformation"@);
    assert(t[55].0 == "cfn"@);
    assert(t[56].0 == "cloudtrail"@);
    assert(t[57].0 == "logs"@);
    assert(t[58].0 == "cloudwatch-logs"@);
    assert(t[59].0 == "cloudwatch"@);
    lemma_table_lookup_at(t, "config"@, 60);
}

#[verifier::spinoff_prover]
proof fn lemma_event_source_entry_61()
    ensures
        table_lookup(service_event_sources(), "configservice"@) == Some("config.amazonaws.com"@),
{
    reveal_strlit("configservice");
    reveal_strlit("config.amazonaws.com");
    reveal_strlit("s3");
    reveal_strlit("ec2");
    reveal_strlit("lambda");
    reveal_strlit("efs");
    reveal_strlit("ecs");
    reveal_strlit("eks");
    reveal_strlit("batch");
    reveal_strlit("rds");
    reveal_strlit("dynamodb");
    reveal_strlit("elasticache");
    reveal_strlit("neptune");
    reveal_strlit("redshift");
    reveal_strlit("iam");
    reveal_strlit("sts");
    reveal_strlit("kms");
    reveal_strlit("secretsmanager");
    reveal_strlit("secrets");
    reveal_strlit("ssm");
    reveal_strlit("guardduty");
    reveal_strlit("securityhub");
    reveal_strlit("acm");
    reveal_strlit("organizations");
    reveal_strlit("elb");
    reveal_strlit("elasticloadbalancing");
    reveal_strlit("elbv2");
    reveal_strlit("elasticloadbalancingv2");
    reveal_strlit("route53");
    reveal_strlit("apigateway");
    reveal_strlit("apigatewayv2");
    reveal_strlit("cloudfront");
    reveal_strlit("waf");
    reveal_strlit("wafv2");
    reveal_strlit("sns");
    reveal_strlit("sqs");
    reveal_strlit("eventbridge");
    reveal_strlit("events");
    reveal_strlit("kinesis");
    reveal_strlit("firehose");
    reveal_strlit("kinesisfirehose");
    reveal_strlit("codecommit");
    reveal_strlit("codebuild");
    reveal_strlit("codedeploy");
    reveal_strlit("codepipeline");
    reveal_strlit("athena");
    reveal_strlit("glue");
    reveal_strlit("emr");
    reveal_strlit("sagemaker");
    reveal_strlit("opensearch");
    reveal_strlit("elasticsearch");
    reveal_strlit("quicksight");
    reveal_strlit("stepfunctions");
    reveal_strlit("states");
    reveal_strlit("appsync");
    reveal_strlit("cognito");
    reveal_strlit("cloudformation");
    reveal_strlit("cfn");
    reveal_strlit("cloudtrail");
    reveal_strlit("logs");
    reveal_strlit("cloudwatch-logs");
    reveal_strlit("cloudwatch");
    reveal_strlit("config");
    let t = service_event_sources();
    assert(t[61].0 == "configservice"@ && t[61].1 == "config.amazonaws.com"@);
    assert(t[0].0 == "s3"@);
    assert(t[1].0 == "ec2"@);
    assert(t[2].0 == "lambda"@);
    assert(t[3].0 == "efs"@);
    assert(t[4].0 == "ecs"@);
    assert(t[5].0 == "eks"@);
    assert(t[6].0 == "batch"@);
    assert(t[7].0 == "rds"@);
    assert(t[8].0 == "dynamodb"@);
    assert(t[9].0 == "elasticache"@);
    assert(t[10].0 == "neptune"@);
    assert(t[11].0 == "redshift"@);
    assert(t[12].0 == "iam"@);
    assert(t[13].0 == "sts"@);
    assert(t[14].0 == "kms"@);
    assert(t[15].0 == "secretsmanager"@);
    assert(t[16].0 == "secrets"@);
    assert(t[17].0 == "ssm"@);
    assert(t[18].0 == "guardduty"@);
    assert(t[19].0 == "securityhub"@);
    assert(t[20].0 == "acm"@);
    assert(t[21].0 == "organizations"@);
    assert("organizations"@[0] != "configservice"@[0]);
    assert(t[22].0 == "elb"@);
    assert(t[23].0 == "elasticloadbalancing"@);
    assert(t[24].0 == "elbv2"@);
    assert(t[25].0 == "elasticloadbalancingv2"@);
    assert(t[26].0 == "route53"@);
    assert(t[27].0 == "apigateway"@);
    assert(t[28].0 == "apigatewayv2"@);
    assert(t[29].0 == "cloudfront"@);
    assert(t[30].0 == "waf"@);
    assert(t[31].0 == "wafv2"@);
    assert(t[32].0 == "sns"@);
    assert(t[33].0 == "sqs"@);
    assert(t[34].0 == "eventbridge"@);
    assert(t[35].0 == "events"@);
    assert(t[36].0 == "kinesis"@);
    assert(t[37].0 == "firehose"@);
    assert(t[38].0 == "kinesisfirehose"@);
    assert(t[39].0 == "codecommit"@);
    assert(t[40].0 == "codebuild"@);
    assert(t[41].0 == "codedeploy"@);
    assert(t[42].0 == "codepipeline"@);
    assert(t[43].0 == "athena"@);
    assert(t[44].0 == "glue"@);
    assert(t[45].0 == "emr"@);
    assert(t[46].0 == "sagemaker"@);
    assert(t[47].0 == "opensearch"@);
    assert(t[48].0 == "elasticsearch"@);
    assert("elasticsearch"@[0] != "configservice"@[0]);
    assert(t[49].0 == "quicksight"@);
    assert(t[50].0 == "stepfunctions"@);
    assert("stepfunctions"@[0] != "configservice"@[0]);
    assert(t[51].0 == "states"@);
    assert(t[52].0 == "appsync"@);
    assert(t[53].0 == "cognito"@);
    assert(t[54].0 == "cloudformation"@);
    assert(t[55].0 == "cfn"@);
    assert(t[56].0 == "cloudtrail"@);
    assert(t[57].0 == "logs"@);
    assert(t[58].0 == "cloudwatch-logs"@);
    assert(t[59].0 == "cloudwatch"@);
    assert(t[60].0 == "config"@);
    lemma_table_lookup_at(t, "configservice"@, 61);
}

#[verifier::spinoff_prover]
proof fn lemma_event_source_entry_62()
    ensures
        table_lookup(service_event_sources(), "backup"@) == Some("backup.amazonaws.com"@),
{
    reveal_strlit("backup");
    reveal_strlit("backup.amazonaws.com");
    reveal_strlit("s3");
    reveal_strlit("ec2");
    reveal_strlit("lambda");
    reveal_strlit("efs");
    reveal_strlit("ecs");
    reveal_strlit("eks");
    reveal_strlit("batch");
    reveal_strlit("rds");
    reveal_strlit("dynamodb");
    reveal_strlit("elasticache");
    reveal_strlit("neptune");
    reveal_strlit("redshift");
    reveal_strlit("iam");
    reveal_strlit("sts");
    reveal_strlit("kms");
    reveal_strlit("secretsmanager");
    reveal_strlit("secrets");
    reveal_strlit("ssm");
    reveal_strlit("guardduty");
    reveal_strlit("securityhub");
    reveal_strlit("acm");
    reveal_strlit("organizations");
    reveal_strlit("elb");
    reveal_strlit("elasticloadbalancing");
    reveal_strlit("elbv2");
    reveal_strlit("elasticloadbalancingv2");
    reveal_strlit("route53");
    reveal_strlit("apigateway");
    reveal_strlit("apigatewayv2");
    reveal_strlit("cloudfront");
    reveal_strlit("waf");
    reveal_strlit("wafv2");
    reveal_strlit("sns");
    reveal_strlit("sqs");
    reveal_strlit("eventbridge");
    reveal_strlit("events");
    reveal_strlit("kinesis");
    reveal_strlit("firehose");
    reveal_strlit("kinesisfirehose");
    reveal_strlit("codecommit");
    reveal_strlit("codebuild");
    reveal_strlit("codedeploy");
    reveal_strlit("codepipeline");
    reveal_strlit("athena");
    reveal_strlit("glue");
    reveal_strlit("emr");
    reveal_strlit("sagemaker");
    reveal_strlit("opensearch");
    reveal_strlit("elasticsearch");
    reveal_strlit("quicksight");
    reveal_strlit("stepfunctions");
    reveal_strlit("states");
    reveal_strlit("appsync");
    reveal_strlit("cognito");
    reveal_strlit("cloudformation");
    reveal_strlit("cfn");
    reveal_strlit("cloudtrail");
    reveal_strlit("logs");
    reveal_strlit("cloudwatch-logs");
    reveal_strlit("cloudwatch");
    reveal_strlit("config");
    reveal_strlit("configservice");
    let t = service_event_sources();
    assert(t[62].0 == "backup"@ && t[62].1 == "backup.amazonaws.com"@);
    assert(t[0].0 == "s3"@);
    assert(t[1].0 == "ec2"@);
    assert(t[2].0 == "lambda"@);
    assert("lambda"@[0] != "backup"@[0]);
    assert(t[3].0 == "efs"@);
    assert(t[4].0 == "ecs"@);
    assert(t[5].0 == "eks"@);
    assert(t[6].0 == "batch"@);
    assert(t[7].0 == "rds"@);
    assert(t[8].0 == "dynamodb"@);
    assert(t[9].0 == "elasticache"@);
    assert(t[10].0 == "neptune"@);
    assert(t[11].0 == "redshift"@);
    assert(t[12].0 == "iam"@);
    assert(t[13].0 == "sts"@);
    assert(t[14].0 == "kms"@);
    assert(t[15].0 == "secretsmanager"@);
    assert(t[16].0 == "secrets"@);
    assert(t[17].0 == "ssm"@);
    assert(t[18].0 == "guardduty"@);
    assert(t[19].0 == "securityhub"@);
    assert(t[20].0 == "acm"@);
    assert(t[21].0 == "organizations"@);
    assert(t[22].0 == "elb"@);
    assert(t[23].0 == "elasticloadbalancing"@);
    assert(t[24].0 == "elbv2"@);
    assert(t[25].0 == "elasticloadbalancingv2"@);
    assert(t[26].0 == "route53"@);
    assert(t[27].0 == "apigateway"@);
    assert(t[28].0 == "apigatewayv2"@);
    assert(t[29].0 == "cloudfront"@);
    assert(t[30].0 == "waf"@);
    assert(t[31].0 == "wafv2"@);
    assert(t[32].0 == "sns"@);
    assert(t[33].0 == "sqs"@);
    assert(t[34].0 == "eventbridge"@);
    assert(t[35].0 == "events"@);
    assert("events"@[0] != "backup"@[0]);
    assert(t[36].0 == "kinesis"@);
    assert(t[37].0 == "firehose"@);
    assert(t[38].0 == "kinesisfirehose"@);
    assert(t[39].0 == "codecommit"@);
    assert(t[40].0 == "codebuild"@);
    assert(t[41].0 == "codedeploy"@);
    assert(t[42].0 == "codepipeline"@);
    assert(t[43].0 == "athena"@);
    assert("athena"@[0] != "backup"@[0]);
    assert(t[44].0 == "glue"@);
    assert(t[45].0 == "emr"@);
    assert(t[46].0 == "sagemaker"@);
    assert(t[47].0 == "opensearch"@);
    assert(t[48].0 == "elasticsearch"@);
    assert(t[49].0 == "quicksight"@);
    assert(t[50].0 == "stepfunctions"@);
    assert(t[51].0 == "states"@);
    assert("states"@[0] != "backup"@[0]);
    assert(t[52].0 == "appsync"@);
    assert(t[53].0 == "cognito"@);
    assert(t[54].0 == "cloudformation"@);
    assert(t[55].0 == "cfn"@);
    assert(t[56].0 == "cloudtrail"@);
    assert(t[57].0 == "logs"@);
    assert(t[58].0 == "cloudwatch-logs"@);
    assert(t[59].0 == "cloudwatch"@);
    assert(t[60].0 == "config"@);
    assert("config"@[0] != "backup"@[0]);
    assert(t[61].0 == "configservice"@);
    lemma_table_lookup_at(t, "backup"@, 62);
}

#[verifier::spinoff_prover]
proof fn lemma_event_source_entry_63()
    ensures
        table_lookup(service_event_sources(), "transfer"@) == Some("transfer.amazonaws.com"@),
{
    reveal_strlit("transfer");
    reveal_strlit("transfer.amazonaws.com");
    reveal_strlit("s3");
    reveal_strlit("ec2");
    reveal_strlit("lambda");
    reveal_strlit("efs");
    reveal_strlit("ecs");
    reveal_strlit("eks");
    reveal_strlit("batch");
    reveal_strlit("rds");
    reveal_strlit("dynamodb");
    reveal_strlit("elasticache");
    reveal_strlit("neptune");
    reveal_strlit("redshift");
    reveal_strlit("iam");
    reveal_strlit("sts");
    reveal_strlit("kms");
    reveal_strlit("secretsmanager");
    reveal_strlit("secrets");
    reveal_strlit("ssm");
    reveal_strlit("guardduty");
    reveal_strlit("securityhub");
    reveal_strlit("acm");
    reveal_strlit("organizations");
    reveal_strlit("elb");
    reveal_strlit("elasticloadbalancing");
    reveal_strlit("elbv2");
    reveal_strlit("elasticloadbalancingv2");
    reveal_strlit("route53");
    reveal_strlit("apigateway");
    reveal_strlit("apigatewayv2");
    reveal_strlit("cloudfront");
    reveal_strlit("waf");
    reveal_strlit("wafv2");
    reveal_strlit("sns");
    reveal_strlit("sqs");
    reveal_strlit("eventbridge");
    reveal_strlit("events");
    reveal_strlit("kinesis");
    reveal_strlit("firehose");
    reveal_strlit("kinesisfirehose");
    reveal_strlit("codecommit");
    reveal_strlit("codebuild");
    reveal_strlit("codedeploy");
    reveal_strlit("codepipeline");
    reveal_strlit("athena");
    reveal_strlit("glue");
    reveal_strlit("emr");
    reveal_strlit("sagemaker");
    reveal_strlit("opensearch");
    reveal_strlit("elasticsearch");
    reveal_strlit("quicksight");
    reveal_strlit("stepfunctions");
    reveal_strlit("states");
    reveal_strlit("appsync");
    reveal_strlit("cognito");
    reveal_strlit("cloudformation");
    reveal_strlit("cfn");
    reveal_strlit("cloudtrail");
    reveal_strlit("logs");
    reveal_strlit("cloudwatch-logs");
    reveal_strlit("cloudwatch");
    reveal_strlit("config");
    reveal_strlit("configservice");
    reveal_strlit("backup");
    let t = service_event_sources();
    assert(t[63].0 == "transfer"@ && t[63].1 == "transfer.amazonaws.com"@);
    assert(t[0].0 == "s3"@);
    assert(t[1].0 == "ec2"@);
    assert(t[2].0 == "lambda"@);
    assert(t[3].0 == "efs"@);
    assert(t[4].0 == "ecs"@);
    assert(t[5].0 == "eks"@);
    assert(t[6].0 == "batch"@);
    assert(t[7].0 == "rds"@);
    assert(t[8].0 == "dynamodb"@);
    assert("dynamodb"@[0] != "transfer"@[0]);
    assert(t[9].0 == "elasticache"@);
    assert(t[10].0 == "neptune"@);
    assert(t[11].0 == "redshift"@);
    assert("redshift"@[0] != "transfer"@[0]);
    assert(t[12].0 == "iam"@);
    assert(t[13].0 == "sts"@);
    assert(t[14].0 == "kms"@);
    assert(t[15].0 == "secretsmanager"@);
    assert(t[16].0 == "secrets"@);
    assert(t[17].0 == "ssm"@);
    assert(t[18].0 == "guardduty"@);
    assert(t[19].0 == "securityhub"@);
    assert(t[20].0 == "acm"@);
    assert(t[21].0 == "organizations"@);
    assert(t[22].0 == "elb"@);
    assert(t[23].0 == "elasticloadbalancing"@);
    assert(t[24].0 == "elbv2"@);
    assert(t[25].0 == "elasticloadbalancingv2"@);
    assert(t[26].0 == "route53"@);
    assert(t[27].0 == "apigateway"@);
    assert(t[28].0 == "apigatewayv2"@);
    assert(t[29].0 == "cloudfront"@);
    assert(t[30].0 == "waf"@);
    assert(t[31].0 == "wafv2"@);
    assert(t[32].0 == "sns"@);
    assert(t[33].0 == "sqs"@);
    assert(t[34].0 == "eventbridge"@);
    assert(t[35].0 == "events"@);
    assert(t[36].0 == "kinesis"@);
    assert(t[37].0 == "firehose"@);
    assert("firehose"@[0] != "transfer"@[0]);
    assert(t[38].0 == "kinesisfirehose"@);
    assert(t[39].0 == "codecommit"@);
    assert(t[40].0 == "codebuild"@);
    assert(t[41].0 == "codedeploy"@);
    assert(t[42].0 == "codepipeline"@);
    assert(t[43].0 == "athena"@);
    assert(t[44].0 == "glue"@);
    assert(t[45].0 == "emr"@);
    assert(t[46].0 == "sagemaker"@);
    assert(t[47].0 == "opensearch"@);
    assert(t[48].0 == "elasticsearch"@);
    assert(t[49].0 == "quicksight"@);
    assert(t[50].0 == "stepfunctions"@);
    assert(t[51].0 == "states"@);
    assert(t[52].0 == "appsync"@);
    assert(t[53].0 == "cognito"@);
    assert(t[54].0 == "cloudformation"@);
    assert(t[55].0 == "cfn"@);
    assert(t[56].0 == "cloudtrail"@);
    assert(t[57].0 == "logs"@);
    assert(t[58].0 == "cloudwatch-logs"@);
    assert(t[59].0 == "cloudwatch"@);
    assert(t[60].0 == "config"@);
    assert(t[61].0 == "configservice"@);
    assert(t[62].0 == "backup"@);
    lemma_table_lookup_at(t, "transfer"@, 63);
}

/// A service whose lower-case name is one of the self-named services is
/// looked up under the event source `<name>.amazonaws.com` (so `lambda`,
/// `Lambda` and `LAMBDA` all give `lambda.amazonaws.com`).
pub proof fn law_self_named_event_sources(service_name: Seq<char>, i: int)
    requires
        0 <= i < self_named_services().len(),
        lowercase_text(service_name) == self_named_services()[i],
    ensures
        event_source_of(service_name) == self_named_services()[i] + ".amazonaws.com"@,
{
    let names = self_named_services();
    if i == 0 {
        assert(names[0] == "s3"@);
        lemma_event_source_entry_0();
        reveal_strlit("s3");
        reveal_strlit("s3.amazonaws.com");
        reveal_strlit(".amazonaws.com");
        assert("s3.amazonaws.com"@ =~= "s3"@ + ".amazonaws.com"@);
    } else if i == 1 {
        assert(names[1] == "ec2"@);
        lemma_event_source_entry_1();
        reveal_strlit("ec2");
        reveal_strlit("ec2.amazonaws.com");
        reveal_strlit(".amazonaws.com");
        assert("ec2.amazonaws.com"@ =~= "ec2"@ + ".amazonaws.com"@);
    } else if i == 2 {
        assert(names[2] == "lambda"@);
        lemma_event_source_entry_2();
        reveal_strlit("lambda");
        reveal_strlit("lambda.amazonaws.com");
        reveal_strlit(".amazonaws.com");
        assert("lambda.amazonaws.com"@ =~= "lambda"@ + ".amazonaws.com"@);
    } else if i == 3 {
        assert(names[3] == "ecs"@);
        lemma_event_source_entry_4();
        reveal_strlit("ecs");
        reveal_strlit("ecs.amazonaws.com");
        reveal_strlit(".amazonaws.com");
        assert("ecs.amazonaws.com"@ =~= "ecs"@ + ".amazonaws.com"@);
    } else if i == 4 {
        assert(names[4] == "eks"@);
        lemma_event_source_entry_5();
        reveal_strlit("eks");
        reveal_strlit("eks.amazonaws.com");
        reveal_strlit(".amazonaws.com");
        assert("eks.amazonaws.com"@ =~= "eks"@ + ".amazonaws.com"@);
    } else if i == 5 {
        assert(names[5] == "batch"@);
        lemma_event_source_entry_6();
        reveal_strlit("batch");
        reveal_strlit("batch.amazonaws.com");
        reveal_strlit(".amazonaws.com");
        assert("batch.amazonaws.com"@ =~= "batch"@ + ".amazonaws.com"@);
    } else if i == 6 {
        assert(names[6] == "rds"@);
        lemma_event_source_entry_7();
        reveal_strlit("rds");
        reveal_strlit("rds.amazonaws.com");
        reveal_strlit(".amazonaws.com");
        assert("rds.amazonaws.com"@ =~= "rds"@ + ".amazonaws.com"@);
    } else if i == 7 {
        assert(names[7] == "dynamodb"@);
        lemma_event_source_entry_8();
        reveal_strlit("dynamodb");
        reveal_strlit("dynamodb.amazonaws.com");
        reveal_strlit(".amazonaws.com");
        assert("dynamodb.amazonaws.com"@ =~= "dynamodb"@ + ".amazonaws.com"@);
    } else if i == 8 {
        assert(names[8] == "elasticache"@);
        lemma_event_source_entry_9();
        reveal_strlit("elasticache");
        reveal_strlit("elasticache.amazonaws.com");
        reveal_strlit(".amazonaws.com");
        assert("elasticache.amazonaws.com"@ =~= "elasticache"@ + ".amazonaws.com"@);
    } else if i == 9 {
        assert(names[9] == "neptune"@);
        lemma_event_source_entry_10();
        reveal_strlit("neptune");
        reveal_strlit("neptune.amazonaws.com");
        reveal_strlit(".amazonaws.com");
        assert("neptune.amazonaws.com"@ =~= "neptune"@ + ".amazonaws.com"@);
    } else if i == 10 {
        assert(names[10] == "redshift"@);
        lemma_event_source_entry_11();
        reveal_strlit("redshift");
        reveal_strlit("redshift.amazonaws.com");
        reveal_strlit(".amazonaws.com");
        assert("redshift.amazonaws.com"@ =~= "redshift"@ + ".amazonaws.com"@);
    } else if i == 11 {
        assert(names[11] == "iam"@);
        lemma_event_source_entry_12();
        reveal_strlit("iam");
        reveal_strlit("iam.amazonaws.com");
        reveal_strlit(".amazonaws.com");
        assert("iam.amazonaws.com"@ =~= "iam"@ + ".amazonaws.com"@);
    } else if i == 12 {
        assert(names[12] == "sts"@);
        lemma_event_source_entry_13();
        reveal_strlit("sts");
        reveal_strlit("sts.amazonaws.com");
        reveal_strlit(".amazonaws.com");
        assert("sts.amazonaws.com"@ =~= "sts"@ + ".amazonaws.com"@);
    } else if i == 13 {
        assert(names[13] == "kms"@);
        lemma_event_source_entry_14();
        reveal_strlit("kms");
        reveal_strlit("kms.amazonaws.com");
        reveal_strlit(".amazonaws.com");
        assert("kms.amazonaws.com"@ =~= "kms"@ + ".amazonaws.com"@);
    } else if i == 14 {
        assert(names[14] == "secretsmanager"@);
        lemma_event_source_entry_15();
        reveal_strlit("secretsmanager");
        reveal_strlit("secretsmanager.amazonaws.com");
        reveal_strlit(".amazonaws.com");
        assert("secretsmanager.amazonaws.com"@ =~= "secretsmanager"@ + ".amazonaws.com"@);
    } else if i == 15 {
        assert(names[15] == "ssm"@);
        lemma_event_source_entry_17();
        reveal_strlit("ssm");
        reveal_strlit("ssm.amazonaws.com");
        reveal_strlit(".amazonaws.com");
        assert("ssm.amazonaws.com"@ =~= "ssm"@ + ".amazonaws.com"@);
    } else if i == 16 {
        assert(names[16] == "guardduty"@);
        lemma_event_source_entry_18();
        reveal_strlit("guardduty");
        reveal_strlit("guardduty.amazonaws.com");
        reveal_strlit(".amazonaws.com");
        assert("guardduty.amazonaws.com"@ =~= "guardduty"@ + ".amazonaws.com"@);
    } else if i == 17 {
        assert(names[17] == "securityhub"@);
        lemma_event_source_entry_19();
        reveal_strlit("securityhub");
        reveal_strlit("securityhub.amazonaws.com");
        reveal_strlit(".amazonaws.com");
        assert("securityhub.amazonaws.com"@ =~= "securityhub"@ + ".amazonaws.com"@);
    } else if i == 18 {
        assert(names[18] == "acm"@);
        lemma_event_source_entry_20();
        reveal_strlit("acm");
        reveal_strlit("acm.amazonaws.com");
        reveal_strlit(".amazonaws.com");
        assert("acm.amazonaws.com"@ =~= "acm"@ + ".amazonaws.com"@);
    } else if i == 19 {
        assert(names[19] == "organizations"@);
        lemma_event_source_entry_21();
        reveal_strlit("organizations");
        reveal_strlit("organizations.amazonaws.com");
        reveal_strlit(".amazonaws.com");
        assert("organizations.amazonaws.com"@ =~= "organizations"@ + ".amazonaws.com"@);
    } else if i == 20 {
        assert(names[20] == "elasticloadbalancing"@);
        lemma_event_source_entry_23();
        reveal_strlit("elasticloadbalancing");
        reveal_strlit("elasticloadbalancing.amazonaws.com");
        reveal_strlit(".amazonaws.com");
        assert("elasticloadbalancing.amazonaws.com"@ =~= "elasticloadbalancing"@ + ".amazonaws.com"@);
    } else if i == 21 {
        assert(names[21] == "elasticloadbalancingv2"@);
        lemma_event_source_entry_25();
        reveal_strlit("elasticloadbalancingv2");
        reveal_strlit("elasticloadbalancingv2.amazonaws.com");
        reveal_strlit(".amazonaws.com");
        assert("elasticloadbalancingv2.amazonaws.com"@ =~= "elasticloadbalancingv2"@ + ".amazonaws.com"@);
    } else if i == 22 {
        assert(names[22] == "route53"@);
        lemma_event_source_entry_26();
        reveal_strlit("route53");
        reveal_strlit("route53.amazonaws.com");
        reveal_strlit(".amazonaws.com");
        assert("route53.amazonaws.com"@ =~= "route53"@ + ".amazonaws.com"@);
    } else if i == 23 {
        assert(names[23] == "apigateway"@);
        lemma_event_source_entry_27();
        reveal_strlit("apigateway");
        reveal_strlit("apigateway.amazonaws.com");
        reveal_strlit(".amazonaws.com");
        assert("apigateway.amazonaws.com"@ =~= "apigateway"@ + ".amazonaws.com"@);
    } else if i == 24 {
        assert(names[24] == "apigatewayv2"@);
        lemma_event_source_entry_28();
        reveal_strlit("apigatewayv2");
        reveal_strlit("apigatewayv2.amazonaws.com");
        reveal_strlit(".amazonaws.com");
        assert("apigatewayv2.amazonaws.com"@ =~= "apigatewayv2"@ + ".amazonaws.com"@);
    } else if i == 25 {
        assert(names[25] == "cloudfront"@);
        lemma_event_source_entry_29();
        reveal_strlit("cloudfront");
        reveal_strlit("cloudfront.amazonaws.com");
        reveal_strlit(".amazonaws.com");
        assert("cloudfront.amazonaws.com"@ =~= "cloudfront"@ + ".amazonaws.com"@);
    } else if i == 26 {
        assert(names[26] == "wafv2"@);
        lemma_event_source_entry_31();
        reveal_strlit("wafv2");
        reveal_strlit("wafv2.amazonaws.com");
        reveal_strlit(".amazonaws.com");
        assert("wafv2.amazonaws.com"@ =~= "wafv2"@ + ".amazonaws.com"@);
    } else if i == 27 {
        assert(names[27] == "sns"@);
        lemma_event_source_entry_32();
        reveal_strlit("sns");
        reveal_strlit("sns.amazonaws.com");
        reveal_strlit(".amazonaws.com");
        assert("sns.amazonaws.com"@ =~= "sns"@ + ".amazonaws.com"@);
    } else if i == 28 {
        assert(names[28] == "sqs"@);
        lemma_event_source_entry_33();
        reveal_strlit("sqs");
        reveal_strlit("sqs.amazonaws.com");
        reveal_strlit(".amazonaws.com");
        assert("sqs.amazonaws.com"@ =~= "sqs"@ + ".amazonaws.com"@);
    } else if i == 29 {
        assert(names[29] == "events"@);
        lemma_event_source_entry_35();
        reveal_strlit("events");
        reveal_strlit("events.amazonaws.com");
        reveal_strlit(".amazonaws.com");
        assert("events.amazonaws.com"@ =~= "events"@ + ".amazonaws.com"@);
    } else if i == 30 {
        assert(names[30] == "kinesis"@);
        lemma_event_source_entry_36();
        reveal_strlit("kinesis");
        reveal_strlit("kinesis.amazonaws.com");
        reveal_strlit(".amazonaws.com");
        assert("kinesis.amazonaws.com"@ =~= "kinesis"@ + ".amazonaws.com"@);
    } else if i == 31 {
        assert(names[31] == "firehose"@);
        lemma_event_source_entry_37();
        reveal_strlit("firehose");
        reveal_strlit("firehose.amazonaws.com");
        reveal_strlit(".amazonaws.com");
        assert("firehose.amazonaws.com"@ =~= "firehose"@ + ".amazonaws.com"@);
    } else if i == 32 {
        assert(names[32] == "codecommit"@);
        lemma_event_source_entry_39();
        reveal_strlit("codecommit");
        reveal_strlit("codecommit.amazonaws.com");
        reveal_strlit(".amazonaws.com");
        assert("codecommit.amazonaws.com"@ =~= "codecommit"@ + ".amazonaws.com"@);
    } else if i == 33 {
        assert(names[33] == "codebuild"@);
        lemma_event_source_entry_40();
        reveal_strlit("codebuild");
        reveal_strlit("codebuild.amazonaws.com");
        reveal_strlit(".amazonaws.com");
        assert("codebuild.amazonaws.com"@ =~= "codebuild"@ + ".amazonaws.com"@);
    } else if i == 34 {
        assert(names[34] == "codedeploy"@);
        lemma_event_source_entry_41();
        reveal_strlit("codedeploy");
        reveal_strlit("codedeploy.amazonaws.com");
        reveal_strlit(".amazonaws.com");
        assert("codedeploy.amazonaws.com"@ =~= "codedeploy"@ + ".amazonaws.com"@);
    } else if i == 35 {
        assert(names[35] == "codepipeline"@);
        lemma_event_source_entry_42();
        reveal_strlit("codepipeline");
        reveal_strlit("codepipeline.amazonaws.com");
        reveal_strlit(".amazonaws.com");
        assert("codepipeline.amazonaws.com"@ =~= "codepipeline"@ + ".amazonaws.com"@);
    } else if i == 36 {
        assert(names[36] == "athena"@);
        lemma_event_source_entry_43();
        reveal_strlit("athena");
        reveal_strlit("athena.amazonaws.com");
        reveal_strlit(".amazonaws.com");
        assert("athena.amazonaws.com"@ =~= "athena"@ + ".amazonaws.com"@);
    } else if i == 37 {
        assert(names[37] == "glue"@);
        lemma_event_source_entry_44();
        reveal_strlit("glue");
        reveal_strlit("glue.amazonaws.com");
        reveal_strlit(".amazonaws.com");
        assert("glue.amazonaws.com"@ =~= "glue"@ + ".amazonaws.com"@);
    } else if i == 38 {
        assert(names[38] == "sagemaker"@);
        lemma_event_source_entry_46();
        reveal_strlit("sagemaker");
        reveal_strlit("sagemaker.amazonaws.com");
        reveal_strlit(".amazonaws.com");
        assert("sagemaker.amazonaws.com"@ =~= "sagemaker"@ + ".amazonaws.com"@);
    } else if i == 39 {
        assert(names[39] == "opensearch"@);
        lemma_event_source_entry_47();
        reveal_strlit("opensearch");
        reveal_strlit("opensearch.amazonaws.com");
        reveal_strlit(".amazonaws.com");
        assert("opensearch.amazonaws.com"@ =~= "opensearch"@ + ".amazonaws.com"@);
    } else if i == 40 {
        assert(names[40] == "quicksight"@);
        lemma_event_source_entry_49();
        reveal_strlit("quicksight");
        reveal_strlit("quicksight.amazonaws.com");
        reveal_strlit(".amazonaws.com");
        assert("quicksight.amazonaws.com"@ =~= "quicksight"@ + ".amazonaws.com"@);
    } else if i == 41 {
        assert(names[41] == "states"@);
        lemma_event_source_entry_51();
        reveal_strlit("states");
        reveal_strlit("states.amazonaws.com");
        reveal_strlit(".amazonaws.com");
        assert("states.amazonaws.com"@ =~= "states"@ + ".amazonaws.com"@);
    } else if i == 42 {
        assert(names[42] == "appsync"@);
        lemma_event_source_entry_52();
        reveal_strlit("appsync");
        reveal_strlit("appsync.amazonaws.com");
        reveal_strlit(".amazonaws.com");
        assert("appsync.amazonaws.com"@ =~= "appsync"@ + ".amazonaws.com"@);
    } else if i == 43 {
        assert(names[43] == "cloudformation"@);
        lemma_event_source_entry_54();
        reveal_strlit("cloudformation");
        reveal_strlit("cloudformation.amazonaws.com");
        reveal_strlit(".amazonaws.com");
        assert("cloudformation.amazonaws.com"@ =~= "cloudformation"@ + ".amazonaws.com"@);
    } else if i == 44 {
        assert(names[44] == "cloudtrail"@);
        lemma_event_source_entry_56();
        reveal_strlit("cloudtrail");
        reveal_strlit("cloudtrail.amazonaws.com");
        reveal_strlit(".amazonaws.com");
        assert("cloudtrail.amazonaws.com"@ =~= "cloudtrail"@ + ".amazonaws.com"@);
    } else if i == 45 {
        assert(names[45] == "logs"@);
        lemma_event_source_entry_57();
        reveal_strlit("logs");
        reveal_strlit("logs.amazonaws.com");
        reveal_strlit(".amazonaws.com");
        assert("logs.amazonaws.com"@ =~= "logs"@ + ".amazonaws.com"@);
    } else if i == 46 {
        assert(names[46] == "config"@);
        lemma_event_source_entry_60();
        reveal_strlit("config");
        reveal_strlit("config.amazonaws.com");
        reveal_strlit(".amazonaws.com");
        assert("config.amazonaws.com"@ =~= "config"@ + ".amazonaws.com"@);
    } else if i == 47 {
        assert(names[47] == "backup"@);
        lemma_event_source_entry_62();
        reveal_strlit("backup");
        reveal_strlit("backup.amazonaws.com");
        reveal_strlit(".amazonaws.com");
        assert("backup.amazonaws.com"@ =~= "backup"@ + ".amazonaws.com"@);
    } else if i == 48 {
        assert(names[48] == "transfer"@);
        lemma_event_source_entry_63();
        reveal_strlit("transfer");
        reveal_strlit("transfer.amazonaws.com");
        reveal_strlit(".amazonaws.com");
        assert("transfer.amazonaws.com"@ =~= "transfer"@ + ".amazonaws.com"@);
    }
}

/// A service whose lower-case name is one of the renamed services is looked
/// up under that service's event source (`stepfunctions` under
/// `states.amazonaws.com`, `cloudwatch` under `monitoring.amazonaws.com`, ...).
pub proof fn law_renamed_event_sources(service_name: Seq<char>, i: int)
    requires
        0 <= i < renamed_services().len(),
        lowercase_text(service_name) == renamed_services()[i].0,
    ensures
        event_source_of(service_name) == renamed_services()[i].1 + ".amazonaws.com"@,
{
    let names = renamed_services();
    if i == 0 {
        assert(names[0].0 == "efs"@ && names[0].1 == "elasticfilesystem"@);
        lemma_event_source_entry_3();
        reveal_strlit("elasticfilesystem");
        reveal_strlit("elasticfilesystem.amazonaws.com");
        reveal_strlit(".amazonaws.com");
        assert("elasticfilesystem.amazonaws.com"@ =~= "elasticfilesystem"@ + ".amazonaws.com"@);
    } else if i == 1 {
        assert(names[1].0 == "secrets"@ && names[1].1 == "secretsmanager"@);
        lemma_event_source_entry_16();
        reveal_strlit("secretsmanager");
        reveal_strlit("secretsmanager.amazonaws.com");
        reveal_strlit(".amazonaws.com");
        assert("secretsmanager.amazonaws.com"@ =~= "secretsmanager"@ + ".amazonaws.com"@);
    } else if i == 2 {
        assert(names[2].0 == "elb"@ && names[2].1 == "elasticloadbalancing"@);
        lemma_event_source_entry_22();
        reveal_strlit("elasticloadbalancing");
        reveal_strlit("elasticloadbalancing.amazonaws.com");
        reveal_strlit(".amazonaws.com");
        assert("elasticloadbalancing.amazonaws.com"@ =~= "elasticloadbalancing"@ + ".amazonaws.com"@);
    } else if i == 3 {
        assert(names[3].0 == "elbv2"@ && names[3].1 == "elasticloadbalancingv2"@);
        lemma_event_source_entry_24();
        reveal_strlit("elasticloadbalancingv2");
        reveal_strlit("elasticloadbalancingv2.amazonaws.com");
        reveal_strlit(".amazonaws.com");
        assert("elasticloadbalancingv2.amazonaws.com"@ =~= "elasticloadbalancingv2"@ + ".amazonaws.com"@);
    } else if i == 4 {
        assert(names[4].0 == "waf"@ && names[4].1 == "wafv2"@);
        lemma_event_source_entry_30();
        reveal_strlit("wafv2");
        reveal_strlit("wafv2.amazonaws.com");
        reveal_strlit(".amazonaws.com");
        assert("wafv2.amazonaws.com"@ =~= "wafv2"@ + ".amazonaws.com"@);
    } else if i == 5 {
        assert(names[5].0 == "eventbridge"@ && names[5].1 == "events"@);
        lemma_event_source_entry_34();
        reveal_strlit("events");
        reveal_strlit("events.amazonaws.com");
        reveal_strlit(".amazonaws.com");
        assert("events.amazonaws.com"@ =~= "events"@ + ".amazonaws.com"@);
    } else if i == 6 {
        assert(names[6].0 == "kinesisfirehose"@ && names[6].1 == "firehose"@);
        lemma_event_source_entry_38();
        reveal_strlit("firehose");
        reveal_strlit("firehose.amazonaws.com");
        reveal_strlit(".amazonaws.com");
        assert("firehose.amazonaws.com"@ =~= "firehose"@ + ".amazonaws.com"@);
    } else if i == 7 {
        assert(names[7].0 == "emr"@ && names[7].1 == "elasticmapreduce"@);
        lemma_event_source_entry_45();
        reveal_strlit("elasticmapreduce");
        reveal_strlit("elasticmapreduce.amazonaws.com");
        reveal_strlit(".amazonaws.com");
        assert("elasticmapreduce.amazonaws.com"@ =~= "elasticmapreduce"@ + ".amazonaws.com"@);
    } else if i == 8 {
        assert(names[8].0 == "elasticsearch"@ && names[8].1 == "opensearch"@);
        lemma_event_source_entry_48();
        reveal_strlit("opensearch");
        reveal_strlit("opensearch.amazonaws.com");
        reveal_strlit(".amazonaws.com");
        assert("opensearch.amazonaws.com"@ =~= "opensearch"@ + ".amazonaws.com"@);
    } else if i == 9 {
        assert(names[9].0 == "stepfunctions"@ && names[9].1 == "states"@);
        lemma_event_source_entry_50();
        reveal_strlit("states");
        reveal_strlit("states.amazonaws.com");
        reveal_strlit(".amazonaws.com");
        assert("states.amazonaws.com"@ =~= "states"@ + ".amazonaws.com"@);
    } else if i == 10 {
        assert(names[10].0 == "cognito"@ && names[10].1 == "cognito-idp"@);
        lemma_event_source_entry_53();
        reveal_strlit("cognito-idp");
        reveal_strlit("cognito-idp.amazonaws.com");
        reveal_strlit(".amazonaws.com");
        assert("cognito-idp.amazonaws.com"@ =~= "cognito-idp"@ + ".amazonaws.com"@);
    } else if i == 11 {
        assert(names[11].0 == "cfn"@ && names[11].1 == "cloudformation"@);
        lemma_event_source_entry_55();
        reveal_strlit("cloudformation");
        reveal_strlit("cloudformation.amazonaws.com");
        reveal_strlit(".amazonaws.com");
        assert("cloudformation.amazonaws.com"@ =~= "cloudformation"@ + ".amazonaws.com"@);
    } else if i == 12 {
        assert(names[12].0 == "cloudwatch-logs"@ && names[12].1 == "logs"@);
        lemma_event_source_entry_58();
        reveal_strlit("logs");
        reveal_strlit("logs.amazonaws.com");
        reveal_strlit(".amazonaws.com");
        assert("logs.amazonaws.com"@ =~= "logs"@ + ".amazonaws.com"@);
    } else if i == 13 {
        assert(names[13].0 == "cloudwatch"@ && names[13].1 == "monitoring"@);
        lemma_event_source_entry_59();
        reveal_strlit("monitoring");
        reveal_strlit("monitoring.amazonaws.com");
        reveal_strlit(".amazonaws.com");
        assert("monitoring.amazonaws.com"@ =~= "monitoring"@ + ".amazonaws.com"@);
    } else if i == 14 {
        assert(names[14].0 == "configservice"@ && names[14].1 == "config"@);
        lemma_event_source_entry_61();
        reveal_strlit("config");
        reveal_strlit("config.amazonaws.com");
        reveal_strlit(".amazonaws.com");
        assert("config.amazonaws.com"@ =~= "config"@ + ".amazonaws.com"@);
    }
}


// ----- each reported field under its own key -----

/// What tells the keys of `trail_info_json` apart: their lengths, and a letter where two have the same length.
proof fn lemma_trail_info_json_keys_differ()
    ensures
        "ACTIVE"@.len() == 6 && "ACTIVE"@[0] == 'A',
        "HomeRegion"@.len() == 10 && "HomeRegion"@[0] == 'H',
        "Name"@.len() == 4,
        "ResourceId"@.len() == 10 && "ResourceId"@[0] == 'R',
        "Status"@.len() == 6 && "Status"@[0] == 'S',
        "TrailArn"@.len() == 8,
{
    reveal_strlit("ACTIVE");
    reveal_strlit("HomeRegion");
    reveal_strlit("Name");
    reveal_strlit("ResourceId");
    reveal_strlit("Status");
    reveal_strlit("TrailArn");
}

#[verifier::spinoff_prover]
#[verifier::rlimit(30)]
proof fn lemma_trail_info_json_fields_0(trail: TrailInfo)
    ensures
        trail_info_json(trail) is Object,
        ({
            let m = trail_info_json(trail)->Object_0;
            &&& trail.home_region is None ==> !m.contains_key("HomeRegion"@)
            &&& trail.home_region is Some ==> m.contains_key("HomeRegion"@) && m["HomeRegion"@] == JsonView::Str(trail.home_region->0@)
            &&& trail.name is None ==> !m.contains_key("Name"@)
            &&& trail.name is Some ==> m.contains_key("Name"@) && m["Name"@] == JsonView::Str(trail.name->0@)
            &&& trail.name is None ==> !m.contains_key("ResourceId"@)
            &&& trail.name is Some ==> m.contains_key("ResourceId"@) && m["ResourceId"@] == JsonView::Str(trail.name->0@)
        }),
{
    lemma_trail_info_json_keys_differ();
}

#[verifier::spinoff_prover]
#[verifier::rlimit(30)]
proof fn lemma_trail_info_json_fields_1(trail: TrailInfo)
    ensures
        trail_info_json(trail) is Object,
        ({
            let m = trail_info_json(trail)->Object_0;
            &&& trail.trail_arn is None ==> !m.contains_key("TrailArn"@)
            &&& trail.trail_arn is Some ==> m.contains_key("TrailArn"@) && m["TrailArn"@] == JsonView::Str(trail.trail_arn->0@)
        }),
{
    lemma_trail_info_json_keys_differ();
}

/// The object of a trail info holds each reported field of it under its own key, and such a key is missing exactly when AWS did not report the field.
pub proof fn law_trail_info_fields(trail: TrailInfo)
    ensures
        trail_info_json(trail) is Object,
        ({
            let m = trail_info_json(trail)->Object_0;
            &&& trail.home_region is None ==> !m.contains_key("HomeRegion"@)
            &&& trail.home_region is Some ==> m.contains_key("HomeRegion"@) && m["HomeRegion"@] == JsonView::Str(trail.home_region->0@)
            &&& trail.name is None ==> !m.contains_key("Name"@)
            &&& trail.name is Some ==> m.contains_key("Name"@) && m["Name"@] == JsonView::Str(trail.name->0@)
            &&& trail.name is None ==> !m.contains_key("ResourceId"@)
            &&& trail.name is Some ==> m.contains_key("ResourceId"@) && m["ResourceId"@] == JsonView::Str(trail.name->0@)
            &&& trail.trail_arn is None ==> !m.contains_key("TrailArn"@)
            &&& trail.trail_arn is Some ==> m.contains_key("TrailArn"@) && m["TrailArn"@] == JsonView::Str(trail.trail_arn->0@)
        }),
{
    lemma_trail_info_json_fields_0(trail);
    lemma_trail_info_json_fields_1(trail);
}

/// What tells the keys of `trail_json` apart: their lengths, and a letter where two have the same length.
proof fn lemma_trail_json_keys_differ()
    ensures
        "ACTIVE"@.len() == 6 && "ACTIVE"@[0] == 'A',
        "CloudWatchLogsLogGroupArn"@.len() == 25,
        "CloudWatchLogsRoleArn"@.len() == 21,
        "HasCustomEventSelectors"@.len() == 23,
        "HasInsightSelectors"@.len() == 19 && "HasInsightSelectors"@[0] == 'H',
        "HomeRegion"@.len() == 10 && "HomeRegion"@[0] == 'H',
        "IncludeGlobalServiceEvents"@.len() == 26,
        "IsMultiRegionTrail"@.len() == 18,
        "IsOrganizationTrail"@.len() == 19 && "IsOrganizationTrail"@[0] == 'I',
        "KmsKeyId"@.len() == 8 && "KmsKeyId"@[0] == 'K',
        "LogFileValidationEnabled"@.len() == 24,
        "Name"@.len() == 4,
        "ResourceId"@.len() == 10 && "ResourceId"@[0] == 'R',
        "S3BucketName"@.len() == 12,
        "S3KeyPrefix"@.len() == 11 && "S3KeyPrefix"@[1] == '3',
        "SnsTopicArn"@.len() == 11 && "SnsTopicArn"@[1] == 'n',
        "Status"@.len() == 6 && "Status"@[0] == 'S',
        "TrailArn"@.len() == 8 && "TrailArn"@[0] == 'T',
{
    reveal_strlit("ACTIVE");
    reveal_strlit("CloudWatchLogsLogGroupArn");
    reveal_strlit("CloudWatchLogsRoleArn");
    reveal_strlit("HasCustomEventSelectors");
    reveal_strlit("HasInsightSelectors");
    reveal_strlit("HomeRegion");
    reveal_strlit("IncludeGlobalServiceEvents");
    reveal_strlit("IsMultiRegionTrail");
    reveal_strlit("IsOrganizationTrail");
    reveal_strlit("KmsKeyId");
    reveal_strlit("LogFileValidationEnabled");
    reveal_strlit("Name");
    reveal_strlit("ResourceId");
    reveal_strlit("S3BucketName");
    reveal_strlit("S3KeyPrefix");
    reveal_strlit("SnsTopicArn");
    reveal_strlit("Status");
    reveal_strlit("TrailArn");
}

#[verifier::spinoff_prover]
#[verifier::rlimit(30)]
proof fn lemma_trail_json_fields_0(trail: Trail)
    ensures
        trail_json(trail) is Object,
        ({
            let m = trail_json(trail)->Object_0;
            &&& trail.cloud_watch_logs_log_group_arn is None ==> !m.contains_key("CloudWatchLogsLogGroupArn"@)
            &&& trail.cloud_watch_logs_log_group_arn is Some ==> m.contains_key("CloudWatchLogsLogGroupArn"@) && m["CloudWatchLogsLogGroupArn"@] == JsonView::Str(trail.cloud_watch_logs_log_group_arn->0@)
            &&& trail.cloud_watch_logs_role_arn is None ==> !m.contains_key("CloudWatchLogsRoleArn"@)
            &&& trail.cloud_watch_logs_role_arn is Some ==> m.contains_key("CloudWatchLogsRoleArn"@) && m["CloudWatchLogsRoleArn"@] == JsonView::Str(trail.cloud_watch_logs_role_arn->0@)
            &&& trail.home_region is None ==> !m.contains_key("HomeRegion"@)
            &&& trail.home_region is Some ==> m.contains_key("HomeRegion"@) && m["HomeRegion"@] == JsonView::Str(trail.home_region->0@)
        }),
{
    lemma_trail_json_keys_differ();
}

#[verifier::spinoff_prover]
#[verifier::rlimit(30)]
proof fn lemma_trail_json_fields_1(trail: Trail)
    ensures
        trail_json(trail) is Object,
        ({
            let m = trail_json(trail)->Object_0;
            &&& trail.kms_key_id is None ==> !m.contains_key("KmsKeyId"@)
            &&& trail.kms_key_id is Some ==> m.contains_key("KmsKeyId"@) && m["KmsKeyId"@] == JsonView::Str(trail.kms_key_id->0@)
            &&& trail.name is None ==> !m.contains_key("Name"@)
            &&& trail.name is Some ==> m.contains_key("Name"@) && m["Name"@] == JsonView::Str(trail.name->0@)
            &&& trail.name is None ==> !m.contains_key("ResourceId"@)
            &&& trail.name is Some ==> m.contains_key("ResourceId"@) && m["ResourceId"@] == JsonView::Str(trail.name->0@)
        }),
{
    lemma_trail_json_keys_differ();
}

#[verifier::spinoff_prover]
#[verifier::rlimit(30)]
proof fn lemma_trail_json_fields_2(trail: Trail)
    ensures
        trail_json(trail) is Object,
        ({
            let m = trail_json(trail)->Object_0;
            &&& trail.s3_bucket_name is None ==> !m.contains_key("S3BucketName"@)
            &&& trail.s3_bucket_name is Some ==> m.contains_key("S3BucketName"@) && m["S3BucketName"@] == JsonView::Str(trail.s3_bucket_name->0@)
            &&& trail.s3_key_prefix is None ==> !m.contains_key("S3KeyPrefix"@)
            &&& trail.s3_key_prefix is Some ==> m.contains_key("S3KeyPrefix"@) && m["S3KeyPrefix"@] == JsonView::Str(trail.s3_key_prefix->0@)
            &&& trail.sns_topic_arn is None ==> !m.contains_key("SnsTopicArn"@)
            &&& trail.sns_topic_arn is Some ==> m.contains_key("SnsTopicArn"@) && m["SnsTopicArn"@] == JsonView::Str(trail.sns_topic_arn->0@)
        }),
{
    lemma_trail_json_keys_differ();
}

#[verifier::spinoff_prover]
#[verifier::rlimit(30)]
proof fn lemma_trail_json_fields_3(trail: Trail)
    ensures
        trail_json(trail) is Object,
        ({
            let m = trail_json(trail)->Object_0;
            &&& trail.trail_arn is None ==> !m.contains_key("TrailArn"@)
            &&& trail.trail_arn is Some ==> m.contains_key("TrailArn"@) && m["TrailArn"@] == JsonView::Str(trail.trail_arn->0@)
        }),
{
    lemma_trail_json_keys_differ();
}

/// The object of a trail holds each reported field of it under its own key, and such a key is missing exactly when AWS did not report the field.
pub proof fn law_trail_fields(trail: Trail)
    ensures
        trail_json(trail) is Object,
        ({
            let m = trail_json(trail)->Object_0;
            &&& trail.cloud_watch_logs_log_group_arn is None ==> !m.contains_key("CloudWatchLogsLogGroupArn"@)
            &&& trail.cloud_watch_logs_log_group_arn is Some ==> m.contains_key("CloudWatchLogsLogGroupArn"@) && m["CloudWatchLogsLogGroupArn"@] == JsonView::Str(trail.cloud_watch_logs_log_group_arn->0@)
            &&& trail.cloud_watch_logs_role_arn is None ==> !m.contains_key("CloudWatchLogsRoleArn"@)
            &&& trail.cloud_watch_logs_role_arn is Some ==> m.contains_key("CloudWatchLogsRoleArn"@) && m["CloudWatchLogsRoleArn"@] == JsonView::Str(trail.cloud_watch_logs_role_arn->0@)
            &&& trail.home_region is None ==> !m.contains_key("HomeRegion"@)
            &&& trail.home_region is Some ==> m.contains_key("HomeRegion"@) && m["HomeRegion"@] == JsonView::Str(trail.home_region->0@)
            &&& trail.kms_key_id is None ==> !m.contains_key("KmsKeyId"@)
            &&& trail.kms_key_id is Some ==> m.contains_key("KmsKeyId"@) && m["KmsKeyId"@] == JsonView::Str(trail.kms_key_id->0@)
            &&& trail.name is None ==> !m.contains_key("Name"@)
            &&& trail.name is Some ==> m.contains_key("Name"@) && m["Name"@] == JsonView::Str(trail.name->0@)
            &&& trail.name is None ==> !m.contains_key("ResourceId"@)
            &&& trail.name is Some ==> m.contains_key("ResourceId"@) && m["ResourceId"@] == JsonView::Str(trail.name->0@)
            &&& trail.s3_bucket_name is None ==> !m.contains_key("S3BucketName"@)
            &&& trail.s3_bucket_name is Some ==> m.contains_key("S3BucketName"@) && m["S3BucketName"@] == JsonView::Str(trail.s3_bucket_name->0@)
            &&& trail.s3_key_prefix is None ==> !m.contains_key("S3KeyPrefix"@)
            &&& trail.s3_key_prefix is Some ==> m.contains_key("S3KeyPrefix"@) && m["S3KeyPrefix"@] == JsonView::Str(trail.s3_key_prefix->0@)
            &&& trail.sns_topic_arn is None ==> !m.contains_key("SnsTopicArn"@)
            &&& trail.sns_topic_arn is Some ==> m.contains_key("SnsTopicArn"@) && m["SnsTopicArn"@] == JsonView::Str(trail.sns_topic_arn->0@)
            &&& trail.trail_arn is None ==> !m.contains_key("TrailArn"@)
            &&& trail.trail_arn is Some ==> m.contains_key("TrailArn"@) && m["TrailArn"@] == JsonView::Str(trail.trail_arn->0@)
        }),
{
    lemma_trail_json_fields_0(trail);
    lemma_trail_json_fields_1(trail);
    lemma_trail_json_fields_2(trail);
    lemma_trail_json_fields_3(trail);
}

/// What tells the keys of `resource_json` apart: their lengths, and a letter where two have the same length.
proof fn lemma_resource_json_keys_differ()
    ensures
        "ResourceName"@.len() == 12 && "ResourceName"@[8] == 'N',
        "ResourceType"@.len() == 12 && "ResourceType"@[8] == 'T',
{
    reveal_strlit("ResourceName");
    reveal_strlit("ResourceType");
}

#[verifier::spinoff_prover]
#[verifier::rlimit(30)]
proof fn lemma_resource_json_fields_0(x: Resource)
    ensures
        resource_json(x) is Object,
        ({
            let m = resource_json(x)->Object_0;
            &&& x.resource_name is None ==> !m.contains_key("ResourceName"@)
            &&& x.resource_name is Some ==> m.contains_key("ResourceName"@) && m["ResourceName"@] == JsonView::Str(x.resource_name->0@)
            &&& x.resource_type is None ==> !m.contains_key("ResourceType"@)
            &&& x.resource_type is Some ==> m.contains_key("ResourceType"@) && m["ResourceType"@] == JsonView::Str(x.resource_type->0@)
        }),
{
    lemma_resource_json_keys_differ();
}

/// The object of a resource holds each reported field of it under its own key, and such a key is missing exactly when AWS did not report the field.
pub proof fn law_resource_fields(x: Resource)
    ensures
        resource_json(x) is Object,
        ({
            let m = resource_json(x)->Object_0;
            &&& x.resource_name is None ==> !m.contains_key("ResourceName"@)
            &&& x.resource_name is Some ==> m.contains_key("ResourceName"@) && m["ResourceName"@] == JsonView::Str(x.resource_name->0@)
            &&& x.resource_type is None ==> !m.contains_key("ResourceType"@)
            &&& x.resource_type is Some ==> m.contains_key("ResourceType"@) && m["ResourceType"@] == JsonView::Str(x.resource_type->0@)
        }),
{
    lemma_resource_json_fields_0(x);
}

/// What tells the keys of `event_json` apart: their lengths, and a letter where two have the same length.
proof fn lemma_event_json_keys_differ()
    ensures
        "AccessKeyId"@.len() == 11 && "AccessKeyId"@[0] == 'A',
        "CloudTrailEvent"@.len() == 15,
        "EventId"@.len() == 7,
        "EventName"@.len() == 9 && "EventName"@[5] == 'N' && "EventName"@[0] == 'E',
        "EventSource"@.len() == 11 && "EventSource"@[0] == 'E',
        "EventTime"@.len() == 9 && "EventTime"@[5] == 'T' && "EventTime"@[0] == 'E',
        "ReadOnly"@.len() == 8 && "ReadOnly"@[0] == 'R',
        "Resources"@.len() == 9 && "Resources"@[0] == 'R',
        "Username"@.len() == 8 && "Username"@[0] == 'U',
{
    reveal_strlit("AccessKeyId");
    reveal_strlit("CloudTrailEvent");
    reveal_strlit("EventId");
    reveal_strlit("EventName");
    reveal_strlit("EventSource");
    reveal_strlit("EventTime");
    reveal_strlit("ReadOnly");
    reveal_strlit("Resources");
    reveal_strlit("Username");
}

#[verifier::spinoff_prover]
#[verifier::rlimit(30)]
proof fn lemma_event_json_fields_0(event: Event)
    ensures
        event_json(event) is Object,
        ({
            let m = event_json(event)->Object_0;
            &&& event.access_key_id is None ==> !m.contains_key("AccessKeyId"@)
            &&& event.access_key_id is Some ==> m.contains_key("AccessKeyId"@) && m["AccessKeyId"@] == JsonView::Str(event.access_key_id->0@)
            &&& event.event_id is None ==> !m.contains_key("EventId"@)
            &&& event.event_id is Some ==> m.contains_key("EventId"@) && m["EventId"@] == JsonView::Str(event.event_id->0@)
            &&& event.event_name is None ==> !m.contains_key("EventName"@)
            &&& event.event_name is Some ==> m.contains_key("EventName"@) && m["EventName"@] == JsonView::Str(event.event_name->0@)
        }),
{
    lemma_event_json_keys_differ();
}

#[verifier::spinoff_prover]
#[verifier::rlimit(30)]
proof fn lemma_event_json_fields_1(event: Event)
    ensures
        event_json(event) is Object,
        ({
            let m = event_json(event)->Object_0;
            &&& event.event_source is None ==> !m.contains_key("EventSource"@)
            &&& event.event_source is Some ==> m.contains_key("EventSource"@) && m["EventSource"@] == JsonView::Str(event.event_source->0@)
            &&& event.event_time is None ==> !m.contains_key("EventTime"@)
            &&& event.event_time is Some ==> m.contains_key("EventTime"@) && m["EventTime"@] == ts_json(event.event_time->0)
            &&& event.read_only is None ==> !m.contains_key("ReadOnly"@)
            &&& event.read_only is Some ==> m.contains_key("ReadOnly"@) && m["ReadOnly"@] == JsonView::Str(event.read_only->0@)
        }),
{
    lemma_event_json_keys_differ();
}

#[verifier::spinoff_prover]
#[verifier::rlimit(30)]
proof fn lemma_event_json_fields_2(event: Event)
    ensures
        event_json(event) is Object,
        ({
            let m = event_json(event)->Object_0;
            &&& event.username is None ==> !m.contains_key("Username"@)
            &&& event.username is Some ==> m.contains_key("Username"@) && m["Username"@] == JsonView::Str(event.username->0@)
        }),
{
    lemma_event_json_keys_differ();
}

/// The object of a event holds each reported field of it under its own key, and such a key is missing exactly when AWS did not report the field.
pub proof fn law_event_fields(event: Event)
    ensures
        event_json(event) is Object,
        ({
            let m = event_json(event)->Object_0;
            &&& event.access_key_id is None ==> !m.contains_key("AccessKeyId"@)
            &&& event.access_key_id is Some ==> m.contains_key("AccessKeyId"@) && m["AccessKeyId"@] == JsonView::Str(event.access_key_id->0@)
            &&& event.event_id is None ==> !m.contains_key("EventId"@)
            &&& event.event_id is Some ==> m.contains_key("EventId"@) && m["EventId"@] == JsonView::Str(event.event_id->0@)
            &&& event.event_name is None ==> !m.contains_key("EventName"@)
            &&& event.event_name is Some ==> m.contains_key("EventName"@) && m["EventName"@] == JsonView::Str(event.event_name->0@)
            &&& event.event_source is None ==> !m.contains_key("EventSource"@)
            &&& event.event_source is Some ==> m.contains_key("EventSource"@) && m["EventSource"@] == JsonView::Str(event.event_source->0@)
            &&& event.event_time is None ==> !m.contains_key("EventTime"@)
            &&& event.event_time is Some ==> m.contains_key("EventTime"@) && m["EventTime"@] == ts_json(event.event_time->0)
            &&& event.read_only is None ==> !m.contains_key("ReadOnly"@)
            &&& event.read_only is Some ==> m.contains_key("ReadOnly"@) && m["ReadOnly"@] == JsonView::Str(event.read_only->0@)
            &&& event.username is None ==> !m.contains_key("Username"@)
            &&& event.username is Some ==> m.contains_key("Username"@) && m["Username"@] == JsonView::Str(event.username->0@)
        }),
{
    lemma_event_json_fields_0(event);
    lemma_event_json_fields_1(event);
    lemma_event_json_fields_2(event);
}

} // verus!

use std::sync::Arc;

use resource_explorer::json::{JsonObject, JsonValue};
use resource_explorer::services::cloudformation::{CloudFormationService, StackEvent};
use resource_explorer::services::cloudfront::{CloudFrontService, Distribution, DistributionConfig, DistributionListPage};
use resource_explorer::services::cloudtrail::CloudTrailService;
use resource_explorer::services::cloudwatch::{AlarmMetricQuery, AnomalyDetector, CloudWatchService, Dimension, Metric, MetricAlarm, MetricDataQuery};
use resource_explorer::services::dynamodb::{DynamoDBService, KeySchemaElement, TableDescription, Tag};
use resource_explorer::timestamp::Timestamp;

fn obj(v: &JsonValue) -> &JsonObject {
    match v {
        JsonValue::Object(o) => o,
        _ => panic!("not an object"),
    }
}

fn text<'a>(v: &'a JsonValue, key: &str) -> &'a str {
    match obj(v).get(key) {
        Some(JsonValue::Str(s)) => s.as_str(),
        _ => panic!("no string under {}", key),
    }
}

fn number(v: &JsonValue, key: &str) -> i128 {
    match obj(v).get(key) {
        Some(JsonValue::Number(n)) => *n,
        _ => panic!("no number under {}", key),
    }
}

fn has(v: &JsonValue, key: &str) -> bool {
    obj(v).get(key).is_some()
}

fn empty_table() -> TableDescription {
    TableDescription {
        table_name: None,
        table_arn: None,
        table_status: None,
        creation_date_time: None,
        item_count: None,
        table_size_bytes: None,
        key_schema: None,
        attribute_definitions: None,
        billing_mode_summary: None,
        provisioned_throughput: None,
        global_secondary_indexes: None,
        local_secondary_indexes: None,
        sse_description: None,
        stream_specification: None,
        latest_stream_arn: None,
        table_class_summary: None,
        deletion_protection_enabled: None,
    }
}

#[test]
fn table_is_named_and_timed() {
    let svc = DynamoDBService::new(Arc::new(()));
    let mut table = empty_table();
    table.table_name = Some("orders".to_string());
    table.table_status = Some("ACTIVE".to_string());
    table.item_count = Some(42);
    table.creation_date_time = Some(Timestamp::from_secs_and_nanos(1_700_000_000, 0));
    let v = svc.table_to_json(&table);
    assert_eq!(text(&v, "TableName"), "orders");
    assert_eq!(text(&v, "Name"), "orders");
    assert_eq!(text(&v, "TableStatus"), "ACTIVE");
    assert_eq!(text(&v, "Status"), "ACTIVE");
    assert_eq!(number(&v, "ItemCount"), 42);
    assert_eq!(text(&v, "CreationDateTime"), "2023-11-14T22:13:20Z");
    assert!(!has(&v, "TableArn"));
}

#[test]
fn table_tags_and_their_failures() {
    let svc = DynamoDBService::new(Arc::new(()));
    let tags = vec![
        Tag { key: "env".to_string(), value: "dev".to_string() },
        Tag { key: "env".to_string(), value: "prod".to_string() },
    ];
    let v = svc.tags_to_json(&Ok(Some(tags))).unwrap();
    assert_eq!(text(&v, "env"), "prod");
    let none = svc.tags_to_json(&Ok(None)).unwrap();
    assert_eq!(text(&none, "Note"), "No tags configured");
    assert!(matches!(obj(&none).get("Tags"), Some(JsonValue::Object(o)) if o.is_empty()));
    let missing = svc.tags_to_json(&Err("ResourceNotFoundException: gone".to_string())).unwrap();
    assert!(matches!(obj(&missing).get("Tags"), Some(JsonValue::Null)));
    assert_eq!(text(&missing, "Note"), "Resource not found");
    let denied = svc.tags_to_json(&Err("AccessDeniedException".to_string())).unwrap();
    assert!(matches!(obj(&denied).get("Tags"), Some(JsonValue::Null)));
    assert_eq!(text(&denied, "Note"), "Access denied for tags");
    assert!(svc.tags_to_json(&Err("Throttling".to_string())).is_none());
}

#[test]
fn time_to_live_missing_table() {
    let svc = DynamoDBService::new(Arc::new(()));
    let v = svc.time_to_live_to_json(&Err("ResourceNotFoundException".to_string())).unwrap();
    assert!(matches!(obj(&v).get("TimeToLiveStatus"), Some(JsonValue::Null)));
    assert_eq!(text(&v, "Note"), "Table not found");
    let off = svc.time_to_live_to_json(&Ok(None)).unwrap();
    assert_eq!(text(&off, "TimeToLiveStatus"), "DISABLED");
    assert_eq!(text(&off, "Note"), "TTL not configured");
    assert!(svc.time_to_live_to_json(&Err("Throttling".to_string())).is_none());
}

#[test]
fn enrichment_keeps_the_description() {
    let svc = DynamoDBService::new(Arc::new(()));
    let mut table = empty_table();
    table.table_name = Some("orders".to_string());
    table.table_arn = Some("arn:aws:dynamodb:eu-west-1:1:table/orders".to_string());
    let details = svc.table_to_json(&table);
    assert!(svc.wants_table_details(true, &details));
    assert!(!svc.wants_table_details(false, &details));
    assert_eq!(svc.table_arn_of(&details).unwrap(), "arn:aws:dynamodb:eu-west-1:1:table/orders");
    let tags = svc.tags_to_json(&Ok(None));
    let enriched = svc.enrich_table_details(details, None, None, tags);
    assert_eq!(text(&enriched, "TableName"), "orders");
    assert!(has(&enriched, "Tags"));
    assert!(!has(&enriched, "TimeToLive"));
    let basic = svc.basic_table_entry(&"t".to_string());
    assert_eq!(text(&basic, "TableName"), "t");
    assert_eq!(text(&basic, "Name"), "t");
}

#[test]
fn event_sources_of_services() {
    let svc = CloudTrailService::new(Arc::new(()));
    assert_eq!(svc.event_source_for_service("DynamoDB"), "dynamodb.amazonaws.com");
    assert_eq!(svc.event_source_for_service("secrets"), "secretsmanager.amazonaws.com");
    assert_eq!(svc.event_source_for_service("StepFunctions"), "states.amazonaws.com");
    assert_eq!(svc.event_source_for_service("Custom.AmazonAWS.com"), "custom.amazonaws.com");
    assert_eq!(svc.event_source_for_service("MyService"), "MyService");
    let p = svc.lookup_params_by_service("S3", Some(10));
    let attribute = p.lookup_attribute.unwrap();
    assert_eq!(attribute.attribute_key, "EventSource");
    assert_eq!(attribute.attribute_value, "s3.amazonaws.com");
    assert_eq!(p.max_results, 10);
}

#[test]
fn lookup_pages_stay_within_the_maximum() {
    let svc = CloudTrailService::new(Arc::new(()));
    assert_eq!(svc.lookup_page_size(120, 0), 50);
    assert_eq!(svc.lookup_page_size(120, 100), 20);
    assert_eq!(svc.lookup_page_size(50, 49), 1);
    assert!(svc.lookup_continues(&Some("t".to_string()), 49, 50));
    assert!(!svc.lookup_continues(&Some("t".to_string()), 50, 50));
    assert!(!svc.lookup_continues(&None, 0, 50));
    let p = svc.lookup_params_by_username("alice", None);
    assert_eq!(p.lookup_attribute.as_ref().unwrap().attribute_key, "Username");
    assert!(!svc.wants_insight_events(&p));
    let between = svc.lookup_params_between(10, 20, Some(5));
    assert_eq!(between.start_time, Some(10));
    assert_eq!(between.end_time, Some(20));
    assert!(between.lookup_attribute.is_none());
}

fn alarm(namespace: &str, name: &str, queries: Option<Vec<AlarmMetricQuery>>) -> MetricAlarm {
    MetricAlarm {
        alarm_name: Some("a".to_string()),
        alarm_arn: None,
        alarm_description: None,
        alarm_configuration_updated_timestamp: None,
        actions_enabled: None,
        state_value: None,
        state_reason: None,
        state_updated_timestamp: None,
        metric_name: Some(name.to_string()),
        namespace: Some(namespace.to_string()),
        statistic: None,
        comparison_operator: None,
        threshold: Some(80.5f64.to_bits()),
        period: None,
        evaluation_periods: None,
        metrics: queries,
    }
}

fn metric(namespace: &str, name: &str, dims: Vec<(&str, &str)>) -> Metric {
    Metric {
        namespace: Some(namespace.to_string()),
        metric_name: Some(name.to_string()),
        dimensions: Some(
            dims.into_iter()
                .map(|(n, v)| Dimension { name: Some(n.to_string()), value: Some(v.to_string()) })
                .collect(),
        ),
    }
}

#[test]
fn watched_aws_metrics_and_custom_metrics_are_listed() {
    let svc = CloudWatchService::new(Arc::new(()));
    let alarms = vec![alarm(
        "AWS/EC2",
        "CPUUtilization",
        Some(vec![AlarmMetricQuery { namespace: Some("AWS/RDS".to_string()), metric_name: Some("FreeStorageSpace".to_string()) }]),
    )];
    let mut keys = Vec::new();
    svc.collect_alarm_metric_keys(&mut keys, &alarms);
    assert!(svc.should_include_metric(&metric("AWS/EC2", "CPUUtilization", vec![]), &keys));
    assert!(svc.should_include_metric(&metric("AWS/RDS", "FreeStorageSpace", vec![]), &keys));
    assert!(!svc.should_include_metric(&metric("AWS/EC2", "NetworkIn", vec![]), &keys));
    assert!(svc.should_include_metric(&metric("MyApp", "Latency", vec![]), &keys));
    assert!(!svc.should_include_metric(&metric("", "Latency", vec![]), &keys));
}

#[test]
fn metric_identifier_sorts_dimensions() {
    let svc = CloudWatchService::new(Arc::new(()));
    let m = metric("AWS/EC2", "CPUUtilization", vec![("InstanceId", "i-1"), ("AutoScalingGroupName", "web")]);
    let v = svc.metric_to_json(&m);
    assert_eq!(text(&v, "MetricId"), "AWS/EC2/CPUUtilization:AutoScalingGroupName=web,InstanceId=i-1");
    let plain = svc.metric_to_json(&metric("MyApp", "Latency", vec![]));
    assert_eq!(text(&plain, "MetricId"), "MyApp/Latency");
}

#[test]
fn alarm_threshold_is_a_double() {
    let svc = CloudWatchService::new(Arc::new(()));
    let v = svc.alarm_to_json(&alarm("AWS/EC2", "CPUUtilization", None));
    assert!(matches!(obj(&v).get("Threshold"), Some(JsonValue::FloatBits(b)) if *b == 80.5f64.to_bits()));
}

#[test]
fn distribution_pages_follow_markers() {
    let svc = CloudFrontService::new(Arc::new(()));
    let done = DistributionListPage { is_truncated: false, next_marker: Some("m".to_string()), item_ids: None };
    assert_eq!(svc.next_distribution_marker(&done), None);
    let marked = DistributionListPage { is_truncated: true, next_marker: Some("m".to_string()), item_ids: None };
    assert_eq!(svc.next_distribution_marker(&marked), Some(Some("m".to_string())));
    let by_id = DistributionListPage {
        is_truncated: true,
        next_marker: None,
        item_ids: Some(vec!["E1".to_string(), "E2".to_string()]),
    };
    assert_eq!(svc.next_distribution_marker(&by_id), Some(Some("E2".to_string())));
    let bare = DistributionListPage { is_truncated: true, next_marker: None, item_ids: Some(vec![]) };
    assert_eq!(svc.next_distribution_marker(&bare), Some(None));
}

fn event(id: &str) -> StackEvent {
    StackEvent {
        event_id: Some(id.to_string()),
        logical_resource_id: None,
        physical_resource_id: None,
        resource_type: None,
        timestamp: None,
        resource_status: None,
        resource_status_reason: None,
    }
}

#[test]
fn stack_events_are_cut_to_the_limit() {
    let svc = CloudFormationService::new(Arc::new(()));
    let events = Some(vec![event("e1"), event("e2"), event("e3")]);
    match svc.stack_events_to_json(&events, Some(2)) {
        JsonValue::Array(items) => {
            assert_eq!(items.len(), 2);
            assert_eq!(text(&items[0], "EventId"), "e1");
            assert_eq!(text(&items[1], "EventId"), "e2");
        },
        _ => panic!("not an array"),
    }
    match svc.stack_events_to_json(&events, None) {
        JsonValue::Array(items) => assert_eq!(items.len(), 3),
        _ => panic!("not an array"),
    }
    match svc.stack_events_to_json(&events, Some(10)) {
        JsonValue::Array(items) => assert_eq!(items.len(), 3),
        _ => panic!("not an array"),
    }
}

#[test]
fn table_key_schema_keeps_its_order() {
    let svc = DynamoDBService::new(Arc::new(()));
    let mut table = empty_table();
    table.key_schema = Some(vec![
        KeySchemaElement { attribute_name: "pk".to_string(), key_type: "HASH".to_string() },
        KeySchemaElement { attribute_name: "sk".to_string(), key_type: "RANGE".to_string() },
    ]);
    let v = svc.table_to_json(&table);
    match obj(&v).get("KeySchema") {
        Some(JsonValue::Array(items)) => {
            assert_eq!(items.len(), 2);
            assert_eq!(text(&items[0], "AttributeName"), "pk");
            assert_eq!(text(&items[1], "KeyType"), "RANGE");
        },
        _ => panic!("no key schema"),
    }
    assert!(!has(&v, "AttributeDefinitions"));
    assert!(!has(&v, "Name"));
    assert!(!has(&v, "TableArn"));
}

#[test]
fn metric_id_ignores_dimension_order() {
    let svc = CloudWatchService::new(Arc::new(()));
    let a = svc.metric_to_json(&metric("AWS/EC2", "CPUUtilization", vec![("InstanceId", "i-1"), ("AutoScalingGroupName", "web")]));
    let b = svc.metric_to_json(&metric("AWS/EC2", "CPUUtilization", vec![("AutoScalingGroupName", "web"), ("InstanceId", "i-1")]));
    assert_eq!(text(&a, "MetricId"), text(&b, "MetricId"));
    assert_eq!(text(&a, "Name"), text(&a, "MetricId"));
    assert!(text(&a, "MetricId").starts_with("AWS/EC2/CPUUtilization"));
}

#[test]
fn alarm_metrics_gather_over_pages() {
    let svc = CloudWatchService::new(Arc::new(()));
    let mut keys = Vec::new();
    svc.collect_alarm_metric_keys(&mut keys, &vec![alarm("AWS/EC2", "CPUUtilization", None)]);
    let query = AlarmMetricQuery { namespace: Some("AWS/SQS".to_string()), metric_name: Some("NumberOfMessagesSent".to_string()) };
    svc.collect_alarm_metric_keys(&mut keys, &vec![alarm("AWS/Lambda", "Errors", Some(vec![query]))]);
    assert!(svc.should_include_metric(&metric("AWS/EC2", "CPUUtilization", vec![]), &keys));
    assert!(svc.should_include_metric(&metric("AWS/Lambda", "Errors", vec![]), &keys));
    assert!(svc.should_include_metric(&metric("AWS/SQS", "NumberOfMessagesSent", vec![]), &keys));
    assert!(!svc.should_include_metric(&metric("AWS/SQS", "NumberOfMessagesDeleted", vec![]), &keys));
}

#[test]
fn metric_math_detectors_are_named_by_their_queries() {
    let svc = CloudWatchService::new(Arc::new(()));
    let q = |id: Option<&str>, label: Option<&str>, expression: Option<&str>| MetricDataQuery {
        id: id.map(|s| s.to_string()),
        label: label.map(|s| s.to_string()),
        expression: expression.map(|s| s.to_string()),
    };
    let d = AnomalyDetector {
        single_metric_anomaly_detector: None,
        metric_math_queries: Some(vec![q(Some("m1"), None, None), q(None, Some("load"), None), q(None, None, Some("m1*2")), q(None, None, None)]),
        is_metric_math: true,
        state_value: None,
    };
    let v = svc.anomaly_detector_to_json(&d);
    assert_eq!(text(&v, "DetectorType"), "MetricMath");
    assert_eq!(number(&v, "MetricDataQueryCount"), 4);
    assert_eq!(text(&v, "DetectorId"), "metric-math:m1|load|m1*2|query-3");
    assert_eq!(text(&v, "Name"), "metric-math:m1|load|m1*2|query-3");
    assert!(!has(&v, "MetricName") && !has(&v, "Namespace") && !has(&v, "Stat") && !has(&v, "Dimensions"));
}

fn distribution(config: Option<DistributionConfig>) -> Distribution {
    Distribution {
        id: "E1".to_string(),
        arn: "arn:aws:cloudfront::1:distribution/E1".to_string(),
        status: "Deployed".to_string(),
        last_modified_time: Timestamp::from_secs_and_nanos(0, 0),
        in_progress_invalidation_batches: 0,
        domain_name: "d1.cloudfront.net".to_string(),
        active_trusted_signers: None,
        active_trusted_key_groups: None,
        distribution_config: config,
    }
}

fn config(aliases: Option<Vec<&str>>) -> DistributionConfig {
    DistributionConfig {
        caller_reference: "ref".to_string(),
        aliases: aliases.map(|a| a.into_iter().map(|s| s.to_string()).collect()),
        default_root_object: None,
        origins: None,
        default_cache_behavior: None,
        comment: String::new(),
        enabled: true,
        price_class: None,
        viewer_certificate: None,
        web_acl_id: None,
        http_version: None,
        is_ipv6_enabled: None,
    }
}

#[test]
fn distributions_are_named_by_first_alias_or_domain() {
    let svc = CloudFrontService::new(Arc::new(()));
    let v = svc.distribution_to_json(&distribution(Some(config(Some(vec!["www.example.com", "example.com"])))));
    assert_eq!(text(&v, "Name"), "www.example.com");
    match obj(&v).get("Aliases") {
        Some(JsonValue::Array(items)) => {
            assert_eq!(items.len(), 2);
            assert!(matches!(&items[1], JsonValue::Str(s) if s == "example.com"));
        },
        _ => panic!("no aliases"),
    }
    let empty = svc.distribution_to_json(&distribution(Some(config(Some(vec![])))));
    assert_eq!(text(&empty, "Name"), "d1.cloudfront.net");
    assert!(!has(&empty, "Aliases"));
    let bare = svc.distribution_to_json(&distribution(None));
    assert!(!has(&bare, "Name") && !has(&bare, "Aliases"));
    assert_eq!(text(&bare, "Id"), "E1");
    assert_eq!(text(&bare, "DomainName"), "d1.cloudfront.net");
}

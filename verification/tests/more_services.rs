use std::sync::Arc;

use resource_explorer::json::{JsonObject, JsonValue};
use resource_explorer::services::bedrockagentcore_data::{BedrockAgentCoreDataService, MemoryRecordSummary};
use resource_explorer::services::cloudtraildata::CloudTrailDataService;
use resource_explorer::services::codeartifact::CodeArtifactService;
use resource_explorer::services::codecommit::{CallError, CodeCommitService, RepositoryTrigger};
use resource_explorer::services::codedeploy::{AutoScalingGroup, CodeDeployService, DeploymentGroupInfo};
use resource_explorer::services::codepipeline::{ActionDeclaration, ActionTypeId, CodePipelineService, PipelineDeclaration, StageDeclaration};
use resource_explorer::services::cognito::{CognitoService, IdentityPoolShort};
use resource_explorer::services::configservice::ConfigService;
use resource_explorer::services::connect::{ConnectService, Instance};
use resource_explorer::services::datasync::{DataSyncService, TaskDescription};
use resource_explorer::services::detective::{DetectiveService, Graph};
use resource_explorer::services::documentdb::{DbCluster, DocumentDbService};
use resource_explorer::timestamp::Timestamp;

fn obj(v: &JsonValue) -> &JsonObject {
    match v {
        JsonValue::Object(o) => o,
        _ => panic!("not an object"),
    }
}

fn text<'a>(v: &'a JsonValue, key: &str) -> &'a str {
    match obj(v).get(key) {
        Some(JsonValue::Str(s)) => s.as_str(),
        _ => panic!("no string under {}", key),
    }
}

fn number(v: &JsonValue, key: &str) -> i128 {
    match obj(v).get(key) {
        Some(JsonValue::Number(n)) => *n,
        _ => panic!("no number under {}", key),
    }
}

fn has(v: &JsonValue, key: &str) -> bool {
    obj(v).get(key).is_some()
}

fn group(name: Option<&str>) -> DeploymentGroupInfo {
    DeploymentGroupInfo {
        deployment_group_name: name.map(|n| n.to_string()),
        deployment_group_id: None,
        service_role_arn: None,
        has_target_revision: true,
        deployment_config_name: None,
        compute_platform: Some("Server".to_string()),
        has_ec2_tag_filters: true,
        has_on_premises_instance_tag_filters: false,
        auto_scaling_groups: Some(vec![AutoScalingGroup { name: Some("asg-1".to_string()) }, AutoScalingGroup { name: None }]),
        has_trigger_configurations: false,
        has_alarm_configuration: false,
        has_auto_rollback_configuration: false,
        has_deployment_style: false,
        outdated_instances_strategy: None,
        has_blue_green_deployment_configuration: false,
        has_load_balancer_info: false,
        has_last_successful_deployment: false,
        has_last_attempted_deployment: false,
    }
}

#[test]
fn deployment_group_ids_split_back() {
    let svc = CodeDeployService::new(Arc::new(()));
    let v = svc.deployment_group_to_json(&group(Some("blue")), "shop");
    assert_eq!(text(&v, "DeploymentGroupId"), "shop:blue");
    assert_eq!(text(&v, "ResourceId"), "shop:blue");
    assert_eq!(text(&v, "TargetRevision"), "TODO: Manual conversion needed");
    assert_eq!(text(&v, "Status"), "ACTIVE");
    let (app, name) = svc.split_deployment_group_id(text(&v, "DeploymentGroupId")).unwrap();
    assert_eq!(app, "shop");
    assert_eq!(name, "blue");
}

#[test]
fn deployment_group_ids_need_exactly_one_colon() {
    let svc = CodeDeployService::new(Arc::new(()));
    assert_eq!(svc.split_deployment_group_id("nocolon").unwrap_err(), "Invalid deployment group ID format: nocolon");
    assert_eq!(svc.split_deployment_group_id("a:b:c").unwrap_err(), "Invalid deployment group ID format: a:b:c");
    assert_eq!(svc.split_deployment_group_id(":b").unwrap(), ("".to_string(), "b".to_string()));
}

#[test]
fn deployment_group_details_and_missing_group() {
    let svc = CodeDeployService::new(Arc::new(()));
    let v = svc.describe_deployment_group(&Some(group(None)), "shop:").unwrap();
    assert_eq!(text(&v, "DeploymentGroupId"), "shop:");
    assert_eq!(text(&v, "Name"), "");
    assert_eq!(text(&v, "Ec2TagFilters"), "TODO: Manual conversion needed");
    assert!(!has(&v, "OnPremisesInstanceTagFilters"));
    match obj(&v).get("AutoScalingGroups") {
        Some(JsonValue::Array(names)) => {
            assert_eq!(names.len(), 2);
            assert!(matches!(&names[0], JsonValue::Str(s) if s == "asg-1"));
            assert!(matches!(&names[1], JsonValue::Str(s) if s.is_empty()));
        },
        _ => panic!("no groups"),
    }
    let err = svc.describe_deployment_group(&None, "shop:blue").unwrap_err();
    assert_eq!(err, "Deployment group not found: shop:blue");
    let bad = svc.describe_deployment_group(&Some(group(Some("blue"))), "shop-blue").unwrap_err();
    assert_eq!(bad, "Invalid deployment group ID format: shop-blue");
    assert_eq!(svc.describe_application(&None, "shop").unwrap_err(), "Application not found: shop");
}

#[test]
fn graphs_are_named_after_their_arn() {
    let svc = DetectiveService::new(Arc::new(()));
    let g = Graph { arn: Some("arn:aws:detective:us-east-1:1:graph:abc/xyz".to_string()), created_time: None };
    let v = svc.graph_to_json(&g);
    assert_eq!(text(&v, "GraphName"), "xyz");
    assert_eq!(text(&v, "Name"), "Detective-xyz");
    assert_eq!(text(&v, "Status"), "ACTIVE");
    let unnamed = svc.graph_to_json(&Graph { arn: None, created_time: None });
    assert_eq!(text(&unnamed, "Name"), "Detective Graph");
    assert!(!has(&unnamed, "GraphArn"));
}

#[test]
fn graph_lookup_finds_or_names_the_arn() {
    let svc = DetectiveService::new(Arc::new(()));
    let graphs = Some(vec![
        Graph { arn: None, created_time: None },
        Graph { arn: Some("a/one".to_string()), created_time: None },
        Graph { arn: Some("a/two".to_string()), created_time: Some(Timestamp::from_secs_and_nanos(0, 0)) },
    ]);
    let found = svc.describe_graph(&graphs, &"a/two".to_string()).unwrap();
    assert_eq!(text(&found, "GraphName"), "two");
    assert_eq!(text(&found, "CreatedTime"), "1970-01-01T00:00:00Z");
    let missing = svc.describe_graph(&graphs, &"a/three".to_string()).unwrap_err();
    assert_eq!(missing, "Detective graph a/three not found");
}

fn cluster(id: &str) -> DbCluster {
    DbCluster {
        db_cluster_identifier: Some(id.to_string()),
        status: Some("available".to_string()),
        engine: Some("docdb".to_string()),
        engine_version: None,
        port: Some(27017),
        backup_retention_period: Some(7),
    }
}

#[test]
fn every_account_gets_a_cluster_listing() {
    let svc = DocumentDbService::new(Arc::new(()));
    let account = "123".to_string();
    let region = "eu-west-1".to_string();
    let listed = svc.list_clusters(&account, &region, &Ok(Some(vec![cluster("c1"), cluster("c2")])));
    assert_eq!(listed.len(), 2);
    assert_eq!(text(&listed[0], "ResourceId"), "c1");
    assert_eq!(text(&listed[1], "Name"), "c2");
    assert_eq!(text(&listed[0], "Service"), "Amazon DocumentDB");
    assert_eq!(text(&listed[0], "Region"), "eu-west-1");
    let none = svc.list_clusters(&account, &region, &Ok(None));
    assert_eq!(none.len(), 1);
    assert_eq!(text(&none[0], "ResourceId"), "documentdb-service-123");
    assert_eq!(text(&none[0], "Status"), "Available");
    let failed = svc.list_clusters(&account, &region, &Err("denied".to_string()));
    assert_eq!(failed.len(), 1);
    assert_eq!(text(&failed[0], "ResourceId"), "documentdb-123");
    assert_eq!(text(&failed[0], "Status"), "Unavailable");
    assert_eq!(svc.list_clusters(&account, &region, &Ok(Some(vec![]))).len(), 0);
}

#[test]
fn cluster_details_from_the_first_cluster() {
    let svc = DocumentDbService::new(Arc::new(()));
    let v = svc.cluster_details_to_json(&"1".to_string(), &"us-east-1".to_string(), &Some(vec![cluster("c1"), cluster("c2")]));
    assert_eq!(number(&v, "Port"), 27017);
    assert_eq!(number(&v, "BackupRetentionPeriod"), 7);
    assert_eq!(text(&v, "Type"), "Document Database Cluster");
    let bare = svc.cluster_details_to_json(&"1".to_string(), &"us-east-1".to_string(), &None);
    assert!(!has(&bare, "Status"));
}

fn call_error(debug: &str, display: &str) -> CallError {
    CallError { debug_text: debug.to_string(), display_text: display.to_string() }
}

#[test]
fn repository_triggers_and_their_errors() {
    let svc = CodeCommitService::new(Arc::new(()));
    let trigger = RepositoryTrigger {
        name: "t".to_string(),
        destination_arn: "arn:sns".to_string(),
        events: vec!["All".to_string()],
        branches: None,
        custom_data: None,
    };
    let v = svc.triggers_outcome_to_json(&Ok(Some(vec![trigger]))).unwrap();
    assert_eq!(number(&v, "Count"), 1);
    let quiet = svc.triggers_outcome_to_json(&Err(call_error("RepositoryDoesNotExistException", "x"))).unwrap();
    assert_eq!(text(&quiet, "Note"), "No triggers configured or access denied");
    let failed = svc.triggers_outcome_to_json(&Err(call_error("Throttling", "service error"))).unwrap_err();
    assert_eq!(failed, "Failed to get repository triggers: service error");
    let branches = svc.branches_outcome_to_json(&Ok(Some(vec!["main".to_string(), "dev".to_string()]))).unwrap();
    assert_eq!(number(&branches, "Count"), 2);
    let denied = svc.branches_outcome_to_json(&Err(call_error("AccessDeniedException", "x"))).unwrap();
    assert_eq!(text(&denied, "Note"), "Repository not found or access denied");
    let no_branch = svc.branch_outcome_to_json(&Err(call_error("BranchDoesNotExistException", "x"))).unwrap();
    assert_eq!(text(&no_branch, "Note"), "Branch not found or access denied");
    assert_eq!(svc.branch_outcome_to_json(&Err(call_error("Boom", "boom"))).unwrap_err(), "Failed to get branch: boom");
}

#[test]
fn repository_entries_fall_back_to_the_listing() {
    let svc = CodeCommitService::new(Arc::new(()));
    let name = "repo".to_string();
    let id = Some("id-1".to_string());
    let basic = svc.repository_base_entry(&name, &id, true, Some(Err("timed out".to_string())));
    assert_eq!(text(&basic, "RepositoryName"), "repo");
    assert_eq!(text(&basic, "RepositoryId"), "id-1");
    assert_eq!(text(&basic, "Status"), "Active");
    assert!(svc.wants_repository_extras(true, &basic));
    let with_extras = svc.with_repository_extras(basic, Some(JsonValue::Null), None);
    assert!(has(&with_extras, "Triggers"));
    assert!(!has(&with_extras, "Branches"));
    let missing = svc.repository_outcome(&None, "repo").unwrap_err();
    assert_eq!(missing, "Repository repo not found");
    let details = svc.repository_details(&Err("x".to_string()), Ok(JsonValue::Null), Err("y".to_string()));
    assert!(has(&details, "Triggers"));
    assert!(!has(&details, "Branches"));
}

#[test]
fn recorder_and_instance_and_pipeline_not_found() {
    let config = ConfigService::new(Arc::new(()));
    assert_eq!(
        config.describe_configuration_recorder(&Some(vec![]), "default").unwrap_err(),
        "Configuration recorder default not found"
    );
    let connect = ConnectService::new(Arc::new(()));
    assert_eq!(connect.describe_instance(&None, "i-1").unwrap_err(), "Connect instance i-1 not found");
    let pipeline = CodePipelineService::new(Arc::new(()));
    assert_eq!(pipeline.describe_pipeline(&None, "deploy").unwrap_err(), "Pipeline deploy not found");
}

#[test]
fn connect_instance_flags_and_tags() {
    let svc = ConnectService::new(Arc::new(()));
    let instance = Instance {
        id: Some("i-1".to_string()),
        arn: None,
        identity_management_type: None,
        instance_alias: None,
        created_time: None,
        service_role: None,
        instance_status: Some("ACTIVE".to_string()),
        inbound_calls_enabled: None,
        outbound_calls_enabled: Some(true),
        status_reason: None,
        instance_access_url: None,
        tags: Some(vec![("team".to_string(), "ops".to_string())]),
    };
    let v = svc.instance_to_json(&instance);
    assert!(matches!(obj(&v).get("InboundCallsEnabled"), Some(JsonValue::Bool(false))));
    assert!(matches!(obj(&v).get("OutboundCallsEnabled"), Some(JsonValue::Bool(true))));
    assert_eq!(text(&v, "Status"), "ACTIVE");
    match obj(&v).get("Tags") {
        Some(JsonValue::Array(tags)) => {
            assert_eq!(text(&tags[0], "Key"), "team");
            assert_eq!(text(&tags[0], "Value"), "ops");
        },
        _ => panic!("no tags"),
    }
}

#[test]
fn pipeline_actions_name_their_type() {
    let svc = CodePipelineService::new(Arc::new(()));
    let pipeline = PipelineDeclaration {
        name: "deploy".to_string(),
        role_arn: "arn:role".to_string(),
        version: Some(3),
        artifact_store: None,
        stages: vec![StageDeclaration {
            name: "Source".to_string(),
            actions: vec![ActionDeclaration {
                name: "Checkout".to_string(),
                action_type_id: Some(ActionTypeId {
                    category: "Source".to_string(),
                    owner: "AWS".to_string(),
                    provider: "CodeCommit".to_string(),
                    version: "1".to_string(),
                }),
                run_order: Some(1),
                configuration: Some(vec![("BranchName".to_string(), "main".to_string())]),
            }],
        }],
    };
    let v = svc.pipeline_to_json(&pipeline);
    assert_eq!(text(&v, "Status"), "Active");
    assert_eq!(number(&v, "Version"), 3);
    match obj(&v).get("Stages") {
        Some(JsonValue::Array(stages)) => match obj(&stages[0]).get("Actions") {
            Some(JsonValue::Array(actions)) => {
                assert_eq!(text(&actions[0], "ActionTypeId"), "Source:AWS:CodeCommit:1");
                let config = obj(&actions[0]).get("Configuration").unwrap();
                assert_eq!(text(config, "BranchName"), "main");
            },
            _ => panic!("no actions"),
        },
        _ => panic!("no stages"),
    }
}

#[test]
fn event_data_store_descriptions() {
    let svc = CloudTrailDataService::new(Arc::new(()));
    let arn = "arn:aws:cloudtrail:us-east-1:1:eventdatastore/x".to_string();
    let v = svc.describe_event_data_store(&arn);
    assert_eq!(text(&v, "ResourceId"), arn.as_str());
    assert_eq!(text(&v, "Status"), "ENABLED");
    let mock = svc.create_mock_event_data_store(&arn, &"store".to_string(), &"2024-01-01T00:00:00Z".to_string());
    assert_eq!(number(&mock, "RetentionPeriod"), 2557);
    assert_eq!(text(&mock, "CreatedTimestamp"), "2024-01-01T00:00:00Z");
    let summary = svc.put_events_summary(3, 1);
    assert_eq!(number(&summary, "Successful"), 3);
    assert_eq!(number(&summary, "Failed"), 1);
    assert!(svc.list_event_data_stores().is_empty());
}

#[test]
fn unread_identity_pools_keep_their_name() {
    let svc = CognitoService::new(Arc::new(()));
    let pool = IdentityPoolShort { identity_pool_id: Some("p1".to_string()), identity_pool_name: Some("Pool".to_string()) };
    let v = svc.identity_pool_entry(&"p1".to_string(), &pool, None);
    assert_eq!(text(&v, "IdentityPoolId"), "p1");
    assert_eq!(text(&v, "Name"), "Pool");
    let read = svc.identity_pool_entry(&"p1".to_string(), &pool, Some(JsonValue::Null));
    assert!(matches!(read, JsonValue::Null));
    assert_eq!(svc.client_not_found("c9"), "User Pool Client c9 not found");
}

#[test]
fn repository_domains_in_listing_order() {
    let svc = CodeArtifactService::new(Arc::new(()));
    let mut a = JsonObject::new();
    a.insert("Name", JsonValue::Str("lib".to_string()));
    a.insert("DomainName", JsonValue::Str("d1".to_string()));
    let mut b = JsonObject::new();
    b.insert("Name", JsonValue::Str("other".to_string()));
    b.insert("DomainName", JsonValue::Str("d2".to_string()));
    let mut c = JsonObject::new();
    c.insert("Name", JsonValue::Str("lib".to_string()));
    c.insert("DomainName", JsonValue::Str("d3".to_string()));
    let mut d = JsonObject::new();
    d.insert("Name", JsonValue::Str("lib".to_string()));
    let repos = vec![JsonValue::Object(a), JsonValue::Object(b), JsonValue::Object(c), JsonValue::Object(d)];
    assert_eq!(svc.repository_domains_for(&repos, &"lib".to_string()), vec!["d1".to_string(), "d3".to_string()]);
    assert_eq!(svc.repository_not_found("lib"), "Repository not found: lib");
}

#[test]
fn task_creation_time_out_of_range_is_empty() {
    let svc = DataSyncService::new(Arc::new(()));
    let task = TaskDescription {
        task_arn: Some("arn:task".to_string()),
        name: None,
        status: None,
        source_location_arn: None,
        destination_location_arn: None,
        cloud_watch_log_group_arn: None,
        options: None,
        excludes: None,
        schedule: None,
        error_code: None,
        error_detail: None,
        creation_time: Some(Timestamp::from_secs_and_nanos(-62_135_596_801, 0)),
    };
    let v = svc.task_details_to_json(&task);
    assert_eq!(text(&v, "CreationTime"), "");
    assert_eq!(text(&v, "ResourceType"), "AWS::DataSync::Task");
}

#[test]
fn memory_record_scores() {
    let svc = BedrockAgentCoreDataService::new(Arc::new(()));
    let record = MemoryRecordSummary {
        memory_record_id: "r1".to_string(),
        memory_strategy_id: "s1".to_string(),
        namespaces: vec!["ns".to_string()],
        created_at: Timestamp::from_secs_and_nanos(86_400, 0),
        score: Some(f64::NAN.to_bits()),
    };
    let v = svc.memory_record_to_json(&"m1".to_string(), &record);
    assert_eq!(text(&v, "ParentMemoryId"), "m1");
    assert_eq!(text(&v, "CreatedAt"), "1970-01-02T00:00:00Z");
    assert!(matches!(obj(&v).get("Score"), Some(JsonValue::Number(0))));
}

use std::sync::Arc;

use resource_explorer::json::{JsonObject, JsonValue};
use resource_explorer::services::bedrock_agent::BedrockAgentService;
use resource_explorer::services::bedrockagentcore_control::{BedrockAgentCoreControlService, GatewaySummary};
use resource_explorer::services::cloudformation::{CloudFormationService, PolicyDocument, Stack, StackDriftInformation};
use resource_explorer::services::ec2::{EC2Service, FlowLog, NetworkAcl, NetworkInterface, Tag, Volume, VolumeAttachment};
use resource_explorer::timestamp::Timestamp;

fn obj(v: &JsonValue) -> &JsonObject {
    match v {
        JsonValue::Object(o) => o,
        _ => panic!("not an object"),
    }
}

fn text<'a>(v: &'a JsonValue, key: &str) -> &'a str {
    match obj(v).get(key) {
        Some(JsonValue::Str(s)) => s.as_str(),
        _ => panic!("no string under {}", key),
    }
}

fn tag(key: &str, value: &str) -> Tag {
    Tag { key: Some(key.to_string()), value: Some(value.to_string()) }
}

fn volume(id: Option<&str>, tags: Option<Vec<Tag>>) -> Volume {
    Volume {
        volume_id: id.map(|s| s.to_string()),
        size: Some(8),
        volume_type: Some("gp3".to_string()),
        state: Some("in-use".to_string()),
        create_time: None,
        availability_zone: None,
        encrypted: Some(false),
        iops: None,
        attachments: None,
        tags,
    }
}

#[test]
fn volumes_are_named_by_tag_or_id() {
    let svc = EC2Service::new(Arc::new(()));
    let tagged = svc.volume_to_json(&volume(Some("vol-1"), Some(vec![tag("env", "x"), tag("Name", "data")])));
    assert_eq!(text(&tagged, "Name"), "data");
    assert_eq!(text(&tagged, "Status"), "in-use");
    let untagged = svc.volume_to_json(&volume(Some("vol-2"), None));
    assert_eq!(text(&untagged, "Name"), "vol-2");
    assert!(obj(&untagged).get("Tags").is_none());
    let empty_tags = svc.volume_to_json(&volume(Some("vol-3"), Some(vec![])));
    assert!(obj(&empty_tags).get("Tags").is_none());
}

#[test]
fn volume_attachments_are_named_by_both_ends() {
    let svc = EC2Service::new(Arc::new(()));
    let attachment = VolumeAttachment {
        instance_id: Some("i-9".to_string()),
        device: Some("/dev/xvda".to_string()),
        state: Some("attached".to_string()),
        attach_time: None,
        delete_on_termination: None,
    };
    let v = svc.volume_attachment_to_json(&volume(Some("vol-1"), None), &attachment);
    assert_eq!(text(&v, "AttachmentId"), "vol-1:i-9");
    assert_eq!(text(&v, "Name"), "vol-1 → i-9");
    assert!(matches!(obj(&v).get("DeleteOnTermination"), Some(JsonValue::Bool(false))));
    let orphan = svc.volume_attachment_to_json(&volume(None, None), &VolumeAttachment {
        instance_id: None,
        device: None,
        state: None,
        attach_time: None,
        delete_on_termination: Some(true),
    });
    assert_eq!(text(&orphan, "AttachmentId"), "unknown-volume:unknown-instance");
}

#[test]
fn default_network_acls_say_so() {
    let svc = EC2Service::new(Arc::new(()));
    let acl = NetworkAcl {
        network_acl_id: Some("acl-1".to_string()),
        vpc_id: None,
        is_default: Some(true),
        owner_id: None,
        entries: None,
        associations: None,
        tags: None,
    };
    assert_eq!(text(&svc.network_acl_to_json(&acl), "Name"), "acl-1 (default)");
}

#[test]
fn flow_logs_name_their_resource_type() {
    let svc = EC2Service::new(Arc::new(()));
    let log = |resource: &str| FlowLog {
        flow_log_id: Some("fl-1".to_string()),
        resource_id: Some(resource.to_string()),
        flow_log_status: None,
        traffic_type: None,
        log_destination_type: None,
        log_destination: None,
        creation_time: None,
        tags: None,
    };
    assert_eq!(text(&svc.flow_log_to_json(&log("vpc-1")), "ResourceType"), "VPC");
    assert_eq!(text(&svc.flow_log_to_json(&log("subnet-1")), "ResourceType"), "Subnet");
    assert_eq!(text(&svc.flow_log_to_json(&log("eni-1")), "ResourceType"), "NetworkInterface");
    assert_eq!(text(&svc.flow_log_to_json(&log("tgw-1")), "ResourceType"), "Unknown");
}

#[test]
fn described_resources_are_found_by_id() {
    let svc = EC2Service::new(Arc::new(()));
    let ids = vec![None, Some("vpc-2".to_string()), Some("vpc-1".to_string()), Some("vpc-1".to_string())];
    assert_eq!(svc.position_of_id(&ids, &"vpc-1".to_string()), Some(2));
    assert_eq!(svc.position_of_id(&ids, &"vpc-3".to_string()), None);
    assert_eq!(svc.not_found("VPC", "vpc-3"), "VPC vpc-3 not found");
}

#[test]
fn stack_policies_parsed_or_as_text() {
    let svc = CloudFormationService::new(Arc::new(()));
    let mut parsed = JsonObject::new();
    parsed.insert("Statement", JsonValue::Array(vec![]));
    let policy = PolicyDocument { text: "{\"Statement\":[]}".to_string(), parsed: Some(JsonValue::Object(parsed)) };
    let v = svc.stack_policy_to_json(Ok(Some(policy))).unwrap();
    assert!(matches!(obj(&v).get("StackPolicyBody"), Some(JsonValue::Object(_))));
    let raw = PolicyDocument { text: "not json".to_string(), parsed: None };
    assert_eq!(text(&svc.stack_policy_to_json(Ok(Some(raw))).unwrap(), "StackPolicyBody"), "not json");
    let none = svc.stack_policy_to_json(Ok(None)).unwrap();
    assert_eq!(text(&none, "Note"), "No stack policy configured");
    let missing = svc.stack_policy_to_json(Err("StackNotFoundException".to_string())).unwrap();
    assert_eq!(text(&missing, "Note"), "Stack not found");
    assert!(svc.stack_policy_to_json(Err("Throttling".to_string())).is_none());
    assert_eq!(svc.stack_not_found("web"), "Stack not found: web");
}

#[test]
fn stack_details_bind_what_was_read() {
    let svc = CloudFormationService::new(Arc::new(()));
    let details = svc.stack_with_details(
        JsonValue::Object(JsonObject::new()),
        Some(JsonValue::Array(vec![])),
        None,
        Some("Resources: {}".to_string()),
        None,
        None,
    );
    assert!(obj(&details).get("Resources").is_some());
    assert!(obj(&details).get("RecentEvents").is_none());
    assert!(obj(&details).get("DriftInformation").is_none());
    assert_eq!(text(&details, "TemplateBody"), "Resources: {}");
}

#[test]
fn stack_details_carry_the_drift_status() {
    let svc = CloudFormationService::new(Arc::new(()));
    let drift = StackDriftInformation { stack_drift_status: Some("DRIFTED".to_string()), last_check_timestamp: None };
    let details = svc.stack_with_details(JsonValue::Object(JsonObject::new()), None, None, None, None, Some(drift));
    let info = obj(&details).get("DriftInformation").unwrap();
    assert_eq!(text(info, "StackDriftStatus"), "DRIFTED");
    assert!(obj(info).get("LastCheckTimestamp").is_none());
    assert!(obj(&details).get("StackPolicy").is_none());
}

#[test]
fn bedrock_items_not_found() {
    let svc = BedrockAgentService::new(Arc::new(()));
    assert_eq!(svc.describe_agent(&None, "A1").unwrap_err(), "Agent A1 not found");
    assert_eq!(svc.describe_knowledge_base(&None, "K1").unwrap_err(), "Knowledge base K1 not found");
    assert_eq!(svc.describe_ingestion_job(&None, "J1").unwrap_err(), "Ingestion job J1 not found");
}

#[test]
fn agentcore_gateways_render_times_in_rfc3339() {
    let svc = BedrockAgentCoreControlService::new(Arc::new(()));
    let gateway = GatewaySummary {
        gateway_id: "gw-1".to_string(),
        name: "gw".to_string(),
        status: "READY".to_string(),
        description: None,
        created_at: Timestamp::from_secs_and_nanos(0, 0),
        updated_at: Timestamp::from_secs_and_nanos(60, 0),
        authorizer_type: "CUSTOM_JWT".to_string(),
        protocol_type: "MCP".to_string(),
    };
    let v = svc.gateway_to_json(&gateway);
    assert_eq!(text(&v, "GatewayName"), "gw");
    assert_eq!(text(&v, "CreatedAt"), "1970-01-01T00:00:00Z");
    assert_eq!(text(&v, "UpdatedAt"), "1970-01-01T00:01:00Z");
    assert!(obj(&v).get("Description").is_none());
}

fn interface(tags: Option<Vec<Tag>>, description: Option<&str>, id: Option<&str>) -> NetworkInterface {
    NetworkInterface {
        network_interface_id: id.map(|s| s.to_string()),
        subnet_id: None,
        vpc_id: None,
        availability_zone: None,
        description: description.map(|s| s.to_string()),
        interface_type: None,
        owner_id: None,
        private_dns_name: None,
        private_ip_address: None,
        source_dest_check: None,
        status: None,
        mac_address: None,
        private_ip_addresses: None,
        groups: None,
        attachment: None,
        tags,
    }
}

#[test]
fn network_interfaces_are_named_by_tag_description_or_id() {
    let svc = EC2Service::new(Arc::new(()));
    let unnamed = Tag { key: Some("Name".to_string()), value: None };
    let tagged = interface(Some(vec![tag("env", "prod"), unnamed, tag("Name", "web-eni"), tag("Name", "later")]), Some("desc"), Some("eni-1"));
    assert_eq!(text(&svc.network_interface_to_json(&tagged), "Name"), "web-eni");
    let described = interface(Some(vec![tag("env", "prod")]), Some("primary"), Some("eni-1"));
    assert_eq!(text(&svc.network_interface_to_json(&described), "Name"), "primary");
    let blank = interface(None, Some(""), Some("eni-1"));
    assert_eq!(text(&svc.network_interface_to_json(&blank), "Name"), "eni-1");
    let nothing = interface(None, None, None);
    assert!(obj(&svc.network_interface_to_json(&nothing)).get("Name").is_none());
}

#[test]
fn stacks_carry_name_status_and_lists_in_order() {
    let svc = CloudFormationService::new(Arc::new(()));
    let stack = Stack {
        stack_id: None,
        stack_name: Some("web".to_string()),
        description: None,
        creation_time: None,
        last_updated_time: None,
        stack_status: Some("CREATE_COMPLETE".to_string()),
        stack_status_reason: None,
        disable_rollback: None,
        timeout_in_minutes: None,
        capabilities: Some(vec!["CAPABILITY_IAM".to_string(), "CAPABILITY_AUTO_EXPAND".to_string()]),
        outputs: None,
        parameters: None,
        tags: None,
        role_arn: None,
        drift_information: None,
        enable_termination_protection: None,
        parent_id: None,
        root_id: None,
    };
    let v = svc.stack_to_json(&stack);
    assert_eq!(text(&v, "Name"), "web");
    assert_eq!(text(&v, "StackName"), "web");
    assert_eq!(text(&v, "Status"), "CREATE_COMPLETE");
    assert_eq!(text(&v, "StackStatus"), "CREATE_COMPLETE");
    match obj(&v).get("Capabilities") {
        Some(JsonValue::Array(items)) => {
            assert_eq!(items.len(), 2);
            assert!(matches!(&items[1], JsonValue::Str(s) if s == "CAPABILITY_AUTO_EXPAND"));
        },
        _ => panic!("no capabilities"),
    }
    assert!(obj(&v).get("Outputs").is_none());
    assert!(obj(&v).get("Tags").is_none());
}

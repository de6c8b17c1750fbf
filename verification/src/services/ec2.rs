//! EC2 resources as JSON: instances, networking, storage and gateways.
use crate::json::{array_of, opt_bool_json, opt_int_json, opt_str_json, opt_strs_json, with_opt, opt_text, opt_text_json, items_view, lemma_items_view_push, JsonObject, JsonValue, JsonView};
use crate::timestamp::{opt_ts_json, ts_json, Timestamp};
use crate::text::{after_last, concat_text, has_prefix, last_segment, starts_with};
use std::sync::Arc;
use vstd::prelude::*;

verus! {

/// A tag of an EC2 resource.
pub struct Tag {
    pub key: Option<String>,
    pub value: Option<String>,
}

/// A security group that a resource belongs to.
pub struct GroupIdentifier {
    pub group_id: Option<String>,
    pub group_name: Option<String>,
}

/// An EC2 instance as `DescribeInstances` reports it; enumerations hold their AWS names.
pub struct Instance {
    pub instance_id: Option<String>,
    /// The name of the instance state.
    pub state_name: Option<String>,
    pub instance_type: Option<String>,
    pub vpc_id: Option<String>,
    pub subnet_id: Option<String>,
    pub private_ip_address: Option<String>,
    pub public_ip_address: Option<String>,
    pub launch_time: Option<Timestamp>,
    pub security_groups: Option<Vec<GroupIdentifier>>,
    pub tags: Option<Vec<Tag>>,
}

/// A CIDR block of a VPC.
pub struct VpcCidrBlockAssociation {
    pub cidr_block: Option<String>,
    /// The name of the block state.
    pub state: Option<String>,
}

/// A VPC.
pub struct Vpc {
    pub vpc_id: Option<String>,
    pub cidr_block: Option<String>,
    pub state: Option<String>,
    pub is_default: Option<bool>,
    pub instance_tenancy: Option<String>,
    pub dhcp_options_id: Option<String>,
    pub owner_id: Option<String>,
    pub cidr_block_association_set: Option<Vec<VpcCidrBlockAssociation>>,
    pub tags: Option<Vec<Tag>>,
}

/// An IPv4 range of a rule.
pub struct IpRange {
    pub cidr_ip: Option<String>,
}

/// A rule of a security group.
pub struct IpPermission {
    pub ip_protocol: Option<String>,
    pub from_port: Option<i64>,
    pub to_port: Option<i64>,
    pub ip_ranges: Option<Vec<IpRange>>,
}

/// A security group.
pub struct SecurityGroup {
    pub group_id: Option<String>,
    pub group_name: Option<String>,
    pub description: Option<String>,
    pub vpc_id: Option<String>,
    pub ip_permissions: Option<Vec<IpPermission>>,
    pub ip_permissions_egress: Option<Vec<IpPermission>>,
    pub tags: Option<Vec<Tag>>,
}

/// An attachment of a volume to an instance.
pub struct VolumeAttachment {
    pub instance_id: Option<String>,
    pub device: Option<String>,
    pub state: Option<String>,
    pub attach_time: Option<Timestamp>,
    pub delete_on_termination: Option<bool>,
}

/// An EBS volume.
pub struct Volume {
    pub volume_id: Option<String>,
    pub size: Option<i64>,
    pub volume_type: Option<String>,
    pub state: Option<String>,
    pub create_time: Option<Timestamp>,
    pub availability_zone: Option<String>,
    pub encrypted: Option<bool>,
    pub iops: Option<i64>,
    pub attachments: Option<Vec<VolumeAttachment>>,
    pub tags: Option<Vec<Tag>>,
}

/// An EBS snapshot.
pub struct Snapshot {
    pub snapshot_id: Option<String>,
    pub description: Option<String>,
    pub volume_id: Option<String>,
    pub state: Option<String>,
    pub start_time: Option<Timestamp>,
    pub progress: Option<String>,
    pub volume_size: Option<i64>,
    pub encrypted: Option<bool>,
    pub tags: Option<Vec<Tag>>,
}

/// An AMI.
pub struct Image {
    pub image_id: Option<String>,
    pub name: Option<String>,
    pub description: Option<String>,
    pub state: Option<String>,
    pub creation_date: Option<String>,
    pub architecture: Option<String>,
    pub virtualization_type: Option<String>,
    pub public: Option<bool>,
    pub tags: Option<Vec<Tag>>,
}

/// A subnet.
pub struct Subnet {
    pub subnet_id: Option<String>,
    pub vpc_id: Option<String>,
    pub cidr_block: Option<String>,
    pub availability_zone: Option<String>,
    pub state: Option<String>,
    pub available_ip_address_count: Option<i64>,
    pub map_public_ip_on_launch: Option<bool>,
    pub tags: Option<Vec<Tag>>,
}

/// An attachment of a gateway to a VPC.
pub struct InternetGatewayAttachment {
    pub vpc_id: Option<String>,
    pub state: Option<String>,
}

/// An internet gateway.
pub struct InternetGateway {
    pub internet_gateway_id: Option<String>,
    pub attachments: Option<Vec<InternetGatewayAttachment>>,
    pub tags: Option<Vec<Tag>>,
}

/// A route of a route table.
pub struct Route {
    pub destination_cidr_block: Option<String>,
    pub destination_ipv6_cidr_block: Option<String>,
    pub gateway_id: Option<String>,
    pub instance_id: Option<String>,
    pub nat_gateway_id: Option<String>,
    pub network_interface_id: Option<String>,
    pub vpc_peering_connection_id: Option<String>,
    pub state: Option<String>,
    pub origin: Option<String>,
}

/// An association of a route table.
pub struct RouteTableAssociation {
    pub route_table_association_id: Option<String>,
    pub route_table_id: Option<String>,
    pub subnet_id: Option<String>,
    pub gateway_id: Option<String>,
    pub main: Option<bool>,
    /// The name of the association state.
    pub association_state: Option<String>,
}

/// A route table.
pub struct RouteTable {
    pub route_table_id: Option<String>,
    pub vpc_id: Option<String>,
    pub routes: Option<Vec<Route>>,
    pub associations: Option<Vec<RouteTableAssociation>>,
    pub owner_id: Option<String>,
    pub tags: Option<Vec<Tag>>,
}

/// An address of a NAT gateway.
pub struct NatGatewayAddress {
    pub allocation_id: Option<String>,
    pub network_interface_id: Option<String>,
    pub private_ip: Option<String>,
    pub public_ip: Option<String>,
    pub association_id: Option<String>,
    pub is_primary: Option<bool>,
    pub failure_message: Option<String>,
    pub status: Option<String>,
}

/// A NAT gateway.
pub struct NatGateway {
    pub nat_gateway_id: Option<String>,
    pub vpc_id: Option<String>,
    pub subnet_id: Option<String>,
    pub state: Option<String>,
    pub connectivity_type: Option<String>,
    pub create_time: Option<Timestamp>,
    pub delete_time: Option<Timestamp>,
    pub failure_code: Option<String>,
    pub failure_message: Option<String>,
    pub nat_gateway_addresses: Option<Vec<NatGatewayAddress>>,
    pub tags: Option<Vec<Tag>>,
}

/// The public address associated with a private address.
pub struct NetworkInterfaceAssociation {
    pub public_ip: Option<String>,
    pub public_dns_name: Option<String>,
    pub allocation_id: Option<String>,
    pub association_id: Option<String>,
    pub ip_owner_id: Option<String>,
}

/// A private address of a network interface.
pub struct NetworkInterfacePrivateIpAddress {
    pub private_ip_address: Option<String>,
    pub private_dns_name: Option<String>,
    pub primary: Option<bool>,
    pub association: Option<NetworkInterfaceAssociation>,
}

/// The attachment of a network interface.
pub struct NetworkInterfaceAttachment {
    pub attachment_id: Option<String>,
    pub instance_id: Option<String>,
    pub instance_owner_id: Option<String>,
    pub device_index: Option<i64>,
    pub status: Option<String>,
    pub attach_time: Option<Timestamp>,
    pub delete_on_termination: Option<bool>,
}

/// A network interface.
pub struct NetworkInterface {
    pub network_interface_id: Option<String>,
    pub subnet_id: Option<String>,
    pub vpc_id: Option<String>,
    pub availability_zone: Option<String>,
    pub description: Option<String>,
    pub interface_type: Option<String>,
    pub owner_id: Option<String>,
    pub private_dns_name: Option<String>,
    pub private_ip_address: Option<String>,
    pub source_dest_check: Option<bool>,
    pub status: Option<String>,
    pub mac_address: Option<String>,
    pub private_ip_addresses: Option<Vec<NetworkInterfacePrivateIpAddress>>,
    pub groups: Option<Vec<GroupIdentifier>>,
    pub attachment: Option<NetworkInterfaceAttachment>,
    pub tags: Option<Vec<Tag>>,
}

/// A DNS entry of an endpoint.
pub struct DnsEntry {
    pub dns_name: Option<String>,
    pub hosted_zone_id: Option<String>,
}

/// A VPC endpoint.
pub struct VpcEndpoint {
    pub vpc_endpoint_id: Option<String>,
    pub vpc_id: Option<String>,
    pub service_name: Option<String>,
    pub state: Option<String>,
    pub vpc_endpoint_type: Option<String>,
    pub policy_document: Option<String>,
    pub creation_timestamp: Option<Timestamp>,
    pub owner_id: Option<String>,
    pub private_dns_enabled: Option<bool>,
    pub requester_managed: Option<bool>,
    pub route_table_ids: Option<Vec<String>>,
    pub subnet_ids: Option<Vec<String>>,
    pub groups: Option<Vec<GroupIdentifier>>,
    pub dns_entries: Option<Vec<DnsEntry>>,
    pub network_interface_ids: Option<Vec<String>>,
    pub tags: Option<Vec<Tag>>,
}

/// A port range.
pub struct PortRange {
    pub from: Option<i64>,
    pub to: Option<i64>,
}

/// An ICMP type and code.
pub struct IcmpTypeCode {
    pub icmp_type: Option<i64>,
    pub code: Option<i64>,
}

/// A rule of a network ACL.
pub struct NetworkAclEntry {
    pub rule_number: Option<i64>,
    pub protocol: Option<String>,
    pub rule_action: Option<String>,
    pub cidr_block: Option<String>,
    pub ipv6_cidr_block: Option<String>,
    pub port_range: Option<PortRange>,
    pub icmp_type_code: Option<IcmpTypeCode>,
}

/// An association of a network ACL with a subnet.
pub struct NetworkAclAssociation {
    pub network_acl_association_id: Option<String>,
    pub network_acl_id: Option<String>,
    pub subnet_id: Option<String>,
}

/// A network ACL.
pub struct NetworkAcl {
    pub network_acl_id: Option<String>,
    pub vpc_id: Option<String>,
    pub is_default: Option<bool>,
    pub owner_id: Option<String>,
    pub entries: Option<Vec<NetworkAclEntry>>,
    pub associations: Option<Vec<NetworkAclAssociation>>,
    pub tags: Option<Vec<Tag>>,
}

/// A key pair.
pub struct KeyPairInfo {
    pub key_name: Option<String>,
    pub key_fingerprint: Option<String>,
    pub key_type: Option<String>,
    pub key_pair_id: Option<String>,
    pub create_time: Option<Timestamp>,
    pub public_key: Option<String>,
    pub tags: Option<Vec<Tag>>,
}

/// A transit gateway.
pub struct TransitGateway {
    pub transit_gateway_id: Option<String>,
    pub state: Option<String>,
    pub owner_id: Option<String>,
    pub creation_time: Option<Timestamp>,
    pub description: Option<String>,
    pub tags: Option<Vec<Tag>>,
}

/// A VPC peering connection.
pub struct VpcPeeringConnection {
    pub vpc_peering_connection_id: Option<String>,
    pub status_code: Option<String>,
    pub status_message: Option<String>,
    pub accepter_vpc_id: Option<String>,
    pub accepter_owner_id: Option<String>,
    pub requester_vpc_id: Option<String>,
    pub requester_owner_id: Option<String>,
    pub tags: Option<Vec<Tag>>,
}

/// A flow log.
pub struct FlowLog {
    pub flow_log_id: Option<String>,
    pub resource_id: Option<String>,
    pub flow_log_status: Option<String>,
    pub traffic_type: Option<String>,
    pub log_destination_type: Option<String>,
    pub log_destination: Option<String>,
    pub creation_time: Option<Timestamp>,
    pub tags: Option<Vec<Tag>>,
}

/// An Elastic IP address.
pub struct Address {
    pub allocation_id: Option<String>,
    pub public_ip: Option<String>,
    pub association_id: Option<String>,
    pub domain: Option<String>,
    pub instance_id: Option<String>,
    pub network_interface_id: Option<String>,
    pub network_interface_owner_id: Option<String>,
    pub private_ip_address: Option<String>,
    pub public_ipv4_pool: Option<String>,
    pub network_border_group: Option<String>,
    pub tags: Option<Vec<Tag>>,
}

/// A launch template.
pub struct LaunchTemplate {
    pub launch_template_id: Option<String>,
    pub launch_template_name: Option<String>,
    pub created_by: Option<String>,
    pub create_time: Option<Timestamp>,
    pub default_version_number: Option<i64>,
    pub latest_version_number: Option<i64>,
    pub tags: Option<Vec<Tag>>,
}

/// A placement group.
pub struct PlacementGroup {
    pub group_id: Option<String>,
    pub group_name: Option<String>,
    pub strategy: Option<String>,
    pub state: Option<String>,
    pub partition_count: Option<i64>,
    pub spread_level: Option<String>,
    pub tags: Option<Vec<Tag>>,
}

/// A reservation of instances.
pub struct ReservedInstances {
    pub reserved_instances_id: Option<String>,
    pub instance_type: Option<String>,
    pub state: Option<String>,
    pub availability_zone: Option<String>,
    pub start: Option<Timestamp>,
    pub end: Option<Timestamp>,
    pub instance_count: Option<i64>,
    pub offering_type: Option<String>,
    pub offering_class: Option<String>,
    pub product_description: Option<String>,
    pub tags: Option<Vec<Tag>>,
}

/// A Spot Instance request.
pub struct SpotInstanceRequest {
    pub spot_instance_request_id: Option<String>,
    pub state: Option<String>,
    pub spot_price: Option<String>,
    pub instance_id: Option<String>,
    pub create_time: Option<Timestamp>,
    pub status_code: Option<String>,
    pub status_message: Option<String>,
    pub tags: Option<Vec<Tag>>,
}

/// One DHCP option and its values.
pub struct DhcpConfiguration {
    pub key: Option<String>,
    pub values: Option<Vec<AttributeValue>>,
}

/// A value that may be missing.
pub struct AttributeValue {
    pub value: Option<String>,
}

/// A DHCP option set.
pub struct DhcpOptions {
    pub dhcp_options_id: Option<String>,
    pub dhcp_configurations: Option<Vec<DhcpConfiguration>>,
    pub tags: Option<Vec<Tag>>,
}

/// An attachment of an egress-only gateway.
pub struct EgressOnlyInternetGatewayAttachment {
    pub state: Option<String>,
    pub vpc_id: Option<String>,
}

/// An egress-only internet gateway.
pub struct EgressOnlyInternetGateway {
    pub egress_only_internet_gateway_id: Option<String>,
    pub attachments: Option<Vec<EgressOnlyInternetGatewayAttachment>>,
    pub tags: Option<Vec<Tag>>,
}

/// A VPN connection.
pub struct VpnConnection {
    pub vpn_connection_id: Option<String>,
    pub state: Option<String>,
    pub connection_type: Option<String>,
    pub customer_gateway_id: Option<String>,
    pub vpn_gateway_id: Option<String>,
    pub transit_gateway_id: Option<String>,
    pub tags: Option<Vec<Tag>>,
}

/// A virtual private gateway.
pub struct VpnGateway {
    pub vpn_gateway_id: Option<String>,
    pub state: Option<String>,
    pub gateway_type: Option<String>,
    pub amazon_side_asn: Option<i64>,
    pub tags: Option<Vec<Tag>>,
}

/// A customer gateway.
pub struct CustomerGateway {
    pub customer_gateway_id: Option<String>,
    pub state: Option<String>,
    pub gateway_type: Option<String>,
    pub bgp_asn: Option<String>,
    pub ip_address: Option<String>,
    pub tags: Option<Vec<Tag>>,
}

/// Reads EC2 resources through a credential coordinator `C`.
pub struct EC2Service<C> {
    credential_coordinator: Arc<C>,
}

/// `{"Key": .., "Value": ..}` with the parts that are present.
pub open spec fn tag_json(x: Tag) -> JsonView {
    let m = Map::<Seq<char>, JsonView>::empty();
    let m = with_opt(m, "Key"@, opt_str_json(x.key));
    let m = with_opt(m, "Value"@, opt_str_json(x.value));
    JsonView::Object(m)
}

fn tag_to_json(x: &Tag) -> (v: JsonValue)
    ensures
        v.view() == tag_json(*x),
{
    let mut json = JsonObject::new();
    json.insert_opt_str("Key", &x.key);
    json.insert_opt_str("Value", &x.value);
    JsonValue::Object(json)
}

/// The JSON object of a `GroupIdentifier`.
pub open spec fn group_identifier_json(x: GroupIdentifier) -> JsonView {
    let m = Map::<Seq<char>, JsonView>::empty();
    let m = with_opt(m, "GroupId"@, opt_str_json(x.group_id));
    let m = with_opt(m, "GroupName"@, opt_str_json(x.group_name));
    JsonView::Object(m)
}

fn group_identifier_to_json(x: &GroupIdentifier) -> (v: JsonValue)
    ensures
        v.view() == group_identifier_json(*x),
{
    let mut json = JsonObject::new();
    json.insert_opt_str("GroupId", &x.group_id);
    json.insert_opt_str("GroupName", &x.group_name);
    JsonValue::Object(json)
}

/// The JSON object of an instance; security groups and tags only when there are some.
pub open spec fn instance_json(instance: Instance) -> JsonView {
    let m = Map::<Seq<char>, JsonView>::empty();
    let m = with_opt(m, "InstanceId"@, opt_str_json(instance.instance_id));
    let m = with_opt(m, "State"@, opt_str_json(instance.state_name));
    let m = with_opt(m, "InstanceType"@, opt_str_json(instance.instance_type));
    let m = with_opt(m, "VpcId"@, opt_str_json(instance.vpc_id));
    let m = with_opt(m, "SubnetId"@, opt_str_json(instance.subnet_id));
    let m = with_opt(m, "PrivateIpAddress"@, opt_str_json(instance.private_ip_address));
    let m = with_opt(m, "PublicIpAddress"@, opt_str_json(instance.public_ip_address));
    let m = with_opt(m, "LaunchTime"@, opt_ts_json(instance.launch_time));
    let m = match instance.security_groups { Some(v) => if v@.len() > 0 { m.insert("SecurityGroups"@, JsonView::Array(v@.map_values(|e: GroupIdentifier| group_identifier_json(e)))) } else { m }, None => m };
    let m = match instance.tags { Some(v) => if v@.len() > 0 { m.insert("Tags"@, JsonView::Array(v@.map_values(|e: Tag| tag_json(e)))) } else { m }, None => m };
    JsonView::Object(m)
}

/// The JSON object of a `VpcCidrBlockAssociation`.
pub open spec fn vpc_cidr_block_association_json(x: VpcCidrBlockAssociation) -> JsonView {
    let m = Map::<Seq<char>, JsonView>::empty();
    let m = with_opt(m, "CidrBlock"@, opt_str_json(x.cidr_block));
    let m = with_opt(m, "State"@, opt_str_json(x.state));
    JsonView::Object(m)
}

fn vpc_cidr_block_association_to_json(x: &VpcCidrBlockAssociation) -> (v: JsonValue)
    ensures
        v.view() == vpc_cidr_block_association_json(*x),
{
    let mut json = JsonObject::new();
    json.insert_opt_str("CidrBlock", &x.cidr_block);
    json.insert_opt_str("State", &x.state);
    JsonValue::Object(json)
}

/// The JSON object of a VPC.
pub open spec fn vpc_json(vpc: Vpc) -> JsonView {
    let m = Map::<Seq<char>, JsonView>::empty();
    let m = with_opt(m, "VpcId"@, opt_str_json(vpc.vpc_id));
    let m = with_opt(m, "CidrBlock"@, opt_str_json(vpc.cidr_block));
    let m = with_opt(m, "State"@, opt_str_json(vpc.state));
    let m = with_opt(m, "IsDefault"@, opt_bool_json(vpc.is_default));
    let m = with_opt(m, "InstanceTenancy"@, opt_str_json(vpc.instance_tenancy));
    let m = with_opt(m, "DhcpOptionsId"@, opt_str_json(vpc.dhcp_options_id));
    let m = with_opt(m, "OwnerId"@, opt_str_json(vpc.owner_id));
    let m = match vpc.cidr_block_association_set { Some(v) => if v@.len() > 0 { m.insert("CidrBlockAssociationSet"@, JsonView::Array(v@.map_values(|e: VpcCidrBlockAssociation| vpc_cidr_block_association_json(e)))) } else { m }, None => m };
    let m = match vpc.tags { Some(v) => if v@.len() > 0 { m.insert("Tags"@, JsonView::Array(v@.map_values(|e: Tag| tag_json(e)))) } else { m }, None => m };
    JsonView::Object(m)
}

/// The JSON object of a `IpRange`.
pub open spec fn ip_range_json(x: IpRange) -> JsonView {
    let m = Map::<Seq<char>, JsonView>::empty();
    let m = with_opt(m, "CidrIp"@, opt_str_json(x.cidr_ip));
    JsonView::Object(m)
}

fn ip_range_to_json(x: &IpRange) -> (v: JsonValue)
    ensures
        v.view() == ip_range_json(*x),
{
    let mut json = JsonObject::new();
    json.insert_opt_str("CidrIp", &x.cidr_ip);
    JsonValue::Object(json)
}

/// An ingress rule, with its IP ranges when there are some.
pub open spec fn ingress_rule_json(x: IpPermission) -> JsonView {
    let m = Map::<Seq<char>, JsonView>::empty();
    let m = with_opt(m, "IpProtocol"@, opt_str_json(x.ip_protocol));
    let m = with_opt(m, "FromPort"@, opt_int_json(x.from_port));
    let m = with_opt(m, "ToPort"@, opt_int_json(x.to_port));
    let m = match x.ip_ranges { Some(v) => if v@.len() > 0 { m.insert("IpRanges"@, JsonView::Array(v@.map_values(|e: IpRange| ip_range_json(e)))) } else { m }, None => m };
    JsonView::Object(m)
}

fn ingress_rule_to_json(x: &IpPermission) -> (v: JsonValue)
    ensures
        v.view() == ingress_rule_json(*x),
{
    let mut json = JsonObject::new();
    json.insert_opt_str("IpProtocol", &x.ip_protocol);
    json.insert_opt_int("FromPort", x.from_port);
    json.insert_opt_int("ToPort", x.to_port);
    if let Some(v) = &x.ip_ranges {
        if v.len() > 0 {
            json.insert("IpRanges", array_of(v, ip_range_to_json, Ghost(|e: IpRange| ip_range_json(e))));
        }
    }
    JsonValue::Object(json)
}

/// An egress rule: protocol and ports.
pub open spec fn egress_rule_json(x: IpPermission) -> JsonView {
    let m = Map::<Seq<char>, JsonView>::empty();
    let m = with_opt(m, "IpProtocol"@, opt_str_json(x.ip_protocol));
    let m = with_opt(m, "FromPort"@, opt_int_json(x.from_port));
    let m = with_opt(m, "ToPort"@, opt_int_json(x.to_port));
    JsonView::Object(m)
}

fn egress_rule_to_json(x: &IpPermission) -> (v: JsonValue)
    ensures
        v.view() == egress_rule_json(*x),
{
    let mut json = JsonObject::new();
    json.insert_opt_str("IpProtocol", &x.ip_protocol);
    json.insert_opt_int("FromPort", x.from_port);
    json.insert_opt_int("ToPort", x.to_port);
    JsonValue::Object(json)
}

/// The JSON object of a security group.
pub open spec fn security_group_json(group: SecurityGroup) -> JsonView {
    let m = Map::<Seq<char>, JsonView>::empty();
    let m = with_opt(m, "GroupId"@, opt_str_json(group.group_id));
    let m = with_opt(m, "GroupName"@, opt_str_json(group.group_name));
    let m = with_opt(m, "Description"@, opt_str_json(group.description));
    let m = with_opt(m, "VpcId"@, opt_str_json(group.vpc_id));
    let m = match group.ip_permissions { Some(v) => if v@.len() > 0 { m.insert("IpPermissions"@, JsonView::Array(v@.map_values(|e: IpPermission| ingress_rule_json(e)))) } else { m }, None => m };
    let m = match group.ip_permissions_egress { Some(v) => if v@.len() > 0 { m.insert("IpPermissionsEgress"@, JsonView::Array(v@.map_values(|e: IpPermission| egress_rule_json(e)))) } else { m }, None => m };
    let m = match group.tags { Some(v) => if v@.len() > 0 { m.insert("Tags"@, JsonView::Array(v@.map_values(|e: Tag| tag_json(e)))) } else { m }, None => m };
    JsonView::Object(m)
}

/// The JSON object of a `VolumeAttachment`.
pub open spec fn attachment_summary_json(x: VolumeAttachment) -> JsonView {
    let m = Map::<Seq<char>, JsonView>::empty();
    let m = with_opt(m, "InstanceId"@, opt_str_json(x.instance_id));
    let m = with_opt(m, "Device"@, opt_str_json(x.device));
    let m = with_opt(m, "State"@, opt_str_json(x.state));
    JsonView::Object(m)
}

fn attachment_summary_to_json(x: &VolumeAttachment) -> (v: JsonValue)
    ensures
        v.view() == attachment_summary_json(*x),
{
    let mut json = JsonObject::new();
    json.insert_opt_str("InstanceId", &x.instance_id);
    json.insert_opt_str("Device", &x.device);
    json.insert_opt_str("State", &x.state);
    JsonValue::Object(json)
}

/// The JSON object of a volume; its name is its `Name` tag, or else its id.
pub open spec fn volume_json(volume: Volume) -> JsonView {
    let m = Map::<Seq<char>, JsonView>::empty();
    let m = with_opt(m, "VolumeId"@, opt_str_json(volume.volume_id));
    let m = with_opt(m, "Size"@, opt_int_json(volume.size));
    let m = with_opt(m, "VolumeType"@, opt_str_json(volume.volume_type));
    let m = with_opt(m, "State"@, opt_str_json(volume.state));
    let m = with_opt(m, "Status"@, opt_str_json(volume.state));
    let m = with_opt(m, "CreateTime"@, opt_ts_json(volume.create_time));
    let m = with_opt(m, "AvailabilityZone"@, opt_str_json(volume.availability_zone));
    let m = with_opt(m, "Encrypted"@, opt_bool_json(volume.encrypted));
    let m = with_opt(m, "Iops"@, opt_int_json(volume.iops));
    let m = match volume.attachments { Some(v) => if v@.len() > 0 { m.insert("Attachments"@, JsonView::Array(v@.map_values(|e: VolumeAttachment| attachment_summary_json(e)))) } else { m }, None => m };
    let m = match volume.tags { Some(v) => if v@.len() > 0 { m.insert("Tags"@, JsonView::Array(v@.map_values(|e: Tag| tag_json(e)))) } else { m }, None => m };
    let m = with_opt(m, "Name"@, opt_text_json(or_else(opt_name_tag(volume.tags), opt_text(volume.volume_id))));
    JsonView::Object(m)
}

/// The JSON object of a snapshot, named by its id.
pub open spec fn snapshot_json(snapshot: Snapshot) -> JsonView {
    let m = Map::<Seq<char>, JsonView>::empty();
    let m = with_opt(m, "SnapshotId"@, opt_str_json(snapshot.snapshot_id));
    let m = with_opt(m, "Name"@, opt_str_json(snapshot.snapshot_id));
    let m = with_opt(m, "Description"@, opt_str_json(snapshot.description));
    let m = with_opt(m, "VolumeId"@, opt_str_json(snapshot.volume_id));
    let m = with_opt(m, "State"@, opt_str_json(snapshot.state));
    let m = with_opt(m, "Status"@, opt_str_json(snapshot.state));
    let m = with_opt(m, "StartTime"@, opt_ts_json(snapshot.start_time));
    let m = with_opt(m, "Progress"@, opt_str_json(snapshot.progress));
    let m = with_opt(m, "VolumeSize"@, opt_int_json(snapshot.volume_size));
    let m = with_opt(m, "Encrypted"@, opt_bool_json(snapshot.encrypted));
    let m = match snapshot.tags { Some(v) => if v@.len() > 0 { m.insert("Tags"@, JsonView::Array(v@.map_values(|e: Tag| tag_json(e)))) } else { m }, None => m };
    JsonView::Object(m)
}

/// The JSON object of an AMI, named by its name or else its id.
pub open spec fn ami_json(image: Image) -> JsonView {
    let m = Map::<Seq<char>, JsonView>::empty();
    let m = with_opt(m, "ImageId"@, opt_str_json(image.image_id));
    let m = with_opt(m, "Name"@, opt_text_json(or_else(opt_text(image.name), opt_text(image.image_id))));
    let m = with_opt(m, "Description"@, opt_str_json(image.description));
    let m = with_opt(m, "State"@, opt_str_json(image.state));
    let m = with_opt(m, "Status"@, opt_str_json(image.state));
    let m = with_opt(m, "CreationDate"@, opt_str_json(image.creation_date));
    let m = with_opt(m, "Architecture"@, opt_str_json(image.architecture));
    let m = with_opt(m, "VirtualizationType"@, opt_str_json(image.virtualization_type));
    let m = with_opt(m, "Public"@, opt_bool_json(image.public));
    let m = match image.tags { Some(v) => if v@.len() > 0 { m.insert("Tags"@, JsonView::Array(v@.map_values(|e: Tag| tag_json(e)))) } else { m }, None => m };
    JsonView::Object(m)
}

/// The JSON object of a subnet; its name is its `Name` tag, or else its id.
pub open spec fn subnet_json(subnet: Subnet) -> JsonView {
    let m = Map::<Seq<char>, JsonView>::empty();
    let m = with_opt(m, "SubnetId"@, opt_str_json(subnet.subnet_id));
    let m = with_opt(m, "VpcId"@, opt_str_json(subnet.vpc_id));
    let m = with_opt(m, "CidrBlock"@, opt_str_json(subnet.cidr_block));
    let m = with_opt(m, "AvailabilityZone"@, opt_str_json(subnet.availability_zone));
    let m = with_opt(m, "State"@, opt_str_json(subnet.state));
    let m = with_opt(m, "Status"@, opt_str_json(subnet.state));
    let m = with_opt(m, "AvailableIpAddressCount"@, opt_int_json(subnet.available_ip_address_count));
    let m = with_opt(m, "MapPublicIpOnLaunch"@, opt_bool_json(subnet.map_public_ip_on_launch));
    let m = match subnet.tags { Some(v) => if v@.len() > 0 { m.insert("Tags"@, JsonView::Array(v@.map_values(|e: Tag| tag_json(e)))) } else { m }, None => m };
    let m = with_opt(m, "Name"@, opt_text_json(or_else(opt_name_tag(subnet.tags), opt_text(subnet.subnet_id))));
    JsonView::Object(m)
}

/// The JSON object of a `InternetGatewayAttachment`.
pub open spec fn gateway_attachment_json(x: InternetGatewayAttachment) -> JsonView {
    let m = Map::<Seq<char>, JsonView>::empty();
    let m = with_opt(m, "VpcId"@, opt_str_json(x.vpc_id));
    let m = with_opt(m, "State"@, opt_str_json(x.state));
    JsonView::Object(m)
}

fn gateway_attachment_to_json(x: &InternetGatewayAttachment) -> (v: JsonValue)
    ensures
        v.view() == gateway_attachment_json(*x),
{
    let mut json = JsonObject::new();
    json.insert_opt_str("VpcId", &x.vpc_id);
    json.insert_opt_str("State", &x.state);
    JsonValue::Object(json)
}

/// The JSON object of an internet gateway; its name is its `Name` tag, or else its id.
pub open spec fn internet_gateway_json(igw: InternetGateway) -> JsonView {
    let m = Map::<Seq<char>, JsonView>::empty();
    let m = with_opt(m, "InternetGatewayId"@, opt_str_json(igw.internet_gateway_id));
    let m = match igw.attachments { Some(v) => if v@.len() > 0 { m.insert("Attachments"@, JsonView::Array(v@.map_values(|e: InternetGatewayAttachment| gateway_attachment_json(e)))) } else { m }, None => m };
    let m = match igw.tags { Some(v) => if v@.len() > 0 { m.insert("Tags"@, JsonView::Array(v@.map_values(|e: Tag| tag_json(e)))) } else { m }, None => m };
    let m = with_opt(m, "Name"@, opt_text_json(or_else(opt_name_tag(igw.tags), opt_text(igw.internet_gateway_id))));
    JsonView::Object(m)
}

/// The JSON object of a `Route`.
pub open spec fn route_json(x: Route) -> JsonView {
    let m = Map::<Seq<char>, JsonView>::empty();
    let m = with_opt(m, "DestinationCidrBlock"@, opt_str_json(x.destination_cidr_block));
    let m = with_opt(m, "DestinationIpv6CidrBlock"@, opt_str_json(x.destination_ipv6_cidr_block));
    let m = with_opt(m, "GatewayId"@, opt_str_json(x.gateway_id));
    let m = with_opt(m, "InstanceId"@, opt_str_json(x.instance_id));
    let m = with_opt(m, "NatGatewayId"@, opt_str_json(x.nat_gateway_id));
    let m = with_opt(m, "NetworkInterfaceId"@, opt_str_json(x.network_interface_id));
    let m = with_opt(m, "VpcPeeringConnectionId"@, opt_str_json(x.vpc_peering_connection_id));
    let m = with_opt(m, "State"@, opt_str_json(x.state));
    let m = with_opt(m, "Origin"@, opt_str_json(x.origin));
    JsonView::Object(m)
}

fn route_to_json(x: &Route) -> (v: JsonValue)
    ensures
        v.view() == route_json(*x),
{
    let mut json = JsonObject::new();
    json.insert_opt_str("DestinationCidrBlock", &x.destination_cidr_block);
    json.insert_opt_str("DestinationIpv6CidrBlock", &x.destination_ipv6_cidr_block);
    json.insert_opt_str("GatewayId", &x.gateway_id);
    json.insert_opt_str("InstanceId", &x.instance_id);
    json.insert_opt_str("NatGatewayId", &x.nat_gateway_id);
    json.insert_opt_str("NetworkInterfaceId", &x.network_interface_id);
    json.insert_opt_str("VpcPeeringConnectionId", &x.vpc_peering_connection_id);
    json.insert_opt_str("State", &x.state);
    json.insert_opt_str("Origin", &x.origin);
    JsonValue::Object(json)
}

/// The JSON object of a `RouteTableAssociation`.
pub open spec fn route_table_association_json(x: RouteTableAssociation) -> JsonView {
    let m = Map::<Seq<char>, JsonView>::empty();
    let m = with_opt(m, "RouteTableAssociationId"@, opt_str_json(x.route_table_association_id));
    let m = with_opt(m, "RouteTableId"@, opt_str_json(x.route_table_id));
    let m = with_opt(m, "SubnetId"@, opt_str_json(x.subnet_id));
    let m = with_opt(m, "GatewayId"@, opt_str_json(x.gateway_id));
    let m = with_opt(m, "Main"@, opt_bool_json(x.main));
    let m = with_opt(m, "AssociationState"@, opt_str_json(x.association_state));
    JsonView::Object(m)
}

fn route_table_association_to_json(x: &RouteTableAssociation) -> (v: JsonValue)
    ensures
        v.view() == route_table_association_json(*x),
{
    let mut json = JsonObject::new();
    json.insert_opt_str("RouteTableAssociationId", &x.route_table_association_id);
    json.insert_opt_str("RouteTableId", &x.route_table_id);
    json.insert_opt_str("SubnetId", &x.subnet_id);
    json.insert_opt_str("GatewayId", &x.gateway_id);
    json.insert_opt_bool("Main", x.main);
    json.insert_opt_str("AssociationState", &x.association_state);
    JsonValue::Object(json)
}

/// The JSON object of a route table; its name is its `Name` tag, or else its id.
pub open spec fn route_table_json(route_table: RouteTable) -> JsonView {
    let m = Map::<Seq<char>, JsonView>::empty();
    let m = with_opt(m, "RouteTableId"@, opt_str_json(route_table.route_table_id));
    let m = with_opt(m, "VpcId"@, opt_str_json(route_table.vpc_id));
    let m = match route_table.routes { Some(v) => m.insert("Routes"@, JsonView::Array(v@.map_values(|e: Route| route_json(e)))), None => m };
    let m = match route_table.associations { Some(v) => m.insert("Associations"@, JsonView::Array(v@.map_values(|e: RouteTableAssociation| route_table_association_json(e)))), None => m };
    let m = with_opt(m, "OwnerId"@, opt_str_json(route_table.owner_id));
    let m = with_opt(m, "Name"@, opt_text_json(or_else(opt_name_tag(route_table.tags), opt_text(route_table.route_table_id))));
    JsonView::Object(m)
}

/// The JSON object of a `NatGatewayAddress`.
pub open spec fn nat_gateway_address_json(x: NatGatewayAddress) -> JsonView {
    let m = Map::<Seq<char>, JsonView>::empty();
    let m = with_opt(m, "AllocationId"@, opt_str_json(x.allocation_id));
    let m = with_opt(m, "NetworkInterfaceId"@, opt_str_json(x.network_interface_id));
    let m = with_opt(m, "PrivateIp"@, opt_str_json(x.private_ip));
    let m = with_opt(m, "PublicIp"@, opt_str_json(x.public_ip));
    let m = with_opt(m, "AssociationId"@, opt_str_json(x.association_id));
    let m = with_opt(m, "IsPrimary"@, opt_bool_json(x.is_primary));
    let m = with_opt(m, "FailureMessage"@, opt_str_json(x.failure_message));
    let m = with_opt(m, "Status"@, opt_str_json(x.status));
    JsonView::Object(m)
}

fn nat_gateway_address_to_json(x: &NatGatewayAddress) -> (v: JsonValue)
    ensures
        v.view() == nat_gateway_address_json(*x),
{
    let mut json = JsonObject::new();
    json.insert_opt_str("AllocationId", &x.allocation_id);
    json.insert_opt_str("NetworkInterfaceId", &x.network_interface_id);
    json.insert_opt_str("PrivateIp", &x.private_ip);
    json.insert_opt_str("PublicIp", &x.public_ip);
    json.insert_opt_str("AssociationId", &x.association_id);
    json.insert_opt_bool("IsPrimary", x.is_primary);
    json.insert_opt_str("FailureMessage", &x.failure_message);
    json.insert_opt_str("Status", &x.status);
    JsonValue::Object(json)
}

/// The JSON object of a NAT gateway; its name is its `Name` tag, or else its id.
pub open spec fn nat_gateway_json(nat_gateway: NatGateway) -> JsonView {
    let m = Map::<Seq<char>, JsonView>::empty();
    let m = with_opt(m, "NatGatewayId"@, opt_str_json(nat_gateway.nat_gateway_id));
    let m = with_opt(m, "VpcId"@, opt_str_json(nat_gateway.vpc_id));
    let m = with_opt(m, "SubnetId"@, opt_str_json(nat_gateway.subnet_id));
    let m = with_opt(m, "State"@, opt_str_json(nat_gateway.state));
    let m = with_opt(m, "Status"@, opt_str_json(nat_gateway.state));
    let m = with_opt(m, "ConnectivityType"@, opt_str_json(nat_gateway.connectivity_type));
    let m = with_opt(m, "CreateTime"@, opt_ts_json(nat_gateway.create_time));
    let m = with_opt(m, "DeleteTime"@, opt_ts_json(nat_gateway.delete_time));
    let m = with_opt(m, "FailureCode"@, opt_str_json(nat_gateway.failure_code));
    let m = with_opt(m, "FailureMessage"@, opt_str_json(nat_gateway.failure_message));
    let m = match nat_gateway.nat_gateway_addresses { Some(v) => m.insert("NatGatewayAddresses"@, JsonView::Array(v@.map_values(|e: NatGatewayAddress| nat_gateway_address_json(e)))), None => m };
    let m = with_opt(m, "Name"@, opt_text_json(or_else(opt_name_tag(nat_gateway.tags), opt_text(nat_gateway.nat_gateway_id))));
    JsonView::Object(m)
}

/// The JSON object of a `NetworkInterfaceAssociation`.
pub open spec fn interface_association_json(x: NetworkInterfaceAssociation) -> JsonView {
    let m = Map::<Seq<char>, JsonView>::empty();
    let m = with_opt(m, "PublicIp"@, opt_str_json(x.public_ip));
    let m = with_opt(m, "PublicDnsName"@, opt_str_json(x.public_dns_name));
    let m = with_opt(m, "AllocationId"@, opt_str_json(x.allocation_id));
    let m = with_opt(m, "AssociationId"@, opt_str_json(x.association_id));
    let m = with_opt(m, "IpOwnerId"@, opt_str_json(x.ip_owner_id));
    JsonView::Object(m)
}

fn interface_association_to_json(x: &NetworkInterfaceAssociation) -> (v: JsonValue)
    ensures
        v.view() == interface_association_json(*x),
{
    let mut json = JsonObject::new();
    json.insert_opt_str("PublicIp", &x.public_ip);
    json.insert_opt_str("PublicDnsName", &x.public_dns_name);
    json.insert_opt_str("AllocationId", &x.allocation_id);
    json.insert_opt_str("AssociationId", &x.association_id);
    json.insert_opt_str("IpOwnerId", &x.ip_owner_id);
    JsonValue::Object(json)
}

/// The JSON object of a `NetworkInterfacePrivateIpAddress`.
pub open spec fn private_ip_json(x: NetworkInterfacePrivateIpAddress) -> JsonView {
    let m = Map::<Seq<char>, JsonView>::empty();
    let m = with_opt(m, "PrivateIpAddress"@, opt_str_json(x.private_ip_address));
    let m = with_opt(m, "PrivateDnsName"@, opt_str_json(x.private_dns_name));
    let m = with_opt(m, "Primary"@, opt_bool_json(x.primary));
    let m = match x.association { Some(e) => m.insert("Association"@, interface_association_json(e)), None => m };
    JsonView::Object(m)
}

fn private_ip_to_json(x: &NetworkInterfacePrivateIpAddress) -> (v: JsonValue)
    ensures
        v.view() == private_ip_json(*x),
{
    let mut json = JsonObject::new();
    json.insert_opt_str("PrivateIpAddress", &x.private_ip_address);
    json.insert_opt_str("PrivateDnsName", &x.private_dns_name);
    json.insert_opt_bool("Primary", x.primary);
    if let Some(e) = &x.association {
        json.insert("Association", interface_association_to_json(e));
    }
    JsonValue::Object(json)
}

/// The JSON object of a `NetworkInterfaceAttachment`.
pub open spec fn interface_attachment_json(x: NetworkInterfaceAttachment) -> JsonView {
    let m = Map::<Seq<char>, JsonView>::empty();
    let m = with_opt(m, "AttachmentId"@, opt_str_json(x.attachment_id));
    let m = with_opt(m, "InstanceId"@, opt_str_json(x.instance_id));
    let m = with_opt(m, "InstanceOwnerId"@, opt_str_json(x.instance_owner_id));
    let m = with_opt(m, "DeviceIndex"@, opt_int_json(x.device_index));
    let m = with_opt(m, "Status"@, opt_str_json(x.status));
    let m = with_opt(m, "AttachTime"@, opt_ts_json(x.attach_time));
    let m = with_opt(m, "DeleteOnTermination"@, opt_bool_json(x.delete_on_termination));
    JsonView::Object(m)
}

fn interface_attachment_to_json(x: &NetworkInterfaceAttachment) -> (v: JsonValue)
    ensures
        v.view() == interface_attachment_json(*x),
{
    let mut json = JsonObject::new();
    json.insert_opt_str("AttachmentId", &x.attachment_id);
    json.insert_opt_str("InstanceId", &x.instance_id);
    json.insert_opt_str("InstanceOwnerId", &x.instance_owner_id);
    json.insert_opt_int("DeviceIndex", x.device_index);
    json.insert_opt_str("Status", &x.status);
    json.insert_opt_ts("AttachTime", &x.attach_time);
    json.insert_opt_bool("DeleteOnTermination", x.delete_on_termination);
    JsonValue::Object(json)
}

/// The JSON object of a network interface; its name is its `Name` tag, else its description when that is not empty, else its id.
pub open spec fn network_interface_json(eni: NetworkInterface) -> JsonView {
    let m = Map::<Seq<char>, JsonView>::empty();
    let m = with_opt(m, "NetworkInterfaceId"@, opt_str_json(eni.network_interface_id));
    let m = with_opt(m, "SubnetId"@, opt_str_json(eni.subnet_id));
    let m = with_opt(m, "VpcId"@, opt_str_json(eni.vpc_id));
    let m = with_opt(m, "AvailabilityZone"@, opt_str_json(eni.availability_zone));
    let m = with_opt(m, "Description"@, opt_str_json(eni.description));
    let m = with_opt(m, "InterfaceType"@, opt_str_json(eni.interface_type));
    let m = with_opt(m, "OwnerId"@, opt_str_json(eni.owner_id));
    let m = with_opt(m, "PrivateDnsName"@, opt_str_json(eni.private_dns_name));
    let m = with_opt(m, "PrivateIpAddress"@, opt_str_json(eni.private_ip_address));
    let m = with_opt(m, "SourceDestCheck"@, opt_bool_json(eni.source_dest_check));
    let m = with_opt(m, "Status"@, opt_str_json(eni.status));
    let m = with_opt(m, "MacAddress"@, opt_str_json(eni.mac_address));
    let m = match eni.private_ip_addresses { Some(v) => m.insert("PrivateIpAddresses"@, JsonView::Array(v@.map_values(|e: NetworkInterfacePrivateIpAddress| private_ip_json(e)))), None => m };
    let m = match eni.groups { Some(v) => m.insert("Groups"@, JsonView::Array(v@.map_values(|e: GroupIdentifier| group_identifier_json(e)))), None => m };
    let m = match eni.attachment { Some(e) => m.insert("Attachment"@, interface_attachment_json(e)), None => m };
    let m = with_opt(m, "Name"@, opt_text_json(or_else(opt_name_tag(eni.tags), or_else(non_empty_text(eni.description), opt_text(eni.network_interface_id)))));
    JsonView::Object(m)
}

/// The JSON object of a `DnsEntry`.
pub open spec fn dns_entry_json(x: DnsEntry) -> JsonView {
    let m = Map::<Seq<char>, JsonView>::empty();
    let m = with_opt(m, "DnsName"@, opt_str_json(x.dns_name));
    let m = with_opt(m, "HostedZoneId"@, opt_str_json(x.hosted_zone_id));
    JsonView::Object(m)
}

fn dns_entry_to_json(x: &DnsEntry) -> (v: JsonValue)
    ensures
        v.view() == dns_entry_json(*x),
{
    let mut json = JsonObject::new();
    json.insert_opt_str("DnsName", &x.dns_name);
    json.insert_opt_str("HostedZoneId", &x.hosted_zone_id);
    JsonValue::Object(json)
}

/// The JSON object of a VPC endpoint; its name is its `Name` tag, else `"<last part of the service name> (<id>)"`, else its id.
pub open spec fn vpc_endpoint_json(endpoint: VpcEndpoint) -> JsonView {
    let m = Map::<Seq<char>, JsonView>::empty();
    let m = with_opt(m, "VpcEndpointId"@, opt_str_json(endpoint.vpc_endpoint_id));
    let m = with_opt(m, "VpcId"@, opt_str_json(endpoint.vpc_id));
    let m = with_opt(m, "ServiceName"@, opt_str_json(endpoint.service_name));
    let m = with_opt(m, "State"@, opt_str_json(endpoint.state));
    let m = with_opt(m, "Status"@, opt_str_json(endpoint.state));
    let m = with_opt(m, "VpcEndpointType"@, opt_str_json(endpoint.vpc_endpoint_type));
    let m = with_opt(m, "PolicyDocument"@, opt_str_json(endpoint.policy_document));
    let m = with_opt(m, "CreationTimestamp"@, opt_ts_json(endpoint.creation_timestamp));
    let m = with_opt(m, "OwnerId"@, opt_str_json(endpoint.owner_id));
    let m = with_opt(m, "PrivateDnsEnabled"@, opt_bool_json(endpoint.private_dns_enabled));
    let m = with_opt(m, "RequesterManaged"@, opt_bool_json(endpoint.requester_managed));
    let m = with_opt(m, "RouteTableIds"@, opt_strs_json(endpoint.route_table_ids));
    let m = with_opt(m, "SubnetIds"@, opt_strs_json(endpoint.subnet_ids));
    let m = match endpoint.groups { Some(v) => m.insert("Groups"@, JsonView::Array(v@.map_values(|e: GroupIdentifier| group_identifier_json(e)))), None => m };
    let m = match endpoint.dns_entries { Some(v) => m.insert("DnsEntries"@, JsonView::Array(v@.map_values(|e: DnsEntry| dns_entry_json(e)))), None => m };
    let m = with_opt(m, "NetworkInterfaceIds"@, opt_strs_json(endpoint.network_interface_ids));
    let m = with_opt(m, "Name"@, opt_text_json(or_else(opt_name_tag(endpoint.tags), endpoint_default_name(endpoint.service_name, endpoint.vpc_endpoint_id))));
    JsonView::Object(m)
}

/// The JSON object of a `PortRange`.
pub open spec fn port_range_json(x: PortRange) -> JsonView {
    let m = Map::<Seq<char>, JsonView>::empty();
    let m = with_opt(m, "From"@, opt_int_json(x.from));
    let m = with_opt(m, "To"@, opt_int_json(x.to));
    JsonView::Object(m)
}

fn port_range_to_json(x: &PortRange) -> (v: JsonValue)
    ensures
        v.view() == port_range_json(*x),
{
    let mut json = JsonObject::new();
    json.insert_opt_int("From", x.from);
    json.insert_opt_int("To", x.to);
    JsonValue::Object(json)
}

/// The JSON object of a `IcmpTypeCode`.
pub open spec fn icmp_type_code_json(x: IcmpTypeCode) -> JsonView {
    let m = Map::<Seq<char>, JsonView>::empty();
    let m = with_opt(m, "Type"@, opt_int_json(x.icmp_type));
    let m = with_opt(m, "Code"@, opt_int_json(x.code));
    JsonView::Object(m)
}

fn icmp_type_code_to_json(x: &IcmpTypeCode) -> (v: JsonValue)
    ensures
        v.view() == icmp_type_code_json(*x),
{
    let mut json = JsonObject::new();
    json.insert_opt_int("Type", x.icmp_type);
    json.insert_opt_int("Code", x.code);
    JsonValue::Object(json)
}

/// The JSON object of a `NetworkAclEntry`.
pub open spec fn acl_entry_json(x: NetworkAclEntry) -> JsonView {
    let m = Map::<Seq<char>, JsonView>::empty();
    let m = with_opt(m, "RuleNumber"@, opt_int_json(x.rule_number));
    let m = with_opt(m, "Protocol"@, opt_str_json(x.protocol));
    let m = with_opt(m, "RuleAction"@, opt_str_json(x.rule_action));
    let m = with_opt(m, "CidrBlock"@, opt_str_json(x.cidr_block));
    let m = with_opt(m, "Ipv6CidrBlock"@, opt_str_json(x.ipv6_cidr_block));
    let m = match x.port_range { Some(e) => m.insert("PortRange"@, port_range_json(e)), None => m };
    let m = match x.icmp_type_code { Some(e) => m.insert("IcmpTypeCode"@, icmp_type_code_json(e)), None => m };
    JsonView::Object(m)
}

fn acl_entry_to_json(x: &NetworkAclEntry) -> (v: JsonValue)
    ensures
        v.view() == acl_entry_json(*x),
{
    let mut json = JsonObject::new();
    json.insert_opt_int("RuleNumber", x.rule_number);
    json.insert_opt_str("Protocol", &x.protocol);
    json.insert_opt_str("RuleAction", &x.rule_action);
    json.insert_opt_str("CidrBlock", &x.cidr_block);
    json.insert_opt_str("Ipv6CidrBlock", &x.ipv6_cidr_block);
    if let Some(e) = &x.port_range {
        json.insert("PortRange", port_range_to_json(e));
    }
    if let Some(e) = &x.icmp_type_code {
        json.insert("IcmpTypeCode", icmp_type_code_to_json(e));
    }
    JsonValue::Object(json)
}

/// The JSON object of a `NetworkAclAssociation`.
pub open spec fn acl_association_json(x: NetworkAclAssociation) -> JsonView {
    let m = Map::<Seq<char>, JsonView>::empty();
    let m = with_opt(m, "NetworkAclAssociationId"@, opt_str_json(x.network_acl_association_id));
    let m = with_opt(m, "NetworkAclId"@, opt_str_json(x.network_acl_id));
    let m = with_opt(m, "SubnetId"@, opt_str_json(x.subnet_id));
    JsonView::Object(m)
}

fn acl_association_to_json(x: &NetworkAclAssociation) -> (v: JsonValue)
    ensures
        v.view() == acl_association_json(*x),
{
    let mut json = JsonObject::new();
    json.insert_opt_str("NetworkAclAssociationId", &x.network_acl_association_id);
    json.insert_opt_str("NetworkAclId", &x.network_acl_id);
    json.insert_opt_str("SubnetId", &x.subnet_id);
    JsonValue::Object(json)
}

/// The JSON object of a network ACL; its name is its `Name` tag, else its id, marked `" (default)"` for the default ACL.
pub open spec fn network_acl_json(acl: NetworkAcl) -> JsonView {
    let m = Map::<Seq<char>, JsonView>::empty();
    let m = with_opt(m, "NetworkAclId"@, opt_str_json(acl.network_acl_id));
    let m = with_opt(m, "VpcId"@, opt_str_json(acl.vpc_id));
    let m = with_opt(m, "IsDefault"@, opt_bool_json(acl.is_default));
    let m = with_opt(m, "OwnerId"@, opt_str_json(acl.owner_id));
    let m = match acl.entries { Some(v) => m.insert("Entries"@, JsonView::Array(v@.map_values(|e: NetworkAclEntry| acl_entry_json(e)))), None => m };
    let m = match acl.associations { Some(v) => m.insert("Associations"@, JsonView::Array(v@.map_values(|e: NetworkAclAssociation| acl_association_json(e)))), None => m };
    let m = with_opt(m, "Name"@, opt_text_json(or_else(opt_name_tag(acl.tags), acl_default_name(acl.network_acl_id, acl.is_default))));
    JsonView::Object(m)
}

/// The JSON object of a key pair; its name is its `Name` tag, or else its key name.
pub open spec fn key_pair_json(kp: KeyPairInfo) -> JsonView {
    let m = Map::<Seq<char>, JsonView>::empty();
    let m = with_opt(m, "KeyName"@, opt_str_json(kp.key_name));
    let m = with_opt(m, "Name"@, opt_str_json(kp.key_name));
    let m = with_opt(m, "KeyFingerprint"@, opt_str_json(kp.key_fingerprint));
    let m = with_opt(m, "KeyType"@, opt_str_json(kp.key_type));
    let m = with_opt(m, "KeyPairId"@, opt_str_json(kp.key_pair_id));
    let m = with_opt(m, "CreateTime"@, opt_ts_json(kp.create_time));
    let m = with_opt(m, "PublicKey"@, opt_str_json(kp.public_key));
    let m = with_opt(m, "Name"@, opt_text_json(opt_name_tag(kp.tags)));
    JsonView::Object(m)
}

/// The JSON object of a transit gateway, named by its `Name` tag.
pub open spec fn transit_gateway_json(tgw: TransitGateway) -> JsonView {
    let m = Map::<Seq<char>, JsonView>::empty();
    let m = with_opt(m, "TransitGatewayId"@, opt_str_json(tgw.transit_gateway_id));
    let m = with_opt(m, "ResourceId"@, opt_str_json(tgw.transit_gateway_id));
    let m = with_opt(m, "State"@, opt_str_json(tgw.state));
    let m = with_opt(m, "Status"@, opt_str_json(tgw.state));
    let m = with_opt(m, "OwnerId"@, opt_str_json(tgw.owner_id));
    let m = with_opt(m, "CreationTime"@, opt_ts_json(tgw.creation_time));
    let m = with_opt(m, "Description"@, opt_str_json(tgw.description));
    let m = match tgw.tags { Some(v) => if v@.len() > 0 { m.insert("Tags"@, JsonView::Array(v@.map_values(|e: Tag| tag_json(e)))) } else { m }, None => m };
    let m = with_opt(m, "Name"@, opt_text_json(opt_name_tag(tgw.tags)));
    JsonView::Object(m)
}

/// The JSON object of a peering connection, named by its `Name` tag.
pub open spec fn vpc_peering_connection_json(pc: VpcPeeringConnection) -> JsonView {
    let m = Map::<Seq<char>, JsonView>::empty();
    let m = with_opt(m, "VpcPeeringConnectionId"@, opt_str_json(pc.vpc_peering_connection_id));
    let m = with_opt(m, "ResourceId"@, opt_str_json(pc.vpc_peering_connection_id));
    let m = with_opt(m, "Status"@, opt_str_json(pc.status_code));
    let m = with_opt(m, "StatusMessage"@, opt_str_json(pc.status_message));
    let m = with_opt(m, "AccepterVpcId"@, opt_str_json(pc.accepter_vpc_id));
    let m = with_opt(m, "AccepterOwnerId"@, opt_str_json(pc.accepter_owner_id));
    let m = with_opt(m, "RequesterVpcId"@, opt_str_json(pc.requester_vpc_id));
    let m = with_opt(m, "RequesterOwnerId"@, opt_str_json(pc.requester_owner_id));
    let m = match pc.tags { Some(v) => if v@.len() > 0 { m.insert("Tags"@, JsonView::Array(v@.map_values(|e: Tag| tag_json(e)))) } else { m }, None => m };
    let m = with_opt(m, "Name"@, opt_text_json(opt_name_tag(pc.tags)));
    JsonView::Object(m)
}

/// The JSON object of a flow log; the kind of resource it watches is read off the prefix of the resource id.
pub open spec fn flow_log_json(fl: FlowLog) -> JsonView {
    let m = Map::<Seq<char>, JsonView>::empty();
    let m = with_opt(m, "FlowLogId"@, opt_str_json(fl.flow_log_id));
    let m = with_opt(m, "ResourceId"@, opt_str_json(fl.flow_log_id));
    let m = with_opt(m, "AttachedResourceId"@, opt_str_json(fl.resource_id));
    let m = with_opt(m, "ResourceType"@, opt_text_json(flow_log_resource_type(fl.resource_id)));
    let m = with_opt(m, "Status"@, opt_str_json(fl.flow_log_status));
    let m = with_opt(m, "TrafficType"@, opt_str_json(fl.traffic_type));
    let m = with_opt(m, "LogDestinationType"@, opt_str_json(fl.log_destination_type));
    let m = with_opt(m, "LogDestination"@, opt_str_json(fl.log_destination));
    let m = with_opt(m, "CreationTime"@, opt_ts_json(fl.creation_time));
    let m = match fl.tags { Some(v) => if v@.len() > 0 { m.insert("Tags"@, JsonView::Array(v@.map_values(|e: Tag| tag_json(e)))) } else { m }, None => m };
    let m = with_opt(m, "Name"@, opt_text_json(opt_name_tag(fl.tags)));
    JsonView::Object(m)
}

/// The JSON object of an Elastic IP, named by its `Name` tag.
pub open spec fn elastic_ip_json(address: Address) -> JsonView {
    let m = Map::<Seq<char>, JsonView>::empty();
    let m = with_opt(m, "AllocationId"@, opt_str_json(address.allocation_id));
    let m = with_opt(m, "PublicIp"@, opt_str_json(address.public_ip));
    let m = with_opt(m, "AssociationId"@, opt_str_json(address.association_id));
    let m = with_opt(m, "Domain"@, opt_str_json(address.domain));
    let m = with_opt(m, "InstanceId"@, opt_str_json(address.instance_id));
    let m = with_opt(m, "NetworkInterfaceId"@, opt_str_json(address.network_interface_id));
    let m = with_opt(m, "NetworkInterfaceOwnerId"@, opt_str_json(address.network_interface_owner_id));
    let m = with_opt(m, "PrivateIpAddress"@, opt_str_json(address.private_ip_address));
    let m = with_opt(m, "PublicIpv4Pool"@, opt_str_json(address.public_ipv4_pool));
    let m = with_opt(m, "NetworkBorderGroup"@, opt_str_json(address.network_border_group));
    let m = match address.tags { Some(v) => if v@.len() > 0 { m.insert("Tags"@, JsonView::Array(v@.map_values(|e: Tag| tag_json(e)))) } else { m }, None => m };
    let m = with_opt(m, "Name"@, opt_text_json(opt_name_tag(address.tags)));
    JsonView::Object(m)
}

/// The JSON object of a launch template; its name is its template name, or else its `Name` tag.
pub open spec fn launch_template_json(template: LaunchTemplate) -> JsonView {
    let m = Map::<Seq<char>, JsonView>::empty();
    let m = with_opt(m, "LaunchTemplateId"@, opt_str_json(template.launch_template_id));
    let m = with_opt(m, "LaunchTemplateName"@, opt_str_json(template.launch_template_name));
    let m = with_opt(m, "Name"@, opt_str_json(template.launch_template_name));
    let m = with_opt(m, "CreatedBy"@, opt_str_json(template.created_by));
    let m = with_opt(m, "CreateTime"@, opt_ts_json(template.create_time));
    let m = with_opt(m, "DefaultVersionNumber"@, opt_int_json(template.default_version_number));
    let m = with_opt(m, "LatestVersionNumber"@, opt_int_json(template.latest_version_number));
    let m = match template.tags { Some(v) => if v@.len() > 0 { m.insert("Tags"@, JsonView::Array(v@.map_values(|e: Tag| tag_json(e)))) } else { m }, None => m };
    let m = match template.launch_template_name { Some(_) => m, None => with_opt(m, "Name"@, opt_text_json(opt_name_tag(template.tags))) };
    JsonView::Object(m)
}

/// The JSON object of a placement group; its name is its group name, or else its `Name` tag.
pub open spec fn placement_group_json(group: PlacementGroup) -> JsonView {
    let m = Map::<Seq<char>, JsonView>::empty();
    let m = with_opt(m, "GroupId"@, opt_str_json(group.group_id));
    let m = with_opt(m, "GroupName"@, opt_str_json(group.group_name));
    let m = with_opt(m, "Name"@, opt_str_json(group.group_name));
    let m = with_opt(m, "Strategy"@, opt_str_json(group.strategy));
    let m = with_opt(m, "State"@, opt_str_json(group.state));
    let m = with_opt(m, "Status"@, opt_str_json(group.state));
    let m = with_opt(m, "PartitionCount"@, opt_int_json(group.partition_count));
    let m = with_opt(m, "SpreadLevel"@, opt_str_json(group.spread_level));
    let m = match group.tags { Some(v) => if v@.len() > 0 { m.insert("Tags"@, JsonView::Array(v@.map_values(|e: Tag| tag_json(e)))) } else { m }, None => m };
    let m = match group.group_name { Some(_) => m, None => with_opt(m, "Name"@, opt_text_json(opt_name_tag(group.tags))) };
    JsonView::Object(m)
}

/// The JSON object of a reservation, named by its `Name` tag.
pub open spec fn reserved_instance_json(instance: ReservedInstances) -> JsonView {
    let m = Map::<Seq<char>, JsonView>::empty();
    let m = with_opt(m, "ReservedInstancesId"@, opt_str_json(instance.reserved_instances_id));
    let m = with_opt(m, "InstanceType"@, opt_str_json(instance.instance_type));
    let m = with_opt(m, "State"@, opt_str_json(instance.state));
    let m = with_opt(m, "Status"@, opt_str_json(instance.state));
    let m = with_opt(m, "AvailabilityZone"@, opt_str_json(instance.availability_zone));
    let m = with_opt(m, "Start"@, opt_ts_json(instance.start));
    let m = with_opt(m, "End"@, opt_ts_json(instance.end));
    let m = with_opt(m, "InstanceCount"@, opt_int_json(instance.instance_count));
    let m = with_opt(m, "OfferingType"@, opt_str_json(instance.offering_type));
    let m = with_opt(m, "OfferingClass"@, opt_str_json(instance.offering_class));
    let m = with_opt(m, "ProductDescription"@, opt_str_json(instance.product_description));
    let m = match instance.tags { Some(v) => if v@.len() > 0 { m.insert("Tags"@, JsonView::Array(v@.map_values(|e: Tag| tag_json(e)))) } else { m }, None => m };
    let m = with_opt(m, "Name"@, opt_text_json(opt_name_tag(instance.tags)));
    JsonView::Object(m)
}

/// The JSON object of a Spot Instance request, named by its `Name` tag.
pub open spec fn spot_instance_request_json(request: SpotInstanceRequest) -> JsonView {
    let m = Map::<Seq<char>, JsonView>::empty();
    let m = with_opt(m, "SpotInstanceRequestId"@, opt_str_json(request.spot_instance_request_id));
    let m = with_opt(m, "State"@, opt_str_json(request.state));
    let m = with_opt(m, "Status"@, opt_str_json(request.state));
    let m = with_opt(m, "SpotPrice"@, opt_str_json(request.spot_price));
    let m = with_opt(m, "InstanceId"@, opt_str_json(request.instance_id));
    let m = with_opt(m, "CreateTime"@, opt_ts_json(request.create_time));
    let m = with_opt(m, "StatusCode"@, opt_str_json(request.status_code));
    let m = with_opt(m, "StatusMessage"@, opt_str_json(request.status_message));
    let m = match request.tags { Some(v) => if v@.len() > 0 { m.insert("Tags"@, JsonView::Array(v@.map_values(|e: Tag| tag_json(e)))) } else { m }, None => m };
    let m = with_opt(m, "Name"@, opt_text_json(opt_name_tag(request.tags)));
    JsonView::Object(m)
}

/// An option with the values that are present.
pub open spec fn dhcp_configuration_json(x: DhcpConfiguration) -> JsonView {
    let m = Map::<Seq<char>, JsonView>::empty();
    let m = with_opt(m, "Key"@, opt_str_json(x.key));
    let m = match x.values { Some(v) => m.insert("Values"@, present_values_json(v@)), None => m };
    JsonView::Object(m)
}

fn dhcp_configuration_to_json(x: &DhcpConfiguration) -> (v: JsonValue)
    ensures
        v.view() == dhcp_configuration_json(*x),
{
    let mut json = JsonObject::new();
    json.insert_opt_str("Key", &x.key);
    if let Some(v) = &x.values {
        json.insert("Values", present_values(v));
    }
    JsonValue::Object(json)
}

/// The JSON object of a DHCP option set, named by its `Name` tag.
pub open spec fn dhcp_options_json(options: DhcpOptions) -> JsonView {
    let m = Map::<Seq<char>, JsonView>::empty();
    let m = with_opt(m, "DhcpOptionsId"@, opt_str_json(options.dhcp_options_id));
    let m = match options.dhcp_configurations { Some(v) => m.insert("DhcpConfigurations"@, JsonView::Array(v@.map_values(|e: DhcpConfiguration| dhcp_configuration_json(e)))), None => m };
    let m = match options.tags { Some(v) => if v@.len() > 0 { m.insert("Tags"@, JsonView::Array(v@.map_values(|e: Tag| tag_json(e)))) } else { m }, None => m };
    let m = with_opt(m, "Name"@, opt_text_json(opt_name_tag(options.tags)));
    JsonView::Object(m)
}

/// The JSON object of a `EgressOnlyInternetGatewayAttachment`.
pub open spec fn egress_attachment_json(x: EgressOnlyInternetGatewayAttachment) -> JsonView {
    let m = Map::<Seq<char>, JsonView>::empty();
    let m = with_opt(m, "State"@, opt_str_json(x.state));
    let m = with_opt(m, "VpcId"@, opt_str_json(x.vpc_id));
    JsonView::Object(m)
}

fn egress_attachment_to_json(x: &EgressOnlyInternetGatewayAttachment) -> (v: JsonValue)
    ensures
        v.view() == egress_attachment_json(*x),
{
    let mut json = JsonObject::new();
    json.insert_opt_str("State", &x.state);
    json.insert_opt_str("VpcId", &x.vpc_id);
    JsonValue::Object(json)
}

/// The JSON object of an egress-only gateway, named by its `Name` tag.
pub open spec fn egress_only_internet_gateway_json(gateway: EgressOnlyInternetGateway) -> JsonView {
    let m = Map::<Seq<char>, JsonView>::empty();
    let m = with_opt(m, "EgressOnlyInternetGatewayId"@, opt_str_json(gateway.egress_only_internet_gateway_id));
    let m = match gateway.attachments { Some(v) => m.insert("Attachments"@, JsonView::Array(v@.map_values(|e: EgressOnlyInternetGatewayAttachment| egress_attachment_json(e)))), None => m };
    let m = match gateway.tags { Some(v) => if v@.len() > 0 { m.insert("Tags"@, JsonView::Array(v@.map_values(|e: Tag| tag_json(e)))) } else { m }, None => m };
    let m = with_opt(m, "Name"@, opt_text_json(opt_name_tag(gateway.tags)));
    JsonView::Object(m)
}

/// The JSON object of a VPN connection, named by its `Name` tag.
pub open spec fn vpn_connection_json(connection: VpnConnection) -> JsonView {
    let m = Map::<Seq<char>, JsonView>::empty();
    let m = with_opt(m, "VpnConnectionId"@, opt_str_json(connection.vpn_connection_id));
    let m = with_opt(m, "State"@, opt_str_json(connection.state));
    let m = with_opt(m, "Status"@, opt_str_json(connection.state));
    let m = with_opt(m, "Type"@, opt_str_json(connection.connection_type));
    let m = with_opt(m, "CustomerGatewayId"@, opt_str_json(connection.customer_gateway_id));
    let m = with_opt(m, "VpnGatewayId"@, opt_str_json(connection.vpn_gateway_id));
    let m = with_opt(m, "TransitGatewayId"@, opt_str_json(connection.transit_gateway_id));
    let m = match connection.tags { Some(v) => if v@.len() > 0 { m.insert("Tags"@, JsonView::Array(v@.map_values(|e: Tag| tag_json(e)))) } else { m }, None => m };
    let m = with_opt(m, "Name"@, opt_text_json(opt_name_tag(connection.tags)));
    JsonView::Object(m)
}

/// The JSON object of a virtual private gateway, named by its `Name` tag.
pub open spec fn vpn_gateway_json(gateway: VpnGateway) -> JsonView {
    let m = Map::<Seq<char>, JsonView>::empty();
    let m = with_opt(m, "VpnGatewayId"@, opt_str_json(gateway.vpn_gateway_id));
    let m = with_opt(m, "State"@, opt_str_json(gateway.state));
    let m = with_opt(m, "Status"@, opt_str_json(gateway.state));
    let m = with_opt(m, "Type"@, opt_str_json(gateway.gateway_type));
    let m = with_opt(m, "AmazonSideAsn"@, opt_int_json(gateway.amazon_side_asn));
    let m = match gateway.tags { Some(v) => if v@.len() > 0 { m.insert("Tags"@, JsonView::Array(v@.map_values(|e: Tag| tag_json(e)))) } else { m }, None => m };
    let m = with_opt(m, "Name"@, opt_text_json(opt_name_tag(gateway.tags)));
    JsonView::Object(m)
}

/// The JSON object of a customer gateway, named by its `Name` tag.
pub open spec fn customer_gateway_json(gateway: CustomerGateway) -> JsonView {
    let m = Map::<Seq<char>, JsonView>::empty();
    let m = with_opt(m, "CustomerGatewayId"@, opt_str_json(gateway.customer_gateway_id));
    let m = with_opt(m, "State"@, opt_str_json(gateway.state));
    let m = with_opt(m, "Status"@, opt_str_json(gateway.state));
    let m = with_opt(m, "Type"@, opt_str_json(gateway.gateway_type));
    let m = with_opt(m, "BgpAsn"@, opt_str_json(gateway.bgp_asn));
    let m = with_opt(m, "IpAddress"@, opt_str_json(gateway.ip_address));
    let m = match gateway.tags { Some(v) => if v@.len() > 0 { m.insert("Tags"@, JsonView::Array(v@.map_values(|e: Tag| tag_json(e)))) } else { m }, None => m };
    let m = with_opt(m, "Name"@, opt_text_json(opt_name_tag(gateway.tags)));
    JsonView::Object(m)
}

impl<C> EC2Service<C> {
    /// The coordinator that the service was made with.
    pub closed spec fn coordinator(&self) -> Arc<C> {
        self.credential_coordinator
    }

    /// A service that obtains its AWS configurations from `credential_coordinator`.
    pub fn new(credential_coordinator: Arc<C>) -> (s: Self)
        ensures
            s.coordinator() == credential_coordinator,
    {
        Self { credential_coordinator }
    }

    /// The coordinator that the service was made with.
    pub fn credential_coordinator(&self) -> (c: &Arc<C>)
        ensures
            *c == self.coordinator(),
    {
        &self.credential_coordinator
    }

    /// The JSON object of an instance; security groups and tags only when there are some.
    pub fn instance_to_json(&self, instance: &Instance) -> (v: JsonValue)
        ensures
            v.view() == instance_json(*instance),
    {
        let mut json = JsonObject::new();
        json.insert_opt_str("InstanceId", &instance.instance_id);
        json.insert_opt_str("State", &instance.state_name);
        json.insert_opt_str("InstanceType", &instance.instance_type);
        json.insert_opt_str("VpcId", &instance.vpc_id);
        json.insert_opt_str("SubnetId", &instance.subnet_id);
        json.insert_opt_str("PrivateIpAddress", &instance.private_ip_address);
        json.insert_opt_str("PublicIpAddress", &instance.public_ip_address);
        json.insert_opt_ts("LaunchTime", &instance.launch_time);
        if let Some(v) = &instance.security_groups {
            if v.len() > 0 {
                json.insert("SecurityGroups", array_of(v, group_identifier_to_json, Ghost(|e: GroupIdentifier| group_identifier_json(e))));
            }
        }
        if let Some(v) = &instance.tags {
            if v.len() > 0 {
                json.insert("Tags", array_of(v, tag_to_json, Ghost(|e: Tag| tag_json(e))));
            }
        }
        JsonValue::Object(json)
    }

    /// The JSON object of a VPC.
    pub fn vpc_to_json(&self, vpc: &Vpc) -> (v: JsonValue)
        ensures
            v.view() == vpc_json(*vpc),
    {
        let mut json = JsonObject::new();
        json.insert_opt_str("VpcId", &vpc.vpc_id);
        json.insert_opt_str("CidrBlock", &vpc.cidr_block);
        json.insert_opt_str("State", &vpc.state);
        json.insert_opt_bool("IsDefault", vpc.is_default);
        json.insert_opt_str("InstanceTenancy", &vpc.instance_tenancy);
        json.insert_opt_str("DhcpOptionsId", &vpc.dhcp_options_id);
        json.insert_opt_str("OwnerId", &vpc.owner_id);
        if let Some(v) = &vpc.cidr_block_association_set {
            if v.len() > 0 {
                json.insert("CidrBlockAssociationSet", array_of(v, vpc_cidr_block_association_to_json, Ghost(|e: VpcCidrBlockAssociation| vpc_cidr_block_association_json(e))));
            }
        }
        if let Some(v) = &vpc.tags {
            if v.len() > 0 {
                json.insert("Tags", array_of(v, tag_to_json, Ghost(|e: Tag| tag_json(e))));
            }
        }
        JsonValue::Object(json)
    }

    /// The JSON object of a security group.
    pub fn security_group_to_json(&self, group: &SecurityGroup) -> (v: JsonValue)
        ensures
            v.view() == security_group_json(*group),
    {
        let mut json = JsonObject::new();
        json.insert_opt_str("GroupId", &group.group_id);
        json.insert_opt_str("GroupName", &group.group_name);
        json.insert_opt_str("Description", &group.description);
        json.insert_opt_str("VpcId", &group.vpc_id);
        if let Some(v) = &group.ip_permissions {
            if v.len() > 0 {
                json.insert("IpPermissions", array_of(v, ingress_rule_to_json, Ghost(|e: IpPermission| ingress_rule_json(e))));
            }
        }
        if let Some(v) = &group.ip_permissions_egress {
            if v.len() > 0 {
                json.insert("IpPermissionsEgress", array_of(v, egress_rule_to_json, Ghost(|e: IpPermission| egress_rule_json(e))));
            }
        }
        if let Some(v) = &group.tags {
            if v.len() > 0 {
                json.insert("Tags", array_of(v, tag_to_json, Ghost(|e: Tag| tag_json(e))));
            }
        }
        JsonValue::Object(json)
    }

    /// The JSON object of a volume; its name is its `Name` tag, or else its id.
    pub fn volume_to_json(&self, volume: &Volume) -> (v: JsonValue)
        ensures
            v.view() == volume_json(*volume),
    {
        let mut json = JsonObject::new();
        json.insert_opt_str("VolumeId", &volume.volume_id);
        json.insert_opt_int("Size", volume.size);
        json.insert_opt_str("VolumeType", &volume.volume_type);
        json.insert_opt_str("State", &volume.state);
        json.insert_opt_str("Status", &volume.state);
        json.insert_opt_ts("CreateTime", &volume.create_time);
        json.insert_opt_str("AvailabilityZone", &volume.availability_zone);
        json.insert_opt_bool("Encrypted", volume.encrypted);
        json.insert_opt_int("Iops", volume.iops);
        if let Some(v) = &volume.attachments {
            if v.len() > 0 {
                json.insert("Attachments", array_of(v, attachment_summary_to_json, Ghost(|e: VolumeAttachment| attachment_summary_json(e))));
            }
        }
        if let Some(v) = &volume.tags {
            if v.len() > 0 {
                json.insert("Tags", array_of(v, tag_to_json, Ghost(|e: Tag| tag_json(e))));
            }
        }
        json.insert_opt_text("Name", or_else_text(name_tag_of(&volume.tags), volume.volume_id.clone()));
        JsonValue::Object(json)
    }

    /// The JSON object of a snapshot, named by its id.
    pub fn snapshot_to_json(&self, snapshot: &Snapshot) -> (v: JsonValue)
        ensures
            v.view() == snapshot_json(*snapshot),
    {
        let mut json = JsonObject::new();
        json.insert_opt_str("SnapshotId", &snapshot.snapshot_id);
        json.insert_opt_str("Name", &snapshot.snapshot_id);
        json.insert_opt_str("Description", &snapshot.description);
        json.insert_opt_str("VolumeId", &snapshot.volume_id);
        json.insert_opt_str("State", &snapshot.state);
        json.insert_opt_str("Status", &snapshot.state);
        json.insert_opt_ts("StartTime", &snapshot.start_time);
        json.insert_opt_str("Progress", &snapshot.progress);
        json.insert_opt_int("VolumeSize", snapshot.volume_size);
        json.insert_opt_bool("Encrypted", snapshot.encrypted);
        if let Some(v) = &snapshot.tags {
            if v.len() > 0 {
                json.insert("Tags", array_of(v, tag_to_json, Ghost(|e: Tag| tag_json(e))));
            }
        }
        JsonValue::Object(json)
    }

    /// The JSON object of an AMI, named by its name or else its id.
    pub fn ami_to_json(&self, image: &Image) -> (v: JsonValue)
        ensures
            v.view() == ami_json(*image),
    {
        let mut json = JsonObject::new();
        json.insert_opt_str("ImageId", &image.image_id);
        json.insert_opt_text("Name", or_else_text(image.name.clone(), image.image_id.clone()));
        json.insert_opt_str("Description", &image.description);
        json.insert_opt_str("State", &image.state);
        json.insert_opt_str("Status", &image.state);
        json.insert_opt_str("CreationDate", &image.creation_date);
        json.insert_opt_str("Architecture", &image.architecture);
        json.insert_opt_str("VirtualizationType", &image.virtualization_type);
        json.insert_opt_bool("Public", image.public);
        if let Some(v) = &image.tags {
            if v.len() > 0 {
                json.insert("Tags", array_of(v, tag_to_json, Ghost(|e: Tag| tag_json(e))));
            }
        }
        JsonValue::Object(json)
    }

    /// The JSON object of a subnet; its name is its `Name` tag, or else its id.
    pub fn subnet_to_json(&self, subnet: &Subnet) -> (v: JsonValue)
        ensures
            v.view() == subnet_json(*subnet),
    {
        let mut json = JsonObject::new();
        json.insert_opt_str("SubnetId", &subnet.subnet_id);
        json.insert_opt_str("VpcId", &subnet.vpc_id);
        json.insert_opt_str("CidrBlock", &subnet.cidr_block);
        json.insert_opt_str("AvailabilityZone", &subnet.availability_zone);
        json.insert_opt_str("State", &subnet.state);
        json.insert_opt_str("Status", &subnet.state);
        json.insert_opt_int("AvailableIpAddressCount", subnet.available_ip_address_count);
        json.insert_opt_bool("MapPublicIpOnLaunch", subnet.map_public_ip_on_launch);
        if let Some(v) = &subnet.tags {
            if v.len() > 0 {
                json.insert("Tags", array_of(v, tag_to_json, Ghost(|e: Tag| tag_json(e))));
            }
        }
        json.insert_opt_text("Name", or_else_text(name_tag_of(&subnet.tags), subnet.subnet_id.clone()));
        JsonValue::Object(json)
    }

    /// The JSON object of an internet gateway; its name is its `Name` tag, or else its id.
    pub fn internet_gateway_to_json(&self, igw: &InternetGateway) -> (v: JsonValue)
        ensures
            v.view() == internet_gateway_json(*igw),
    {
        let mut json = JsonObject::new();
        json.insert_opt_str("InternetGatewayId", &igw.internet_gateway_id);
        if let Some(v) = &igw.attachments {
            if v.len() > 0 {
                json.insert("Attachments", array_of(v, gateway_attachment_to_json, Ghost(|e: InternetGatewayAttachment| gateway_attachment_json(e))));
            }
        }
        if let Some(v) = &igw.tags {
            if v.len() > 0 {
                json.insert("Tags", array_of(v, tag_to_json, Ghost(|e: Tag| tag_json(e))));
            }
        }
        json.insert_opt_text("Name", or_else_text(name_tag_of(&igw.tags), igw.internet_gateway_id.clone()));
        JsonValue::Object(json)
    }

    /// The JSON object of a route table; its name is its `Name` tag, or else its id.
    pub fn route_table_to_json(&self, route_table: &RouteTable) -> (v: JsonValue)
        ensures
            v.view() == route_table_json(*route_table),
    {
        let mut json = JsonObject::new();
        json.insert_opt_str("RouteTableId", &route_table.route_table_id);
        json.insert_opt_str("VpcId", &route_table.vpc_id);
        if let Some(v) = &route_table.routes {
            json.insert("Routes", array_of(v, route_to_json, Ghost(|e: Route| route_json(e))));
        }
        if let Some(v) = &route_table.associations {
            json.insert("Associations", array_of(v, route_table_association_to_json, Ghost(|e: RouteTableAssociation| route_table_association_json(e))));
        }
        json.insert_opt_str("OwnerId", &route_table.owner_id);
        json.insert_opt_text("Name", or_else_text(name_tag_of(&route_table.tags), route_table.route_table_id.clone()));
        JsonValue::Object(json)
    }

    /// The JSON object of a NAT gateway; its name is its `Name` tag, or else its id.
    pub fn nat_gateway_to_json(&self, nat_gateway: &NatGateway) -> (v: JsonValue)
        ensures
            v.view() == nat_gateway_json(*nat_gateway),
    {
        let mut json = JsonObject::new();
        json.insert_opt_str("NatGatewayId", &nat_gateway.nat_gateway_id);
        json.insert_opt_str("VpcId", &nat_gateway.vpc_id);
        json.insert_opt_str("SubnetId", &nat_gateway.subnet_id);
        json.insert_opt_str("State", &nat_gateway.state);
        json.insert_opt_str("Status", &nat_gateway.state);
        json.insert_opt_str("ConnectivityType", &nat_gateway.connectivity_type);
        json.insert_opt_ts("CreateTime", &nat_gateway.create_time);
        json.insert_opt_ts("DeleteTime", &nat_gateway.delete_time);
        json.insert_opt_str("FailureCode", &nat_gateway.failure_code);
        json.insert_opt_str("FailureMessage", &nat_gateway.failure_message);
        if let Some(v) = &nat_gateway.nat_gateway_addresses {
            json.insert("NatGatewayAddresses", array_of(v, nat_gateway_address_to_json, Ghost(|e: NatGatewayAddress| nat_gateway_address_json(e))));
        }
        json.insert_opt_text("Name", or_else_text(name_tag_of(&nat_gateway.tags), nat_gateway.nat_gateway_id.clone()));
        JsonValue::Object(json)
    }

    /// The JSON object of a network interface; its name is its `Name` tag, else its description when that is not empty, else its id.
    pub fn network_interface_to_json(&self, eni: &NetworkInterface) -> (v: JsonValue)
        ensures
            v.view() == network_interface_json(*eni),
    {
        let mut json = JsonObject::new();
        json.insert_opt_str("NetworkInterfaceId", &eni.network_interface_id);
        json.insert_opt_str("SubnetId", &eni.subnet_id);
        json.insert_opt_str("VpcId", &eni.vpc_id);
        json.insert_opt_str("AvailabilityZone", &eni.availability_zone);
        json.insert_opt_str("Description", &eni.description);
        json.insert_opt_str("InterfaceType", &eni.interface_type);
        json.insert_opt_str("OwnerId", &eni.owner_id);
        json.insert_opt_str("PrivateDnsName", &eni.private_dns_name);
        json.insert_opt_str("PrivateIpAddress", &eni.private_ip_address);
        json.insert_opt_bool("SourceDestCheck", eni.source_dest_check);
        json.insert_opt_str("Status", &eni.status);
        json.insert_opt_str("MacAddress", &eni.mac_address);
        if let Some(v) = &eni.private_ip_addresses {
            json.insert("PrivateIpAddresses", array_of(v, private_ip_to_json, Ghost(|e: NetworkInterfacePrivateIpAddress| private_ip_json(e))));
        }
        if let Some(v) = &eni.groups {
            json.insert("Groups", array_of(v, group_identifier_to_json, Ghost(|e: GroupIdentifier| group_identifier_json(e))));
        }
        if let Some(e) = &eni.attachment {
            json.insert("Attachment", interface_attachment_to_json(e));
        }
        json.insert_opt_text("Name", or_else_text(name_tag_of(&eni.tags), or_else_text(non_empty(&eni.description), eni.network_interface_id.clone())));
        JsonValue::Object(json)
    }

    /// The JSON object of a VPC endpoint; its name is its `Name` tag, else `"<last part of the service name> (<id>)"`, else its id.
    pub fn vpc_endpoint_to_json(&self, endpoint: &VpcEndpoint) -> (v: JsonValue)
        ensures
            v.view() == vpc_endpoint_json(*endpoint),
    {
        let mut json = JsonObject::new();
        json.insert_opt_str("VpcEndpointId", &endpoint.vpc_endpoint_id);
        json.insert_opt_str("VpcId", &endpoint.vpc_id);
        json.insert_opt_str("ServiceName", &endpoint.service_name);
        json.insert_opt_str("State", &endpoint.state);
        json.insert_opt_str("Status", &endpoint.state);
        json.insert_opt_str("VpcEndpointType", &endpoint.vpc_endpoint_type);
        json.insert_opt_str("PolicyDocument", &endpoint.policy_document);
        json.insert_opt_ts("CreationTimestamp", &endpoint.creation_timestamp);
        json.insert_opt_str("OwnerId", &endpoint.owner_id);
        json.insert_opt_bool("PrivateDnsEnabled", endpoint.private_dns_enabled);
        json.insert_opt_bool("RequesterManaged", endpoint.requester_managed);
        json.insert_opt_strs("RouteTableIds", &endpoint.route_table_ids);
        json.insert_opt_strs("SubnetIds", &endpoint.subnet_ids);
        if let Some(v) = &endpoint.groups {
            json.insert("Groups", array_of(v, group_identifier_to_json, Ghost(|e: GroupIdentifier| group_identifier_json(e))));
        }
        if let Some(v) = &endpoint.dns_entries {
            json.insert("DnsEntries", array_of(v, dns_entry_to_json, Ghost(|e: DnsEntry| dns_entry_json(e))));
        }
        json.insert_opt_strs("NetworkInterfaceIds", &endpoint.network_interface_ids);
        json.insert_opt_text("Name", or_else_text(name_tag_of(&endpoint.tags), endpoint_default_name_of(&endpoint.service_name, &endpoint.vpc_endpoint_id)));
        JsonValue::Object(json)
    }

    /// The JSON object of a network ACL; its name is its `Name` tag, else its id, marked `" (default)"` for the default ACL.
    pub fn network_acl_to_json(&self, acl: &NetworkAcl) -> (v: JsonValue)
        ensures
            v.view() == network_acl_json(*acl),
    {
        let mut json = JsonObject::new();
        json.insert_opt_str("NetworkAclId", &acl.network_acl_id);
        json.insert_opt_str("VpcId", &acl.vpc_id);
        json.insert_opt_bool("IsDefault", acl.is_default);
        json.insert_opt_str("OwnerId", &acl.owner_id);
        if let Some(v) = &acl.entries {
            json.insert("Entries", array_of(v, acl_entry_to_json, Ghost(|e: NetworkAclEntry| acl_entry_json(e))));
        }
        if let Some(v) = &acl.associations {
            json.insert("Associations", array_of(v, acl_association_to_json, Ghost(|e: NetworkAclAssociation| acl_association_json(e))));
        }
        json.insert_opt_text("Name", or_else_text(name_tag_of(&acl.tags), acl_default_name_of(&acl.network_acl_id, acl.is_default)));
        JsonValue::Object(json)
    }

    /// The JSON object of a key pair; its name is its `Name` tag, or else its key name.
    pub fn key_pair_to_json(&self, kp: &KeyPairInfo) -> (v: JsonValue)
        ensures
            v.view() == key_pair_json(*kp),
    {
        let mut json = JsonObject::new();
        json.insert_opt_str("KeyName", &kp.key_name);
        json.insert_opt_str("Name", &kp.key_name);
        json.insert_opt_str("KeyFingerprint", &kp.key_fingerprint);
        json.insert_opt_str("KeyType", &kp.key_type);
        json.insert_opt_str("KeyPairId", &kp.key_pair_id);
        json.insert_opt_ts("CreateTime", &kp.create_time);
        json.insert_opt_str("PublicKey", &kp.public_key);
        json.insert_opt_text("Name", name_tag_of(&kp.tags));
        JsonValue::Object(json)
    }

    /// The JSON object of a transit gateway, named by its `Name` tag.
    pub fn transit_gateway_to_json(&self, tgw: &TransitGateway) -> (v: JsonValue)
        ensures
            v.view() == transit_gateway_json(*tgw),
    {
        let mut json = JsonObject::new();
        json.insert_opt_str("TransitGatewayId", &tgw.transit_gateway_id);
        json.insert_opt_str("ResourceId", &tgw.transit_gateway_id);
        json.insert_opt_str("State", &tgw.state);
        json.insert_opt_str("Status", &tgw.state);
        json.insert_opt_str("OwnerId", &tgw.owner_id);
        json.insert_opt_ts("CreationTime", &tgw.creation_time);
        json.insert_opt_str("Description", &tgw.description);
        if let Some(v) = &tgw.tags {
            if v.len() > 0 {
                json.insert("Tags", array_of(v, tag_to_json, Ghost(|e: Tag| tag_json(e))));
            }
        }
        json.insert_opt_text("Name", name_tag_of(&tgw.tags));
        JsonValue::Object(json)
    }

    /// The JSON object of a peering connection, named by its `Name` tag.
    pub fn vpc_peering_connection_to_json(&self, pc: &VpcPeeringConnection) -> (v: JsonValue)
        ensures
            v.view() == vpc_peering_connection_json(*pc),
    {
        let mut json = JsonObject::new();
        json.insert_opt_str("VpcPeeringConnectionId", &pc.vpc_peering_connection_id);
        json.insert_opt_str("ResourceId", &pc.vpc_peering_connection_id);
        json.insert_opt_str("Status", &pc.status_code);
        json.insert_opt_str("StatusMessage", &pc.status_message);
        json.insert_opt_str("AccepterVpcId", &pc.accepter_vpc_id);
        json.insert_opt_str("AccepterOwnerId", &pc.accepter_owner_id);
        json.insert_opt_str("RequesterVpcId", &pc.requester_vpc_id);
        json.insert_opt_str("RequesterOwnerId", &pc.requester_owner_id);
        if let Some(v) = &pc.tags {
            if v.len() > 0 {
                json.insert("Tags", array_of(v, tag_to_json, Ghost(|e: Tag| tag_json(e))));
            }
        }
        json.insert_opt_text("Name", name_tag_of(&pc.tags));
        JsonValue::Object(json)
    }

    /// The JSON object of a flow log; the kind of resource it watches is read off the prefix of the resource id.
    pub fn flow_log_to_json(&self, fl: &FlowLog) -> (v: JsonValue)
        ensures
            v.view() == flow_log_json(*fl),
    {
        let mut json = JsonObject::new();
        json.insert_opt_str("FlowLogId", &fl.flow_log_id);
        json.insert_opt_str("ResourceId", &fl.flow_log_id);
        json.insert_opt_str("AttachedResourceId", &fl.resource_id);
        json.insert_opt_text("ResourceType", flow_log_resource_type_of(&fl.resource_id));
        json.insert_opt_str("Status", &fl.flow_log_status);
        json.insert_opt_str("TrafficType", &fl.traffic_type);
        json.insert_opt_str("LogDestinationType", &fl.log_destination_type);
        json.insert_opt_str("LogDestination", &fl.log_destination);
        json.insert_opt_ts("CreationTime", &fl.creation_time);
        if let Some(v) = &fl.tags {
            if v.len() > 0 {
                json.insert("Tags", array_of(v, tag_to_json, Ghost(|e: Tag| tag_json(e))));
            }
        }
        json.insert_opt_text("Name", name_tag_of(&fl.tags));
        JsonValue::Object(json)
    }

    /// The JSON object of an Elastic IP, named by its `Name` tag.
    pub fn elastic_ip_to_json(&self, address: &Address) -> (v: JsonValue)
        ensures
            v.view() == elastic_ip_json(*address),
    {
        let mut json = JsonObject::new();
        json.insert_opt_str("AllocationId", &address.allocation_id);
        json.insert_opt_str("PublicIp", &address.public_ip);
        json.insert_opt_str("AssociationId", &address.association_id);
        json.insert_opt_str("Domain", &address.domain);
        json.insert_opt_str("InstanceId", &address.instance_id);
        json.insert_opt_str("NetworkInterfaceId", &address.network_interface_id);
        json.insert_opt_str("NetworkInterfaceOwnerId", &address.network_interface_owner_id);
        json.insert_opt_str("PrivateIpAddress", &address.private_ip_address);
        json.insert_opt_str("PublicIpv4Pool", &address.public_ipv4_pool);
        json.insert_opt_str("NetworkBorderGroup", &address.network_border_group);
        if let Some(v) = &address.tags {
            if v.len() > 0 {
                json.insert("Tags", array_of(v, tag_to_json, Ghost(|e: Tag| tag_json(e))));
            }
        }
        json.insert_opt_text("Name", name_tag_of(&address.tags));
        JsonValue::Object(json)
    }

    /// The JSON object of a launch template; its name is its template name, or else its `Name` tag.
    pub fn launch_template_to_json(&self, template: &LaunchTemplate) -> (v: JsonValue)
        ensures
            v.view() == launch_template_json(*template),
    {
        let mut json = JsonObject::new();
        json.insert_opt_str("LaunchTemplateId", &template.launch_template_id);
        json.insert_opt_str("LaunchTemplateName", &template.launch_template_name);
        json.insert_opt_str("Name", &template.launch_template_name);
        json.insert_opt_str("CreatedBy", &template.created_by);
        json.insert_opt_ts("CreateTime", &template.create_time);
        json.insert_opt_int("DefaultVersionNumber", template.default_version_number);
        json.insert_opt_int("LatestVersionNumber", template.latest_version_number);
        if let Some(v) = &template.tags {
            if v.len() > 0 {
                json.insert("Tags", array_of(v, tag_to_json, Ghost(|e: Tag| tag_json(e))));
            }
        }
        if template.launch_template_name.is_none() {
            json.insert_opt_text("Name", name_tag_of(&template.tags));
        }
        JsonValue::Object(json)
    }

    /// The JSON object of a placement group; its name is its group name, or else its `Name` tag.
    pub fn placement_group_to_json(&self, group: &PlacementGroup) -> (v: JsonValue)
        ensures
            v.view() == placement_group_json(*group),
    {
        let mut json = JsonObject::new();
        json.insert_opt_str("GroupId", &group.group_id);
        json.insert_opt_str("GroupName", &group.group_name);
        json.insert_opt_str("Name", &group.group_name);
        json.insert_opt_str("Strategy", &group.strategy);
        json.insert_opt_str("State", &group.state);
        json.insert_opt_str("Status", &group.state);
        json.insert_opt_int("PartitionCount", group.partition_count);
        json.insert_opt_str("SpreadLevel", &group.spread_level);
        if let Some(v) = &group.tags {
            if v.len() > 0 {
                json.insert("Tags", array_of(v, tag_to_json, Ghost(|e: Tag| tag_json(e))));
            }
        }
        if group.group_name.is_none() {
            json.insert_opt_text("Name", name_tag_of(&group.tags));
        }
        JsonValue::Object(json)
    }

    /// The JSON object of a reservation, named by its `Name` tag.
    pub fn reserved_instance_to_json(&self, instance: &ReservedInstances) -> (v: JsonValue)
        ensures
            v.view() == reserved_instance_json(*instance),
    {
        let mut json = JsonObject::new();
        json.insert_opt_str("ReservedInstancesId", &instance.reserved_instances_id);
        json.insert_opt_str("InstanceType", &instance.instance_type);
        json.insert_opt_str("State", &instance.state);
        json.insert_opt_str("Status", &instance.state);
        json.insert_opt_str("AvailabilityZone", &instance.availability_zone);
        json.insert_opt_ts("Start", &instance.start);
        json.insert_opt_ts("End", &instance.end);
        json.insert_opt_int("InstanceCount", instance.instance_count);
        json.insert_opt_str("OfferingType", &instance.offering_type);
        json.insert_opt_str("OfferingClass", &instance.offering_class);
        json.insert_opt_str("ProductDescription", &instance.product_description);
        if let Some(v) = &instance.tags {
            if v.len() > 0 {
                json.insert("Tags", array_of(v, tag_to_json, Ghost(|e: Tag| tag_json(e))));
            }
        }
        json.insert_opt_text("Name", name_tag_of(&instance.tags));
        JsonValue::Object(json)
    }

    /// The JSON object of a Spot Instance request, named by its `Name` tag.
    pub fn spot_instance_request_to_json(&self, request: &SpotInstanceRequest) -> (v: JsonValue)
        ensures
            v.view() == spot_instance_request_json(*request),
    {
        let mut json = JsonObject::new();
        json.insert_opt_str("SpotInstanceRequestId", &request.spot_instance_request_id);
        json.insert_opt_str("State", &request.state);
        json.insert_opt_str("Status", &request.state);
        json.insert_opt_str("SpotPrice", &request.spot_price);
        json.insert_opt_str("InstanceId", &request.instance_id);
        json.insert_opt_ts("CreateTime", &request.create_time);
        json.insert_opt_str("StatusCode", &request.status_code);
        json.insert_opt_str("StatusMessage", &request.status_message);
        if let Some(v) = &request.tags {
            if v.len() > 0 {
                json.insert("Tags", array_of(v, tag_to_json, Ghost(|e: Tag| tag_json(e))));
            }
        }
        json.insert_opt_text("Name", name_tag_of(&request.tags));
        JsonValue::Object(json)
    }

    /// The JSON object of a DHCP option set, named by its `Name` tag.
    pub fn dhcp_options_to_json(&self, options: &DhcpOptions) -> (v: JsonValue)
        ensures
            v.view() == dhcp_options_json(*options),
    {
        let mut json = JsonObject::new();
        json.insert_opt_str("DhcpOptionsId", &options.dhcp_options_id);
        if let Some(v) = &options.dhcp_configurations {
            json.insert("DhcpConfigurations", array_of(v, dhcp_configuration_to_json, Ghost(|e: DhcpConfiguration| dhcp_configuration_json(e))));
        }
        if let Some(v) = &options.tags {
            if v.len() > 0 {
                json.insert("Tags", array_of(v, tag_to_json, Ghost(|e: Tag| tag_json(e))));
            }
        }
        json.insert_opt_text("Name", name_tag_of(&options.tags));
        JsonValue::Object(json)
    }

    /// The JSON object of an egress-only gateway, named by its `Name` tag.
    pub fn egress_only_internet_gateway_to_json(&self, gateway: &EgressOnlyInternetGateway) -> (v: JsonValue)
        ensures
            v.view() == egress_only_internet_gateway_json(*gateway),
    {
        let mut json = JsonObject::new();
        json.insert_opt_str("EgressOnlyInternetGatewayId", &gateway.egress_only_internet_gateway_id);
        if let Some(v) = &gateway.attachments {
            json.insert("Attachments", array_of(v, egress_attachment_to_json, Ghost(|e: EgressOnlyInternetGatewayAttachment| egress_attachment_json(e))));
        }
        if let Some(v) = &gateway.tags {
            if v.len() > 0 {
                json.insert("Tags", array_of(v, tag_to_json, Ghost(|e: Tag| tag_json(e))));
            }
        }
        json.insert_opt_text("Name", name_tag_of(&gateway.tags));
        JsonValue::Object(json)
    }

    /// The JSON object of a VPN connection, named by its `Name` tag.
    pub fn vpn_connection_to_json(&self, connection: &VpnConnection) -> (v: JsonValue)
        ensures
            v.view() == vpn_connection_json(*connection),
    {
        let mut json = JsonObject::new();
        json.insert_opt_str("VpnConnectionId", &connection.vpn_connection_id);
        json.insert_opt_str("State", &connection.state);
        json.insert_opt_str("Status", &connection.state);
        json.insert_opt_str("Type", &connection.connection_type);
        json.insert_opt_str("CustomerGatewayId", &connection.customer_gateway_id);
        json.insert_opt_str("VpnGatewayId", &connection.vpn_gateway_id);
        json.insert_opt_str("TransitGatewayId", &connection.transit_gateway_id);
        if let Some(v) = &connection.tags {
            if v.len() > 0 {
                json.insert("Tags", array_of(v, tag_to_json, Ghost(|e: Tag| tag_json(e))));
            }
        }
        json.insert_opt_text("Name", name_tag_of(&connection.tags));
        JsonValue::Object(json)
    }

    /// The JSON object of a virtual private gateway, named by its `Name` tag.
    pub fn vpn_gateway_to_json(&self, gateway: &VpnGateway) -> (v: JsonValue)
        ensures
            v.view() == vpn_gateway_json(*gateway),
    {
        let mut json = JsonObject::new();
        json.insert_opt_str("VpnGatewayId", &gateway.vpn_gateway_id);
        json.insert_opt_str("State", &gateway.state);
        json.insert_opt_str("Status", &gateway.state);
        json.insert_opt_str("Type", &gateway.gateway_type);
        json.insert_opt_int("AmazonSideAsn", gateway.amazon_side_asn);
        if let Some(v) = &gateway.tags {
            if v.len() > 0 {
                json.insert("Tags", array_of(v, tag_to_json, Ghost(|e: Tag| tag_json(e))));
            }
        }
        json.insert_opt_text("Name", name_tag_of(&gateway.tags));
        JsonValue::Object(json)
    }

    /// The JSON object of a customer gateway, named by its `Name` tag.
    pub fn customer_gateway_to_json(&self, gateway: &CustomerGateway) -> (v: JsonValue)
        ensures
            v.view() == customer_gateway_json(*gateway),
    {
        let mut json = JsonObject::new();
        json.insert_opt_str("CustomerGatewayId", &gateway.customer_gateway_id);
        json.insert_opt_str("State", &gateway.state);
        json.insert_opt_str("Status", &gateway.state);
        json.insert_opt_str("Type", &gateway.gateway_type);
        json.insert_opt_str("BgpAsn", &gateway.bgp_asn);
        json.insert_opt_str("IpAddress", &gateway.ip_address);
        if let Some(v) = &gateway.tags {
            if v.len() > 0 {
                json.insert("Tags", array_of(v, tag_to_json, Ghost(|e: Tag| tag_json(e))));
            }
        }
        json.insert_opt_text("Name", name_tag_of(&gateway.tags));
        JsonValue::Object(json)
    }

}

// ----- names -----

/// The value of the first tag whose key is `Name`, among the tags that have
/// both a key and a value.
pub open spec fn name_tag(tags: Seq<Tag>) -> Option<Seq<char>>
    decreases tags.len(),
{
    if tags.len() == 0 {
        None
    } else {
        let t = tags[0];
        if t.key matches Some(k) && k@ == "Name"@ && t.value is Some {
            opt_text(t.value)
        } else {
            name_tag(tags.drop_first())
        }
    }
}

/// The `Name` tag, when there are tags.
pub open spec fn opt_name_tag(tags: Option<Vec<Tag>>) -> Option<Seq<char>> {
    match tags {
        Some(v) => name_tag(v@),
        None => None,
    }
}

/// `a` when there is one, else `b`.
pub open spec fn or_else(a: Option<Seq<char>>, b: Option<Seq<char>>) -> Option<Seq<char>> {
    match a {
        Some(x) => Some(x),
        None => b,
    }
}

/// The text when it is present and not empty.
pub open spec fn non_empty_text(o: Option<String>) -> Option<Seq<char>> {
    match o {
        Some(s) => if s@.len() > 0 {
            Some(s@)
        } else {
            None
        },
        None => None,
    }
}

/// The value of the `Name` tag, if any.
fn name_tag_of(tags: &Option<Vec<Tag>>) -> (r: Option<String>)
    ensures
        opt_text(r) == opt_name_tag(*tags),
{
    match tags {
        None => None,
        Some(list) => {
            let name = "Name".to_owned();
            let mut i: usize = 0;
            assert(list@.skip(0) =~= list@);
            while i < list.len()
                invariant
                    i <= list@.len(),
                    name@ == "Name"@,
                    opt_name_tag(*tags) == name_tag(list@.skip(i as int)),
                decreases list@.len() - i,
            {
                assert(list@.skip(i as int).drop_first() =~= list@.skip(i + 1));
                assert(list@.skip(i as int)[0] == list@[i as int]);
                let tag = &list[i];
                if let (Some(key), Some(value)) = (&tag.key, &tag.value) {
                    if *key == name {
                        return Some(value.clone());
                    }
                }
                i = i + 1;
            }
            None
        },
    }
}

/// `a` when there is one, else `b`.
fn or_else_text(a: Option<String>, b: Option<String>) -> (r: Option<String>)
    ensures
        opt_text(r) == or_else(opt_text(a), opt_text(b)),
{
    match a {
        Some(x) => Some(x),
        None => b,
    }
}

/// The text when it is present and not empty.
fn non_empty(o: &Option<String>) -> (r: Option<String>)
    ensures
        opt_text(r) == non_empty_text(*o),
{
    match o {
        Some(s) => if s.as_str().is_empty() {
            None
        } else {
            Some(s.clone())
        },
        None => None,
    }
}

/// The name an endpoint gets without a `Name` tag: the last dot-separated
/// part of its service name followed by its id in brackets, or its id alone
/// when there is no service name.
pub open spec fn endpoint_default_name(service_name: Option<String>, id: Option<String>) -> Option<Seq<char>> {
    match service_name {
        Some(s) => match id {
            Some(i) => Some(last_segment(s@, '.') + " ("@ + i@ + ")"@),
            None => None,
        },
        None => opt_text(id),
    }
}

fn endpoint_default_name_of(service_name: &Option<String>, id: &Option<String>) -> (r: Option<String>)
    ensures
        opt_text(r) == endpoint_default_name(*service_name, *id),
{
    match service_name {
        Some(s) => match id {
            Some(i) => {
                let mut name = after_last(s.as_str(), '.');
                name.append(" (");
                name.append(i.as_str());
                name.append(")");
                Some(name)
            },
            None => None,
        },
        None => id.clone(),
    }
}

/// The name a network ACL gets without a `Name` tag: its id, followed by
/// `" (default)"` for the default ACL.
pub open spec fn acl_default_name(id: Option<String>, is_default: Option<bool>) -> Option<Seq<char>> {
    match id {
        Some(i) => if is_default == Some(true) {
            Some(i@ + " (default)"@)
        } else {
            Some(i@)
        },
        None => None,
    }
}

fn acl_default_name_of(id: &Option<String>, is_default: Option<bool>) -> (r: Option<String>)
    ensures
        opt_text(r) == acl_default_name(*id, is_default),
{
    match id {
        Some(i) => {
            let mut name = i.clone();
            if is_default == Some(true) {
                name.append(" (default)");
            }
            Some(name)
        },
        None => None,
    }
}

/// The kind of resource a flow log watches, read off its id's prefix.
pub open spec fn flow_log_resource_type(resource_id: Option<String>) -> Option<Seq<char>> {
    match resource_id {
        Some(r) => Some(
            if has_prefix(r@, "vpc-"@) {
                "VPC"@
            } else if has_prefix(r@, "subnet-"@) {
                "Subnet"@
            } else if has_prefix(r@, "eni-"@) {
                "NetworkInterface"@
            } else {
                "Unknown"@
            },
        ),
        None => None,
    }
}

fn flow_log_resource_type_of(resource_id: &Option<String>) -> (r: Option<String>)
    ensures
        opt_text(r) == flow_log_resource_type(*resource_id),
{
    match resource_id {
        Some(r) => Some(
            if starts_with(r.as_str(), "vpc-") {
                "VPC".to_owned()
            } else if starts_with(r.as_str(), "subnet-") {
                "Subnet".to_owned()
            } else if starts_with(r.as_str(), "eni-") {
                "NetworkInterface".to_owned()
            } else {
                "Unknown".to_owned()
            },
        ),
        None => None,
    }
}

/// The texts of the values that are present, in order.
pub open spec fn present_texts(values: Seq<AttributeValue>) -> Seq<Seq<char>>
    decreases values.len(),
{
    if values.len() == 0 {
        Seq::empty()
    } else {
        let rest = present_texts(values.drop_last());
        match values.last().value {
            Some(v) => rest.push(v@),
            None => rest,
        }
    }
}

/// An array of the values that are present.
pub open spec fn present_values_json(values: Seq<AttributeValue>) -> JsonView {
    JsonView::Array(present_texts(values).map_values(|t: Seq<char>| JsonView::Str(t)))
}

fn present_values(values: &Vec<AttributeValue>) -> (v: JsonValue)
    ensures
        v.view() == present_values_json(values@),
{
    let mut out: Vec<JsonValue> = Vec::new();
    let mut i: usize = 0;
    while i < values.len()
        invariant
            i <= values@.len(),
            items_view(out@) =~= present_texts(values@.take(i as int)).map_values(
                |t: Seq<char>| JsonView::Str(t),
            ),
        decreases values@.len() - i,
    {
        assert(values@.take(i + 1).drop_last() =~= values@.take(i as int));
        if let Some(s) = &values[i].value {
            let ghost before = out@;
            let x = JsonValue::Str(s.clone());
            out.push(x);
            proof {
                lemma_items_view_push(before, x);
            }
        }
        i = i + 1;
    }
    assert(values@.take(values@.len() as int) =~= values@);
    JsonValue::Array(out)
}

// ----- volume attachments -----

/// The id of a volume attachment: `"<volume>:<instance>"`, with placeholders
/// for missing ids.
pub open spec fn attachment_ids(volume: Volume, attachment: VolumeAttachment) -> (Seq<char>, Seq<char>) {
    (
        match volume.volume_id {
            Some(v) => v@,
            None => "unknown-volume"@,
        },
        match attachment.instance_id {
            Some(i) => i@,
            None => "unknown-instance"@,
        },
    )
}

/// The JSON object of one attachment of a volume.
pub open spec fn volume_attachment_json(volume: Volume, attachment: VolumeAttachment) -> JsonView {
    let (v, i) = attachment_ids(volume, attachment);
    let id = v + ":"@ + i;
    let m = Map::<Seq<char>, JsonView>::empty().insert("AttachmentId"@, JsonView::Str(id)).insert(
        "ResourceId"@,
        JsonView::Str(id),
    );
    let m = with_opt(m, "VolumeId"@, opt_str_json(volume.volume_id));
    let m = with_opt(m, "InstanceId"@, opt_str_json(attachment.instance_id));
    let m = with_opt(m, "Device"@, opt_str_json(attachment.device));
    let m = with_opt(m, "State"@, opt_str_json(attachment.state));
    let m = with_opt(m, "Status"@, opt_str_json(attachment.state));
    let m = with_opt(m, "AttachTime"@, opt_ts_json(attachment.attach_time));
    let m = m.insert(
        "DeleteOnTermination"@,
        JsonView::Bool(attachment.delete_on_termination == Some(true)),
    );
    let m = with_opt(m, "VolumeSize"@, opt_int_json(volume.size));
    let m = with_opt(m, "VolumeType"@, opt_str_json(volume.volume_type));
    let m = with_opt(m, "AvailabilityZone"@, opt_str_json(volume.availability_zone));
    JsonView::Object(m.insert("Name"@, JsonView::Str(v + " → "@ + i)))
}

impl<C> EC2Service<C> {
    /// The JSON object of one attachment of a volume, named
    /// `"<volume> → <instance>"`.
    pub fn volume_attachment_to_json(&self, volume: &Volume, attachment: &VolumeAttachment) -> (v:
        JsonValue)
        ensures
            v.view() == volume_attachment_json(*volume, *attachment),
    {
        let volume_id = match &volume.volume_id {
            Some(v) => v.clone(),
            None => "unknown-volume".to_owned(),
        };
        let instance_id = match &attachment.instance_id {
            Some(i) => i.clone(),
            None => "unknown-instance".to_owned(),
        };
        let mut attachment_id = volume_id.clone();
        attachment_id.append(":");
        attachment_id.append(instance_id.as_str());
        let mut json = JsonObject::new();
        json.insert_str("AttachmentId", &attachment_id);
        json.insert("ResourceId", JsonValue::Str(attachment_id));
        json.insert_opt_str("VolumeId", &volume.volume_id);
        json.insert_opt_str("InstanceId", &attachment.instance_id);
        json.insert_opt_str("Device", &attachment.device);
        json.insert_opt_str("State", &attachment.state);
        json.insert_opt_str("Status", &attachment.state);
        json.insert_opt_ts("AttachTime", &attachment.attach_time);
        json.insert_bool(
            "DeleteOnTermination",
            match attachment.delete_on_termination {
                Some(b) => b,
                None => false,
            },
        );
        json.insert_opt_int("VolumeSize", volume.size);
        json.insert_opt_str("VolumeType", &volume.volume_type);
        json.insert_opt_str("AvailabilityZone", &volume.availability_zone);
        let mut name = volume_id;
        name.append(" → ");
        name.append(instance_id.as_str());
        json.insert("Name", JsonValue::Str(name));
        JsonValue::Object(json)
    }
}

/// The index of the first of `ids` that is `id`.
pub open spec fn first_with_id(ids: Seq<Option<String>>, id: Seq<char>) -> Option<int>
    decreases ids.len(),
{
    if ids.len() == 0 {
        None
    } else {
        match first_with_id(ids.drop_last(), id) {
            Some(i) => Some(i),
            None => if ids.last() matches Some(x) && x@ == id {
                Some(ids.len() - 1)
            } else {
                None
            },
        }
    }
}

impl<C> EC2Service<C> {
    /// Which of the resources that a describe call answered is the one asked
    /// for: the index of the first whose id is `id`.
    pub fn position_of_id(&self, ids: &Vec<Option<String>>, id: &String) -> (r: Option<usize>)
        ensures
            match r {
                Some(i) => first_with_id(ids@, id@) == Some(i as int),
                None => first_with_id(ids@, id@) is None,
            },
    {
        let mut i: usize = 0;
        while i < ids.len()
            invariant
                i <= ids@.len(),
                first_with_id(ids@.take(i as int), id@) is None,
            decreases ids@.len() - i,
        {
            proof {
                assert(ids@.take(i + 1).drop_last() =~= ids@.take(i as int));
            }
            if let Some(x) = &ids[i] {
                if *x == *id {
                    proof {
                        lemma_first_with_id_prefix(ids@, id@, i + 1);
                    }
                    return Some(i);
                }
            }
            i = i + 1;
        }
        assert(ids@.take(ids@.len() as int) =~= ids@);
        None
    }

    /// The error for a resource of the kind `kind` that was not answered:
    /// `kind id not found`.
    pub fn not_found(&self, kind: &str, id: &str) -> (e: String)
        ensures
            e@ == kind@ + " "@ + id@ + " not found"@,
    {
        let mut text = concat_text(kind, " ");
        text.append(id);
        text.append(" not found");
        text
    }
}

/// Where a prefix already holds the id, the whole list finds the same index.
proof fn lemma_first_with_id_prefix(ids: Seq<Option<String>>, id: Seq<char>, k: int)
    requires
        0 < k <= ids.len(),
        first_with_id(ids.take(k), id) is Some,
    ensures
        first_with_id(ids, id) == first_with_id(ids.take(k), id),
    decreases ids.len() - k,
{
    if k < ids.len() {
        assert(ids.take(k + 1).drop_last() =~= ids.take(k));
        lemma_first_with_id_prefix(ids, id, k + 1);
    } else {
        assert(ids.take(k) =~= ids);
    }
}

/// A tag that names its resource: the key `Name`, with a value.
pub open spec fn is_name_tag(t: Tag) -> bool {
    t.key matches Some(k) && k@ == "Name"@ && t.value is Some
}

/// The tags as a sequence, none when there is no list.
pub open spec fn tag_seq(tags: Option<Vec<Tag>>) -> Seq<Tag> {
    match tags {
        Some(v) => v@,
        None => Seq::empty(),
    }
}

/// The `Name` tag is the value of the first tag that names its resource, and
/// there is none when no tag does.
proof fn lemma_name_tag_first(tags: Seq<Tag>)
    ensures
        forall|i: int|
            0 <= i < tags.len() && #[trigger] is_name_tag(tags[i]) && (forall|j: int| 0 <= j < i ==> !is_name_tag(tags[j]))
                ==> name_tag(tags) == Some(tags[i].value->0@),
        (forall|j: int| 0 <= j < tags.len() ==> !is_name_tag(#[trigger] tags[j])) ==> name_tag(tags) is None,
    decreases tags.len(),
{
    if tags.len() > 0 {
        let rest = tags.drop_first();
        lemma_name_tag_first(rest);
        assert forall|i: int|
            0 <= i < tags.len() && #[trigger] is_name_tag(tags[i]) && (forall|j: int| 0 <= j < i ==> !is_name_tag(tags[j]))
            implies name_tag(tags) == Some(tags[i].value->0@) by {
            if i > 0 {
                assert(!is_name_tag(tags[0]));
                assert(rest[i - 1] == tags[i]);
                assert forall|j: int| 0 <= j < i - 1 implies !is_name_tag(rest[j]) by {
                    assert(rest[j] == tags[j + 1]);
                }
            }
        }
        if forall|j: int| 0 <= j < tags.len() ==> !is_name_tag(#[trigger] tags[j]) {
            assert(!is_name_tag(tags[0]));
            assert forall|j: int| 0 <= j < rest.len() implies !is_name_tag(#[trigger] rest[j]) by {
                assert(rest[j] == tags[j + 1]);
            }
        }
    }
}

/// `Name` differs from the other keys of a network interface.
proof fn lemma_interface_keys_differ()
    ensures
        "Name"@ != "NetworkInterfaceId"@,
        "Name"@ != "SubnetId"@,
        "Name"@ != "VpcId"@,
        "Name"@ != "AvailabilityZone"@,
        "Name"@ != "Description"@,
        "Name"@ != "InterfaceType"@,
        "Name"@ != "OwnerId"@,
        "Name"@ != "PrivateDnsName"@,
        "Name"@ != "PrivateIpAddress"@,
        "Name"@ != "SourceDestCheck"@,
        "Name"@ != "Status"@,
        "Name"@ != "MacAddress"@,
        "Name"@ != "PrivateIpAddresses"@,
        "Name"@ != "Groups"@,
        "Name"@ != "Attachment"@,
{
    assert("Name"@ != "NetworkInterfaceId"@) by {
        reveal_strlit("Name");
        reveal_strlit("NetworkInterfaceId");
        assert("Name"@.len() != "NetworkInterfaceId"@.len());
    }
    assert("Name"@ != "SubnetId"@) by {
        reveal_strlit("Name");
        reveal_strlit("SubnetId");
        assert("Name"@.len() != "SubnetId"@.len());
    }
    assert("Name"@ != "VpcId"@) by {
        reveal_strlit("Name");
        reveal_strlit("VpcId");
        assert("Name"@.len() != "VpcId"@.len());
    }
    assert("Name"@ != "AvailabilityZone"@) by {
        reveal_strlit("Name");
        reveal_strlit("AvailabilityZone");
        assert("Name"@.len() != "AvailabilityZone"@.len());
    }
    assert("Name"@ != "Description"@) by {
        reveal_strlit("Name");
        reveal_strlit("Description");
        assert("Name"@.len() != "Description"@.len());
    }
    assert("Name"@ != "InterfaceType"@) by {
        reveal_strlit("Name");
        reveal_strlit("InterfaceType");
        assert("Name"@.len() != "InterfaceType"@.len());
    }
    assert("Name"@ != "OwnerId"@) by {
        reveal_strlit("Name");
        reveal_strlit("OwnerId");
        assert("Name"@.len() != "OwnerId"@.len());
    }
    assert("Name"@ != "PrivateDnsName"@) by {
        reveal_strlit("Name");
        reveal_strlit("PrivateDnsName");
        assert("Name"@.len() != "PrivateDnsName"@.len());
    }
    assert("Name"@ != "PrivateIpAddress"@) by {
        reveal_strlit("Name");
        reveal_strlit("PrivateIpAddress");
        assert("Name"@.len() != "PrivateIpAddress"@.len());
    }
    assert("Name"@ != "SourceDestCheck"@) by {
        reveal_strlit("Name");
        reveal_strlit("SourceDestCheck");
        assert("Name"@.len() != "SourceDestCheck"@.len());
    }
    assert("Name"@ != "Status"@) by {
        reveal_strlit("Name");
        reveal_strlit("Status");
        assert("Name"@.len() != "Status"@.len());
    }
    assert("Name"@ != "MacAddress"@) by {
        reveal_strlit("Name");
        reveal_strlit("MacAddress");
        assert("Name"@.len() != "MacAddress"@.len());
    }
    assert("Name"@ != "PrivateIpAddresses"@) by {
        reveal_strlit("Name");
        reveal_strlit("PrivateIpAddresses");
        assert("Name"@.len() != "PrivateIpAddresses"@.len());
    }
    assert("Name"@ != "Groups"@) by {
        reveal_strlit("Name");
        reveal_strlit("Groups");
        assert("Name"@.len() != "Groups"@.len());
    }
    assert("Name"@ != "Attachment"@) by {
        reveal_strlit("Name");
        reveal_strlit("Attachment");
        assert("Name"@.len() != "Attachment"@.len());
    }
}

/// A network interface is named by the value of its first tag that names it;
/// without such a tag, by its description when that is not empty; else by its
/// id; and it has no name when it has none of these.
pub proof fn law_network_interface_name(eni: NetworkInterface)
    ensures
        network_interface_json(eni) is Object,
        forall|i: int|
            0 <= i < tag_seq(eni.tags).len() && #[trigger] is_name_tag(tag_seq(eni.tags)[i]) && (forall|j: int|
                0 <= j < i ==> !is_name_tag(tag_seq(eni.tags)[j])) ==> network_interface_json(eni)->Object_0["Name"@]
                == JsonView::Str(tag_seq(eni.tags)[i].value->0@),
        (forall|j: int| 0 <= j < tag_seq(eni.tags).len() ==> !is_name_tag(#[trigger] tag_seq(eni.tags)[j])) ==> {
            let m = network_interface_json(eni)->Object_0;
            &&& non_empty_text(eni.description) matches Some(d) ==> m["Name"@] == JsonView::Str(d)
            &&& non_empty_text(eni.description) is None && eni.network_interface_id is Some ==> m["Name"@]
                == JsonView::Str(eni.network_interface_id->0@)
            &&& non_empty_text(eni.description) is None && eni.network_interface_id is None ==> !m.contains_key("Name"@)
        },
{
    lemma_name_tag_first(tag_seq(eni.tags));
    lemma_interface_keys_differ();
    if forall|j: int| 0 <= j < tag_seq(eni.tags).len() ==> !is_name_tag(#[trigger] tag_seq(eni.tags)[j]) {
        assert(opt_name_tag(eni.tags) is None);

    }
}

/// What tells the keys of `instance_json` apart: their lengths, and a letter where two have the same length.
proof fn lemma_instance_json_keys_differ()
    ensures
        "InstanceId"@.len() == 10 && "InstanceId"@[0] == 'I',
        "InstanceType"@.len() == 12,
        "LaunchTime"@.len() == 10 && "LaunchTime"@[0] == 'L',
        "PrivateIpAddress"@.len() == 16,
        "PublicIpAddress"@.len() == 15,
        "SecurityGroups"@.len() == 14,
        "State"@.len() == 5 && "State"@[0] == 'S',
        "SubnetId"@.len() == 8,
        "Tags"@.len() == 4,
        "VpcId"@.len() == 5 && "VpcId"@[0] == 'V',
{
    reveal_strlit("InstanceId");
    reveal_strlit("InstanceType");
    reveal_strlit("LaunchTime");
    reveal_strlit("PrivateIpAddress");
    reveal_strlit("PublicIpAddress");
    reveal_strlit("SecurityGroups");
    reveal_strlit("State");
    reveal_strlit("SubnetId");
    reveal_strlit("Tags");
    reveal_strlit("VpcId");
}

#[verifier::spinoff_prover]
#[verifier::rlimit(30)]
proof fn lemma_instance_json_fields_0(instance: Instance)
    ensures
        instance_json(instance) is Object,
        ({
            let m = instance_json(instance)->Object_0;
            &&& instance.instance_id is None ==> !m.contains_key("InstanceId"@)
            &&& instance.instance_id is Some ==> m.contains_key("InstanceId"@) && m["InstanceId"@] == JsonView::Str(instance.instance_id->0@)
            &&& instance.instance_type is None ==> !m.contains_key("InstanceType"@)
            &&& instance.instance_type is Some ==> m.contains_key("InstanceType"@) && m["InstanceType"@] == JsonView::Str(instance.instance_type->0@)
            &&& instance.state_name is None ==> !m.contains_key("State"@)
            &&& instance.state_name is Some ==> m.contains_key("State"@) && m["State"@] == JsonView::Str(instance.state_name->0@)
        }),
{
    lemma_instance_json_keys_differ();
}

#[verifier::spinoff_prover]
#[verifier::rlimit(30)]
proof fn lemma_instance_json_fields_1(instance: Instance)
    ensures
        instance_json(instance) is Object,
        ({
            let m = instance_json(instance)->Object_0;
            &&& instance.private_ip_address is None ==> !m.contains_key("PrivateIpAddress"@)
            &&& instance.private_ip_address is Some ==> m.contains_key("PrivateIpAddress"@) && m["PrivateIpAddress"@] == JsonView::Str(instance.private_ip_address->0@)
            &&& instance.subnet_id is None ==> !m.contains_key("SubnetId"@)
            &&& instance.subnet_id is Some ==> m.contains_key("SubnetId"@) && m["SubnetId"@] == JsonView::Str(instance.subnet_id->0@)
            &&& instance.vpc_id is None ==> !m.contains_key("VpcId"@)
            &&& instance.vpc_id is Some ==> m.contains_key("VpcId"@) && m["VpcId"@] == JsonView::Str(instance.vpc_id->0@)
        }),
{
    lemma_instance_json_keys_differ();
}

#[verifier::spinoff_prover]
#[verifier::rlimit(30)]
proof fn lemma_instance_json_fields_2(instance: Instance)
    ensures
        instance_json(instance) is Object,
        ({
            let m = instance_json(instance)->Object_0;
            &&& instance.launch_time is None ==> !m.contains_key("LaunchTime"@)
            &&& instance.launch_time is Some ==> m.contains_key("LaunchTime"@) && m["LaunchTime"@] == ts_json(instance.launch_time->0)
            &&& instance.public_ip_address is None ==> !m.contains_key("PublicIpAddress"@)
            &&& instance.public_ip_address is Some ==> m.contains_key("PublicIpAddress"@) && m["PublicIpAddress"@] == JsonView::Str(instance.public_ip_address->0@)
        }),
{
    lemma_instance_json_keys_differ();
}

/// An instance's object holds each reported field under its own key (the public address under `PublicIpAddress`, the private one under `PrivateIpAddress`, ...), and a key is missing exactly when AWS did not report its field.
pub proof fn law_instance_fields(instance: Instance)
    ensures
        instance_json(instance) is Object,
        ({
            let m = instance_json(instance)->Object_0;
            &&& instance.instance_id is None ==> !m.contains_key("InstanceId"@)
            &&& instance.instance_id is Some ==> m.contains_key("InstanceId"@) && m["InstanceId"@] == JsonView::Str(instance.instance_id->0@)
            &&& instance.instance_type is None ==> !m.contains_key("InstanceType"@)
            &&& instance.instance_type is Some ==> m.contains_key("InstanceType"@) && m["InstanceType"@] == JsonView::Str(instance.instance_type->0@)
            &&& instance.launch_time is None ==> !m.contains_key("LaunchTime"@)
            &&& instance.launch_time is Some ==> m.contains_key("LaunchTime"@) && m["LaunchTime"@] == ts_json(instance.launch_time->0)
            &&& instance.private_ip_address is None ==> !m.contains_key("PrivateIpAddress"@)
            &&& instance.private_ip_address is Some ==> m.contains_key("PrivateIpAddress"@) && m["PrivateIpAddress"@] == JsonView::Str(instance.private_ip_address->0@)
            &&& instance.public_ip_address is None ==> !m.contains_key("PublicIpAddress"@)
            &&& instance.public_ip_address is Some ==> m.contains_key("PublicIpAddress"@) && m["PublicIpAddress"@] == JsonView::Str(instance.public_ip_address->0@)
            &&& instance.state_name is None ==> !m.contains_key("State"@)
            &&& instance.state_name is Some ==> m.contains_key("State"@) && m["State"@] == JsonView::Str(instance.state_name->0@)
            &&& instance.subnet_id is None ==> !m.contains_key("SubnetId"@)
            &&& instance.subnet_id is Some ==> m.contains_key("SubnetId"@) && m["SubnetId"@] == JsonView::Str(instance.subnet_id->0@)
            &&& instance.vpc_id is None ==> !m.contains_key("VpcId"@)
            &&& instance.vpc_id is Some ==> m.contains_key("VpcId"@) && m["VpcId"@] == JsonView::Str(instance.vpc_id->0@)
        }),
{
    lemma_instance_json_fields_0(instance);
    lemma_instance_json_fields_1(instance);
    lemma_instance_json_fields_2(instance);
}

} // verus!

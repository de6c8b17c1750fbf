//! Amazon Bedrock AgentCore control-plane resources as JSON.
use crate::json::{opt_str_json, str_json, with_opt, JsonObject, JsonValue, JsonView};
use crate::timestamp::{opt_rfc_json, rfc_json, Timestamp};
use std::sync::Arc;
use vstd::prelude::*;

verus! {

/// An agent runtime, or one of its versions, as listed; its status holds the AWS name.
pub struct AgentRuntime {
    pub agent_runtime_id: String,
    pub agent_runtime_arn: String,
    pub agent_runtime_name: String,
    pub status: String,
    pub last_updated_at: Timestamp,
    pub description: String,
    pub agent_runtime_version: String,
}

/// An agent runtime as `GetAgentRuntime` reports it; its status holds the AWS name.
pub struct GetAgentRuntimeOutput {
    pub agent_runtime_id: String,
    pub agent_runtime_arn: String,
    pub agent_runtime_name: String,
    pub status: String,
    pub description: Option<String>,
    pub created_at: Timestamp,
    pub last_updated_at: Timestamp,
}

/// An agent runtime endpoint as listed; its status holds the AWS name.
pub struct AgentRuntimeEndpoint {
    pub id: String,
    pub agent_runtime_endpoint_arn: String,
    pub name: String,
    pub agent_runtime_arn: String,
    pub status: String,
    pub created_at: Timestamp,
    pub last_updated_at: Timestamp,
    pub description: Option<String>,
    pub live_version: Option<String>,
    pub target_version: Option<String>,
}

/// An agent runtime endpoint as `GetAgentRuntimeEndpoint` reports it; its status holds the AWS name.
pub struct GetAgentRuntimeEndpointOutput {
    pub id: String,
    pub agent_runtime_endpoint_arn: String,
    pub name: String,
    pub agent_runtime_arn: String,
    pub status: String,
    pub description: Option<String>,
    pub created_at: Timestamp,
    pub last_updated_at: Timestamp,
    pub live_version: Option<String>,
    pub target_version: Option<String>,
    pub failure_reason: Option<String>,
}

/// A memory as listed; its status holds the AWS name.
pub struct MemorySummary {
    pub id: Option<String>,
    pub arn: Option<String>,
    pub status: Option<String>,
    pub created_at: Timestamp,
    pub updated_at: Timestamp,
}

/// A memory as `GetMemory` reports it; its status holds the AWS name.
pub struct Memory {
    pub id: String,
    pub arn: String,
    pub name: String,
    pub status: String,
    pub description: Option<String>,
    pub created_at: Timestamp,
    pub updated_at: Timestamp,
}

/// What `GetMemory` answers.
pub struct GetMemoryOutput {
    pub memory: Option<Memory>,
}

/// A gateway as listed; status, authorizer and protocol hold their AWS names.
pub struct GatewaySummary {
    pub gateway_id: String,
    pub name: String,
    pub status: String,
    pub description: Option<String>,
    pub created_at: Timestamp,
    pub updated_at: Timestamp,
    pub authorizer_type: String,
    pub protocol_type: String,
}

/// A gateway as `GetGateway` reports it; its status holds the AWS name.
pub struct GetGatewayOutput {
    pub gateway_id: String,
    pub gateway_arn: String,
    pub name: String,
    pub status: String,
    pub description: Option<String>,
    pub created_at: Timestamp,
    pub updated_at: Timestamp,
}

/// A browser as listed; its status holds the AWS name.
pub struct BrowserSummary {
    pub browser_id: String,
    pub browser_arn: String,
    pub name: Option<String>,
    pub status: String,
    pub description: Option<String>,
    pub created_at: Timestamp,
    pub last_updated_at: Option<Timestamp>,
}

/// A browser as `GetBrowser` reports it; its status holds the AWS name.
pub struct GetBrowserOutput {
    pub browser_id: String,
    pub browser_arn: String,
    pub name: String,
    pub status: String,
    pub description: Option<String>,
    pub created_at: Timestamp,
    pub last_updated_at: Timestamp,
    pub failure_reason: Option<String>,
}

/// A code interpreter as listed; its status holds the AWS name.
pub struct CodeInterpreterSummary {
    pub code_interpreter_id: String,
    pub code_interpreter_arn: String,
    pub name: Option<String>,
    pub description: Option<String>,
    pub status: String,
    pub created_at: Timestamp,
    pub last_updated_at: Option<Timestamp>,
}

/// A code interpreter as `GetCodeInterpreter` reports it; its status holds the AWS name.
pub struct GetCodeInterpreterOutput {
    pub code_interpreter_id: String,
    pub code_interpreter_arn: String,
    pub name: String,
    pub description: Option<String>,
    pub execution_role_arn: Option<String>,
    pub status: String,
    pub failure_reason: Option<String>,
    pub created_at: Timestamp,
    pub last_updated_at: Timestamp,
}

/// An API key credential provider, as listed or as `GetApiKeyCredentialProvider` reports it.
pub struct ApiKeyCredentialProvider {
    pub name: String,
    pub credential_provider_arn: String,
    pub created_time: Timestamp,
    pub last_updated_time: Timestamp,
}

/// An OAuth2 credential provider as listed; its vendor holds the AWS name.
pub struct Oauth2CredentialProviderItem {
    pub name: String,
    pub credential_provider_vendor: String,
    pub credential_provider_arn: String,
    pub created_time: Timestamp,
    pub last_updated_time: Timestamp,
}

/// An OAuth2 credential provider as `GetOauth2CredentialProvider` reports it; its vendor holds the AWS name.
pub struct GetOauth2CredentialProviderOutput {
    pub name: String,
    pub credential_provider_arn: String,
    pub credential_provider_vendor: String,
    pub callback_url: Option<String>,
    pub created_time: Timestamp,
    pub last_updated_time: Timestamp,
}

/// A workload identity as listed.
pub struct WorkloadIdentityType {
    pub name: String,
    pub workload_identity_arn: String,
}

/// A workload identity as `GetWorkloadIdentity` reports it.
pub struct GetWorkloadIdentityOutput {
    pub name: String,
    pub workload_identity_arn: String,
    pub created_time: Timestamp,
    pub last_updated_time: Timestamp,
}

/// A gateway target as listed; its status holds the AWS name.
pub struct TargetSummary {
    pub target_id: String,
    pub name: String,
    pub status: String,
    pub description: Option<String>,
    pub created_at: Timestamp,
    pub updated_at: Timestamp,
}

/// A gateway target as `GetGatewayTarget` reports it; its status holds the AWS name.
pub struct GetGatewayTargetOutput {
    pub target_id: String,
    pub gateway_arn: String,
    pub name: String,
    pub description: Option<String>,
    pub status: String,
    pub created_at: Timestamp,
    pub updated_at: Timestamp,
    pub last_synchronized_at: Option<Timestamp>,
}

/// Reads Amazon Bedrock AgentCore runtimes, endpoints, memories, gateways, browsers, code interpreters and identities through a credential coordinator `C`.
pub struct BedrockAgentCoreControlService<C> {
    credential_coordinator: Arc<C>,
}

/// The JSON object of a listed agent runtime; its times in RFC 3339, empty where that format has no text for them.
pub open spec fn agent_runtime_json(runtime: AgentRuntime) -> JsonView {
    let m = Map::<Seq<char>, JsonView>::empty();
    let m = m.insert("AgentRuntimeId"@, str_json(runtime.agent_runtime_id));
    let m = m.insert("AgentRuntimeArn"@, str_json(runtime.agent_runtime_arn));
    let m = m.insert("AgentRuntimeName"@, str_json(runtime.agent_runtime_name));
    let m = m.insert("Status"@, str_json(runtime.status));
    let m = m.insert("LastUpdatedAt"@, rfc_json(runtime.last_updated_at));
    let m = m.insert("Description"@, str_json(runtime.description));
    let m = m.insert("AgentRuntimeVersion"@, str_json(runtime.agent_runtime_version));
    JsonView::Object(m)
}

/// The JSON object of a version of the agent runtime `parent_runtime_id`.
pub open spec fn agent_runtime_version_json(parent_runtime_id: String, version: AgentRuntime) -> JsonView {
    let m = Map::<Seq<char>, JsonView>::empty();
    let m = m.insert("AgentRuntimeId"@, str_json(version.agent_runtime_id));
    let m = m.insert("ParentRuntimeId"@, str_json(parent_runtime_id));
    let m = m.insert("AgentRuntimeArn"@, str_json(version.agent_runtime_arn));
    let m = m.insert("AgentRuntimeVersion"@, str_json(version.agent_runtime_version));
    let m = m.insert("AgentRuntimeName"@, str_json(version.agent_runtime_name));
    let m = m.insert("Description"@, str_json(version.description));
    let m = m.insert("Status"@, str_json(version.status));
    let m = m.insert("LastUpdatedAt"@, rfc_json(version.last_updated_at));
    JsonView::Object(m)
}

/// The JSON object of a described agent runtime.
pub open spec fn agent_runtime_details_json(response: GetAgentRuntimeOutput) -> JsonView {
    let m = Map::<Seq<char>, JsonView>::empty();
    let m = m.insert("AgentRuntimeId"@, str_json(response.agent_runtime_id));
    let m = m.insert("AgentRuntimeArn"@, str_json(response.agent_runtime_arn));
    let m = m.insert("AgentRuntimeName"@, str_json(response.agent_runtime_name));
    let m = m.insert("Status"@, str_json(response.status));
    let m = with_opt(m, "Description"@, opt_str_json(response.description));
    let m = m.insert("CreatedAt"@, rfc_json(response.created_at));
    let m = m.insert("LastUpdatedAt"@, rfc_json(response.last_updated_at));
    JsonView::Object(m)
}

/// The JSON object of a listed agent runtime endpoint.
pub open spec fn agent_runtime_endpoint_json(endpoint: AgentRuntimeEndpoint) -> JsonView {
    let m = Map::<Seq<char>, JsonView>::empty();
    let m = m.insert("EndpointId"@, str_json(endpoint.id));
    let m = m.insert("AgentRuntimeEndpointArn"@, str_json(endpoint.agent_runtime_endpoint_arn));
    let m = m.insert("EndpointName"@, str_json(endpoint.name));
    let m = m.insert("AgentRuntimeArn"@, str_json(endpoint.agent_runtime_arn));
    let m = m.insert("Status"@, str_json(endpoint.status));
    let m = m.insert("CreatedAt"@, rfc_json(endpoint.created_at));
    let m = m.insert("LastUpdatedAt"@, rfc_json(endpoint.last_updated_at));
    let m = with_opt(m, "Description"@, opt_str_json(endpoint.description));
    let m = with_opt(m, "LiveVersion"@, opt_str_json(endpoint.live_version));
    let m = with_opt(m, "TargetVersion"@, opt_str_json(endpoint.target_version));
    JsonView::Object(m)
}

/// The JSON object of a described agent runtime endpoint.
pub open spec fn agent_runtime_endpoint_details_json(response: GetAgentRuntimeEndpointOutput) -> JsonView {
    let m = Map::<Seq<char>, JsonView>::empty();
    let m = m.insert("EndpointId"@, str_json(response.id));
    let m = m.insert("AgentRuntimeEndpointArn"@, str_json(response.agent_runtime_endpoint_arn));
    let m = m.insert("EndpointName"@, str_json(response.name));
    let m = m.insert("AgentRuntimeArn"@, str_json(response.agent_runtime_arn));
    let m = m.insert("Status"@, str_json(response.status));
    let m = with_opt(m, "Description"@, opt_str_json(response.description));
    let m = m.insert("CreatedAt"@, rfc_json(response.created_at));
    let m = m.insert("LastUpdatedAt"@, rfc_json(response.last_updated_at));
    let m = with_opt(m, "LiveVersion"@, opt_str_json(response.live_version));
    let m = with_opt(m, "TargetVersion"@, opt_str_json(response.target_version));
    let m = with_opt(m, "FailureReason"@, opt_str_json(response.failure_reason));
    JsonView::Object(m)
}

/// The JSON object of a listed memory.
pub open spec fn memory_json(memory: MemorySummary) -> JsonView {
    let m = Map::<Seq<char>, JsonView>::empty();
    let m = with_opt(m, "MemoryId"@, opt_str_json(memory.id));
    let m = with_opt(m, "MemoryArn"@, opt_str_json(memory.arn));
    let m = with_opt(m, "Status"@, opt_str_json(memory.status));
    let m = m.insert("CreatedAt"@, rfc_json(memory.created_at));
    let m = m.insert("UpdatedAt"@, rfc_json(memory.updated_at));
    JsonView::Object(m)
}

/// The JSON object of a described memory; empty when no memory is answered.
pub open spec fn memory_details_json(response: GetMemoryOutput) -> JsonView {
    let m = Map::<Seq<char>, JsonView>::empty();
    let m = match response.memory { Some(mem_6) => m.insert("MemoryId"@, str_json(mem_6.id)), None => m };
    let m = match response.memory { Some(mem_6) => m.insert("MemoryArn"@, str_json(mem_6.arn)), None => m };
    let m = match response.memory { Some(mem_6) => m.insert("MemoryName"@, str_json(mem_6.name)), None => m };
    let m = match response.memory { Some(mem_6) => m.insert("Status"@, str_json(mem_6.status)), None => m };
    let m = match response.memory { Some(mem_6) => with_opt(m, "Description"@, opt_str_json(mem_6.description)), None => m };
    let m = match response.memory { Some(mem_6) => m.insert("CreatedAt"@, rfc_json(mem_6.created_at)), None => m };
    let m = match response.memory { Some(mem_6) => m.insert("UpdatedAt"@, rfc_json(mem_6.updated_at)), None => m };
    JsonView::Object(m)
}

/// The JSON object of a listed gateway.
pub open spec fn gateway_json(gateway: GatewaySummary) -> JsonView {
    let m = Map::<Seq<char>, JsonView>::empty();
    let m = m.insert("GatewayId"@, str_json(gateway.gateway_id));
    let m = m.insert("GatewayName"@, str_json(gateway.name));
    let m = m.insert("Status"@, str_json(gateway.status));
    let m = with_opt(m, "Description"@, opt_str_json(gateway.description));
    let m = m.insert("CreatedAt"@, rfc_json(gateway.created_at));
    let m = m.insert("UpdatedAt"@, rfc_json(gateway.updated_at));
    let m = m.insert("AuthorizerType"@, str_json(gateway.authorizer_type));
    let m = m.insert("ProtocolType"@, str_json(gateway.protocol_type));
    JsonView::Object(m)
}

/// The JSON object of a described gateway.
pub open spec fn gateway_details_json(response: GetGatewayOutput) -> JsonView {
    let m = Map::<Seq<char>, JsonView>::empty();
    let m = m.insert("GatewayId"@, str_json(response.gateway_id));
    let m = m.insert("GatewayArn"@, str_json(response.gateway_arn));
    let m = m.insert("GatewayName"@, str_json(response.name));
    let m = m.insert("Status"@, str_json(response.status));
    let m = with_opt(m, "Description"@, opt_str_json(response.description));
    let m = m.insert("CreatedAt"@, rfc_json(response.created_at));
    let m = m.insert("UpdatedAt"@, rfc_json(response.updated_at));
    JsonView::Object(m)
}

/// The JSON object of a listed browser.
pub open spec fn browser_json(browser: BrowserSummary) -> JsonView {
    let m = Map::<Seq<char>, JsonView>::empty();
    let m = m.insert("BrowserId"@, str_json(browser.browser_id));
    let m = m.insert("BrowserArn"@, str_json(browser.browser_arn));
    let m = with_opt(m, "BrowserName"@, opt_str_json(browser.name));
    let m = m.insert("Status"@, str_json(browser.status));
    let m = with_opt(m, "Description"@, opt_str_json(browser.description));
    let m = m.insert("CreatedAt"@, rfc_json(browser.created_at));
    let m = with_opt(m, "LastUpdatedAt"@, opt_rfc_json(browser.last_updated_at));
    JsonView::Object(m)
}

/// The JSON object of a described browser.
pub open spec fn browser_details_json(response: GetBrowserOutput) -> JsonView {
    let m = Map::<Seq<char>, JsonView>::empty();
    let m = m.insert("BrowserId"@, str_json(response.browser_id));
    let m = m.insert("BrowserArn"@, str_json(response.browser_arn));
    let m = m.insert("BrowserName"@, str_json(response.name));
    let m = m.insert("Status"@, str_json(response.status));
    let m = with_opt(m, "Description"@, opt_str_json(response.description));
    let m = m.insert("CreatedAt"@, rfc_json(response.created_at));
    let m = m.insert("LastUpdatedAt"@, rfc_json(response.last_updated_at));
    let m = with_opt(m, "FailureReason"@, opt_str_json(response.failure_reason));
    JsonView::Object(m)
}

/// The JSON object of a listed code interpreter.
pub open spec fn code_interpreter_summary_json(interpreter: CodeInterpreterSummary) -> JsonView {
    let m = Map::<Seq<char>, JsonView>::empty();
    let m = m.insert("CodeInterpreterId"@, str_json(interpreter.code_interpreter_id));
    let m = m.insert("CodeInterpreterArn"@, str_json(interpreter.code_interpreter_arn));
    let m = with_opt(m, "Name"@, opt_str_json(interpreter.name));
    let m = with_opt(m, "Description"@, opt_str_json(interpreter.description));
    let m = m.insert("Status"@, str_json(interpreter.status));
    let m = m.insert("CreatedAt"@, rfc_json(interpreter.created_at));
    let m = with_opt(m, "LastUpdatedAt"@, opt_rfc_json(interpreter.last_updated_at));
    JsonView::Object(m)
}

/// The JSON object of a described code interpreter.
pub open spec fn code_interpreter_details_json(response: GetCodeInterpreterOutput) -> JsonView {
    let m = Map::<Seq<char>, JsonView>::empty();
    let m = m.insert("CodeInterpreterId"@, str_json(response.code_interpreter_id));
    let m = m.insert("CodeInterpreterArn"@, str_json(response.code_interpreter_arn));
    let m = m.insert("Name"@, str_json(response.name));
    let m = with_opt(m, "Description"@, opt_str_json(response.description));
    let m = with_opt(m, "ExecutionRoleArn"@, opt_str_json(response.execution_role_arn));
    let m = m.insert("Status"@, str_json(response.status));
    let m = with_opt(m, "FailureReason"@, opt_str_json(response.failure_reason));
    let m = m.insert("CreatedAt"@, rfc_json(response.created_at));
    let m = m.insert("LastUpdatedAt"@, rfc_json(response.last_updated_at));
    JsonView::Object(m)
}

/// The JSON object of a listed API key credential provider.
pub open spec fn api_key_credential_provider_json(provider: ApiKeyCredentialProvider) -> JsonView {
    let m = Map::<Seq<char>, JsonView>::empty();
    let m = m.insert("Name"@, str_json(provider.name));
    let m = m.insert("CredentialProviderArn"@, str_json(provider.credential_provider_arn));
    let m = m.insert("CreatedTime"@, rfc_json(provider.created_time));
    let m = m.insert("LastUpdatedTime"@, rfc_json(provider.last_updated_time));
    JsonView::Object(m)
}

/// The JSON object of a described API key credential provider, which shows what its listing shows.
pub open spec fn api_key_credential_provider_details_json(response: ApiKeyCredentialProvider) -> JsonView {
    let m = Map::<Seq<char>, JsonView>::empty();
    let m = m.insert("Name"@, str_json(response.name));
    let m = m.insert("CredentialProviderArn"@, str_json(response.credential_provider_arn));
    let m = m.insert("CreatedTime"@, rfc_json(response.created_time));
    let m = m.insert("LastUpdatedTime"@, rfc_json(response.last_updated_time));
    JsonView::Object(m)
}

/// The JSON object of a listed OAuth2 credential provider.
pub open spec fn oauth2_credential_provider_json(provider: Oauth2CredentialProviderItem) -> JsonView {
    let m = Map::<Seq<char>, JsonView>::empty();
    let m = m.insert("Name"@, str_json(provider.name));
    let m = m.insert("CredentialProviderVendor"@, str_json(provider.credential_provider_vendor));
    let m = m.insert("CredentialProviderArn"@, str_json(provider.credential_provider_arn));
    let m = m.insert("CreatedTime"@, rfc_json(provider.created_time));
    let m = m.insert("LastUpdatedTime"@, rfc_json(provider.last_updated_time));
    JsonView::Object(m)
}

/// The JSON object of a described OAuth2 credential provider.
pub open spec fn oauth2_credential_provider_details_json(response: GetOauth2CredentialProviderOutput) -> JsonView {
    let m = Map::<Seq<char>, JsonView>::empty();
    let m = m.insert("Name"@, str_json(response.name));
    let m = m.insert("CredentialProviderArn"@, str_json(response.credential_provider_arn));
    let m = m.insert("CredentialProviderVendor"@, str_json(response.credential_provider_vendor));
    let m = with_opt(m, "CallbackUrl"@, opt_str_json(response.callback_url));
    let m = m.insert("CreatedTime"@, rfc_json(response.created_time));
    let m = m.insert("LastUpdatedTime"@, rfc_json(response.last_updated_time));
    JsonView::Object(m)
}

/// The JSON object of a listed workload identity.
pub open spec fn workload_identity_json(identity: WorkloadIdentityType) -> JsonView {
    let m = Map::<Seq<char>, JsonView>::empty();
    let m = m.insert("Name"@, str_json(identity.name));
    let m = m.insert("WorkloadIdentityArn"@, str_json(identity.workload_identity_arn));
    JsonView::Object(m)
}

/// The JSON object of a described workload identity.
pub open spec fn workload_identity_details_json(response: GetWorkloadIdentityOutput) -> JsonView {
    let m = Map::<Seq<char>, JsonView>::empty();
    let m = m.insert("Name"@, str_json(response.name));
    let m = m.insert("WorkloadIdentityArn"@, str_json(response.workload_identity_arn));
    let m = m.insert("CreatedTime"@, rfc_json(response.created_time));
    let m = m.insert("LastUpdatedTime"@, rfc_json(response.last_updated_time));
    JsonView::Object(m)
}

/// The JSON object of a target of the gateway `parent_gateway_id`.
pub open spec fn gateway_target_json(parent_gateway_id: String, target: TargetSummary) -> JsonView {
    let m = Map::<Seq<char>, JsonView>::empty();
    let m = m.insert("TargetId"@, str_json(target.target_id));
    let m = m.insert("ParentGatewayId"@, str_json(parent_gateway_id));
    let m = m.insert("Name"@, str_json(target.name));
    let m = m.insert("Status"@, str_json(target.status));
    let m = with_opt(m, "Description"@, opt_str_json(target.description));
    let m = m.insert("CreatedAt"@, rfc_json(target.created_at));
    let m = m.insert("UpdatedAt"@, rfc_json(target.updated_at));
    JsonView::Object(m)
}

/// The JSON object of a described target of the gateway `parent_gateway_id`.
pub open spec fn gateway_target_details_json(parent_gateway_id: String, response: GetGatewayTargetOutput) -> JsonView {
    let m = Map::<Seq<char>, JsonView>::empty();
    let m = m.insert("TargetId"@, str_json(response.target_id));
    let m = m.insert("ParentGatewayId"@, str_json(parent_gateway_id));
    let m = m.insert("GatewayArn"@, str_json(response.gateway_arn));
    let m = m.insert("Name"@, str_json(response.name));
    let m = with_opt(m, "Description"@, opt_str_json(response.description));
    let m = m.insert("Status"@, str_json(response.status));
    let m = m.insert("CreatedAt"@, rfc_json(response.created_at));
    let m = m.insert("UpdatedAt"@, rfc_json(response.updated_at));
    let m = with_opt(m, "LastSynchronizedAt"@, opt_rfc_json(response.last_synchronized_at));
    JsonView::Object(m)
}

impl<C> BedrockAgentCoreControlService<C> {
    /// The coordinator that the service was made with.
    pub closed spec fn coordinator(&self) -> Arc<C> {
        self.credential_coordinator
    }

    /// A service that obtains its AWS configurations from `credential_coordinator`.
    pub fn new(credential_coordinator: Arc<C>) -> (s: Self)
        ensures
            s.coordinator() == credential_coordinator,
    {
        Self { credential_coordinator }
    }

    /// The coordinator that the service was made with.
    pub fn credential_coordinator(&self) -> (c: &Arc<C>)
        ensures
            *c == self.coordinator(),
    {
        &self.credential_coordinator
    }

    /// The JSON object of a listed agent runtime; its times in RFC 3339, empty where that format has no text for them.
    pub fn agent_runtime_to_json(&self, runtime: &AgentRuntime) -> (v: JsonValue)
        ensures
            v.view() == agent_runtime_json(*runtime),
    {
        let mut json = JsonObject::new();
        json.insert_str("AgentRuntimeId", &runtime.agent_runtime_id);
        json.insert_str("AgentRuntimeArn", &runtime.agent_runtime_arn);
        json.insert_str("AgentRuntimeName", &runtime.agent_runtime_name);
        json.insert_str("Status", &runtime.status);
        json.insert("LastUpdatedAt", JsonValue::Str(runtime.last_updated_at.rfc3339_or_empty()));
        json.insert_str("Description", &runtime.description);
        json.insert_str("AgentRuntimeVersion", &runtime.agent_runtime_version);
        JsonValue::Object(json)
    }

    /// The JSON object of a version of the agent runtime `parent_runtime_id`.
    pub fn agent_runtime_version_to_json(&self, parent_runtime_id: &String, version: &AgentRuntime) -> (v: JsonValue)
        ensures
            v.view() == agent_runtime_version_json(*parent_runtime_id, *version),
    {
        let mut json = JsonObject::new();
        json.insert_str("AgentRuntimeId", &version.agent_runtime_id);
        json.insert_str("ParentRuntimeId", parent_runtime_id);
        json.insert_str("AgentRuntimeArn", &version.agent_runtime_arn);
        json.insert_str("AgentRuntimeVersion", &version.agent_runtime_version);
        json.insert_str("AgentRuntimeName", &version.agent_runtime_name);
        json.insert_str("Description", &version.description);
        json.insert_str("Status", &version.status);
        json.insert("LastUpdatedAt", JsonValue::Str(version.last_updated_at.rfc3339_or_empty()));
        JsonValue::Object(json)
    }

    /// The JSON object of a described agent runtime.
    pub fn agent_runtime_details_to_json(&self, response: &GetAgentRuntimeOutput) -> (v: JsonValue)
        ensures
            v.view() == agent_runtime_details_json(*response),
    {
        let mut json = JsonObject::new();
        json.insert_str("AgentRuntimeId", &response.agent_runtime_id);
        json.insert_str("AgentRuntimeArn", &response.agent_runtime_arn);
        json.insert_str("AgentRuntimeName", &response.agent_runtime_name);
        json.insert_str("Status", &response.status);
        json.insert_opt_str("Description", &response.description);
        json.insert("CreatedAt", JsonValue::Str(response.created_at.rfc3339_or_empty()));
        json.insert("LastUpdatedAt", JsonValue::Str(response.last_updated_at.rfc3339_or_empty()));
        JsonValue::Object(json)
    }

    /// The JSON object of a listed agent runtime endpoint.
    pub fn agent_runtime_endpoint_to_json(&self, endpoint: &AgentRuntimeEndpoint) -> (v: JsonValue)
        ensures
            v.view() == agent_runtime_endpoint_json(*endpoint),
    {
        let mut json = JsonObject::new();
        json.insert_str("EndpointId", &endpoint.id);
        json.insert_str("AgentRuntimeEndpointArn", &endpoint.agent_runtime_endpoint_arn);
        json.insert_str("EndpointName", &endpoint.name);
        json.insert_str("AgentRuntimeArn", &endpoint.agent_runtime_arn);
        json.insert_str("Status", &endpoint.status);
        json.insert("CreatedAt", JsonValue::Str(endpoint.created_at.rfc3339_or_empty()));
        json.insert("LastUpdatedAt", JsonValue::Str(endpoint.last_updated_at.rfc3339_or_empty()));
        json.insert_opt_str("Description", &endpoint.description);
        json.insert_opt_str("LiveVersion", &endpoint.live_version);
        json.insert_opt_str("TargetVersion", &endpoint.target_version);
        JsonValue::Object(json)
    }

    /// The JSON object of a described agent runtime endpoint.
    pub fn agent_runtime_endpoint_details_to_json(&self, response: &GetAgentRuntimeEndpointOutput) -> (v: JsonValue)
        ensures
            v.view() == agent_runtime_endpoint_details_json(*response),
    {
        let mut json = JsonObject::new();
        json.insert_str("EndpointId", &response.id);
        json.insert_str("AgentRuntimeEndpointArn", &response.agent_runtime_endpoint_arn);
        json.insert_str("EndpointName", &response.name);
        json.insert_str("AgentRuntimeArn", &response.agent_runtime_arn);
        json.insert_str("Status", &response.status);
        json.insert_opt_str("Description", &response.description);
        json.insert("CreatedAt", JsonValue::Str(response.created_at.rfc3339_or_empty()));
        json.insert("LastUpdatedAt", JsonValue::Str(response.last_updated_at.rfc3339_or_empty()));
        json.insert_opt_str("LiveVersion", &response.live_version);
        json.insert_opt_str("TargetVersion", &response.target_version);
        json.insert_opt_str("FailureReason", &response.failure_reason);
        JsonValue::Object(json)
    }

    /// The JSON object of a listed memory.
    pub fn memory_to_json(&self, memory: &MemorySummary) -> (v: JsonValue)
        ensures
            v.view() == memory_json(*memory),
    {
        let mut json = JsonObject::new();
        json.insert_opt_str("MemoryId", &memory.id);
        json.insert_opt_str("MemoryArn", &memory.arn);
        json.insert_opt_str("Status", &memory.status);
        json.insert("CreatedAt", JsonValue::Str(memory.created_at.rfc3339_or_empty()));
        json.insert("UpdatedAt", JsonValue::Str(memory.updated_at.rfc3339_or_empty()));
        JsonValue::Object(json)
    }

    /// The JSON object of a described memory; empty when no memory is answered.
    pub fn memory_details_to_json(&self, response: &GetMemoryOutput) -> (v: JsonValue)
        ensures
            v.view() == memory_details_json(*response),
    {
        let mut json = JsonObject::new();
        if let Some(mem_6) = &response.memory {
            json.insert_str("MemoryId", &mem_6.id);
        }
        if let Some(mem_6) = &response.memory {
            json.insert_str("MemoryArn", &mem_6.arn);
        }
        if let Some(mem_6) = &response.memory {
            json.insert_str("MemoryName", &mem_6.name);
        }
        if let Some(mem_6) = &response.memory {
            json.insert_str("Status", &mem_6.status);
        }
        if let Some(mem_6) = &response.memory {
            json.insert_opt_str("Description", &mem_6.description);
        }
        if let Some(mem_6) = &response.memory {
            json.insert("CreatedAt", JsonValue::Str(mem_6.created_at.rfc3339_or_empty()));
        }
        if let Some(mem_6) = &response.memory {
            json.insert("UpdatedAt", JsonValue::Str(mem_6.updated_at.rfc3339_or_empty()));
        }
        JsonValue::Object(json)
    }

    /// The JSON object of a listed gateway.
    pub fn gateway_to_json(&self, gateway: &GatewaySummary) -> (v: JsonValue)
        ensures
            v.view() == gateway_json(*gateway),
    {
        let mut json = JsonObject::new();
        json.insert_str("GatewayId", &gateway.gateway_id);
        json.insert_str("GatewayName", &gateway.name);
        json.insert_str("Status", &gateway.status);
        json.insert_opt_str("Description", &gateway.description);
        json.insert("CreatedAt", JsonValue::Str(gateway.created_at.rfc3339_or_empty()));
        json.insert("UpdatedAt", JsonValue::Str(gateway.updated_at.rfc3339_or_empty()));
        json.insert_str("AuthorizerType", &gateway.authorizer_type);
        json.insert_str("ProtocolType", &gateway.protocol_type);
        JsonValue::Object(json)
    }

    /// The JSON object of a described gateway.
    pub fn gateway_details_to_json(&self, response: &GetGatewayOutput) -> (v: JsonValue)
        ensures
            v.view() == gateway_details_json(*response),
    {
        let mut json = JsonObject::new();
        json.insert_str("GatewayId", &response.gateway_id);
        json.insert_str("GatewayArn", &response.gateway_arn);
        json.insert_str("GatewayName", &response.name);
        json.insert_str("Status", &response.status);
        json.insert_opt_str("Description", &response.description);
        json.insert("CreatedAt", JsonValue::Str(response.created_at.rfc3339_or_empty()));
        json.insert("UpdatedAt", JsonValue::Str(response.updated_at.rfc3339_or_empty()));
        JsonValue::Object(json)
    }

    /// The JSON object of a listed browser.
    pub fn browser_to_json(&self, browser: &BrowserSummary) -> (v: JsonValue)
        ensures
            v.view() == browser_json(*browser),
    {
        let mut json = JsonObject::new();
        json.insert_str("BrowserId", &browser.browser_id);
        json.insert_str("BrowserArn", &browser.browser_arn);
        json.insert_opt_str("BrowserName", &browser.name);
        json.insert_str("Status", &browser.status);
        json.insert_opt_str("Description", &browser.description);
        json.insert("CreatedAt", JsonValue::Str(browser.created_at.rfc3339_or_empty()));
        json.insert_opt_rfc("LastUpdatedAt", &browser.last_updated_at);
        JsonValue::Object(json)
    }

    /// The JSON object of a described browser.
    pub fn browser_details_to_json(&self, response: &GetBrowserOutput) -> (v: JsonValue)
        ensures
            v.view() == browser_details_json(*response),
    {
        let mut json = JsonObject::new();
        json.insert_str("BrowserId", &response.browser_id);
        json.insert_str("BrowserArn", &response.browser_arn);
        json.insert_str("BrowserName", &response.name);
        json.insert_str("Status", &response.status);
        json.insert_opt_str("Description", &response.description);
        json.insert("CreatedAt", JsonValue::Str(response.created_at.rfc3339_or_empty()));
        json.insert("LastUpdatedAt", JsonValue::Str(response.last_updated_at.rfc3339_or_empty()));
        json.insert_opt_str("FailureReason", &response.failure_reason);
        JsonValue::Object(json)
    }

    /// The JSON object of a listed code interpreter.
    pub fn code_interpreter_summary_to_json(&self, interpreter: &CodeInterpreterSummary) -> (v: JsonValue)
        ensures
            v.view() == code_interpreter_summary_json(*interpreter),
    {
        let mut json = JsonObject::new();
        json.insert_str("CodeInterpreterId", &interpreter.code_interpreter_id);
        json.insert_str("CodeInterpreterArn", &interpreter.code_interpreter_arn);
        json.insert_opt_str("Name", &interpreter.name);
        json.insert_opt_str("Description", &interpreter.description);
        json.insert_str("Status", &interpreter.status);
        json.insert("CreatedAt", JsonValue::Str(interpreter.created_at.rfc3339_or_empty()));
        json.insert_opt_rfc("LastUpdatedAt", &interpreter.last_updated_at);
        JsonValue::Object(json)
    }

    /// The JSON object of a described code interpreter.
    pub fn code_interpreter_details_to_json(&self, response: &GetCodeInterpreterOutput) -> (v: JsonValue)
        ensures
            v.view() == code_interpreter_details_json(*response),
    {
        let mut json = JsonObject::new();
        json.insert_str("CodeInterpreterId", &response.code_interpreter_id);
        json.insert_str("CodeInterpreterArn", &response.code_interpreter_arn);
        json.insert_str("Name", &response.name);
        json.insert_opt_str("Description", &response.description);
        json.insert_opt_str("ExecutionRoleArn", &response.execution_role_arn);
        json.insert_str("Status", &response.status);
        json.insert_opt_str("FailureReason", &response.failure_reason);
        json.insert("CreatedAt", JsonValue::Str(response.created_at.rfc3339_or_empty()));
        json.insert("LastUpdatedAt", JsonValue::Str(response.last_updated_at.rfc3339_or_empty()));
        JsonValue::Object(json)
    }

    /// The JSON object of a listed API key credential provider.
    pub fn api_key_credential_provider_to_json(&self, provider: &ApiKeyCredentialProvider) -> (v: JsonValue)
        ensures
            v.view() == api_key_credential_provider_json(*provider),
    {
        let mut json = JsonObject::new();
        json.insert_str("Name", &provider.name);
        json.insert_str("CredentialProviderArn", &provider.credential_provider_arn);
        json.insert("CreatedTime", JsonValue::Str(provider.created_time.rfc3339_or_empty()));
        json.insert("LastUpdatedTime", JsonValue::Str(provider.last_updated_time.rfc3339_or_empty()));
        JsonValue::Object(json)
    }

    /// The JSON object of a described API key credential provider, which shows what its listing shows.
    pub fn api_key_credential_provider_details_to_json(&self, response: &ApiKeyCredentialProvider) -> (v: JsonValue)
        ensures
            v.view() == api_key_credential_provider_details_json(*response),
    {
        let mut json = JsonObject::new();
        json.insert_str("Name", &response.name);
        json.insert_str("CredentialProviderArn", &response.credential_provider_arn);
        json.insert("CreatedTime", JsonValue::Str(response.created_time.rfc3339_or_empty()));
        json.insert("LastUpdatedTime", JsonValue::Str(response.last_updated_time.rfc3339_or_empty()));
        JsonValue::Object(json)
    }

    /// The JSON object of a listed OAuth2 credential provider.
    pub fn oauth2_credential_provider_to_json(&self, provider: &Oauth2CredentialProviderItem) -> (v: JsonValue)
        ensures
            v.view() == oauth2_credential_provider_json(*provider),
    {
        let mut json = JsonObject::new();
        json.insert_str("Name", &provider.name);
        json.insert_str("CredentialProviderVendor", &provider.credential_provider_vendor);
        json.insert_str("CredentialProviderArn", &provider.credential_provider_arn);
        json.insert("CreatedTime", JsonValue::Str(provider.created_time.rfc3339_or_empty()));
        json.insert("LastUpdatedTime", JsonValue::Str(provider.last_updated_time.rfc3339_or_empty()));
        JsonValue::Object(json)
    }

    /// The JSON object of a described OAuth2 credential provider.
    pub fn oauth2_credential_provider_details_to_json(&self, response: &GetOauth2CredentialProviderOutput) -> (v: JsonValue)
        ensures
            v.view() == oauth2_credential_provider_details_json(*response),
    {
        let mut json = JsonObject::new();
        json.insert_str("Name", &response.name);
        json.insert_str("CredentialProviderArn", &response.credential_provider_arn);
        json.insert_str("CredentialProviderVendor", &response.credential_provider_vendor);
        json.insert_opt_str("CallbackUrl", &response.callback_url);
        json.insert("CreatedTime", JsonValue::Str(response.created_time.rfc3339_or_empty()));
        json.insert("LastUpdatedTime", JsonValue::Str(response.last_updated_time.rfc3339_or_empty()));
        JsonValue::Object(json)
    }

    /// The JSON object of a listed workload identity.
    pub fn workload_identity_to_json(&self, identity: &WorkloadIdentityType) -> (v: JsonValue)
        ensures
            v.view() == workload_identity_json(*identity),
    {
        let mut json = JsonObject::new();
        json.insert_str("Name", &identity.name);
        json.insert_str("WorkloadIdentityArn", &identity.workload_identity_arn);
        JsonValue::Object(json)
    }

    /// The JSON object of a described workload identity.
    pub fn workload_identity_details_to_json(&self, response: &GetWorkloadIdentityOutput) -> (v: JsonValue)
        ensures
            v.view() == workload_identity_details_json(*response),
    {
        let mut json = JsonObject::new();
        json.insert_str("Name", &response.name);
        json.insert_str("WorkloadIdentityArn", &response.workload_identity_arn);
        json.insert("CreatedTime", JsonValue::Str(response.created_time.rfc3339_or_empty()));
        json.insert("LastUpdatedTime", JsonValue::Str(response.last_updated_time.rfc3339_or_empty()));
        JsonValue::Object(json)
    }

    /// The JSON object of a target of the gateway `parent_gateway_id`.
    pub fn gateway_target_to_json(&self, parent_gateway_id: &String, target: &TargetSummary) -> (v: JsonValue)
        ensures
            v.view() == gateway_target_json(*parent_gateway_id, *target),
    {
        let mut json = JsonObject::new();
        json.insert_str("TargetId", &target.target_id);
        json.insert_str("ParentGatewayId", parent_gateway_id);
        json.insert_str("Name", &target.name);
        json.insert_str("Status", &target.status);
        json.insert_opt_str("Description", &target.description);
        json.insert("CreatedAt", JsonValue::Str(target.created_at.rfc3339_or_empty()));
        json.insert("UpdatedAt", JsonValue::Str(target.updated_at.rfc3339_or_empty()));
        JsonValue::Object(json)
    }

    /// The JSON object of a described target of the gateway `parent_gateway_id`.
    pub fn gateway_target_details_to_json(&self, parent_gateway_id: &String, response: &GetGatewayTargetOutput) -> (v: JsonValue)
        ensures
            v.view() == gateway_target_details_json(*parent_gateway_id, *response),
    {
        let mut json = JsonObject::new();
        json.insert_str("TargetId", &response.target_id);
        json.insert_str("ParentGatewayId", parent_gateway_id);
        json.insert_str("GatewayArn", &response.gateway_arn);
        json.insert_str("Name", &response.name);
        json.insert_opt_str("Description", &response.description);
        json.insert_str("Status", &response.status);
        json.insert("CreatedAt", JsonValue::Str(response.created_at.rfc3339_or_empty()));
        json.insert("UpdatedAt", JsonValue::Str(response.updated_at.rfc3339_or_empty()));
        json.insert_opt_rfc("LastSynchronizedAt", &response.last_synchronized_at);
        JsonValue::Object(json)
    }

}


// ----- each reported field under its own key -----

/// What tells the keys of `agent_runtime_endpoint_json` apart: their lengths, and a letter where two have the same length.
proof fn lemma_agent_runtime_endpoint_json_keys_differ()
    ensures
        "AgentRuntimeArn"@.len() == 15,
        "AgentRuntimeEndpointArn"@.len() == 23,
        "CreatedAt"@.len() == 9,
        "Description"@.len() == 11 && "Description"@[0] == 'D',
        "EndpointId"@.len() == 10,
        "EndpointName"@.len() == 12,
        "LastUpdatedAt"@.len() == 13 && "LastUpdatedAt"@[0] == 'L',
        "LiveVersion"@.len() == 11 && "LiveVersion"@[0] == 'L',
        "Status"@.len() == 6,
        "TargetVersion"@.len() == 13 && "TargetVersion"@[0] == 'T',
{
    reveal_strlit("AgentRuntimeArn");
    reveal_strlit("AgentRuntimeEndpointArn");
    reveal_strlit("CreatedAt");
    reveal_strlit("Description");
    reveal_strlit("EndpointId");
    reveal_strlit("EndpointName");
    reveal_strlit("LastUpdatedAt");
    reveal_strlit("LiveVersion");
    reveal_strlit("Status");
    reveal_strlit("TargetVersion");
}

#[verifier::spinoff_prover]
#[verifier::rlimit(30)]
proof fn lemma_agent_runtime_endpoint_json_fields_0(endpoint: AgentRuntimeEndpoint)
    ensures
        agent_runtime_endpoint_json(endpoint) is Object,
        ({
            let m = agent_runtime_endpoint_json(endpoint)->Object_0;
            &&& endpoint.description is None ==> !m.contains_key("Description"@)
            &&& endpoint.description is Some ==> m.contains_key("Description"@) && m["Description"@] == JsonView::Str(endpoint.description->0@)
            &&& endpoint.live_version is None ==> !m.contains_key("LiveVersion"@)
            &&& endpoint.live_version is Some ==> m.contains_key("LiveVersion"@) && m["LiveVersion"@] == JsonView::Str(endpoint.live_version->0@)
            &&& endpoint.target_version is None ==> !m.contains_key("TargetVersion"@)
            &&& endpoint.target_version is Some ==> m.contains_key("TargetVersion"@) && m["TargetVersion"@] == JsonView::Str(endpoint.target_version->0@)
        }),
{
    lemma_agent_runtime_endpoint_json_keys_differ();
}

/// The object of a agent runtime endpoint holds each reported field of it under its own key, and such a key is missing exactly when AWS did not report the field.
pub proof fn law_agent_runtime_endpoint_fields(endpoint: AgentRuntimeEndpoint)
    ensures
        agent_runtime_endpoint_json(endpoint) is Object,
        ({
            let m = agent_runtime_endpoint_json(endpoint)->Object_0;
            &&& endpoint.description is None ==> !m.contains_key("Description"@)
            &&& endpoint.description is Some ==> m.contains_key("Description"@) && m["Description"@] == JsonView::Str(endpoint.description->0@)
            &&& endpoint.live_version is None ==> !m.contains_key("LiveVersion"@)
            &&& endpoint.live_version is Some ==> m.contains_key("LiveVersion"@) && m["LiveVersion"@] == JsonView::Str(endpoint.live_version->0@)
            &&& endpoint.target_version is None ==> !m.contains_key("TargetVersion"@)
            &&& endpoint.target_version is Some ==> m.contains_key("TargetVersion"@) && m["TargetVersion"@] == JsonView::Str(endpoint.target_version->0@)
        }),
{
    lemma_agent_runtime_endpoint_json_fields_0(endpoint);
}

/// What tells the keys of `agent_runtime_endpoint_details_json` apart: their lengths, and a letter where two have the same length.
proof fn lemma_agent_runtime_endpoint_details_json_keys_differ()
    ensures
        "AgentRuntimeArn"@.len() == 15,
        "AgentRuntimeEndpointArn"@.len() == 23,
        "CreatedAt"@.len() == 9,
        "Description"@.len() == 11 && "Description"@[0] == 'D',
        "EndpointId"@.len() == 10,
        "EndpointName"@.len() == 12,
        "FailureReason"@.len() == 13 && "FailureReason"@[0] == 'F',
        "LastUpdatedAt"@.len() == 13 && "LastUpdatedAt"@[0] == 'L',
        "LiveVersion"@.len() == 11 && "LiveVersion"@[0] == 'L',
        "Status"@.len() == 6,
        "TargetVersion"@.len() == 13 && "TargetVersion"@[0] == 'T',
{
    reveal_strlit("AgentRuntimeArn");
    reveal_strlit("AgentRuntimeEndpointArn");
    reveal_strlit("CreatedAt");
    reveal_strlit("Description");
    reveal_strlit("EndpointId");
    reveal_strlit("EndpointName");
    reveal_strlit("FailureReason");
    reveal_strlit("LastUpdatedAt");
    reveal_strlit("LiveVersion");
    reveal_strlit("Status");
    reveal_strlit("TargetVersion");
}

#[verifier::spinoff_prover]
#[verifier::rlimit(30)]
proof fn lemma_agent_runtime_endpoint_details_json_fields_0(response: GetAgentRuntimeEndpointOutput)
    ensures
        agent_runtime_endpoint_details_json(response) is Object,
        ({
            let m = agent_runtime_endpoint_details_json(response)->Object_0;
            &&& response.description is None ==> !m.contains_key("Description"@)
            &&& response.description is Some ==> m.contains_key("Description"@) && m["Description"@] == JsonView::Str(response.description->0@)
            &&& response.failure_reason is None ==> !m.contains_key("FailureReason"@)
            &&& response.failure_reason is Some ==> m.contains_key("FailureReason"@) && m["FailureReason"@] == JsonView::Str(response.failure_reason->0@)
            &&& response.live_version is None ==> !m.contains_key("LiveVersion"@)
            &&& response.live_version is Some ==> m.contains_key("LiveVersion"@) && m["LiveVersion"@] == JsonView::Str(response.live_version->0@)
        }),
{
    lemma_agent_runtime_endpoint_details_json_keys_differ();
}

#[verifier::spinoff_prover]
#[verifier::rlimit(30)]
proof fn lemma_agent_runtime_endpoint_details_json_fields_1(response: GetAgentRuntimeEndpointOutput)
    ensures
        agent_runtime_endpoint_details_json(response) is Object,
        ({
            let m = agent_runtime_endpoint_details_json(response)->Object_0;
            &&& response.target_version is None ==> !m.contains_key("TargetVersion"@)
            &&& response.target_version is Some ==> m.contains_key("TargetVersion"@) && m["TargetVersion"@] == JsonView::Str(response.target_version->0@)
        }),
{
    lemma_agent_runtime_endpoint_details_json_keys_differ();
}

/// The object of a get agent runtime endpoint output holds each reported field of it under its own key, and such a key is missing exactly when AWS did not report the field.
pub proof fn law_agent_runtime_endpoint_details_fields(response: GetAgentRuntimeEndpointOutput)
    ensures
        agent_runtime_endpoint_details_json(response) is Object,
        ({
            let m = agent_runtime_endpoint_details_json(response)->Object_0;
            &&& response.description is None ==> !m.contains_key("Description"@)
            &&& response.description is Some ==> m.contains_key("Description"@) && m["Description"@] == JsonView::Str(response.description->0@)
            &&& response.failure_reason is None ==> !m.contains_key("FailureReason"@)
            &&& response.failure_reason is Some ==> m.contains_key("FailureReason"@) && m["FailureReason"@] == JsonView::Str(response.failure_reason->0@)
            &&& response.live_version is None ==> !m.contains_key("LiveVersion"@)
            &&& response.live_version is Some ==> m.contains_key("LiveVersion"@) && m["LiveVersion"@] == JsonView::Str(response.live_version->0@)
            &&& response.target_version is None ==> !m.contains_key("TargetVersion"@)
            &&& response.target_version is Some ==> m.contains_key("TargetVersion"@) && m["TargetVersion"@] == JsonView::Str(response.target_version->0@)
        }),
{
    lemma_agent_runtime_endpoint_details_json_fields_0(response);
    lemma_agent_runtime_endpoint_details_json_fields_1(response);
}

/// What tells the keys of `memory_json` apart: their lengths, and a letter where two have the same length.
proof fn lemma_memory_json_keys_differ()
    ensures
        "CreatedAt"@.len() == 9 && "CreatedAt"@[0] == 'C',
        "MemoryArn"@.len() == 9 && "MemoryArn"@[0] == 'M',
        "MemoryId"@.len() == 8,
        "Status"@.len() == 6,
        "UpdatedAt"@.len() == 9 && "UpdatedAt"@[0] == 'U',
{
    reveal_strlit("CreatedAt");
    reveal_strlit("MemoryArn");
    reveal_strlit("MemoryId");
    reveal_strlit("Status");
    reveal_strlit("UpdatedAt");
}

#[verifier::spinoff_prover]
#[verifier::rlimit(30)]
proof fn lemma_memory_json_fields_0(memory: MemorySummary)
    ensures
        memory_json(memory) is Object,
        ({
            let m = memory_json(memory)->Object_0;
            &&& memory.arn is None ==> !m.contains_key("MemoryArn"@)
            &&& memory.arn is Some ==> m.contains_key("MemoryArn"@) && m["MemoryArn"@] == JsonView::Str(memory.arn->0@)
            &&& memory.id is None ==> !m.contains_key("MemoryId"@)
            &&& memory.id is Some ==> m.contains_key("MemoryId"@) && m["MemoryId"@] == JsonView::Str(memory.id->0@)
            &&& memory.status is None ==> !m.contains_key("Status"@)
            &&& memory.status is Some ==> m.contains_key("Status"@) && m["Status"@] == JsonView::Str(memory.status->0@)
        }),
{
    lemma_memory_json_keys_differ();
}

/// The object of a memory summary holds each reported field of it under its own key, and such a key is missing exactly when AWS did not report the field.
pub proof fn law_memory_fields(memory: MemorySummary)
    ensures
        memory_json(memory) is Object,
        ({
            let m = memory_json(memory)->Object_0;
            &&& memory.arn is None ==> !m.contains_key("MemoryArn"@)
            &&& memory.arn is Some ==> m.contains_key("MemoryArn"@) && m["MemoryArn"@] == JsonView::Str(memory.arn->0@)
            &&& memory.id is None ==> !m.contains_key("MemoryId"@)
            &&& memory.id is Some ==> m.contains_key("MemoryId"@) && m["MemoryId"@] == JsonView::Str(memory.id->0@)
            &&& memory.status is None ==> !m.contains_key("Status"@)
            &&& memory.status is Some ==> m.contains_key("Status"@) && m["Status"@] == JsonView::Str(memory.status->0@)
        }),
{
    lemma_memory_json_fields_0(memory);
}

/// What tells the keys of `browser_json` apart: their lengths, and a letter where two have the same length.
proof fn lemma_browser_json_keys_differ()
    ensures
        "BrowserArn"@.len() == 10,
        "BrowserId"@.len() == 9 && "BrowserId"@[0] == 'B',
        "BrowserName"@.len() == 11 && "BrowserName"@[0] == 'B',
        "CreatedAt"@.len() == 9 && "CreatedAt"@[0] == 'C',
        "Description"@.len() == 11 && "Description"@[0] == 'D',
        "LastUpdatedAt"@.len() == 13,
        "Status"@.len() == 6,
{
    reveal_strlit("BrowserArn");
    reveal_strlit("BrowserId");
    reveal_strlit("BrowserName");
    reveal_strlit("CreatedAt");
    reveal_strlit("Description");
    reveal_strlit("LastUpdatedAt");
    reveal_strlit("Status");
}

#[verifier::spinoff_prover]
#[verifier::rlimit(30)]
proof fn lemma_browser_json_fields_0(browser: BrowserSummary)
    ensures
        browser_json(browser) is Object,
        ({
            let m = browser_json(browser)->Object_0;
            &&& browser.name is None ==> !m.contains_key("BrowserName"@)
            &&& browser.name is Some ==> m.contains_key("BrowserName"@) && m["BrowserName"@] == JsonView::Str(browser.name->0@)
            &&& browser.description is None ==> !m.contains_key("Description"@)
            &&& browser.description is Some ==> m.contains_key("Description"@) && m["Description"@] == JsonView::Str(browser.description->0@)
        }),
{
    lemma_browser_json_keys_differ();
}

/// The object of a browser summary holds each reported field of it under its own key, and such a key is missing exactly when AWS did not report the field.
pub proof fn law_browser_fields(browser: BrowserSummary)
    ensures
        browser_json(browser) is Object,
        ({
            let m = browser_json(browser)->Object_0;
            &&& browser.name is None ==> !m.contains_key("BrowserName"@)
            &&& browser.name is Some ==> m.contains_key("BrowserName"@) && m["BrowserName"@] == JsonView::Str(browser.name->0@)
            &&& browser.description is None ==> !m.contains_key("Description"@)
            &&& browser.description is Some ==> m.contains_key("Description"@) && m["Description"@] == JsonView::Str(browser.description->0@)
        }),
{
    lemma_browser_json_fields_0(browser);
}

/// What tells the keys of `browser_details_json` apart: their lengths, and a letter where two have the same length.
proof fn lemma_browser_details_json_keys_differ()
    ensures
        "BrowserArn"@.len() == 10,
        "BrowserId"@.len() == 9 && "BrowserId"@[0] == 'B',
        "BrowserName"@.len() == 11 && "BrowserName"@[0] == 'B',
        "CreatedAt"@.len() == 9 && "CreatedAt"@[0] == 'C',
        "Description"@.len() == 11 && "Description"@[0] == 'D',
        "FailureReason"@.len() == 13 && "FailureReason"@[0] == 'F',
        "LastUpdatedAt"@.len() == 13 && "LastUpdatedAt"@[0] == 'L',
        "Status"@.len() == 6,
{
    reveal_strlit("BrowserArn");
    reveal_strlit("BrowserId");
    reveal_strlit("BrowserName");
    reveal_strlit("CreatedAt");
    reveal_strlit("Description");
    reveal_strlit("FailureReason");
    reveal_strlit("LastUpdatedAt");
    reveal_strlit("Status");
}

#[verifier::spinoff_prover]
#[verifier::rlimit(30)]
proof fn lemma_browser_details_json_fields_0(response: GetBrowserOutput)
    ensures
        browser_details_json(response) is Object,
        ({
            let m = browser_details_json(response)->Object_0;
            &&& response.description is None ==> !m.contains_key("Description"@)
            &&& response.description is Some ==> m.contains_key("Description"@) && m["Description"@] == JsonView::Str(response.description->0@)
            &&& response.failure_reason is None ==> !m.contains_key("FailureReason"@)
            &&& response.failure_reason is Some ==> m.contains_key("FailureReason"@) && m["FailureReason"@] == JsonView::Str(response.failure_reason->0@)
        }),
{
    lemma_browser_details_json_keys_differ();
}

/// The object of a get browser output holds each reported field of it under its own key, and such a key is missing exactly when AWS did not report the field.
pub proof fn law_browser_details_fields(response: GetBrowserOutput)
    ensures
        browser_details_json(response) is Object,
        ({
            let m = browser_details_json(response)->Object_0;
            &&& response.description is None ==> !m.contains_key("Description"@)
            &&& response.description is Some ==> m.contains_key("Description"@) && m["Description"@] == JsonView::Str(response.description->0@)
            &&& response.failure_reason is None ==> !m.contains_key("FailureReason"@)
            &&& response.failure_reason is Some ==> m.contains_key("FailureReason"@) && m["FailureReason"@] == JsonView::Str(response.failure_reason->0@)
        }),
{
    lemma_browser_details_json_fields_0(response);
}

/// What tells the keys of `code_interpreter_summary_json` apart: their lengths, and a letter where two have the same length.
proof fn lemma_code_interpreter_summary_json_keys_differ()
    ensures
        "CodeInterpreterArn"@.len() == 18,
        "CodeInterpreterId"@.len() == 17,
        "CreatedAt"@.len() == 9,
        "Description"@.len() == 11,
        "LastUpdatedAt"@.len() == 13,
        "Name"@.len() == 4,
        "Status"@.len() == 6,
{
    reveal_strlit("CodeInterpreterArn");
    reveal_strlit("CodeInterpreterId");
    reveal_strlit("CreatedAt");
    reveal_strlit("Description");
    reveal_strlit("LastUpdatedAt");
    reveal_strlit("Name");
    reveal_strlit("Status");
}

#[verifier::spinoff_prover]
#[verifier::rlimit(30)]
proof fn lemma_code_interpreter_summary_json_fields_0(interpreter: CodeInterpreterSummary)
    ensures
        code_interpreter_summary_json(interpreter) is Object,
        ({
            let m = code_interpreter_summary_json(interpreter)->Object_0;
            &&& interpreter.description is None ==> !m.contains_key("Description"@)
            &&& interpreter.description is Some ==> m.contains_key("Description"@) && m["Description"@] == JsonView::Str(interpreter.description->0@)
            &&& interpreter.name is None ==> !m.contains_key("Name"@)
            &&& interpreter.name is Some ==> m.contains_key("Name"@) && m["Name"@] == JsonView::Str(interpreter.name->0@)
        }),
{
    lemma_code_interpreter_summary_json_keys_differ();
}

/// The object of a code interpreter summary holds each reported field of it under its own key, and such a key is missing exactly when AWS did not report the field.
pub proof fn law_code_interpreter_summary_fields(interpreter: CodeInterpreterSummary)
    ensures
        code_interpreter_summary_json(interpreter) is Object,
        ({
            let m = code_interpreter_summary_json(interpreter)->Object_0;
            &&& interpreter.description is None ==> !m.contains_key("Description"@)
            &&& interpreter.description is Some ==> m.contains_key("Description"@) && m["Description"@] == JsonView::Str(interpreter.description->0@)
            &&& interpreter.name is None ==> !m.contains_key("Name"@)
            &&& interpreter.name is Some ==> m.contains_key("Name"@) && m["Name"@] == JsonView::Str(interpreter.name->0@)
        }),
{
    lemma_code_interpreter_summary_json_fields_0(interpreter);
}

/// What tells the keys of `code_interpreter_details_json` apart: their lengths, and a letter where two have the same length.
proof fn lemma_code_interpreter_details_json_keys_differ()
    ensures
        "CodeInterpreterArn"@.len() == 18,
        "CodeInterpreterId"@.len() == 17,
        "CreatedAt"@.len() == 9,
        "Description"@.len() == 11,
        "ExecutionRoleArn"@.len() == 16,
        "FailureReason"@.len() == 13 && "FailureReason"@[0] == 'F',
        "LastUpdatedAt"@.len() == 13 && "LastUpdatedAt"@[0] == 'L',
        "Name"@.len() == 4,
        "Status"@.len() == 6,
{
    reveal_strlit("CodeInterpreterArn");
    reveal_strlit("CodeInterpreterId");
    reveal_strlit("CreatedAt");
    reveal_strlit("Description");
    reveal_strlit("ExecutionRoleArn");
    reveal_strlit("FailureReason");
    reveal_strlit("LastUpdatedAt");
    reveal_strlit("Name");
    reveal_strlit("Status");
}

#[verifier::spinoff_prover]
#[verifier::rlimit(30)]
proof fn lemma_code_interpreter_details_json_fields_0(response: GetCodeInterpreterOutput)
    ensures
        code_interpreter_details_json(response) is Object,
        ({
            let m = code_interpreter_details_json(response)->Object_0;
            &&& response.description is None ==> !m.contains_key("Description"@)
            &&& response.description is Some ==> m.contains_key("Description"@) && m["Description"@] == JsonView::Str(response.description->0@)
            &&& response.execution_role_arn is None ==> !m.contains_key("ExecutionRoleArn"@)
            &&& response.execution_role_arn is Some ==> m.contains_key("ExecutionRoleArn"@) && m["ExecutionRoleArn"@] == JsonView::Str(response.execution_role_arn->0@)
            &&& response.failure_reason is None ==> !m.contains_key("FailureReason"@)
            &&& response.failure_reason is Some ==> m.contains_key("FailureReason"@) && m["FailureReason"@] == JsonView::Str(response.failure_reason->0@)
        }),
{
    lemma_code_interpreter_details_json_keys_differ();
}

/// The object of a get code interpreter output holds each reported field of it under its own key, and such a key is missing exactly when AWS did not report the field.
pub proof fn law_code_interpreter_details_fields(response: GetCodeInterpreterOutput)
    ensures
        code_interpreter_details_json(response) is Object,
        ({
            let m = code_interpreter_details_json(response)->Object_0;
            &&& response.description is None ==> !m.contains_key("Description"@)
            &&& response.description is Some ==> m.contains_key("Description"@) && m["Description"@] == JsonView::Str(response.description->0@)
            &&& response.execution_role_arn is None ==> !m.contains_key("ExecutionRoleArn"@)
            &&& response.execution_role_arn is Some ==> m.contains_key("ExecutionRoleArn"@) && m["ExecutionRoleArn"@] == JsonView::Str(response.execution_role_arn->0@)
            &&& response.failure_reason is None ==> !m.contains_key("FailureReason"@)
            &&& response.failure_reason is Some ==> m.contains_key("FailureReason"@) && m["FailureReason"@] == JsonView::Str(response.failure_reason->0@)
        }),
{
    lemma_code_interpreter_details_json_fields_0(response);
}

} // verus!

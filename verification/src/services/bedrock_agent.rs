//! Bedrock agents, knowledge bases, prompts, flows and their parts as JSON.
use crate::json::{opt_str_json, str_json, strs_json, strs_value, with_opt, JsonObject, JsonValue, JsonView};
use crate::timestamp::{opt_ts_json, ts_json, Timestamp};
use crate::text::concat_text;
use std::sync::Arc;
use vstd::prelude::*;

verus! {

/// An agent as `ListAgents` reports it; enumerations hold their AWS names.
pub struct AgentSummary {
    pub agent_id: String,
    pub agent_name: String,
    pub agent_status: String,
    pub description: Option<String>,
    pub latest_agent_version: Option<String>,
    pub updated_at: Timestamp,
}

/// An agent as `GetAgent` reports it.
pub struct Agent {
    pub agent_id: String,
    pub agent_arn: String,
    pub agent_name: String,
    pub agent_status: String,
    pub description: Option<String>,
    pub agent_resource_role_arn: String,
    pub foundation_model: Option<String>,
    pub instruction: Option<String>,
    pub idle_session_ttl_in_seconds: i64,
    pub created_at: Timestamp,
    pub updated_at: Timestamp,
    pub prepared_at: Option<Timestamp>,
}

/// A knowledge base as listed.
pub struct KnowledgeBaseSummary {
    pub knowledge_base_id: String,
    pub name: String,
    pub description: Option<String>,
    pub status: String,
    pub updated_at: Timestamp,
}

/// A knowledge base in detail.
pub struct KnowledgeBase {
    pub knowledge_base_id: String,
    pub knowledge_base_arn: String,
    pub name: String,
    pub description: Option<String>,
    pub status: String,
    pub role_arn: String,
    pub created_at: Timestamp,
    pub updated_at: Timestamp,
    pub failure_reasons: Option<Vec<String>>,
}

/// A prompt as listed.
pub struct PromptSummary {
    pub id: String,
    pub name: String,
    pub description: Option<String>,
    pub created_at: Timestamp,
    pub updated_at: Timestamp,
    pub version: String,
}

/// A prompt as `GetPrompt` reports it.
pub struct GetPromptOutput {
    pub name: String,
    pub id: String,
    pub arn: String,
    pub created_at: Timestamp,
    pub updated_at: Timestamp,
}

/// A flow as listed.
pub struct FlowSummary {
    pub id: String,
    pub name: String,
    pub description: Option<String>,
    pub status: String,
    pub created_at: Timestamp,
    pub updated_at: Timestamp,
    pub version: String,
}

/// A flow as `GetFlow` reports it.
pub struct GetFlowOutput {
    pub name: String,
    pub id: String,
    pub arn: String,
    pub status: String,
    pub created_at: Timestamp,
    pub updated_at: Timestamp,
}

/// An agent alias as listed.
pub struct AgentAliasSummary {
    pub agent_alias_id: String,
    pub agent_alias_name: String,
    pub description: Option<String>,
    pub agent_alias_status: String,
    pub created_at: Timestamp,
    pub updated_at: Timestamp,
}

/// An agent alias in detail.
pub struct AgentAlias {
    pub agent_alias_id: String,
    pub agent_alias_arn: String,
    pub agent_alias_name: String,
    pub agent_id: String,
    pub description: Option<String>,
    pub agent_alias_status: String,
    pub created_at: Timestamp,
    pub updated_at: Timestamp,
}

/// An action group as listed.
pub struct ActionGroupSummary {
    pub action_group_id: String,
    pub action_group_name: String,
    pub action_group_state: String,
    pub description: Option<String>,
    pub updated_at: Timestamp,
}

/// An action group in detail.
pub struct AgentActionGroup {
    pub action_group_id: String,
    pub action_group_name: String,
    pub agent_id: String,
    pub agent_version: String,
    pub action_group_state: String,
    pub description: Option<String>,
    pub created_at: Timestamp,
    pub updated_at: Timestamp,
}

/// A data source as listed.
pub struct DataSourceSummary {
    pub data_source_id: String,
    pub name: String,
    pub description: Option<String>,
    pub status: String,
    pub updated_at: Timestamp,
}

/// A data source in detail.
pub struct DataSource {
    pub data_source_id: String,
    pub knowledge_base_id: String,
    pub name: String,
    pub description: Option<String>,
    pub status: String,
    pub created_at: Timestamp,
    pub updated_at: Timestamp,
}

/// An ingestion job as listed.
pub struct IngestionJobSummary {
    pub ingestion_job_id: String,
    pub data_source_id: String,
    pub knowledge_base_id: String,
    pub status: String,
    pub started_at: Timestamp,
    pub updated_at: Timestamp,
}

/// An ingestion job in detail.
pub struct IngestionJob {
    pub ingestion_job_id: String,
    pub data_source_id: String,
    pub knowledge_base_id: String,
    pub status: String,
    pub started_at: Timestamp,
    pub updated_at: Timestamp,
    pub failure_reasons: Option<Vec<String>>,
}

/// A flow alias as listed.
pub struct FlowAliasSummary {
    pub id: String,
    pub name: String,
    pub flow_id: String,
    pub description: Option<String>,
    pub created_at: Timestamp,
    pub updated_at: Timestamp,
}

/// A flow alias as `GetFlowAlias` reports it.
pub struct GetFlowAliasOutput {
    pub name: String,
    pub id: String,
    pub arn: String,
    pub flow_id: String,
    pub created_at: Timestamp,
    pub updated_at: Timestamp,
}

/// Reads Bedrock agents, knowledge bases, prompts and flows through a credential coordinator `C`.
pub struct BedrockAgentService<C> {
    credential_coordinator: Arc<C>,
}

/// The JSON object of a listed agent.
pub open spec fn agent_json(agent: AgentSummary) -> JsonView {
    let m = Map::<Seq<char>, JsonView>::empty();
    let m = m.insert("AgentId"@, str_json(agent.agent_id));
    let m = m.insert("AgentName"@, str_json(agent.agent_name));
    let m = m.insert("AgentStatus"@, str_json(agent.agent_status));
    let m = with_opt(m, "Description"@, opt_str_json(agent.description));
    let m = with_opt(m, "LatestAgentVersion"@, opt_str_json(agent.latest_agent_version));
    let m = m.insert("UpdatedAt"@, ts_json(agent.updated_at));
    JsonView::Object(m)
}

/// The JSON object of an agent in detail.
pub open spec fn agent_details_json(agent: Agent) -> JsonView {
    let m = Map::<Seq<char>, JsonView>::empty();
    let m = m.insert("AgentId"@, str_json(agent.agent_id));
    let m = m.insert("AgentArn"@, str_json(agent.agent_arn));
    let m = m.insert("AgentName"@, str_json(agent.agent_name));
    let m = m.insert("AgentStatus"@, str_json(agent.agent_status));
    let m = with_opt(m, "Description"@, opt_str_json(agent.description));
    let m = m.insert("AgentResourceRoleArn"@, str_json(agent.agent_resource_role_arn));
    let m = with_opt(m, "FoundationModel"@, opt_str_json(agent.foundation_model));
    let m = with_opt(m, "Instruction"@, opt_str_json(agent.instruction));
    let m = m.insert("IdleSessionTtlInSeconds"@, JsonView::Number(agent.idle_session_ttl_in_seconds as int));
    let m = m.insert("CreatedAt"@, ts_json(agent.created_at));
    let m = m.insert("UpdatedAt"@, ts_json(agent.updated_at));
    let m = with_opt(m, "PreparedAt"@, opt_ts_json(agent.prepared_at));
    JsonView::Object(m)
}

/// The JSON object of a listed knowledge base.
pub open spec fn knowledge_base_json(kb: KnowledgeBaseSummary) -> JsonView {
    let m = Map::<Seq<char>, JsonView>::empty();
    let m = m.insert("KnowledgeBaseId"@, str_json(kb.knowledge_base_id));
    let m = m.insert("Name"@, str_json(kb.name));
    let m = with_opt(m, "Description"@, opt_str_json(kb.description));
    let m = m.insert("Status"@, str_json(kb.status));
    let m = m.insert("UpdatedAt"@, ts_json(kb.updated_at));
    JsonView::Object(m)
}

/// The JSON object of a knowledge base in detail; failure reasons only when there are some.
pub open spec fn knowledge_base_details_json(kb: KnowledgeBase) -> JsonView {
    let m = Map::<Seq<char>, JsonView>::empty();
    let m = m.insert("KnowledgeBaseId"@, str_json(kb.knowledge_base_id));
    let m = m.insert("KnowledgeBaseArn"@, str_json(kb.knowledge_base_arn));
    let m = m.insert("Name"@, str_json(kb.name));
    let m = with_opt(m, "Description"@, opt_str_json(kb.description));
    let m = m.insert("Status"@, str_json(kb.status));
    let m = m.insert("RoleArn"@, str_json(kb.role_arn));
    let m = m.insert("CreatedAt"@, ts_json(kb.created_at));
    let m = m.insert("UpdatedAt"@, ts_json(kb.updated_at));
    let m = match kb.failure_reasons { Some(v) => if v@.len() > 0 { m.insert("FailureReasons"@, strs_json(v@)) } else { m }, None => m };
    JsonView::Object(m)
}

/// The JSON object of a listed prompt.
pub open spec fn prompt_json(prompt: PromptSummary) -> JsonView {
    let m = Map::<Seq<char>, JsonView>::empty();
    let m = m.insert("PromptId"@, str_json(prompt.id));
    let m = m.insert("Name"@, str_json(prompt.name));
    let m = with_opt(m, "Description"@, opt_str_json(prompt.description));
    let m = m.insert("CreatedAt"@, ts_json(prompt.created_at));
    let m = m.insert("UpdatedAt"@, ts_json(prompt.updated_at));
    let m = m.insert("Version"@, str_json(prompt.version));
    JsonView::Object(m)
}

/// The JSON object of a prompt in detail.
pub open spec fn prompt_details_json(prompt: GetPromptOutput) -> JsonView {
    let m = Map::<Seq<char>, JsonView>::empty();
    let m = m.insert("PromptId"@, str_json(prompt.id));
    let m = m.insert("PromptArn"@, str_json(prompt.arn));
    let m = m.insert("Name"@, str_json(prompt.name));
    let m = m.insert("CreatedAt"@, ts_json(prompt.created_at));
    let m = m.insert("UpdatedAt"@, ts_json(prompt.updated_at));
    JsonView::Object(m)
}

/// The JSON object of a listed flow.
pub open spec fn flow_json(flow: FlowSummary) -> JsonView {
    let m = Map::<Seq<char>, JsonView>::empty();
    let m = m.insert("FlowId"@, str_json(flow.id));
    let m = m.insert("Name"@, str_json(flow.name));
    let m = with_opt(m, "Description"@, opt_str_json(flow.description));
    let m = m.insert("Status"@, str_json(flow.status));
    let m = m.insert("CreatedAt"@, ts_json(flow.created_at));
    let m = m.insert("UpdatedAt"@, ts_json(flow.updated_at));
    let m = m.insert("Version"@, str_json(flow.version));
    JsonView::Object(m)
}

/// The JSON object of a flow in detail.
pub open spec fn flow_details_json(flow: GetFlowOutput) -> JsonView {
    let m = Map::<Seq<char>, JsonView>::empty();
    let m = m.insert("FlowId"@, str_json(flow.id));
    let m = m.insert("FlowArn"@, str_json(flow.arn));
    let m = m.insert("Name"@, str_json(flow.name));
    let m = m.insert("Status"@, str_json(flow.status));
    let m = m.insert("CreatedAt"@, ts_json(flow.created_at));
    let m = m.insert("UpdatedAt"@, ts_json(flow.updated_at));
    JsonView::Object(m)
}

/// The JSON object of a listed agent alias.
pub open spec fn agent_alias_json(alias: AgentAliasSummary) -> JsonView {
    let m = Map::<Seq<char>, JsonView>::empty();
    let m = m.insert("AgentAliasId"@, str_json(alias.agent_alias_id));
    let m = m.insert("AgentAliasName"@, str_json(alias.agent_alias_name));
    let m = with_opt(m, "Description"@, opt_str_json(alias.description));
    let m = m.insert("AgentAliasStatus"@, str_json(alias.agent_alias_status));
    let m = m.insert("CreatedAt"@, ts_json(alias.created_at));
    let m = m.insert("UpdatedAt"@, ts_json(alias.updated_at));
    JsonView::Object(m)
}

/// The JSON object of an agent alias in detail.
pub open spec fn agent_alias_details_json(alias: AgentAlias) -> JsonView {
    let m = Map::<Seq<char>, JsonView>::empty();
    let m = m.insert("AgentAliasId"@, str_json(alias.agent_alias_id));
    let m = m.insert("AgentAliasArn"@, str_json(alias.agent_alias_arn));
    let m = m.insert("AgentAliasName"@, str_json(alias.agent_alias_name));
    let m = m.insert("AgentId"@, str_json(alias.agent_id));
    let m = with_opt(m, "Description"@, opt_str_json(alias.description));
    let m = m.insert("AgentAliasStatus"@, str_json(alias.agent_alias_status));
    let m = m.insert("CreatedAt"@, ts_json(alias.created_at));
    let m = m.insert("UpdatedAt"@, ts_json(alias.updated_at));
    JsonView::Object(m)
}

/// The JSON object of a listed action group.
pub open spec fn action_group_json(action_group: ActionGroupSummary) -> JsonView {
    let m = Map::<Seq<char>, JsonView>::empty();
    let m = m.insert("ActionGroupId"@, str_json(action_group.action_group_id));
    let m = m.insert("ActionGroupName"@, str_json(action_group.action_group_name));
    let m = m.insert("ActionGroupState"@, str_json(action_group.action_group_state));
    let m = with_opt(m, "Description"@, opt_str_json(action_group.description));
    let m = m.insert("UpdatedAt"@, ts_json(action_group.updated_at));
    JsonView::Object(m)
}

/// The JSON object of an action group in detail.
pub open spec fn action_group_details_json(action_group: AgentActionGroup) -> JsonView {
    let m = Map::<Seq<char>, JsonView>::empty();
    let m = m.insert("ActionGroupId"@, str_json(action_group.action_group_id));
    let m = m.insert("ActionGroupName"@, str_json(action_group.action_group_name));
    let m = m.insert("AgentId"@, str_json(action_group.agent_id));
    let m = m.insert("AgentVersion"@, str_json(action_group.agent_version));
    let m = m.insert("ActionGroupState"@, str_json(action_group.action_group_state));
    let m = with_opt(m, "Description"@, opt_str_json(action_group.description));
    let m = m.insert("CreatedAt"@, ts_json(action_group.created_at));
    let m = m.insert("UpdatedAt"@, ts_json(action_group.updated_at));
    JsonView::Object(m)
}

/// The JSON object of a listed data source.
pub open spec fn data_source_json(data_source: DataSourceSummary) -> JsonView {
    let m = Map::<Seq<char>, JsonView>::empty();
    let m = m.insert("DataSourceId"@, str_json(data_source.data_source_id));
    let m = m.insert("Name"@, str_json(data_source.name));
    let m = with_opt(m, "Description"@, opt_str_json(data_source.description));
    let m = m.insert("Status"@, str_json(data_source.status));
    let m = m.insert("UpdatedAt"@, ts_json(data_source.updated_at));
    JsonView::Object(m)
}

/// The JSON object of a data source in detail.
pub open spec fn data_source_details_json(data_source: DataSource) -> JsonView {
    let m = Map::<Seq<char>, JsonView>::empty();
    let m = m.insert("DataSourceId"@, str_json(data_source.data_source_id));
    let m = m.insert("KnowledgeBaseId"@, str_json(data_source.knowledge_base_id));
    let m = m.insert("Name"@, str_json(data_source.name));
    let m = with_opt(m, "Description"@, opt_str_json(data_source.description));
    let m = m.insert("Status"@, str_json(data_source.status));
    let m = m.insert("CreatedAt"@, ts_json(data_source.created_at));
    let m = m.insert("UpdatedAt"@, ts_json(data_source.updated_at));
    JsonView::Object(m)
}

/// The JSON object of a listed ingestion job.
pub open spec fn ingestion_job_json(job: IngestionJobSummary) -> JsonView {
    let m = Map::<Seq<char>, JsonView>::empty();
    let m = m.insert("IngestionJobId"@, str_json(job.ingestion_job_id));
    let m = m.insert("DataSourceId"@, str_json(job.data_source_id));
    let m = m.insert("KnowledgeBaseId"@, str_json(job.knowledge_base_id));
    let m = m.insert("Status"@, str_json(job.status));
    let m = m.insert("StartedAt"@, ts_json(job.started_at));
    let m = m.insert("UpdatedAt"@, ts_json(job.updated_at));
    JsonView::Object(m)
}

/// The JSON object of an ingestion job in detail; failure reasons only when there are some.
pub open spec fn ingestion_job_details_json(job: IngestionJob) -> JsonView {
    let m = Map::<Seq<char>, JsonView>::empty();
    let m = m.insert("IngestionJobId"@, str_json(job.ingestion_job_id));
    let m = m.insert("DataSourceId"@, str_json(job.data_source_id));
    let m = m.insert("KnowledgeBaseId"@, str_json(job.knowledge_base_id));
    let m = m.insert("Status"@, str_json(job.status));
    let m = m.insert("StartedAt"@, ts_json(job.started_at));
    let m = m.insert("UpdatedAt"@, ts_json(job.updated_at));
    let m = match job.failure_reasons { Some(v) => if v@.len() > 0 { m.insert("FailureReasons"@, strs_json(v@)) } else { m }, None => m };
    JsonView::Object(m)
}

/// The JSON object of a listed flow alias.
pub open spec fn flow_alias_json(alias: FlowAliasSummary) -> JsonView {
    let m = Map::<Seq<char>, JsonView>::empty();
    let m = m.insert("Id"@, str_json(alias.id));
    let m = m.insert("Name"@, str_json(alias.name));
    let m = m.insert("FlowId"@, str_json(alias.flow_id));
    let m = with_opt(m, "Description"@, opt_str_json(alias.description));
    let m = m.insert("CreatedAt"@, ts_json(alias.created_at));
    let m = m.insert("UpdatedAt"@, ts_json(alias.updated_at));
    JsonView::Object(m)
}

/// The JSON object of a flow alias in detail.
pub open spec fn flow_alias_details_json(alias: GetFlowAliasOutput) -> JsonView {
    let m = Map::<Seq<char>, JsonView>::empty();
    let m = m.insert("Id"@, str_json(alias.id));
    let m = m.insert("Arn"@, str_json(alias.arn));
    let m = m.insert("Name"@, str_json(alias.name));
    let m = m.insert("FlowId"@, str_json(alias.flow_id));
    let m = m.insert("CreatedAt"@, ts_json(alias.created_at));
    let m = m.insert("UpdatedAt"@, ts_json(alias.updated_at));
    JsonView::Object(m)
}

impl<C> BedrockAgentService<C> {
    /// The coordinator that the service was made with.
    pub closed spec fn coordinator(&self) -> Arc<C> {
        self.credential_coordinator
    }

    /// A service that obtains its AWS configurations from `credential_coordinator`.
    pub fn new(credential_coordinator: Arc<C>) -> (s: Self)
        ensures
            s.coordinator() == credential_coordinator,
    {
        Self { credential_coordinator }
    }

    /// The coordinator that the service was made with.
    pub fn credential_coordinator(&self) -> (c: &Arc<C>)
        ensures
            *c == self.coordinator(),
    {
        &self.credential_coordinator
    }

    /// The JSON object of a listed agent.
    pub fn agent_to_json(&self, agent: &AgentSummary) -> (v: JsonValue)
        ensures
            v.view() == agent_json(*agent),
    {
        let mut json = JsonObject::new();
        json.insert_str("AgentId", &agent.agent_id);
        json.insert_str("AgentName", &agent.agent_name);
        json.insert_str("AgentStatus", &agent.agent_status);
        json.insert_opt_str("Description", &agent.description);
        json.insert_opt_str("LatestAgentVersion", &agent.latest_agent_version);
        json.insert("UpdatedAt", JsonValue::Str(agent.updated_at.display_text()));
        JsonValue::Object(json)
    }

    /// The JSON object of an agent in detail.
    pub fn agent_details_to_json(&self, agent: &Agent) -> (v: JsonValue)
        ensures
            v.view() == agent_details_json(*agent),
    {
        let mut json = JsonObject::new();
        json.insert_str("AgentId", &agent.agent_id);
        json.insert_str("AgentArn", &agent.agent_arn);
        json.insert_str("AgentName", &agent.agent_name);
        json.insert_str("AgentStatus", &agent.agent_status);
        json.insert_opt_str("Description", &agent.description);
        json.insert_str("AgentResourceRoleArn", &agent.agent_resource_role_arn);
        json.insert_opt_str("FoundationModel", &agent.foundation_model);
        json.insert_opt_str("Instruction", &agent.instruction);
        json.insert_int("IdleSessionTtlInSeconds", agent.idle_session_ttl_in_seconds);
        json.insert("CreatedAt", JsonValue::Str(agent.created_at.display_text()));
        json.insert("UpdatedAt", JsonValue::Str(agent.updated_at.display_text()));
        json.insert_opt_ts("PreparedAt", &agent.prepared_at);
        JsonValue::Object(json)
    }

    /// The JSON object of a listed knowledge base.
    pub fn knowledge_base_to_json(&self, kb: &KnowledgeBaseSummary) -> (v: JsonValue)
        ensures
            v.view() == knowledge_base_json(*kb),
    {
        let mut json = JsonObject::new();
        json.insert_str("KnowledgeBaseId", &kb.knowledge_base_id);
        json.insert_str("Name", &kb.name);
        json.insert_opt_str("Description", &kb.description);
        json.insert_str("Status", &kb.status);
        json.insert("UpdatedAt", JsonValue::Str(kb.updated_at.display_text()));
        JsonValue::Object(json)
    }

    /// The JSON object of a knowledge base in detail; failure reasons only when there are some.
    pub fn knowledge_base_details_to_json(&self, kb: &KnowledgeBase) -> (v: JsonValue)
        ensures
            v.view() == knowledge_base_details_json(*kb),
    {
        let mut json = JsonObject::new();
        json.insert_str("KnowledgeBaseId", &kb.knowledge_base_id);
        json.insert_str("KnowledgeBaseArn", &kb.knowledge_base_arn);
        json.insert_str("Name", &kb.name);
        json.insert_opt_str("Description", &kb.description);
        json.insert_str("Status", &kb.status);
        json.insert_str("RoleArn", &kb.role_arn);
        json.insert("CreatedAt", JsonValue::Str(kb.created_at.display_text()));
        json.insert("UpdatedAt", JsonValue::Str(kb.updated_at.display_text()));
        if let Some(v) = &kb.failure_reasons {
            if v.len() > 0 {
                json.insert("FailureReasons", strs_value(v));
            }
        }
        JsonValue::Object(json)
    }

    /// The JSON object of a listed prompt.
    pub fn prompt_to_json(&self, prompt: &PromptSummary) -> (v: JsonValue)
        ensures
            v.view() == prompt_json(*prompt),
    {
        let mut json = JsonObject::new();
        json.insert_str("PromptId", &prompt.id);
        json.insert_str("Name", &prompt.name);
        json.insert_opt_str("Description", &prompt.description);
        json.insert("CreatedAt", JsonValue::Str(prompt.created_at.display_text()));
        json.insert("UpdatedAt", JsonValue::Str(prompt.updated_at.display_text()));
        json.insert_str("Version", &prompt.version);
        JsonValue::Object(json)
    }

    /// The JSON object of a prompt in detail.
    pub fn prompt_details_to_json(&self, prompt: &GetPromptOutput) -> (v: JsonValue)
        ensures
            v.view() == prompt_details_json(*prompt),
    {
        let mut json = JsonObject::new();
        json.insert_str("PromptId", &prompt.id);
        json.insert_str("PromptArn", &prompt.arn);
        json.insert_str("Name", &prompt.name);
        json.insert("CreatedAt", JsonValue::Str(prompt.created_at.display_text()));
        json.insert("UpdatedAt", JsonValue::Str(prompt.updated_at.display_text()));
        JsonValue::Object(json)
    }

    /// The JSON object of a listed flow.
    pub fn flow_to_json(&self, flow: &FlowSummary) -> (v: JsonValue)
        ensures
            v.view() == flow_json(*flow),
    {
        let mut json = JsonObject::new();
        json.insert_str("FlowId", &flow.id);
        json.insert_str("Name", &flow.name);
        json.insert_opt_str("Description", &flow.description);
        json.insert_str("Status", &flow.status);
        json.insert("CreatedAt", JsonValue::Str(flow.created_at.display_text()));
        json.insert("UpdatedAt", JsonValue::Str(flow.updated_at.display_text()));
        json.insert_str("Version", &flow.version);
        JsonValue::Object(json)
    }

    /// The JSON object of a flow in detail.
    pub fn flow_details_to_json(&self, flow: &GetFlowOutput) -> (v: JsonValue)
        ensures
            v.view() == flow_details_json(*flow),
    {
        let mut json = JsonObject::new();
        json.insert_str("FlowId", &flow.id);
        json.insert_str("FlowArn", &flow.arn);
        json.insert_str("Name", &flow.name);
        json.insert_str("Status", &flow.status);
        json.insert("CreatedAt", JsonValue::Str(flow.created_at.display_text()));
        json.insert("UpdatedAt", JsonValue::Str(flow.updated_at.display_text()));
        JsonValue::Object(json)
    }

    /// The JSON object of a listed agent alias.
    pub fn agent_alias_to_json(&self, alias: &AgentAliasSummary) -> (v: JsonValue)
        ensures
            v.view() == agent_alias_json(*alias),
    {
        let mut json = JsonObject::new();
        json.insert_str("AgentAliasId", &alias.agent_alias_id);
        json.insert_str("AgentAliasName", &alias.agent_alias_name);
        json.insert_opt_str("Description", &alias.description);
        json.insert_str("AgentAliasStatus", &alias.agent_alias_status);
        json.insert("CreatedAt", JsonValue::Str(alias.created_at.display_text()));
        json.insert("UpdatedAt", JsonValue::Str(alias.updated_at.display_text()));
        JsonValue::Object(json)
    }

    /// The JSON object of an agent alias in detail.
    pub fn agent_alias_details_to_json(&self, alias: &AgentAlias) -> (v: JsonValue)
        ensures
            v.view() == agent_alias_details_json(*alias),
    {
        let mut json = JsonObject::new();
        json.insert_str("AgentAliasId", &alias.agent_alias_id);
        json.insert_str("AgentAliasArn", &alias.agent_alias_arn);
        json.insert_str("AgentAliasName", &alias.agent_alias_name);
        json.insert_str("AgentId", &alias.agent_id);
        json.insert_opt_str("Description", &alias.description);
        json.insert_str("AgentAliasStatus", &alias.agent_alias_status);
        json.insert("CreatedAt", JsonValue::Str(alias.created_at.display_text()));
        json.insert("UpdatedAt", JsonValue::Str(alias.updated_at.display_text()));
        JsonValue::Object(json)
    }

    /// The JSON object of a listed action group.
    pub fn action_group_to_json(&self, action_group: &ActionGroupSummary) -> (v: JsonValue)
        ensures
            v.view() == action_group_json(*action_group),
    {
        let mut json = JsonObject::new();
        json.insert_str("ActionGroupId", &action_group.action_group_id);
        json.insert_str("ActionGroupName", &action_group.action_group_name);
        json.insert_str("ActionGroupState", &action_group.action_group_state);
        json.insert_opt_str("Description", &action_group.description);
        json.insert("UpdatedAt", JsonValue::Str(action_group.updated_at.display_text()));
        JsonValue::Object(json)
    }

    /// The JSON object of an action group in detail.
    pub fn action_group_details_to_json(&self, action_group: &AgentActionGroup) -> (v: JsonValue)
        ensures
            v.view() == action_group_details_json(*action_group),
    {
        let mut json = JsonObject::new();
        json.insert_str("ActionGroupId", &action_group.action_group_id);
        json.insert_str("ActionGroupName", &action_group.action_group_name);
        json.insert_str("AgentId", &action_group.agent_id);
        json.insert_str("AgentVersion", &action_group.agent_version);
        json.insert_str("ActionGroupState", &action_group.action_group_state);
        json.insert_opt_str("Description", &action_group.description);
        json.insert("CreatedAt", JsonValue::Str(action_group.created_at.display_text()));
        json.insert("UpdatedAt", JsonValue::Str(action_group.updated_at.display_text()));
        JsonValue::Object(json)
    }

    /// The JSON object of a listed data source.
    pub fn data_source_to_json(&self, data_source: &DataSourceSummary) -> (v: JsonValue)
        ensures
            v.view() == data_source_json(*data_source),
    {
        let mut json = JsonObject::new();
        json.insert_str("DataSourceId", &data_source.data_source_id);
        json.insert_str("Name", &data_source.name);
        json.insert_opt_str("Description", &data_source.description);
        json.insert_str("Status", &data_source.status);
        json.insert("UpdatedAt", JsonValue::Str(data_source.updated_at.display_text()));
        JsonValue::Object(json)
    }

    /// The JSON object of a data source in detail.
    pub fn data_source_details_to_json(&self, data_source: &DataSource) -> (v: JsonValue)
        ensures
            v.view() == data_source_details_json(*data_source),
    {
        let mut json = JsonObject::new();
        json.insert_str("DataSourceId", &data_source.data_source_id);
        json.insert_str("KnowledgeBaseId", &data_source.knowledge_base_id);
        json.insert_str("Name", &data_source.name);
        json.insert_opt_str("Description", &data_source.description);
        json.insert_str("Status", &data_source.status);
        json.insert("CreatedAt", JsonValue::Str(data_source.created_at.display_text()));
        json.insert("UpdatedAt", JsonValue::Str(data_source.updated_at.display_text()));
        JsonValue::Object(json)
    }

    /// The JSON object of a listed ingestion job.
    pub fn ingestion_job_to_json(&self, job: &IngestionJobSummary) -> (v: JsonValue)
        ensures
            v.view() == ingestion_job_json(*job),
    {
        let mut json = JsonObject::new();
        json.insert_str("IngestionJobId", &job.ingestion_job_id);
        json.insert_str("DataSourceId", &job.data_source_id);
        json.insert_str("KnowledgeBaseId", &job.knowledge_base_id);
        json.insert_str("Status", &job.status);
        json.insert("StartedAt", JsonValue::Str(job.started_at.display_text()));
        json.insert("UpdatedAt", JsonValue::Str(job.updated_at.display_text()));
        JsonValue::Object(json)
    }

    /// The JSON object of an ingestion job in detail; failure reasons only when there are some.
    pub fn ingestion_job_details_to_json(&self, job: &IngestionJob) -> (v: JsonValue)
        ensures
            v.view() == ingestion_job_details_json(*job),
    {
        let mut json = JsonObject::new();
        json.insert_str("IngestionJobId", &job.ingestion_job_id);
        json.insert_str("DataSourceId", &job.data_source_id);
        json.insert_str("KnowledgeBaseId", &job.knowledge_base_id);
        json.insert_str("Status", &job.status);
        json.insert("StartedAt", JsonValue::Str(job.started_at.display_text()));
        json.insert("UpdatedAt", JsonValue::Str(job.updated_at.display_text()));
        if let Some(v) = &job.failure_reasons {
            if v.len() > 0 {
                json.insert("FailureReasons", strs_value(v));
            }
        }
        JsonValue::Object(json)
    }

    /// The JSON object of a listed flow alias.
    pub fn flow_alias_to_json(&self, alias: &FlowAliasSummary) -> (v: JsonValue)
        ensures
            v.view() == flow_alias_json(*alias),
    {
        let mut json = JsonObject::new();
        json.insert_str("Id", &alias.id);
        json.insert_str("Name", &alias.name);
        json.insert_str("FlowId", &alias.flow_id);
        json.insert_opt_str("Description", &alias.description);
        json.insert("CreatedAt", JsonValue::Str(alias.created_at.display_text()));
        json.insert("UpdatedAt", JsonValue::Str(alias.updated_at.display_text()));
        JsonValue::Object(json)
    }

    /// The JSON object of a flow alias in detail.
    pub fn flow_alias_details_to_json(&self, alias: &GetFlowAliasOutput) -> (v: JsonValue)
        ensures
            v.view() == flow_alias_details_json(*alias),
    {
        let mut json = JsonObject::new();
        json.insert_str("Id", &alias.id);
        json.insert_str("Arn", &alias.arn);
        json.insert_str("Name", &alias.name);
        json.insert_str("FlowId", &alias.flow_id);
        json.insert("CreatedAt", JsonValue::Str(alias.created_at.display_text()));
        json.insert("UpdatedAt", JsonValue::Str(alias.updated_at.display_text()));
        JsonValue::Object(json)
    }

}

impl<C> BedrockAgentService<C> {
    /// The agent `agent_id` from what `GetAgent` answered, or the error that names it.
    pub fn describe_agent(&self, agent: &Option<Agent>, agent_id: &str) -> (r: Result<JsonValue, String>)
        ensures
            match *agent {
                Some(x) => r matches Ok(v) && v.view() == agent_details_json(x),
                None => r matches Err(e) && e@ == "Agent "@ + agent_id@ + " not found"@,
            },
    {
        match agent {
            Some(x) => Ok(self.agent_details_to_json(x)),
            None => {
                let mut text = concat_text("Agent ", agent_id);
                text.append(" not found");
                Err(text)
            },
        }
    }

    /// The knowledge base `knowledge_base_id` from what `GetKnowledgeBase` answered, or the error that names it.
    pub fn describe_knowledge_base(&self, knowledge_base: &Option<KnowledgeBase>, knowledge_base_id: &str) -> (r: Result<JsonValue, String>)
        ensures
            match *knowledge_base {
                Some(x) => r matches Ok(v) && v.view() == knowledge_base_details_json(x),
                None => r matches Err(e) && e@ == "Knowledge base "@ + knowledge_base_id@ + " not found"@,
            },
    {
        match knowledge_base {
            Some(x) => Ok(self.knowledge_base_details_to_json(x)),
            None => {
                let mut text = concat_text("Knowledge base ", knowledge_base_id);
                text.append(" not found");
                Err(text)
            },
        }
    }

    /// The agent alias `alias_id` from what `GetAgentAlias` answered, or the error that names it.
    pub fn describe_agent_alias(&self, agent_alias: &Option<AgentAlias>, alias_id: &str) -> (r: Result<JsonValue, String>)
        ensures
            match *agent_alias {
                Some(x) => r matches Ok(v) && v.view() == agent_alias_details_json(x),
                None => r matches Err(e) && e@ == "Agent alias "@ + alias_id@ + " not found"@,
            },
    {
        match agent_alias {
            Some(x) => Ok(self.agent_alias_details_to_json(x)),
            None => {
                let mut text = concat_text("Agent alias ", alias_id);
                text.append(" not found");
                Err(text)
            },
        }
    }

    /// The action group `action_group_id` from what `GetAgentActionGroup` answered, or the error that names it.
    pub fn describe_agent_action_group(&self, action_group: &Option<AgentActionGroup>, action_group_id: &str) -> (r: Result<JsonValue, String>)
        ensures
            match *action_group {
                Some(x) => r matches Ok(v) && v.view() == action_group_details_json(x),
                None => r matches Err(e) && e@ == "Action group "@ + action_group_id@ + " not found"@,
            },
    {
        match action_group {
            Some(x) => Ok(self.action_group_details_to_json(x)),
            None => {
                let mut text = concat_text("Action group ", action_group_id);
                text.append(" not found");
                Err(text)
            },
        }
    }

    /// The data source `data_source_id` from what `GetDataSource` answered, or the error that names it.
    pub fn describe_data_source(&self, data_source: &Option<DataSource>, data_source_id: &str) -> (r: Result<JsonValue, String>)
        ensures
            match *data_source {
                Some(x) => r matches Ok(v) && v.view() == data_source_details_json(x),
                None => r matches Err(e) && e@ == "Data source "@ + data_source_id@ + " not found"@,
            },
    {
        match data_source {
            Some(x) => Ok(self.data_source_details_to_json(x)),
            None => {
                let mut text = concat_text("Data source ", data_source_id);
                text.append(" not found");
                Err(text)
            },
        }
    }

    /// The ingestion job `ingestion_job_id` from what `GetIngestionJob` answered, or the error that names it.
    pub fn describe_ingestion_job(&self, job: &Option<IngestionJob>, ingestion_job_id: &str) -> (r: Result<JsonValue, String>)
        ensures
            match *job {
                Some(x) => r matches Ok(v) && v.view() == ingestion_job_details_json(x),
                None => r matches Err(e) && e@ == "Ingestion job "@ + ingestion_job_id@ + " not found"@,
            },
    {
        match job {
            Some(x) => Ok(self.ingestion_job_details_to_json(x)),
            None => {
                let mut text = concat_text("Ingestion job ", ingestion_job_id);
                text.append(" not found");
                Err(text)
            },
        }
    }

}


// ----- each reported field under its own key -----

/// What tells the keys of `agent_json` apart: their lengths, and a letter where two have the same length.
proof fn lemma_agent_json_keys_differ()
    ensures
        "AgentId"@.len() == 7,
        "AgentName"@.len() == 9 && "AgentName"@[0] == 'A',
        "AgentStatus"@.len() == 11 && "AgentStatus"@[0] == 'A',
        "Description"@.len() == 11 && "Description"@[0] == 'D',
        "LatestAgentVersion"@.len() == 18,
        "UpdatedAt"@.len() == 9 && "UpdatedAt"@[0] == 'U',
{
    reveal_strlit("AgentId");
    reveal_strlit("AgentName");
    reveal_strlit("AgentStatus");
    reveal_strlit("Description");
    reveal_strlit("LatestAgentVersion");
    reveal_strlit("UpdatedAt");
}

#[verifier::spinoff_prover]
#[verifier::rlimit(30)]
proof fn lemma_agent_json_fields_0(agent: AgentSummary)
    ensures
        agent_json(agent) is Object,
        ({
            let m = agent_json(agent)->Object_0;
            &&& agent.description is None ==> !m.contains_key("Description"@)
            &&& agent.description is Some ==> m.contains_key("Description"@) && m["Description"@] == JsonView::Str(agent.description->0@)
            &&& agent.latest_agent_version is None ==> !m.contains_key("LatestAgentVersion"@)
            &&& agent.latest_agent_version is Some ==> m.contains_key("LatestAgentVersion"@) && m["LatestAgentVersion"@] == JsonView::Str(agent.latest_agent_version->0@)
        }),
{
    lemma_agent_json_keys_differ();
}

/// The object of a agent summary holds each reported field of it under its own key, and such a key is missing exactly when AWS did not report the field.
pub proof fn law_agent_fields(agent: AgentSummary)
    ensures
        agent_json(agent) is Object,
        ({
            let m = agent_json(agent)->Object_0;
            &&& agent.description is None ==> !m.contains_key("Description"@)
            &&& agent.description is Some ==> m.contains_key("Description"@) && m["Description"@] == JsonView::Str(agent.description->0@)
            &&& agent.latest_agent_version is None ==> !m.contains_key("LatestAgentVersion"@)
            &&& agent.latest_agent_version is Some ==> m.contains_key("LatestAgentVersion"@) && m["LatestAgentVersion"@] == JsonView::Str(agent.latest_agent_version->0@)
        }),
{
    lemma_agent_json_fields_0(agent);
}

/// What tells the keys of `agent_details_json` apart: their lengths, and a letter where two have the same length.
proof fn lemma_agent_details_json_keys_differ()
    ensures
        "AgentArn"@.len() == 8,
        "AgentId"@.len() == 7,
        "AgentName"@.len() == 9 && "AgentName"@[0] == 'A',
        "AgentResourceRoleArn"@.len() == 20,
        "AgentStatus"@.len() == 11 && "AgentStatus"@[0] == 'A',
        "CreatedAt"@.len() == 9 && "CreatedAt"@[0] == 'C',
        "Description"@.len() == 11 && "Description"@[0] == 'D',
        "FoundationModel"@.len() == 15,
        "IdleSessionTtlInSeconds"@.len() == 23,
        "Instruction"@.len() == 11 && "Instruction"@[0] == 'I',
        "PreparedAt"@.len() == 10,
        "UpdatedAt"@.len() == 9 && "UpdatedAt"@[0] == 'U',
{
    reveal_strlit("AgentArn");
    reveal_strlit("AgentId");
    reveal_strlit("AgentName");
    reveal_strlit("AgentResourceRoleArn");
    reveal_strlit("AgentStatus");
    reveal_strlit("CreatedAt");
    reveal_strlit("Description");
    reveal_strlit("FoundationModel");
    reveal_strlit("IdleSessionTtlInSeconds");
    reveal_strlit("Instruction");
    reveal_strlit("PreparedAt");
    reveal_strlit("UpdatedAt");
}

#[verifier::spinoff_prover]
#[verifier::rlimit(30)]
proof fn lemma_agent_details_json_fields_0(agent: Agent)
    ensures
        agent_details_json(agent) is Object,
        ({
            let m = agent_details_json(agent)->Object_0;
            &&& agent.description is None ==> !m.contains_key("Description"@)
            &&& agent.description is Some ==> m.contains_key("Description"@) && m["Description"@] == JsonView::Str(agent.description->0@)
            &&& agent.foundation_model is None ==> !m.contains_key("FoundationModel"@)
            &&& agent.foundation_model is Some ==> m.contains_key("FoundationModel"@) && m["FoundationModel"@] == JsonView::Str(agent.foundation_model->0@)
            &&& agent.instruction is None ==> !m.contains_key("Instruction"@)
            &&& agent.instruction is Some ==> m.contains_key("Instruction"@) && m["Instruction"@] == JsonView::Str(agent.instruction->0@)
        }),
{
    lemma_agent_details_json_keys_differ();
}

#[verifier::spinoff_prover]
#[verifier::rlimit(30)]
proof fn lemma_agent_details_json_fields_1(agent: Agent)
    ensures
        agent_details_json(agent) is Object,
        ({
            let m = agent_details_json(agent)->Object_0;
            &&& agent.prepared_at is None ==> !m.contains_key("PreparedAt"@)
            &&& agent.prepared_at is Some ==> m.contains_key("PreparedAt"@) && m["PreparedAt"@] == ts_json(agent.prepared_at->0)
        }),
{
    lemma_agent_details_json_keys_differ();
}

/// The object of a agent holds each reported field of it under its own key, and such a key is missing exactly when AWS did not report the field.
pub proof fn law_agent_details_fields(agent: Agent)
    ensures
        agent_details_json(agent) is Object,
        ({
            let m = agent_details_json(agent)->Object_0;
            &&& agent.description is None ==> !m.contains_key("Description"@)
            &&& agent.description is Some ==> m.contains_key("Description"@) && m["Description"@] == JsonView::Str(agent.description->0@)
            &&& agent.foundation_model is None ==> !m.contains_key("FoundationModel"@)
            &&& agent.foundation_model is Some ==> m.contains_key("FoundationModel"@) && m["FoundationModel"@] == JsonView::Str(agent.foundation_model->0@)
            &&& agent.instruction is None ==> !m.contains_key("Instruction"@)
            &&& agent.instruction is Some ==> m.contains_key("Instruction"@) && m["Instruction"@] == JsonView::Str(agent.instruction->0@)
            &&& agent.prepared_at is None ==> !m.contains_key("PreparedAt"@)
            &&& agent.prepared_at is Some ==> m.contains_key("PreparedAt"@) && m["PreparedAt"@] == ts_json(agent.prepared_at->0)
        }),
{
    lemma_agent_details_json_fields_0(agent);
    lemma_agent_details_json_fields_1(agent);
}

} // verus!

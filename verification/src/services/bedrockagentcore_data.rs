//! Amazon Bedrock AgentCore memory records, events and sessions as JSON.
use crate::json::{opt_str_json, str_json, strs_json, strs_value, with_opt, JsonObject, JsonValue, JsonView};
use crate::timestamp::{opt_rfc_json, rfc_json, Timestamp};
use crate::json::{double_json, double_value};
use std::sync::Arc;
use vstd::prelude::*;

verus! {

/// A memory record as `ListMemoryRecords` reports it.
pub struct MemoryRecordSummary {
    pub memory_record_id: String,
    pub memory_strategy_id: String,
    pub namespaces: Vec<String>,
    pub created_at: Timestamp,
    /// The relevance score, as the bits of its double.
    pub score: Option<u64>,
}

/// An event of a memory as `ListEvents` reports it.
pub struct Event {
    pub event_id: String,
    pub memory_id: String,
    pub actor_id: String,
    pub session_id: String,
    pub event_timestamp: Timestamp,
}

/// A browser session as `ListBrowserSessions` reports it; its status holds the AWS name.
pub struct BrowserSessionSummary {
    pub session_id: String,
    pub browser_identifier: String,
    pub name: Option<String>,
    pub status: String,
    pub created_at: Timestamp,
    pub last_updated_at: Option<Timestamp>,
}

/// A code interpreter session as `ListCodeInterpreterSessions` reports it; its status holds the AWS name.
pub struct CodeInterpreterSessionSummary {
    pub session_id: String,
    pub code_interpreter_identifier: String,
    pub name: Option<String>,
    pub status: String,
    pub created_at: Timestamp,
    pub last_updated_at: Option<Timestamp>,
}

/// Reads Amazon Bedrock AgentCore memory records, events and sessions through a credential coordinator `C`.
pub struct BedrockAgentCoreDataService<C> {
    credential_coordinator: Arc<C>,
}

/// The JSON object of a memory record of the memory `parent_memory_id`; a score that is no finite number is 0.
pub open spec fn memory_record_json(parent_memory_id: String, record: MemoryRecordSummary) -> JsonView {
    let m = Map::<Seq<char>, JsonView>::empty();
    let m = m.insert("MemoryRecordId"@, str_json(record.memory_record_id));
    let m = m.insert("ParentMemoryId"@, str_json(parent_memory_id));
    let m = m.insert("MemoryStrategyId"@, str_json(record.memory_strategy_id));
    let m = m.insert("Namespaces"@, strs_json(record.namespaces@));
    let m = m.insert("CreatedAt"@, rfc_json(record.created_at));
    let m = match record.score { Some(b) => m.insert("Score"@, double_json(b)), None => m };
    JsonView::Object(m)
}

/// The JSON object of a memory event; its time in RFC 3339, empty where that format has no text for it.
pub open spec fn event_json(event: Event) -> JsonView {
    let m = Map::<Seq<char>, JsonView>::empty();
    let m = m.insert("EventId"@, str_json(event.event_id));
    let m = m.insert("MemoryId"@, str_json(event.memory_id));
    let m = m.insert("ActorId"@, str_json(event.actor_id));
    let m = m.insert("SessionId"@, str_json(event.session_id));
    let m = m.insert("EventTimestamp"@, rfc_json(event.event_timestamp));
    JsonView::Object(m)
}

/// The JSON object of a session of the browser `parent_browser_id`.
pub open spec fn browser_session_json(parent_browser_id: String, session: BrowserSessionSummary) -> JsonView {
    let m = Map::<Seq<char>, JsonView>::empty();
    let m = m.insert("SessionId"@, str_json(session.session_id));
    let m = m.insert("ParentBrowserId"@, str_json(parent_browser_id));
    let m = m.insert("BrowserIdentifier"@, str_json(session.browser_identifier));
    let m = with_opt(m, "Name"@, opt_str_json(session.name));
    let m = m.insert("Status"@, str_json(session.status));
    let m = m.insert("CreatedAt"@, rfc_json(session.created_at));
    let m = with_opt(m, "LastUpdatedAt"@, opt_rfc_json(session.last_updated_at));
    JsonView::Object(m)
}

/// The JSON object of a session of the code interpreter `parent_interpreter_id`.
pub open spec fn code_interpreter_session_json(parent_interpreter_id: String, session: CodeInterpreterSessionSummary) -> JsonView {
    let m = Map::<Seq<char>, JsonView>::empty();
    let m = m.insert("SessionId"@, str_json(session.session_id));
    let m = m.insert("ParentCodeInterpreterId"@, str_json(parent_interpreter_id));
    let m = m.insert("CodeInterpreterIdentifier"@, str_json(session.code_interpreter_identifier));
    let m = with_opt(m, "Name"@, opt_str_json(session.name));
    let m = m.insert("Status"@, str_json(session.status));
    let m = m.insert("CreatedAt"@, rfc_json(session.created_at));
    let m = with_opt(m, "LastUpdatedAt"@, opt_rfc_json(session.last_updated_at));
    JsonView::Object(m)
}

impl<C> BedrockAgentCoreDataService<C> {
    /// The coordinator that the service was made with.
    pub closed spec fn coordinator(&self) -> Arc<C> {
        self.credential_coordinator
    }

    /// A service that obtains its AWS configurations from `credential_coordinator`.
    pub fn new(credential_coordinator: Arc<C>) -> (s: Self)
        ensures
            s.coordinator() == credential_coordinator,
    {
        Self { credential_coordinator }
    }

    /// The coordinator that the service was made with.
    pub fn credential_coordinator(&self) -> (c: &Arc<C>)
        ensures
            *c == self.coordinator(),
    {
        &self.credential_coordinator
    }

    /// The JSON object of a memory record of the memory `parent_memory_id`; a score that is no finite number is 0.
    pub fn memory_record_to_json(&self, parent_memory_id: &String, record: &MemoryRecordSummary) -> (v: JsonValue)
        ensures
            v.view() == memory_record_json(*parent_memory_id, *record),
    {
        let mut json = JsonObject::new();
        json.insert_str("MemoryRecordId", &record.memory_record_id);
        json.insert_str("ParentMemoryId", parent_memory_id);
        json.insert_str("MemoryStrategyId", &record.memory_strategy_id);
        json.insert("Namespaces", strs_value(&record.namespaces));
        json.insert("CreatedAt", JsonValue::Str(record.created_at.rfc3339_or_empty()));
        if let Some(b) = record.score {
            json.insert("Score", double_value(b));
        }
        JsonValue::Object(json)
    }

    /// The JSON object of a memory event; its time in RFC 3339, empty where that format has no text for it.
    pub fn event_to_json(&self, event: &Event) -> (v: JsonValue)
        ensures
            v.view() == event_json(*event),
    {
        let mut json = JsonObject::new();
        json.insert_str("EventId", &event.event_id);
        json.insert_str("MemoryId", &event.memory_id);
        json.insert_str("ActorId", &event.actor_id);
        json.insert_str("SessionId", &event.session_id);
        json.insert("EventTimestamp", JsonValue::Str(event.event_timestamp.rfc3339_or_empty()));
        JsonValue::Object(json)
    }

    /// The JSON object of a session of the browser `parent_browser_id`.
    pub fn browser_session_to_json(&self, parent_browser_id: &String, session: &BrowserSessionSummary) -> (v: JsonValue)
        ensures
            v.view() == browser_session_json(*parent_browser_id, *session),
    {
        let mut json = JsonObject::new();
        json.insert_str("SessionId", &session.session_id);
        json.insert_str("ParentBrowserId", parent_browser_id);
        json.insert_str("BrowserIdentifier", &session.browser_identifier);
        json.insert_opt_str("Name", &session.name);
        json.insert_str("Status", &session.status);
        json.insert("CreatedAt", JsonValue::Str(session.created_at.rfc3339_or_empty()));
        json.insert_opt_rfc("LastUpdatedAt", &session.last_updated_at);
        JsonValue::Object(json)
    }

    /// The JSON object of a session of the code interpreter `parent_interpreter_id`.
    pub fn code_interpreter_session_to_json(&self, parent_interpreter_id: &String, session: &CodeInterpreterSessionSummary) -> (v: JsonValue)
        ensures
            v.view() == code_interpreter_session_json(*parent_interpreter_id, *session),
    {
        let mut json = JsonObject::new();
        json.insert_str("SessionId", &session.session_id);
        json.insert_str("ParentCodeInterpreterId", parent_interpreter_id);
        json.insert_str("CodeInterpreterIdentifier", &session.code_interpreter_identifier);
        json.insert_opt_str("Name", &session.name);
        json.insert_str("Status", &session.status);
        json.insert("CreatedAt", JsonValue::Str(session.created_at.rfc3339_or_empty()));
        json.insert_opt_rfc("LastUpdatedAt", &session.last_updated_at);
        JsonValue::Object(json)
    }

}

} // verus!

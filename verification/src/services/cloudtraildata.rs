//! CloudTrail Lake event data stores as JSON.
use crate::json::{str_json, text_value, JsonObject, JsonValue, JsonView};
use std::sync::Arc;
use vstd::prelude::*;

verus! {

/// Reads CloudTrail Lake event data stores through a credential coordinator `C`.
pub struct CloudTrailDataService<C> {
    credential_coordinator: Arc<C>,
}

/// What is reported of the event data store `event_data_store_arn`: its ARN, under `EventDataStoreArn` and `ResourceId`, with a fixed name and status `ENABLED`.
pub open spec fn event_data_store_json(event_data_store_arn: String) -> JsonView {
    let m = Map::<Seq<char>, JsonView>::empty();
    let m = m.insert("EventDataStoreArn"@, str_json(event_data_store_arn));
    let m = m.insert("ResourceId"@, str_json(event_data_store_arn));
    let m = m.insert("Name"@, JsonView::Str("Event Data Store"@));
    let m = m.insert("Status"@, JsonView::Str("ENABLED"@));
    JsonView::Object(m)
}

/// A full description of an event data store with the default settings, created and updated at `now` (an RFC 3339 text).
pub open spec fn mock_event_data_store_json(arn: String, name: String, now: String) -> JsonView {
    let m = Map::<Seq<char>, JsonView>::empty();
    let m = m.insert("EventDataStoreArn"@, str_json(arn));
    let m = m.insert("ResourceId"@, str_json(arn));
    let m = m.insert("Name"@, str_json(name));
    let m = m.insert("Status"@, JsonView::Str("ENABLED"@));
    let m = m.insert("AdvancedEventSelectors"@, JsonView::Array(Seq::empty()));
    let m = m.insert("MultiRegionEnabled"@, JsonView::Bool(true));
    let m = m.insert("OrganizationEnabled"@, JsonView::Bool(false));
    let m = m.insert("RetentionPeriod"@, JsonView::Number(2557));
    let m = m.insert("TerminationProtectionEnabled"@, JsonView::Bool(false));
    let m = m.insert("CreatedTimestamp"@, str_json(now));
    let m = m.insert("UpdatedTimestamp"@, str_json(now));
    JsonView::Object(m)
}

impl<C> CloudTrailDataService<C> {
    /// The coordinator that the service was made with.
    pub closed spec fn coordinator(&self) -> Arc<C> {
        self.credential_coordinator
    }

    /// A service that obtains its AWS configurations from `credential_coordinator`.
    pub fn new(credential_coordinator: Arc<C>) -> (s: Self)
        ensures
            s.coordinator() == credential_coordinator,
    {
        Self { credential_coordinator }
    }

    /// The coordinator that the service was made with.
    pub fn credential_coordinator(&self) -> (c: &Arc<C>)
        ensures
            *c == self.coordinator(),
    {
        &self.credential_coordinator
    }

    /// What is reported of the event data store `event_data_store_arn`: its ARN, under `EventDataStoreArn` and `ResourceId`, with a fixed name and status `ENABLED`.
    pub fn describe_event_data_store(&self, event_data_store_arn: &String) -> (v: JsonValue)
        ensures
            v.view() == event_data_store_json(*event_data_store_arn),
    {
        let mut json = JsonObject::new();
        json.insert_str("EventDataStoreArn", event_data_store_arn);
        json.insert_str("ResourceId", event_data_store_arn);
        json.insert("Name", text_value("Event Data Store"));
        json.insert("Status", text_value("ENABLED"));
        JsonValue::Object(json)
    }

    /// A full description of an event data store with the default settings, created and updated at `now` (an RFC 3339 text).
    pub fn create_mock_event_data_store(&self, arn: &String, name: &String, now: &String) -> (v: JsonValue)
        ensures
            v.view() == mock_event_data_store_json(*arn, *name, *now),
    {
        let mut json = JsonObject::new();
        json.insert_str("EventDataStoreArn", arn);
        json.insert_str("ResourceId", arn);
        json.insert_str("Name", name);
        json.insert("Status", text_value("ENABLED"));
        json.insert("AdvancedEventSelectors", JsonValue::Array(Vec::new()));
        json.insert_bool("MultiRegionEnabled", true);
        json.insert_bool("OrganizationEnabled", false);
        json.insert_int("RetentionPeriod", 2557);
        json.insert_bool("TerminationProtectionEnabled", false);
        json.insert_str("CreatedTimestamp", now);
        json.insert_str("UpdatedTimestamp", now);
        JsonValue::Object(json)
    }

}

/// The summary of a `PutAuditEvents` answer: how many events were taken and
/// how many refused, with an empty list of failed entries.
pub open spec fn put_events_summary_json(successful: usize, failed: usize) -> JsonView {
    let m = Map::<Seq<char>, JsonView>::empty();
    let m = m.insert("Successful"@, JsonView::Number(successful as int));
    let m = m.insert("Failed"@, JsonView::Number(failed as int));
    let m = m.insert("FailedEntries"@, JsonView::Array(Seq::empty()));
    JsonView::Object(m)
}

impl<C> CloudTrailDataService<C> {
    /// The event data stores listed for an account: the ingestion API has no
    /// listing call, so there are none.
    pub fn list_event_data_stores(&self) -> (r: Vec<JsonValue>)
        ensures
            r@.len() == 0,
    {
        Vec::new()
    }

    /// The summary of a `PutAuditEvents` answer with `successful` events taken
    /// and `failed` refused.
    pub fn put_events_summary(&self, successful: usize, failed: usize) -> (v: JsonValue)
        ensures
            v.view() == put_events_summary_json(successful, failed),
    {
        let mut json = JsonObject::new();
        json.insert("Successful", JsonValue::Number(successful as i128));
        json.insert("Failed", JsonValue::Number(failed as i128));
        json.insert("FailedEntries", JsonValue::Array(Vec::new()));
        JsonValue::Object(json)
    }
}

} // verus!

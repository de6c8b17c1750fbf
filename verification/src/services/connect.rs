//! Amazon Connect instances as JSON.
use crate::json::{array_of, opt_str_json, str_json, with_opt, items_view, lemma_items_view_push, JsonObject, JsonValue, JsonView};
use crate::timestamp::{ts_json, opt_ts_json, Timestamp};
use crate::text::concat_text;
use std::sync::Arc;
use vstd::prelude::*;

verus! {

/// An instance as `ListInstances` reports it; enumerations hold their AWS names.
pub struct InstanceSummary {
    pub id: Option<String>,
    pub arn: Option<String>,
    pub identity_management_type: Option<String>,
    pub instance_alias: Option<String>,
    pub created_time: Option<Timestamp>,
    pub service_role: Option<String>,
    pub instance_status: Option<String>,
    pub inbound_calls_enabled: Option<bool>,
    pub outbound_calls_enabled: Option<bool>,
    pub instance_access_url: Option<String>,
}

/// Why an instance is in its status.
pub struct InstanceStatusReason {
    pub message: Option<String>,
}

/// An instance as `DescribeInstance` reports it; enumerations hold their AWS names.
pub struct Instance {
    pub id: Option<String>,
    pub arn: Option<String>,
    pub identity_management_type: Option<String>,
    pub instance_alias: Option<String>,
    pub created_time: Option<Timestamp>,
    pub service_role: Option<String>,
    pub instance_status: Option<String>,
    pub inbound_calls_enabled: Option<bool>,
    pub outbound_calls_enabled: Option<bool>,
    pub status_reason: Option<InstanceStatusReason>,
    pub instance_access_url: Option<String>,
    pub tags: Option<Vec<(String, String)>>,
}

/// Reads Amazon Connect instances through a credential coordinator `C`.
pub struct ConnectService<C> {
    credential_coordinator: Arc<C>,
}

/// The JSON object of a `InstanceStatusReason`.
pub open spec fn status_reason_json(x: InstanceStatusReason) -> JsonView {
    let m = Map::<Seq<char>, JsonView>::empty();
    let m = with_opt(m, "Message"@, opt_str_json(x.message));
    JsonView::Object(m)
}

fn status_reason_to_json(x: &InstanceStatusReason) -> (v: JsonValue)
    ensures
        v.view() == status_reason_json(*x),
{
    let mut json = JsonObject::new();
    json.insert_opt_str("Message", &x.message);
    JsonValue::Object(json)
}

/// The JSON object of a listed instance; a call setting that is not reported is `false`.
pub open spec fn instance_summary_json(instance_summary: InstanceSummary) -> JsonView {
    let m = Map::<Seq<char>, JsonView>::empty();
    let m = with_opt(m, "Id"@, opt_str_json(instance_summary.id));
    let m = with_opt(m, "ResourceId"@, opt_str_json(instance_summary.id));
    let m = with_opt(m, "Arn"@, opt_str_json(instance_summary.arn));
    let m = with_opt(m, "IdentityManagementType"@, opt_str_json(instance_summary.identity_management_type));
    let m = with_opt(m, "InstanceAlias"@, opt_str_json(instance_summary.instance_alias));
    let m = with_opt(m, "CreatedTime"@, opt_ts_json(instance_summary.created_time));
    let m = with_opt(m, "ServiceRole"@, opt_str_json(instance_summary.service_role));
    let m = with_opt(m, "InstanceStatus"@, opt_str_json(instance_summary.instance_status));
    let m = m.insert("InboundCallsEnabled"@, JsonView::Bool(match instance_summary.inbound_calls_enabled { Some(b) => b, None => false }));
    let m = m.insert("OutboundCallsEnabled"@, JsonView::Bool(match instance_summary.outbound_calls_enabled { Some(b) => b, None => false }));
    let m = with_opt(m, "InstanceAccessUrl"@, opt_str_json(instance_summary.instance_access_url));
    JsonView::Object(m)
}

/// The JSON object of a described instance: its status also under `Status`, its tags as `Key`/`Value` objects in the order given.
pub open spec fn instance_json(instance: Instance) -> JsonView {
    let m = Map::<Seq<char>, JsonView>::empty();
    let m = with_opt(m, "Id"@, opt_str_json(instance.id));
    let m = with_opt(m, "ResourceId"@, opt_str_json(instance.id));
    let m = with_opt(m, "Arn"@, opt_str_json(instance.arn));
    let m = with_opt(m, "IdentityManagementType"@, opt_str_json(instance.identity_management_type));
    let m = with_opt(m, "InstanceAlias"@, opt_str_json(instance.instance_alias));
    let m = with_opt(m, "CreatedTime"@, opt_ts_json(instance.created_time));
    let m = with_opt(m, "ServiceRole"@, opt_str_json(instance.service_role));
    let m = with_opt(m, "InstanceStatus"@, opt_str_json(instance.instance_status));
    let m = with_opt(m, "Status"@, opt_str_json(instance.instance_status));
    let m = m.insert("InboundCallsEnabled"@, JsonView::Bool(match instance.inbound_calls_enabled { Some(b) => b, None => false }));
    let m = m.insert("OutboundCallsEnabled"@, JsonView::Bool(match instance.outbound_calls_enabled { Some(b) => b, None => false }));
    let m = match instance.status_reason { Some(e) => m.insert("StatusReason"@, status_reason_json(e)), None => m };
    let m = with_opt(m, "InstanceAccessUrl"@, opt_str_json(instance.instance_access_url));
    let m = match instance.tags { Some(v) => if v@.len() > 0 { m.insert("Tags"@, JsonView::Array(v@.map_values(|p: (String, String)| tag_pair_json(p)))) } else { m }, None => m };
    JsonView::Object(m)
}

impl<C> ConnectService<C> {
    /// The coordinator that the service was made with.
    pub closed spec fn coordinator(&self) -> Arc<C> {
        self.credential_coordinator
    }

    /// A service that obtains its AWS configurations from `credential_coordinator`.
    pub fn new(credential_coordinator: Arc<C>) -> (s: Self)
        ensures
            s.coordinator() == credential_coordinator,
    {
        Self { credential_coordinator }
    }

    /// The coordinator that the service was made with.
    pub fn credential_coordinator(&self) -> (c: &Arc<C>)
        ensures
            *c == self.coordinator(),
    {
        &self.credential_coordinator
    }

    /// The JSON object of a listed instance; a call setting that is not reported is `false`.
    pub fn instance_summary_to_json(&self, instance_summary: &InstanceSummary) -> (v: JsonValue)
        ensures
            v.view() == instance_summary_json(*instance_summary),
    {
        let mut json = JsonObject::new();
        json.insert_opt_str("Id", &instance_summary.id);
        json.insert_opt_str("ResourceId", &instance_summary.id);
        json.insert_opt_str("Arn", &instance_summary.arn);
        json.insert_opt_str("IdentityManagementType", &instance_summary.identity_management_type);
        json.insert_opt_str("InstanceAlias", &instance_summary.instance_alias);
        json.insert_opt_ts("CreatedTime", &instance_summary.created_time);
        json.insert_opt_str("ServiceRole", &instance_summary.service_role);
        json.insert_opt_str("InstanceStatus", &instance_summary.instance_status);
        json.insert_bool("InboundCallsEnabled", match instance_summary.inbound_calls_enabled { Some(b) => b, None => false });
        json.insert_bool("OutboundCallsEnabled", match instance_summary.outbound_calls_enabled { Some(b) => b, None => false });
        json.insert_opt_str("InstanceAccessUrl", &instance_summary.instance_access_url);
        JsonValue::Object(json)
    }

    /// The JSON object of a described instance: its status also under `Status`, its tags as `Key`/`Value` objects in the order given.
    pub fn instance_to_json(&self, instance: &Instance) -> (v: JsonValue)
        ensures
            v.view() == instance_json(*instance),
    {
        let mut json = JsonObject::new();
        json.insert_opt_str("Id", &instance.id);
        json.insert_opt_str("ResourceId", &instance.id);
        json.insert_opt_str("Arn", &instance.arn);
        json.insert_opt_str("IdentityManagementType", &instance.identity_management_type);
        json.insert_opt_str("InstanceAlias", &instance.instance_alias);
        json.insert_opt_ts("CreatedTime", &instance.created_time);
        json.insert_opt_str("ServiceRole", &instance.service_role);
        json.insert_opt_str("InstanceStatus", &instance.instance_status);
        json.insert_opt_str("Status", &instance.instance_status);
        json.insert_bool("InboundCallsEnabled", match instance.inbound_calls_enabled { Some(b) => b, None => false });
        json.insert_bool("OutboundCallsEnabled", match instance.outbound_calls_enabled { Some(b) => b, None => false });
        if let Some(e) = &instance.status_reason {
            json.insert("StatusReason", status_reason_to_json(e));
        }
        json.insert_opt_str("InstanceAccessUrl", &instance.instance_access_url);
        if let Some(v) = &instance.tags {
            if v.len() > 0 {
                json.insert("Tags", array_of(v, tag_pair_to_json, Ghost(|p: (String, String)| tag_pair_json(p))));
            }
        }
        JsonValue::Object(json)
    }

}

/// A tag as an object with `Key` and `Value`.
pub open spec fn tag_pair_json(p: (String, String)) -> JsonView {
    JsonView::Object(Map::empty().insert("Key"@, str_json(p.0)).insert("Value"@, str_json(p.1)))
}

fn tag_pair_to_json(p: &(String, String)) -> (v: JsonValue)
    ensures
        v.view() == tag_pair_json(*p),
{
    let mut json = JsonObject::new();
    json.insert_str("Key", &p.0);
    json.insert_str("Value", &p.1);
    JsonValue::Object(json)
}

/// The text of the error for an instance that was not answered.
pub open spec fn instance_not_found_text(id: Seq<char>) -> Seq<char> {
    "Connect instance "@ + id + " not found"@
}

impl<C> ConnectService<C> {
    /// The instances of one page of `ListInstances`, in order.
    pub fn instances_of_page(&self, summaries: &Option<Vec<InstanceSummary>>) -> (r: Vec<JsonValue>)
        ensures
            items_view(r@) == match *summaries {
                Some(v) => v@.map_values(|x: InstanceSummary| instance_summary_json(x)),
                None => Seq::empty(),
            },
    {
        let mut out: Vec<JsonValue> = Vec::new();
        if let Some(list) = summaries {
            let mut i: usize = 0;
            while i < list.len()
                invariant
                    i <= list@.len(),
                    items_view(out@) =~= list@.take(i as int).map_values(|x: InstanceSummary| instance_summary_json(x)),
                decreases list@.len() - i,
            {
                let ghost before = out@;
                let x = self.instance_summary_to_json(&list[i]);
                out.push(x);
                proof {
                    lemma_items_view_push(before, x);
                    assert(list@.take(i + 1) =~= list@.take(i as int).push(list@[i as int]));
                }
                i = i + 1;
            }
            assert(list@.take(list@.len() as int) =~= list@);
        } else {
            assert(items_view(out@) =~= Seq::<JsonView>::empty());
        }
        out
    }

    /// The instance `instance_id` from what `DescribeInstance` answered, or
    /// the error that names it.
    pub fn describe_instance(&self, instance: &Option<Instance>, instance_id: &str) -> (r: Result<JsonValue, String>)
        ensures
            match *instance {
                Some(x) => r matches Ok(v) && v.view() == instance_json(x),
                None => r matches Err(e) && e@ == instance_not_found_text(instance_id@),
            },
    {
        match instance {
            Some(x) => Ok(self.instance_to_json(x)),
            None => {
                let mut text = concat_text("Connect instance ", instance_id);
                text.append(" not found");
                Err(text)
            },
        }
    }
}


// ----- each reported field under its own key -----

/// What tells the keys of `instance_summary_json` apart: their lengths, and a letter where two have the same length.
proof fn lemma_instance_summary_json_keys_differ()
    ensures
        "Arn"@.len() == 3,
        "CreatedTime"@.len() == 11 && "CreatedTime"@[0] == 'C',
        "Id"@.len() == 2,
        "IdentityManagementType"@.len() == 22,
        "InboundCallsEnabled"@.len() == 19,
        "InstanceAccessUrl"@.len() == 17,
        "InstanceAlias"@.len() == 13,
        "InstanceStatus"@.len() == 14,
        "OutboundCallsEnabled"@.len() == 20,
        "ResourceId"@.len() == 10,
        "ServiceRole"@.len() == 11 && "ServiceRole"@[0] == 'S',
{
    reveal_strlit("Arn");
    reveal_strlit("CreatedTime");
    reveal_strlit("Id");
    reveal_strlit("IdentityManagementType");
    reveal_strlit("InboundCallsEnabled");
    reveal_strlit("InstanceAccessUrl");
    reveal_strlit("InstanceAlias");
    reveal_strlit("InstanceStatus");
    reveal_strlit("OutboundCallsEnabled");
    reveal_strlit("ResourceId");
    reveal_strlit("ServiceRole");
}

#[verifier::spinoff_prover]
#[verifier::rlimit(30)]
proof fn lemma_instance_summary_json_fields_0(instance_summary: InstanceSummary)
    ensures
        instance_summary_json(instance_summary) is Object,
        ({
            let m = instance_summary_json(instance_summary)->Object_0;
            &&& instance_summary.arn is None ==> !m.contains_key("Arn"@)
            &&& instance_summary.arn is Some ==> m.contains_key("Arn"@) && m["Arn"@] == JsonView::Str(instance_summary.arn->0@)
            &&& instance_summary.created_time is None ==> !m.contains_key("CreatedTime"@)
            &&& instance_summary.created_time is Some ==> m.contains_key("CreatedTime"@) && m["CreatedTime"@] == ts_json(instance_summary.created_time->0)
            &&& instance_summary.id is None ==> !m.contains_key("Id"@)
            &&& instance_summary.id is Some ==> m.contains_key("Id"@) && m["Id"@] == JsonView::Str(instance_summary.id->0@)
        }),
{
    lemma_instance_summary_json_keys_differ();
}

#[verifier::spinoff_prover]
#[verifier::rlimit(30)]
proof fn lemma_instance_summary_json_fields_1(instance_summary: InstanceSummary)
    ensures
        instance_summary_json(instance_summary) is Object,
        ({
            let m = instance_summary_json(instance_summary)->Object_0;
            &&& instance_summary.identity_management_type is None ==> !m.contains_key("IdentityManagementType"@)
            &&& instance_summary.identity_management_type is Some ==> m.contains_key("IdentityManagementType"@) && m["IdentityManagementType"@] == JsonView::Str(instance_summary.identity_management_type->0@)
            &&& instance_summary.instance_access_url is None ==> !m.contains_key("InstanceAccessUrl"@)
            &&& instance_summary.instance_access_url is Some ==> m.contains_key("InstanceAccessUrl"@) && m["InstanceAccessUrl"@] == JsonView::Str(instance_summary.instance_access_url->0@)
            &&& instance_summary.instance_alias is None ==> !m.contains_key("InstanceAlias"@)
            &&& instance_summary.instance_alias is Some ==> m.contains_key("InstanceAlias"@) && m["InstanceAlias"@] == JsonView::Str(instance_summary.instance_alias->0@)
        }),
{
    lemma_instance_summary_json_keys_differ();
}

#[verifier::spinoff_prover]
#[verifier::rlimit(30)]
proof fn lemma_instance_summary_json_fields_2(instance_summary: InstanceSummary)
    ensures
        instance_summary_json(instance_summary) is Object,
        ({
            let m = instance_summary_json(instance_summary)->Object_0;
            &&& instance_summary.instance_status is None ==> !m.contains_key("InstanceStatus"@)
            &&& instance_summary.instance_status is Some ==> m.contains_key("InstanceStatus"@) && m["InstanceStatus"@] == JsonView::Str(instance_summary.instance_status->0@)
            &&& instance_summary.id is None ==> !m.contains_key("ResourceId"@)
            &&& instance_summary.id is Some ==> m.contains_key("ResourceId"@) && m["ResourceId"@] == JsonView::Str(instance_summary.id->0@)
            &&& instance_summary.service_role is None ==> !m.contains_key("ServiceRole"@)
            &&& instance_summary.service_role is Some ==> m.contains_key("ServiceRole"@) && m["ServiceRole"@] == JsonView::Str(instance_summary.service_role->0@)
        }),
{
    lemma_instance_summary_json_keys_differ();
}

/// The object of a instance summary holds each reported field of it under its own key, and such a key is missing exactly when AWS did not report the field.
pub proof fn law_instance_summary_fields(instance_summary: InstanceSummary)
    ensures
        instance_summary_json(instance_summary) is Object,
        ({
            let m = instance_summary_json(instance_summary)->Object_0;
            &&& instance_summary.arn is None ==> !m.contains_key("Arn"@)
            &&& instance_summary.arn is Some ==> m.contains_key("Arn"@) && m["Arn"@] == JsonView::Str(instance_summary.arn->0@)
            &&& instance_summary.created_time is None ==> !m.contains_key("CreatedTime"@)
            &&& instance_summary.created_time is Some ==> m.contains_key("CreatedTime"@) && m["CreatedTime"@] == ts_json(instance_summary.created_time->0)
            &&& instance_summary.id is None ==> !m.contains_key("Id"@)
            &&& instance_summary.id is Some ==> m.contains_key("Id"@) && m["Id"@] == JsonView::Str(instance_summary.id->0@)
            &&& instance_summary.identity_management_type is None ==> !m.contains_key("IdentityManagementType"@)
            &&& instance_summary.identity_management_type is Some ==> m.contains_key("IdentityManagementType"@) && m["IdentityManagementType"@] == JsonView::Str(instance_summary.identity_management_type->0@)
            &&& instance_summary.instance_access_url is None ==> !m.contains_key("InstanceAccessUrl"@)
            &&& instance_summary.instance_access_url is Some ==> m.contains_key("InstanceAccessUrl"@) && m["InstanceAccessUrl"@] == JsonView::Str(instance_summary.instance_access_url->0@)
            &&& instance_summary.instance_alias is None ==> !m.contains_key("InstanceAlias"@)
            &&& instance_summary.instance_alias is Some ==> m.contains_key("InstanceAlias"@) && m["InstanceAlias"@] == JsonView::Str(instance_summary.instance_alias->0@)
            &&& instance_summary.instance_status is None ==> !m.contains_key("InstanceStatus"@)
            &&& instance_summary.instance_status is Some ==> m.contains_key("InstanceStatus"@) && m["InstanceStatus"@] == JsonView::Str(instance_summary.instance_status->0@)
            &&& instance_summary.id is None ==> !m.contains_key("ResourceId"@)
            &&& instance_summary.id is Some ==> m.contains_key("ResourceId"@) && m["ResourceId"@] == JsonView::Str(instance_summary.id->0@)
            &&& instance_summary.service_role is None ==> !m.contains_key("ServiceRole"@)
            &&& instance_summary.service_role is Some ==> m.contains_key("ServiceRole"@) && m["ServiceRole"@] == JsonView::Str(instance_summary.service_role->0@)
        }),
{
    lemma_instance_summary_json_fields_0(instance_summary);
    lemma_instance_summary_json_fields_1(instance_summary);
    lemma_instance_summary_json_fields_2(instance_summary);
}

} // verus!

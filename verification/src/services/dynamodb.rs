//! DynamoDB tables: their descriptions, point-in-time recovery, time to live
//! and tags, as JSON.
use crate::json::{
    array_of, opt_bool_json, opt_int_json, opt_str_json, opt_strs_json, opt_view, str_json,
    text_value, with_opt, note_value, note_view, JsonObject, JsonValue, JsonView,
};
use crate::text::{concat_text, contains, has_substring};
use crate::timestamp::{opt_ts_json, ts_json, Timestamp};
use std::sync::Arc;
use vstd::prelude::*;

verus! {

/// One attribute of a key and its role (`HASH` or `RANGE`).
pub struct KeySchemaElement {
    pub attribute_name: String,
    pub key_type: String,
}

/// An attribute and its scalar type.
pub struct AttributeDefinition {
    pub attribute_name: String,
    pub attribute_type: String,
}

/// How the table is billed.
pub struct BillingModeSummary {
    pub billing_mode: Option<String>,
    pub last_update_to_pay_per_request_date_time: Option<Timestamp>,
}

/// Provisioned read and write capacity.
pub struct ProvisionedThroughputDescription {
    pub read_capacity_units: Option<i64>,
    pub write_capacity_units: Option<i64>,
}

/// Which attributes an index copies.
pub struct Projection {
    pub projection_type: Option<String>,
    pub non_key_attributes: Option<Vec<String>>,
}

/// A global secondary index.
pub struct GlobalSecondaryIndexDescription {
    pub index_name: Option<String>,
    pub index_status: Option<String>,
    pub key_schema: Option<Vec<KeySchemaElement>>,
    pub projection: Option<Projection>,
}

/// A local secondary index.
pub struct LocalSecondaryIndexDescription {
    pub index_name: Option<String>,
    pub key_schema: Option<Vec<KeySchemaElement>>,
    pub projection: Option<Projection>,
}

/// Server-side encryption settings.
pub struct SseDescription {
    pub status: Option<String>,
    pub sse_type: Option<String>,
    pub kms_master_key_arn: Option<String>,
}

/// Change stream settings.
pub struct StreamSpecification {
    pub stream_enabled: bool,
    pub stream_view_type: Option<String>,
}

/// The table class.
pub struct TableClassSummary {
    pub table_class: Option<String>,
}

/// What `DescribeTable` reports of a table.
pub struct TableDescription {
    pub table_name: Option<String>,
    pub table_arn: Option<String>,
    pub table_status: Option<String>,
    pub creation_date_time: Option<Timestamp>,
    pub item_count: Option<i64>,
    pub table_size_bytes: Option<i64>,
    pub key_schema: Option<Vec<KeySchemaElement>>,
    pub attribute_definitions: Option<Vec<AttributeDefinition>>,
    pub billing_mode_summary: Option<BillingModeSummary>,
    pub provisioned_throughput: Option<ProvisionedThroughputDescription>,
    pub global_secondary_indexes: Option<Vec<GlobalSecondaryIndexDescription>>,
    pub local_secondary_indexes: Option<Vec<LocalSecondaryIndexDescription>>,
    pub sse_description: Option<SseDescription>,
    pub stream_specification: Option<StreamSpecification>,
    pub latest_stream_arn: Option<String>,
    pub table_class_summary: Option<TableClassSummary>,
    pub deletion_protection_enabled: Option<bool>,
}

/// Point-in-time recovery settings.
pub struct PointInTimeRecoveryDescription {
    pub point_in_time_recovery_status: Option<String>,
    pub earliest_restorable_date_time: Option<Timestamp>,
    pub latest_restorable_date_time: Option<Timestamp>,
}

/// What `DescribeContinuousBackups` reports of a table.
pub struct ContinuousBackupsDescription {
    pub continuous_backups_status: String,
    pub point_in_time_recovery_description: Option<PointInTimeRecoveryDescription>,
}

/// What `DescribeTimeToLive` reports of a table.
pub struct TimeToLiveDescription {
    pub time_to_live_status: Option<String>,
    pub attribute_name: Option<String>,
}

/// A tag of a resource.
pub struct Tag {
    pub key: String,
    pub value: String,
}

/// Reads DynamoDB tables through a credential coordinator `C`.
pub struct DynamoDBService<C> {
    credential_coordinator: Arc<C>,
}

// ----- models -----

/// `{"AttributeName": .., "KeyType": ..}`.
pub open spec fn key_schema_element_json(k: KeySchemaElement) -> JsonView {
    JsonView::Object(
        Map::empty().insert("AttributeName"@, str_json(k.attribute_name)).insert(
            "KeyType"@,
            str_json(k.key_type),
        ),
    )
}

/// `{"AttributeName": .., "AttributeType": ..}`.
pub open spec fn attribute_definition_json(a: AttributeDefinition) -> JsonView {
    JsonView::Object(
        Map::empty().insert("AttributeName"@, str_json(a.attribute_name)).insert(
            "AttributeType"@,
            str_json(a.attribute_type),
        ),
    )
}

/// A key schema as an array, when there is one.
pub open spec fn opt_key_schema_json(o: Option<Vec<KeySchemaElement>>) -> Option<JsonView> {
    match o {
        Some(v) => Some(JsonView::Array(v@.map_values(|k: KeySchemaElement| key_schema_element_json(k)))),
        None => None,
    }
}

/// The billing summary object.
pub open spec fn billing_mode_summary_json(b: BillingModeSummary) -> JsonView {
    let m = with_opt(Map::empty(), "BillingMode"@, opt_str_json(b.billing_mode));
    let m = with_opt(m, "LastUpdateToPayPerRequestDateTime"@, opt_ts_json(b.last_update_to_pay_per_request_date_time));
    JsonView::Object(m)
}

/// The provisioned capacities that are set.
pub open spec fn throughput_map(t: ProvisionedThroughputDescription) -> Map<Seq<char>, JsonView> {
    let m = with_opt(Map::empty(), "ReadCapacityUnits"@, opt_int_json(t.read_capacity_units));
    with_opt(m, "WriteCapacityUnits"@, opt_int_json(t.write_capacity_units))
}

/// The projection of a global index.
pub open spec fn projection_json(p: Projection) -> JsonView {
    let m = with_opt(Map::empty(), "ProjectionType"@, opt_str_json(p.projection_type));
    JsonView::Object(with_opt(m, "NonKeyAttributes"@, opt_strs_json(p.non_key_attributes)))
}

/// The projection of a local index: its type only.
pub open spec fn local_projection_json(p: Projection) -> JsonView {
    JsonView::Object(with_opt(Map::empty(), "ProjectionType"@, opt_str_json(p.projection_type)))
}

/// A global secondary index.
pub open spec fn gsi_json(g: GlobalSecondaryIndexDescription) -> JsonView {
    let m = with_opt(Map::empty(), "IndexName"@, opt_str_json(g.index_name));
    let m = with_opt(m, "IndexStatus"@, opt_str_json(g.index_status));
    let m = with_opt(m, "KeySchema"@, opt_key_schema_json(g.key_schema));
    let m = with_opt(
        m,
        "Projection"@,
        match g.projection {
            Some(p) => Some(projection_json(p)),
            None => None,
        },
    );
    JsonView::Object(m)
}

/// A local secondary index.
pub open spec fn lsi_json(l: LocalSecondaryIndexDescription) -> JsonView {
    let m = with_opt(Map::empty(), "IndexName"@, opt_str_json(l.index_name));
    let m = with_opt(m, "KeySchema"@, opt_key_schema_json(l.key_schema));
    let m = with_opt(
        m,
        "Projection"@,
        match l.projection {
            Some(p) => Some(local_projection_json(p)),
            None => None,
        },
    );
    JsonView::Object(m)
}

/// The encryption settings.
pub open spec fn sse_json(s: SseDescription) -> JsonView {
    let m = with_opt(Map::empty(), "Status"@, opt_str_json(s.status));
    let m = with_opt(m, "SSEType"@, opt_str_json(s.sse_type));
    JsonView::Object(with_opt(m, "KMSMasterKeyArn"@, opt_str_json(s.kms_master_key_arn)))
}

/// The stream settings.
pub open spec fn stream_json(s: StreamSpecification) -> JsonView {
    let m = Map::empty().insert("StreamEnabled"@, JsonView::Bool(s.stream_enabled));
    JsonView::Object(with_opt(m, "StreamViewType"@, opt_str_json(s.stream_view_type)))
}

/// The JSON object of a table description: every field that AWS reported,
/// under its DynamoDB name, with the name and status also under `Name` and
/// `Status`; the provisioned throughput only when a capacity is set, and the
/// table class only when the summary names one.
pub open spec fn table_json(t: TableDescription) -> JsonView {
    let m = with_opt(Map::empty(), "TableName"@, opt_str_json(t.table_name));
    let m = with_opt(m, "Name"@, opt_str_json(t.table_name));
    let m = with_opt(m, "TableArn"@, opt_str_json(t.table_arn));
    let m = with_opt(m, "TableStatus"@, opt_str_json(t.table_status));
    let m = with_opt(m, "Status"@, opt_str_json(t.table_status));
    let m = with_opt(m, "CreationDateTime"@, opt_ts_json(t.creation_date_time));
    let m = with_opt(m, "ItemCount"@, opt_int_json(t.item_count));
    let m = with_opt(m, "TableSizeBytes"@, opt_int_json(t.table_size_bytes));
    let m = with_opt(m, "KeySchema"@, opt_key_schema_json(t.key_schema));
    let m = with_opt(
        m,
        "AttributeDefinitions"@,
        match t.attribute_definitions {
            Some(v) => Some(JsonView::Array(v@.map_values(|a: AttributeDefinition| attribute_definition_json(a)))),
            None => None,
        },
    );
    let m = with_opt(
        m,
        "BillingModeSummary"@,
        match t.billing_mode_summary {
            Some(b) => Some(billing_mode_summary_json(b)),
            None => None,
        },
    );
    let m = with_opt(
        m,
        "ProvisionedThroughput"@,
        match t.provisioned_throughput {
            Some(p) => if throughput_map(p) == Map::<Seq<char>, JsonView>::empty() {
                None
            } else {
                Some(JsonView::Object(throughput_map(p)))
            },
            None => None,
        },
    );
    let m = with_opt(
        m,
        "GlobalSecondaryIndexes"@,
        match t.global_secondary_indexes {
            Some(v) => Some(JsonView::Array(v@.map_values(|g: GlobalSecondaryIndexDescription| gsi_json(g)))),
            None => None,
        },
    );
    let m = with_opt(
        m,
        "LocalSecondaryIndexes"@,
        match t.local_secondary_indexes {
            Some(v) => Some(JsonView::Array(v@.map_values(|l: LocalSecondaryIndexDescription| lsi_json(l)))),
            None => None,
        },
    );
    let m = with_opt(
        m,
        "SSEDescription"@,
        match t.sse_description {
            Some(s) => Some(sse_json(s)),
            None => None,
        },
    );
    let m = with_opt(
        m,
        "StreamSpecification"@,
        match t.stream_specification {
            Some(s) => Some(stream_json(s)),
            None => None,
        },
    );
    let m = with_opt(m, "LatestStreamArn"@, opt_str_json(t.latest_stream_arn));
    let m = with_opt(
        m,
        "TableClass"@,
        match t.table_class_summary {
            Some(c) => opt_str_json(c.table_class),
            None => None,
        },
    );
    let m = with_opt(m, "DeletionProtectionEnabled"@, opt_bool_json(t.deletion_protection_enabled));
    JsonView::Object(m)
}

// ----- conversions -----

fn key_schema_element_to_json(k: &KeySchemaElement) -> (v: JsonValue)
    ensures
        v.view() == key_schema_element_json(*k),
{
    let mut json = JsonObject::new();
    json.insert_str("AttributeName", &k.attribute_name);
    json.insert_str("KeyType", &k.key_type);
    JsonValue::Object(json)
}

fn attribute_definition_to_json(a: &AttributeDefinition) -> (v: JsonValue)
    ensures
        v.view() == attribute_definition_json(*a),
{
    let mut json = JsonObject::new();
    json.insert_str("AttributeName", &a.attribute_name);
    json.insert_str("AttributeType", &a.attribute_type);
    JsonValue::Object(json)
}

fn key_schema_to_json(o: &Option<Vec<KeySchemaElement>>) -> (v: Option<JsonValue>)
    ensures
        opt_view(v) == opt_key_schema_json(*o),
{
    match o {
        Some(keys) => Some(
            array_of(
                keys,
                key_schema_element_to_json,
                Ghost(|k: KeySchemaElement| key_schema_element_json(k)),
            ),
        ),
        None => None,
    }
}

fn projection_to_json(p: &Projection) -> (v: JsonValue)
    ensures
        v.view() == projection_json(*p),
{
    let mut json = JsonObject::new();
    json.insert_opt_str("ProjectionType", &p.projection_type);
    json.insert_opt_strs("NonKeyAttributes", &p.non_key_attributes);
    JsonValue::Object(json)
}

fn gsi_to_json(g: &GlobalSecondaryIndexDescription) -> (v: JsonValue)
    ensures
        v.view() == gsi_json(*g),
{
    let mut json = JsonObject::new();
    json.insert_opt_str("IndexName", &g.index_name);
    json.insert_opt_str("IndexStatus", &g.index_status);
    json.insert_opt("KeySchema", key_schema_to_json(&g.key_schema));
    if let Some(p) = &g.projection {
        json.insert("Projection", projection_to_json(p));
    }
    JsonValue::Object(json)
}

fn lsi_to_json(l: &LocalSecondaryIndexDescription) -> (v: JsonValue)
    ensures
        v.view() == lsi_json(*l),
{
    let mut json = JsonObject::new();
    json.insert_opt_str("IndexName", &l.index_name);
    json.insert_opt("KeySchema", key_schema_to_json(&l.key_schema));
    if let Some(p) = &l.projection {
        let mut proj = JsonObject::new();
        proj.insert_opt_str("ProjectionType", &p.projection_type);
        json.insert("Projection", JsonValue::Object(proj));
    }
    JsonValue::Object(json)
}

impl<C> DynamoDBService<C> {
    /// The coordinator that the service was made with.
    pub closed spec fn coordinator(&self) -> Arc<C> {
        self.credential_coordinator
    }

    /// A service that obtains its AWS configurations from `credential_coordinator`.
    pub fn new(credential_coordinator: Arc<C>) -> (s: Self)
        ensures
            s.coordinator() == credential_coordinator,
    {
        Self { credential_coordinator }
    }

    /// The coordinator that the service was made with.
    pub fn credential_coordinator(&self) -> (c: &Arc<C>)
        ensures
            *c == self.coordinator(),
    {
        &self.credential_coordinator
    }

    /// The JSON object of a table description.
    pub fn table_to_json(&self, table: &TableDescription) -> (v: JsonValue)
        ensures
            v.view() == table_json(*table),
    {
        let mut json = JsonObject::new();
        json.insert_opt_str("TableName", &table.table_name);
        json.insert_opt_str("Name", &table.table_name);
        json.insert_opt_str("TableArn", &table.table_arn);
        json.insert_opt_str("TableStatus", &table.table_status);
        json.insert_opt_str("Status", &table.table_status);
        json.insert_opt_ts("CreationDateTime", &table.creation_date_time);
        json.insert_opt_int("ItemCount", table.item_count);
        json.insert_opt_int("TableSizeBytes", table.table_size_bytes);
        json.insert_opt("KeySchema", key_schema_to_json(&table.key_schema));
        if let Some(attrs) = &table.attribute_definitions {
            json.insert(
                "AttributeDefinitions",
                array_of(
                    attrs,
                    attribute_definition_to_json,
                    Ghost(|a: AttributeDefinition| attribute_definition_json(a)),
                ),
            );
        }
        if let Some(billing) = &table.billing_mode_summary {
            let mut billing_json = JsonObject::new();
            billing_json.insert_opt_str("BillingMode", &billing.billing_mode);
            billing_json.insert_opt_ts(
                "LastUpdateToPayPerRequestDateTime",
                &billing.last_update_to_pay_per_request_date_time,
            );
            json.insert("BillingModeSummary", JsonValue::Object(billing_json));
        }
        if let Some(throughput) = &table.provisioned_throughput {
            let mut throughput_json = JsonObject::new();
            throughput_json.insert_opt_int("ReadCapacityUnits", throughput.read_capacity_units);
            throughput_json.insert_opt_int("WriteCapacityUnits", throughput.write_capacity_units);
            if !throughput_json.is_empty() {
                json.insert("ProvisionedThroughput", JsonValue::Object(throughput_json));
            }
        }
        if let Some(gsis) = &table.global_secondary_indexes {
            json.insert(
                "GlobalSecondaryIndexes",
                array_of(gsis, gsi_to_json, Ghost(|g: GlobalSecondaryIndexDescription| gsi_json(g))),
            );
        }
        if let Some(lsis) = &table.local_secondary_indexes {
            json.insert(
                "LocalSecondaryIndexes",
                array_of(lsis, lsi_to_json, Ghost(|l: LocalSecondaryIndexDescription| lsi_json(l))),
            );
        }
        if let Some(sse) = &table.sse_description {
            let mut sse_json = JsonObject::new();
            sse_json.insert_opt_str("Status", &sse.status);
            sse_json.insert_opt_str("SSEType", &sse.sse_type);
            sse_json.insert_opt_str("KMSMasterKeyArn", &sse.kms_master_key_arn);
            json.insert("SSEDescription", JsonValue::Object(sse_json));
        }
        if let Some(stream) = &table.stream_specification {
            let mut stream_json = JsonObject::new();
            stream_json.insert_bool("StreamEnabled", stream.stream_enabled);
            stream_json.insert_opt_str("StreamViewType", &stream.stream_view_type);
            json.insert("StreamSpecification", JsonValue::Object(stream_json));
        }
        json.insert_opt_str("LatestStreamArn", &table.latest_stream_arn);
        if let Some(class_summary) = &table.table_class_summary {
            json.insert_opt_str("TableClass", &class_summary.table_class);
        }
        json.insert_opt_bool("DeletionProtectionEnabled", table.deletion_protection_enabled);
        JsonValue::Object(json)
    }

    /// The JSON answer to `DescribeContinuousBackups`: for a reply, its
    /// description; for a failure, a note when the table does not exist, and
    /// `None` (the failure stands) for any other failure. `outcome` holds the
    /// reply, or the failure's debug text.
    pub fn continuous_backups_to_json(
        &self,
        outcome: &Result<Option<ContinuousBackupsDescription>, String>,
    ) -> (v: Option<JsonValue>)
        ensures
            opt_view(v) == continuous_backups_outcome_json(*outcome),
    {
        match outcome {
            Ok(description) => {
                let mut json = JsonObject::new();
                if let Some(backups) = description {
                    json.insert_str("ContinuousBackupsStatus", &backups.continuous_backups_status);
                    if let Some(pitr) = &backups.point_in_time_recovery_description {
                        let mut pitr_json = JsonObject::new();
                        pitr_json.insert_opt_str(
                            "PointInTimeRecoveryStatus",
                            &pitr.point_in_time_recovery_status,
                        );
                        pitr_json.insert_opt_ts(
                            "EarliestRestorableDateTime",
                            &pitr.earliest_restorable_date_time,
                        );
                        pitr_json.insert_opt_ts(
                            "LatestRestorableDateTime",
                            &pitr.latest_restorable_date_time,
                        );
                        json.insert("PointInTimeRecoveryDescription", JsonValue::Object(pitr_json));
                    }
                }
                Some(JsonValue::Object(json))
            },
            Err(error_text) => {
                if contains(error_text.as_str(), "TableNotFoundException") {
                    Some(note_value("ContinuousBackupsStatus", "Table not found"))
                } else {
                    None
                }
            },
        }
    }

    /// The JSON answer to `DescribeTimeToLive`: for a reply, the status and
    /// attribute, or `DISABLED` with a note when nothing is configured; for a
    /// failure, a note when the table does not exist, and `None` otherwise.
    pub fn time_to_live_to_json(&self, outcome: &Result<Option<TimeToLiveDescription>, String>) -> (v:
        Option<JsonValue>)
        ensures
            opt_view(v) == time_to_live_outcome_json(*outcome),
    {
        match outcome {
            Ok(description) => {
                let mut json = JsonObject::new();
                match description {
                    Some(ttl) => {
                        json.insert_opt_str("TimeToLiveStatus", &ttl.time_to_live_status);
                        json.insert_opt_str("AttributeName", &ttl.attribute_name);
                    },
                    None => {
                        json.insert("TimeToLiveStatus", text_value("DISABLED"));
                        json.insert("Note", text_value("TTL not configured"));
                    },
                }
                Some(JsonValue::Object(json))
            },
            Err(error_text) => {
                if contains(error_text.as_str(), "ResourceNotFoundException") {
                    Some(note_value("TimeToLiveStatus", "Table not found"))
                } else {
                    None
                }
            },
        }
    }

    /// The JSON answer to `ListTagsOfResource`: the tags as an object from
    /// key to value (a later tag wins a repeated key), or an empty `Tags` with
    /// a note when there are none; for a failure, a note when the resource does
    /// not exist or the tags may not be read, and `None` otherwise.
    pub fn tags_to_json(&self, outcome: &Result<Option<Vec<Tag>>, String>) -> (v: Option<JsonValue>)
        ensures
            opt_view(v) == tags_outcome_json(*outcome),
    {
        match outcome {
            Ok(tags) => {
                let mut json = JsonObject::new();
                if let Some(tags) = tags {
                    let mut i: usize = 0;
                    while i < tags.len()
                        invariant
                            i <= tags@.len(),
                            json.view() == tags_map(tags@.take(i as int)),
                        decreases tags@.len() - i,
                    {
                        json.insert_str(tags[i].key.as_str(), &tags[i].value);
                        assert(tags@.take(i + 1).drop_last() =~= tags@.take(i as int));
                        i = i + 1;
                    }
                    assert(tags@.take(tags@.len() as int) =~= tags@);
                }
                if json.is_empty() {
                    let mut note = JsonObject::new();
                    note.insert("Tags", JsonValue::Object(JsonObject::new()));
                    note.insert("Note", text_value("No tags configured"));
                    Some(JsonValue::Object(note))
                } else {
                    Some(JsonValue::Object(json))
                }
            },
            Err(error_text) => {
                if contains(error_text.as_str(), "ResourceNotFoundException") {
                    Some(note_value("Tags", "Resource not found"))
                } else if contains(error_text.as_str(), "AccessDeniedException") {
                    Some(note_value("Tags", "Access denied for tags"))
                } else {
                    None
                }
            },
        }
    }

    /// The entry listed for a table that could not be described: its name,
    /// under `TableName` and `Name`.
    pub fn basic_table_entry(&self, table_name: &String) -> (v: JsonValue)
        ensures
            v.view() == JsonView::Object(
                Map::empty().insert("TableName"@, str_json(*table_name)).insert(
                    "Name"@,
                    str_json(*table_name),
                ),
            ),
    {
        let mut json = JsonObject::new();
        json.insert_str("TableName", table_name);
        json.insert_str("Name", table_name);
        JsonValue::Object(json)
    }

    /// Whether a listed table gets the further calls for its details: when
    /// they were asked for and its description is an object.
    pub fn wants_table_details(&self, include_details: bool, details: &JsonValue) -> (b: bool)
        ensures
            b == (include_details && details.view() is Object),
    {
        include_details && match details {
            JsonValue::Object(_) => true,
            _ => false,
        }
    }

    /// The table ARN that a description names, when it is a string.
    pub fn table_arn_of(&self, details: &JsonValue) -> (arn: Option<String>)
        ensures
            arn is Some <==> table_arn_view(details.view()) is Some,
            arn matches Some(a) ==> table_arn_view(details.view()) == Some(a@),
    {
        match details {
            JsonValue::Object(obj) => match obj.get("TableArn") {
                Some(JsonValue::Str(a)) => Some(a.clone()),
                _ => None,
            },
            _ => None,
        }
    }

    /// A table's details with what the further calls answered: the point-in-time
    /// recovery under `ContinuousBackups`, the time to live under `TimeToLive`
    /// and the tags under `Tags`, each only when its call answered. A value
    /// that is not an object is left as it is.
    pub fn enrich_table_details(
        &self,
        details: JsonValue,
        continuous_backups: Option<JsonValue>,
        time_to_live: Option<JsonValue>,
        tags: Option<JsonValue>,
    ) -> (v: JsonValue)
        ensures
            v.view() == enriched_view(
                details.view(),
                opt_view(continuous_backups),
                opt_view(time_to_live),
                opt_view(tags),
            ),
    {
        match details {
            JsonValue::Object(mut obj) => {
                obj.insert_opt("ContinuousBackups", continuous_backups);
                obj.insert_opt("TimeToLive", time_to_live);
                obj.insert_opt("Tags", tags);
                JsonValue::Object(obj)
            },
            other => other,
        }
    }
}

/// The point-in-time recovery object.
pub open spec fn pitr_json(p: PointInTimeRecoveryDescription) -> JsonView {
    let m = with_opt(Map::empty(), "PointInTimeRecoveryStatus"@, opt_str_json(p.point_in_time_recovery_status));
    let m = with_opt(m, "EarliestRestorableDateTime"@, opt_ts_json(p.earliest_restorable_date_time));
    JsonView::Object(with_opt(m, "LatestRestorableDateTime"@, opt_ts_json(p.latest_restorable_date_time)))
}

/// The continuous backups object of a reply.
pub open spec fn continuous_backups_json(d: Option<ContinuousBackupsDescription>) -> JsonView {
    match d {
        Some(b) => JsonView::Object(
            with_opt(
                Map::empty().insert("ContinuousBackupsStatus"@, str_json(b.continuous_backups_status)),
                "PointInTimeRecoveryDescription"@,
                match b.point_in_time_recovery_description {
                    Some(p) => Some(pitr_json(p)),
                    None => None,
                },
            ),
        ),
        None => JsonView::Object(Map::empty()),
    }
}

/// What `DescribeContinuousBackups` comes to.
pub open spec fn continuous_backups_outcome_json(
    outcome: Result<Option<ContinuousBackupsDescription>, String>,
) -> Option<JsonView> {
    match outcome {
        Ok(d) => Some(continuous_backups_json(d)),
        Err(e) => if has_substring(e@, "TableNotFoundException"@) {
            Some(note_view("ContinuousBackupsStatus"@, "Table not found"@))
        } else {
            None
        },
    }
}

/// The time to live object of a reply.
pub open spec fn time_to_live_json(d: Option<TimeToLiveDescription>) -> JsonView {
    match d {
        Some(t) => JsonView::Object(
            with_opt(
                with_opt(Map::empty(), "TimeToLiveStatus"@, opt_str_json(t.time_to_live_status)),
                "AttributeName"@,
                opt_str_json(t.attribute_name),
            ),
        ),
        None => JsonView::Object(
            Map::empty().insert("TimeToLiveStatus"@, JsonView::Str("DISABLED"@)).insert(
                "Note"@,
                JsonView::Str("TTL not configured"@),
            ),
        ),
    }
}

/// What `DescribeTimeToLive` comes to.
pub open spec fn time_to_live_outcome_json(outcome: Result<Option<TimeToLiveDescription>, String>) -> Option<
    JsonView,
> {
    match outcome {
        Ok(d) => Some(time_to_live_json(d)),
        Err(e) => if has_substring(e@, "ResourceNotFoundException"@) {
            Some(note_view("TimeToLiveStatus"@, "Table not found"@))
        } else {
            None
        },
    }
}

/// The tags as a map from key to value; a later tag wins a repeated key.
pub open spec fn tags_map(tags: Seq<Tag>) -> Map<Seq<char>, JsonView>
    decreases tags.len(),
{
    if tags.len() == 0 {
        Map::empty()
    } else {
        tags_map(tags.drop_last()).insert(tags.last().key@, str_json(tags.last().value))
    }
}

/// The tags object of a reply.
pub open spec fn tags_json(tags: Option<Vec<Tag>>) -> JsonView {
    let m = match tags {
        Some(v) => tags_map(v@),
        None => Map::empty(),
    };
    if m == Map::<Seq<char>, JsonView>::empty() {
        JsonView::Object(
            Map::empty().insert("Tags"@, JsonView::Object(Map::empty())).insert(
                "Note"@,
                JsonView::Str("No tags configured"@),
            ),
        )
    } else {
        JsonView::Object(m)
    }
}

/// What `ListTagsOfResource` comes to.
pub open spec fn tags_outcome_json(outcome: Result<Option<Vec<Tag>>, String>) -> Option<JsonView> {
    match outcome {
        Ok(t) => Some(tags_json(t)),
        Err(e) => if has_substring(e@, "ResourceNotFoundException"@) {
            Some(note_view("Tags"@, "Resource not found"@))
        } else if has_substring(e@, "AccessDeniedException"@) {
            Some(note_view("Tags"@, "Access denied for tags"@))
        } else {
            None
        },
    }
}

/// The table ARN that a description names, when it is a string.
pub open spec fn table_arn_view(details: JsonView) -> Option<Seq<char>> {
    match details {
        JsonView::Object(m) => if m.contains_key("TableArn"@) {
            match m["TableArn"@] {
                JsonView::Str(a) => Some(a),
                _ => None,
            }
        } else {
            None
        },
        _ => None,
    }
}

/// A table's details with the answers of the further calls bound in.
pub open spec fn enriched_view(
    details: JsonView,
    continuous_backups: Option<JsonView>,
    time_to_live: Option<JsonView>,
    tags: Option<JsonView>,
) -> JsonView {
    match details {
        JsonView::Object(m) => JsonView::Object(
            with_opt(
                with_opt(with_opt(m, "ContinuousBackups"@, continuous_backups), "TimeToLive"@, time_to_live),
                "Tags"@,
                tags,
            ),
        ),
        other => other,
    }
}


/// Adding what the further calls answered changes nothing else in a table's
/// description: every other key keeps its value, no key is lost, and each
/// answered call is found under its key.
pub proof fn law_enrichment_keeps_description(
    details: Map<Seq<char>, JsonView>,
    continuous_backups: Option<JsonView>,
    time_to_live: Option<JsonView>,
    tags: Option<JsonView>,
    key: Seq<char>,
)
    ensures
        enriched_view(JsonView::Object(details), continuous_backups, time_to_live, tags) is Object,
        details.dom().subset_of(
            enriched_view(JsonView::Object(details), continuous_backups, time_to_live, tags)->Object_0.dom(),
        ),
        key != "ContinuousBackups"@ && key != "TimeToLive"@ && key != "Tags"@ && details.dom().contains(key) ==> enriched_view(
            JsonView::Object(details),
            continuous_backups,
            time_to_live,
            tags,
        )->Object_0[key] == details[key],
        tags matches Some(t) ==> enriched_view(JsonView::Object(details), continuous_backups, time_to_live, tags)->Object_0[
            "Tags"@] == t,
{
}

impl<C> DynamoDBService<C> {
    /// The table `table_name` from what `DescribeTable` answered, or the error
    /// that names it.
    pub fn describe_table(&self, table: &Option<TableDescription>, table_name: &str) -> (r: Result<JsonValue, String>)
        ensures
            match *table {
                Some(t) => r matches Ok(v) && v.view() == table_json(t),
                None => r matches Err(e) && e@ == "Table "@ + table_name@ + " not found"@,
            },
    {
        match table {
            Some(t) => Ok(self.table_to_json(t)),
            None => {
                let mut text = concat_text("Table ", table_name);
                text.append(" not found");
                Err(text)
            },
        }
    }
}

/// The keys that the laws of a table's object speak of differ from every other key of it.
proof fn lemma_table_keys_differ()
    ensures
        "TableName"@ != "Name"@,
        "TableName"@ != "TableArn"@,
        "TableName"@ != "TableStatus"@,
        "TableName"@ != "Status"@,
        "TableName"@ != "CreationDateTime"@,
        "TableName"@ != "ItemCount"@,
        "TableName"@ != "TableSizeBytes"@,
        "TableName"@ != "KeySchema"@,
        "TableName"@ != "AttributeDefinitions"@,
        "TableName"@ != "BillingModeSummary"@,
        "TableName"@ != "ProvisionedThroughput"@,
        "TableName"@ != "GlobalSecondaryIndexes"@,
        "TableName"@ != "LocalSecondaryIndexes"@,
        "TableName"@ != "SSEDescription"@,
        "TableName"@ != "StreamSpecification"@,
        "TableName"@ != "LatestStreamArn"@,
        "TableName"@ != "TableClass"@,
        "TableName"@ != "DeletionProtectionEnabled"@,
        "Name"@ != "TableArn"@,
        "Name"@ != "TableStatus"@,
        "Name"@ != "Status"@,
        "Name"@ != "CreationDateTime"@,
        "Name"@ != "ItemCount"@,
        "Name"@ != "TableSizeBytes"@,
        "Name"@ != "KeySchema"@,
        "Name"@ != "AttributeDefinitions"@,
        "Name"@ != "BillingModeSummary"@,
        "Name"@ != "ProvisionedThroughput"@,
        "Name"@ != "GlobalSecondaryIndexes"@,
        "Name"@ != "LocalSecondaryIndexes"@,
        "Name"@ != "SSEDescription"@,
        "Name"@ != "StreamSpecification"@,
        "Name"@ != "LatestStreamArn"@,
        "Name"@ != "TableClass"@,
        "Name"@ != "DeletionProtectionEnabled"@,
        "TableArn"@ != "TableStatus"@,
        "TableArn"@ != "Status"@,
        "TableArn"@ != "CreationDateTime"@,
        "TableArn"@ != "ItemCount"@,
        "TableArn"@ != "TableSizeBytes"@,
        "TableArn"@ != "KeySchema"@,
        "TableArn"@ != "AttributeDefinitions"@,
        "TableArn"@ != "BillingModeSummary"@,
        "TableArn"@ != "ProvisionedThroughput"@,
        "TableArn"@ != "GlobalSecondaryIndexes"@,
        "TableArn"@ != "LocalSecondaryIndexes"@,
        "TableArn"@ != "SSEDescription"@,
        "TableArn"@ != "StreamSpecification"@,
        "TableArn"@ != "LatestStreamArn"@,
        "TableArn"@ != "TableClass"@,
        "TableArn"@ != "DeletionProtectionEnabled"@,
        "TableStatus"@ != "Status"@,
        "TableStatus"@ != "CreationDateTime"@,
        "TableStatus"@ != "ItemCount"@,
        "TableStatus"@ != "TableSizeBytes"@,
        "TableStatus"@ != "KeySchema"@,
        "TableStatus"@ != "AttributeDefinitions"@,
        "TableStatus"@ != "BillingModeSummary"@,
        "TableStatus"@ != "ProvisionedThroughput"@,
        "TableStatus"@ != "GlobalSecondaryIndexes"@,
        "TableStatus"@ != "LocalSecondaryIndexes"@,
        "TableStatus"@ != "SSEDescription"@,
        "TableStatus"@ != "StreamSpecification"@,
        "TableStatus"@ != "LatestStreamArn"@,
        "TableStatus"@ != "TableClass"@,
        "TableStatus"@ != "DeletionProtectionEnabled"@,
        "Status"@ != "CreationDateTime"@,
        "Status"@ != "ItemCount"@,
        "Status"@ != "TableSizeBytes"@,
        "Status"@ != "KeySchema"@,
        "Status"@ != "AttributeDefinitions"@,
        "Status"@ != "BillingModeSummary"@,
        "Status"@ != "ProvisionedThroughput"@,
        "Status"@ != "GlobalSecondaryIndexes"@,
        "Status"@ != "LocalSecondaryIndexes"@,
        "Status"@ != "SSEDescription"@,
        "Status"@ != "StreamSpecification"@,
        "Status"@ != "LatestStreamArn"@,
        "Status"@ != "TableClass"@,
        "Status"@ != "DeletionProtectionEnabled"@,
        "KeySchema"@ != "CreationDateTime"@,
        "KeySchema"@ != "ItemCount"@,
        "KeySchema"@ != "TableSizeBytes"@,
        "KeySchema"@ != "AttributeDefinitions"@,
        "KeySchema"@ != "BillingModeSummary"@,
        "KeySchema"@ != "ProvisionedThroughput"@,
        "KeySchema"@ != "GlobalSecondaryIndexes"@,
        "KeySchema"@ != "LocalSecondaryIndexes"@,
        "KeySchema"@ != "SSEDescription"@,
        "KeySchema"@ != "StreamSpecification"@,
        "KeySchema"@ != "LatestStreamArn"@,
        "KeySchema"@ != "TableClass"@,
        "KeySchema"@ != "DeletionProtectionEnabled"@,
        "AttributeDefinitions"@ != "CreationDateTime"@,
        "AttributeDefinitions"@ != "ItemCount"@,
        "AttributeDefinitions"@ != "TableSizeBytes"@,
        "AttributeDefinitions"@ != "BillingModeSummary"@,
        "AttributeDefinitions"@ != "ProvisionedThroughput"@,
        "AttributeDefinitions"@ != "GlobalSecondaryIndexes"@,
        "AttributeDefinitions"@ != "LocalSecondaryIndexes"@,
        "AttributeDefinitions"@ != "SSEDescription"@,
        "AttributeDefinitions"@ != "StreamSpecification"@,
        "AttributeDefinitions"@ != "LatestStreamArn"@,
        "AttributeDefinitions"@ != "TableClass"@,
        "AttributeDefinitions"@ != "DeletionProtectionEnabled"@,
        "GlobalSecondaryIndexes"@ != "CreationDateTime"@,
        "GlobalSecondaryIndexes"@ != "ItemCount"@,
        "GlobalSecondaryIndexes"@ != "TableSizeBytes"@,
        "GlobalSecondaryIndexes"@ != "BillingModeSummary"@,
        "GlobalSecondaryIndexes"@ != "ProvisionedThroughput"@,
        "GlobalSecondaryIndexes"@ != "LocalSecondaryIndexes"@,
        "GlobalSecondaryIndexes"@ != "SSEDescription"@,
        "GlobalSecondaryIndexes"@ != "StreamSpecification"@,
        "GlobalSecondaryIndexes"@ != "LatestStreamArn"@,
        "GlobalSecondaryIndexes"@ != "TableClass"@,
        "GlobalSecondaryIndexes"@ != "DeletionProtectionEnabled"@,
{
    assert("TableName"@ != "Name"@) by {
        reveal_strlit("TableName");
        reveal_strlit("Name");
        assert("TableName"@.len() != "Name"@.len());
    }
    assert("TableName"@ != "TableArn"@) by {
        reveal_strlit("TableName");
        reveal_strlit("TableArn");
        assert("TableName"@.len() != "TableArn"@.len());
    }
    assert("TableName"@ != "TableStatus"@) by {
        reveal_strlit("TableName");
        reveal_strlit("TableStatus");
        assert("TableName"@.len() != "TableStatus"@.len());
    }
    assert("TableName"@ != "Status"@) by {
        reveal_strlit("TableName");
        reveal_strlit("Status");
        assert("TableName"@.len() != "Status"@.len());
    }
    assert("TableName"@ != "CreationDateTime"@) by {
        reveal_strlit("TableName");
        reveal_strlit("CreationDateTime");
        assert("TableName"@.len() != "CreationDateTime"@.len());
    }
    assert("TableName"@ != "ItemCount"@) by {
        reveal_strlit("TableName");
        reveal_strlit("ItemCount");
        assert("TableName"@[0] != "ItemCount"@[0]);
    }
    assert("TableName"@ != "TableSizeBytes"@) by {
        reveal_strlit("TableName");
        reveal_strlit("TableSizeBytes");
        assert("TableName"@.len() != "TableSizeBytes"@.len());
    }
    assert("TableName"@ != "KeySchema"@) by {
        reveal_strlit("TableName");
        reveal_strlit("KeySchema");
        assert("TableName"@[0] != "KeySchema"@[0]);
    }
    assert("TableName"@ != "AttributeDefinitions"@) by {
        reveal_strlit("TableName");
        reveal_strlit("AttributeDefinitions");
        assert("TableName"@.len() != "AttributeDefinitions"@.len());
    }
    assert("TableName"@ != "BillingModeSummary"@) by {
        reveal_strlit("TableName");
        reveal_strlit("BillingModeSummary");
        assert("TableName"@.len() != "BillingModeSummary"@.len());
    }
    assert("TableName"@ != "ProvisionedThroughput"@) by {
        reveal_strlit("TableName");
        reveal_strlit("ProvisionedThroughput");
        assert("TableName"@.len() != "ProvisionedThroughput"@.len());
    }
    assert("TableName"@ != "GlobalSecondaryIndexes"@) by {
        reveal_strlit("TableName");
        reveal_strlit("GlobalSecondaryIndexes");
        assert("TableName"@.len() != "GlobalSecondaryIndexes"@.len());
    }
    assert("TableName"@ != "LocalSecondaryIndexes"@) by {
        reveal_strlit("TableName");
        reveal_strlit("LocalSecondaryIndexes");
        assert("TableName"@.len() != "LocalSecondaryIndexes"@.len());
    }
    assert("TableName"@ != "SSEDescription"@) by {
        reveal_strlit("TableName");
        reveal_strlit("SSEDescription");
        assert("TableName"@.len() != "SSEDescription"@.len());
    }
    assert("TableName"@ != "StreamSpecification"@) by {
        reveal_strlit("TableName");
        reveal_strlit("StreamSpecification");
        assert("TableName"@.len() != "StreamSpecification"@.len());
    }
    assert("TableName"@ != "LatestStreamArn"@) by {
        reveal_strlit("TableName");
        reveal_strlit("LatestStreamArn");
        assert("TableName"@.len() != "LatestStreamArn"@.len());
    }
    assert("TableName"@ != "TableClass"@) by {
        reveal_strlit("TableName");
        reveal_strlit("TableClass");
        assert("TableName"@.len() != "TableClass"@.len());
    }
    assert("TableName"@ != "DeletionProtectionEnabled"@) by {
        reveal_strlit("TableName");
        reveal_strlit("DeletionProtectionEnabled");
        assert("TableName"@.len() != "DeletionProtectionEnabled"@.len());
    }
    assert("Name"@ != "TableArn"@) by {
        reveal_strlit("Name");
        reveal_strlit("TableArn");
        assert("Name"@.len() != "TableArn"@.len());
    }
    assert("Name"@ != "TableStatus"@) by {
        reveal_strlit("Name");
        reveal_strlit("TableStatus");
        assert("Name"@.len() != "TableStatus"@.len());
    }
    assert("Name"@ != "Status"@) by {
        reveal_strlit("Name");
        reveal_strlit("Status");
        assert("Name"@.len() != "Status"@.len());
    }
    assert("Name"@ != "CreationDateTime"@) by {
        reveal_strlit("Name");
        reveal_strlit("CreationDateTime");
        assert("Name"@.len() != "CreationDateTime"@.len());
    }
    assert("Name"@ != "ItemCount"@) by {
        reveal_strlit("Name");
        reveal_strlit("ItemCount");
        assert("Name"@.len() != "ItemCount"@.len());
    }
    assert("Name"@ != "TableSizeBytes"@) by {
        reveal_strlit("Name");
        reveal_strlit("TableSizeBytes");
        assert("Name"@.len() != "TableSizeBytes"@.len());
    }
    assert("Name"@ != "KeySchema"@) by {
        reveal_strlit("Name");
        reveal_strlit("KeySchema");
        assert("Name"@.len() != "KeySchema"@.len());
    }
    assert("Name"@ != "AttributeDefinitions"@) by {
        reveal_strlit("Name");
        reveal_strlit("AttributeDefinitions");
        assert("Name"@.len() != "AttributeDefinitions"@.len());
    }
    assert("Name"@ != "BillingModeSummary"@) by {
        reveal_strlit("Name");
        reveal_strlit("BillingModeSummary");
        assert("Name"@.len() != "BillingModeSummary"@.len());
    }
    assert("Name"@ != "ProvisionedThroughput"@) by {
        reveal_strlit("Name");
        reveal_strlit("ProvisionedThroughput");
        assert("Name"@.len() != "ProvisionedThroughput"@.len());
    }
    assert("Name"@ != "GlobalSecondaryIndexes"@) by {
        reveal_strlit("Name");
        reveal_strlit("GlobalSecondaryIndexes");
        assert("Name"@.len() != "GlobalSecondaryIndexes"@.len());
    }
    assert("Name"@ != "LocalSecondaryIndexes"@) by {
        reveal_strlit("Name");
        reveal_strlit("LocalSecondaryIndexes");
        assert("Name"@.len() != "LocalSecondaryIndexes"@.len());
    }
    assert("Name"@ != "SSEDescription"@) by {
        reveal_strlit("Name");
        reveal_strlit("SSEDescription");
        assert("Name"@.len() != "SSEDescription"@.len());
    }
    assert("Name"@ != "StreamSpecification"@) by {
        reveal_strlit("Name");
        reveal_strlit("StreamSpecification");
        assert("Name"@.len() != "StreamSpecification"@.len());
    }
    assert("Name"@ != "LatestStreamArn"@) by {
        reveal_strlit("Name");
        reveal_strlit("LatestStreamArn");
        assert("Name"@.len() != "LatestStreamArn"@.len());
    }
    assert("Name"@ != "TableClass"@) by {
        reveal_strlit("Name");
        reveal_strlit("TableClass");
        assert("Name"@.len() != "TableClass"@.len());
    }
    assert("Name"@ != "DeletionProtectionEnabled"@) by {
        reveal_strlit("Name");
        reveal_strlit("DeletionProtectionEnabled");
        assert("Name"@.len() != "DeletionProtectionEnabled"@.len());
    }
    assert("TableArn"@ != "TableStatus"@) by {
        reveal_strlit("TableArn");
        reveal_strlit("TableStatus");
        assert("TableArn"@.len() != "TableStatus"@.len());
    }
    assert("TableArn"@ != "Status"@) by {
        reveal_strlit("TableArn");
        reveal_strlit("Status");
        assert("TableArn"@.len() != "Status"@.len());
    }
    assert("TableArn"@ != "CreationDateTime"@) by {
        reveal_strlit("TableArn");
        reveal_strlit("CreationDateTime");
        assert("TableArn"@.len() != "CreationDateTime"@.len());
    }
    assert("TableArn"@ != "ItemCount"@) by {
        reveal_strlit("TableArn");
        reveal_strlit("ItemCount");
        assert("TableArn"@.len() != "ItemCount"@.len());
    }
    assert("TableArn"@ != "TableSizeBytes"@) by {
        reveal_strlit("TableArn");
        reveal_strlit("TableSizeBytes");
        assert("TableArn"@.len() != "TableSizeBytes"@.len());
    }
    assert("TableArn"@ != "KeySchema"@) by {
        reveal_strlit("TableArn");
        reveal_strlit("KeySchema");
        assert("TableArn"@.len() != "KeySchema"@.len());
    }
    assert("TableArn"@ != "AttributeDefinitions"@) by {
        reveal_strlit("TableArn");
        reveal_strlit("AttributeDefinitions");
        assert("TableArn"@.len() != "AttributeDefinitions"@.len());
    }
    assert("TableArn"@ != "BillingModeSummary"@) by {
        reveal_strlit("TableArn");
        reveal_strlit("BillingModeSummary");
        assert("TableArn"@.len() != "BillingModeSummary"@.len());
    }
    assert("TableArn"@ != "ProvisionedThroughput"@) by {
        reveal_strlit("TableArn");
        reveal_strlit("ProvisionedThroughput");
        assert("TableArn"@.len() != "ProvisionedThroughput"@.len());
    }
    assert("TableArn"@ != "GlobalSecondaryIndexes"@) by {
        reveal_strlit("TableArn");
        reveal_strlit("GlobalSecondaryIndexes");
        assert("TableArn"@.len() != "GlobalSecondaryIndexes"@.len());
    }
    assert("TableArn"@ != "LocalSecondaryIndexes"@) by {
        reveal_strlit("TableArn");
        reveal_strlit("LocalSecondaryIndexes");
        assert("TableArn"@.len() != "LocalSecondaryIndexes"@.len());
    }
    assert("TableArn"@ != "SSEDescription"@) by {
        reveal_strlit("TableArn");
        reveal_strlit("SSEDescription");
        assert("TableArn"@.len() != "SSEDescription"@.len());
    }
    assert("TableArn"@ != "StreamSpecification"@) by {
        reveal_strlit("TableArn");
        reveal_strlit("StreamSpecification");
        assert("TableArn"@.len() != "StreamSpecification"@.len());
    }
    assert("TableArn"@ != "LatestStreamArn"@) by {
        reveal_strlit("TableArn");
        reveal_strlit("LatestStreamArn");
        assert("TableArn"@.len() != "LatestStreamArn"@.len());
    }
    assert("TableArn"@ != "TableClass"@) by {
        reveal_strlit("TableArn");
        reveal_strlit("TableClass");
        assert("TableArn"@.len() != "TableClass"@.len());
    }
    assert("TableArn"@ != "DeletionProtectionEnabled"@) by {
        reveal_strlit("TableArn");
        reveal_strlit("DeletionProtectionEnabled");
        assert("TableArn"@.len() != "DeletionProtectionEnabled"@.len());
    }
    assert("TableStatus"@ != "Status"@) by {
        reveal_strlit("TableStatus");
        reveal_strlit("Status");
        assert("TableStatus"@.len() != "Status"@.len());
    }
    assert("TableStatus"@ != "CreationDateTime"@) by {
        reveal_strlit("TableStatus");
        reveal_strlit("CreationDateTime");
        assert("TableStatus"@.len() != "CreationDateTime"@.len());
    }
    assert("TableStatus"@ != "ItemCount"@) by {
        reveal_strlit("TableStatus");
        reveal_strlit("ItemCount");
        assert("TableStatus"@.len() != "ItemCount"@.len());
    }
    assert("TableStatus"@ != "TableSizeBytes"@) by {
        reveal_strlit("TableStatus");
        reveal_strlit("TableSizeBytes");
        assert("TableStatus"@.len() != "TableSizeBytes"@.len());
    }
    assert("TableStatus"@ != "KeySchema"@) by {
        reveal_strlit("TableStatus");
        reveal_strlit("KeySchema");
        assert("TableStatus"@.len() != "KeySchema"@.len());
    }
    assert("TableStatus"@ != "AttributeDefinitions"@) by {
        reveal_strlit("TableStatus");
        reveal_strlit("AttributeDefinitions");
        assert("TableStatus"@.len() != "AttributeDefinitions"@.len());
    }
    assert("TableStatus"@ != "BillingModeSummary"@) by {
        reveal_strlit("TableStatus");
        reveal_strlit("BillingModeSummary");
        assert("TableStatus"@.len() != "BillingModeSummary"@.len());
    }
    assert("TableStatus"@ != "ProvisionedThroughput"@) by {
        reveal_strlit("TableStatus");
        reveal_strlit("ProvisionedThroughput");
        assert("TableStatus"@.len() != "ProvisionedThroughput"@.len());
    }
    assert("TableStatus"@ != "GlobalSecondaryIndexes"@) by {
        reveal_strlit("TableStatus");
        reveal_strlit("GlobalSecondaryIndexes");
        assert("TableStatus"@.len() != "GlobalSecondaryIndexes"@.len());
    }
    assert("TableStatus"@ != "LocalSecondaryIndexes"@) by {
        reveal_strlit("TableStatus");
        reveal_strlit("LocalSecondaryIndexes");
        assert("TableStatus"@.len() != "LocalSecondaryIndexes"@.len());
    }
    assert("TableStatus"@ != "SSEDescription"@) by {
        reveal_strlit("TableStatus");
        reveal_strlit("SSEDescription");
        assert("TableStatus"@.len() != "SSEDescription"@.len());
    }
    assert("TableStatus"@ != "StreamSpecification"@) by {
        reveal_strlit("TableStatus");
        reveal_strlit("StreamSpecification");
        assert("TableStatus"@.len() != "StreamSpecification"@.len());
    }
    assert("TableStatus"@ != "LatestStreamArn"@) by {
        reveal_strlit("TableStatus");
        reveal_strlit("LatestStreamArn");
        assert("TableStatus"@.len() != "LatestStreamArn"@.len());
    }
    assert("TableStatus"@ != "TableClass"@) by {
        reveal_strlit("TableStatus");
        reveal_strlit("TableClass");
        assert("TableStatus"@.len() != "TableClass"@.len());
    }
    assert("TableStatus"@ != "DeletionProtectionEnabled"@) by {
        reveal_strlit("TableStatus");
        reveal_strlit("DeletionProtectionEnabled");
        assert("TableStatus"@.len() != "DeletionProtectionEnabled"@.len());
    }
    assert("Status"@ != "CreationDateTime"@) by {
        reveal_strlit("Status");
        reveal_strlit("CreationDateTime");
        assert("Status"@.len() != "CreationDateTime"@.len());
    }
    assert("Status"@ != "ItemCount"@) by {
        reveal_strlit("Status");
        reveal_strlit("ItemCount");
        assert("Status"@.len() != "ItemCount"@.len());
    }
    assert("Status"@ != "TableSizeBytes"@) by {
        reveal_strlit("Status");
        reveal_strlit("TableSizeBytes");
        assert("Status"@.len() != "TableSizeBytes"@.len());
    }
    assert("Status"@ != "KeySchema"@) by {
        reveal_strlit("Status");
        reveal_strlit("KeySchema");
        assert("Status"@.len() != "KeySchema"@.len());
    }
    assert("Status"@ != "AttributeDefinitions"@) by {
        reveal_strlit("Status");
        reveal_strlit("AttributeDefinitions");
        assert("Status"@.len() != "AttributeDefinitions"@.len());
    }
    assert("Status"@ != "BillingModeSummary"@) by {
        reveal_strlit("Status");
        reveal_strlit("BillingModeSummary");
        assert("Status"@.len() != "BillingModeSummary"@.len());
    }
    assert("Status"@ != "ProvisionedThroughput"@) by {
        reveal_strlit("Status");
        reveal_strlit("ProvisionedThroughput");
        assert("Status"@.len() != "ProvisionedThroughput"@.len());
    }
    assert("Status"@ != "GlobalSecondaryIndexes"@) by {
        reveal_strlit("Status");
        reveal_strlit("GlobalSecondaryIndexes");
        assert("Status"@.len() != "GlobalSecondaryIndexes"@.len());
    }
    assert("Status"@ != "LocalSecondaryIndexes"@) by {
        reveal_strlit("Status");
        reveal_strlit("LocalSecondaryIndexes");
        assert("Status"@.len() != "LocalSecondaryIndexes"@.len());
    }
    assert("Status"@ != "SSEDescription"@) by {
        reveal_strlit("Status");
        reveal_strlit("SSEDescription");
        assert("Status"@.len() != "SSEDescription"@.len());
    }
    assert("Status"@ != "StreamSpecification"@) by {
        reveal_strlit("Status");
        reveal_strlit("StreamSpecification");
        assert("Status"@.len() != "StreamSpecification"@.len());
    }
    assert("Status"@ != "LatestStreamArn"@) by {
        reveal_strlit("Status");
        reveal_strlit("LatestStreamArn");
        assert("Status"@.len() != "LatestStreamArn"@.len());
    }
    assert("Status"@ != "TableClass"@) by {
        reveal_strlit("Status");
        reveal_strlit("TableClass");
        assert("Status"@.len() != "TableClass"@.len());
    }
    assert("Status"@ != "DeletionProtectionEnabled"@) by {
        reveal_strlit("Status");
        reveal_strlit("DeletionProtectionEnabled");
        assert("Status"@.len() != "DeletionProtectionEnabled"@.len());
    }
    assert("KeySchema"@ != "CreationDateTime"@) by {
        reveal_strlit("KeySchema");
        reveal_strlit("CreationDateTime");
        assert("KeySchema"@.len() != "CreationDateTime"@.len());
    }
    assert("KeySchema"@ != "ItemCount"@) by {
        reveal_strlit("KeySchema");
        reveal_strlit("ItemCount");
        assert("KeySchema"@[0] != "ItemCount"@[0]);
    }
    assert("KeySchema"@ != "TableSizeBytes"@) by {
        reveal_strlit("KeySchema");
        reveal_strlit("TableSizeBytes");
        assert("KeySchema"@.len() != "TableSizeBytes"@.len());
    }
    assert("KeySchema"@ != "AttributeDefinitions"@) by {
        reveal_strlit("KeySchema");
        reveal_strlit("AttributeDefinitions");
        assert("KeySchema"@.len() != "AttributeDefinitions"@.len());
    }
    assert("KeySchema"@ != "BillingModeSummary"@) by {
        reveal_strlit("KeySchema");
        reveal_strlit("BillingModeSummary");
        assert("KeySchema"@.len() != "BillingModeSummary"@.len());
    }
    assert("KeySchema"@ != "ProvisionedThroughput"@) by {
        reveal_strlit("KeySchema");
        reveal_strlit("ProvisionedThroughput");
        assert("KeySchema"@.len() != "ProvisionedThroughput"@.len());
    }
    assert("KeySchema"@ != "GlobalSecondaryIndexes"@) by {
        reveal_strlit("KeySchema");
        reveal_strlit("GlobalSecondaryIndexes");
        assert("KeySchema"@.len() != "GlobalSecondaryIndexes"@.len());
    }
    assert("KeySchema"@ != "LocalSecondaryIndexes"@) by {
        reveal_strlit("KeySchema");
        reveal_strlit("LocalSecondaryIndexes");
        assert("KeySchema"@.len() != "LocalSecondaryIndexes"@.len());
    }
    assert("KeySchema"@ != "SSEDescription"@) by {
        reveal_strlit("KeySchema");
        reveal_strlit("SSEDescription");
        assert("KeySchema"@.len() != "SSEDescription"@.len());
    }
    assert("KeySchema"@ != "StreamSpecification"@) by {
        reveal_strlit("KeySchema");
        reveal_strlit("StreamSpecification");
        assert("KeySchema"@.len() != "StreamSpecification"@.len());
    }
    assert("KeySchema"@ != "LatestStreamArn"@) by {
        reveal_strlit("KeySchema");
        reveal_strlit("LatestStreamArn");
        assert("KeySchema"@.len() != "LatestStreamArn"@.len());
    }
    assert("KeySchema"@ != "TableClass"@) by {
        reveal_strlit("KeySchema");
        reveal_strlit("TableClass");
        assert("KeySchema"@.len() != "TableClass"@.len());
    }
    assert("KeySchema"@ != "DeletionProtectionEnabled"@) by {
        reveal_strlit("KeySchema");
        reveal_strlit("DeletionProtectionEnabled");
        assert("KeySchema"@.len() != "DeletionProtectionEnabled"@.len());
    }
    assert("AttributeDefinitions"@ != "CreationDateTime"@) by {
        reveal_strlit("AttributeDefinitions");
        reveal_strlit("CreationDateTime");
        assert("AttributeDefinitions"@.len() != "CreationDateTime"@.len());
    }
    assert("AttributeDefinitions"@ != "ItemCount"@) by {
        reveal_strlit("AttributeDefinitions");
        reveal_strlit("ItemCount");
        assert("AttributeDefinitions"@.len() != "ItemCount"@.len());
    }
    assert("AttributeDefinitions"@ != "TableSizeBytes"@) by {
        reveal_strlit("AttributeDefinitions");
        reveal_strlit("TableSizeBytes");
        assert("AttributeDefinitions"@.len() != "TableSizeBytes"@.len());
    }
    assert("AttributeDefinitions"@ != "BillingModeSummary"@) by {
        reveal_strlit("AttributeDefinitions");
        reveal_strlit("BillingModeSummary");
        assert("AttributeDefinitions"@.len() != "BillingModeSummary"@.len());
    }
    assert("AttributeDefinitions"@ != "ProvisionedThroughput"@) by {
        reveal_strlit("AttributeDefinitions");
        reveal_strlit("ProvisionedThroughput");
        assert("AttributeDefinitions"@.len() != "ProvisionedThroughput"@.len());
    }
    assert("AttributeDefinitions"@ != "GlobalSecondaryIndexes"@) by {
        reveal_strlit("AttributeDefinitions");
        reveal_strlit("GlobalSecondaryIndexes");
        assert("AttributeDefinitions"@.len() != "GlobalSecondaryIndexes"@.len());
    }
    assert("AttributeDefinitions"@ != "LocalSecondaryIndexes"@) by {
        reveal_strlit("AttributeDefinitions");
        reveal_strlit("LocalSecondaryIndexes");
        assert("AttributeDefinitions"@.len() != "LocalSecondaryIndexes"@.len());
    }
    assert("AttributeDefinitions"@ != "SSEDescription"@) by {
        reveal_strlit("AttributeDefinitions");
        reveal_strlit("SSEDescription");
        assert("AttributeDefinitions"@.len() != "SSEDescription"@.len());
    }
    assert("AttributeDefinitions"@ != "StreamSpecification"@) by {
        reveal_strlit("AttributeDefinitions");
        reveal_strlit("StreamSpecification");
        assert("AttributeDefinitions"@.len() != "StreamSpecification"@.len());
    }
    assert("AttributeDefinitions"@ != "LatestStreamArn"@) by {
        reveal_strlit("AttributeDefinitions");
        reveal_strlit("LatestStreamArn");
        assert("AttributeDefinitions"@.len() != "LatestStreamArn"@.len());
    }
    assert("AttributeDefinitions"@ != "TableClass"@) by {
        reveal_strlit("AttributeDefinitions");
        reveal_strlit("TableClass");
        assert("AttributeDefinitions"@.len() != "TableClass"@.len());
    }
    assert("AttributeDefinitions"@ != "DeletionProtectionEnabled"@) by {
        reveal_strlit("AttributeDefinitions");
        reveal_strlit("DeletionProtectionEnabled");
        assert("AttributeDefinitions"@.len() != "DeletionProtectionEnabled"@.len());
    }
    assert("GlobalSecondaryIndexes"@ != "CreationDateTime"@) by {
        reveal_strlit("GlobalSecondaryIndexes");
        reveal_strlit("CreationDateTime");
        assert("GlobalSecondaryIndexes"@.len() != "CreationDateTime"@.len());
    }
    assert("GlobalSecondaryIndexes"@ != "ItemCount"@) by {
        reveal_strlit("GlobalSecondaryIndexes");
        reveal_strlit("ItemCount");
        assert("GlobalSecondaryIndexes"@.len() != "ItemCount"@.len());
    }
    assert("GlobalSecondaryIndexes"@ != "TableSizeBytes"@) by {
        reveal_strlit("GlobalSecondaryIndexes");
        reveal_strlit("TableSizeBytes");
        assert("GlobalSecondaryIndexes"@.len() != "TableSizeBytes"@.len());
    }
    assert("GlobalSecondaryIndexes"@ != "BillingModeSummary"@) by {
        reveal_strlit("GlobalSecondaryIndexes");
        reveal_strlit("BillingModeSummary");
        assert("GlobalSecondaryIndexes"@.len() != "BillingModeSummary"@.len());
    }
    assert("GlobalSecondaryIndexes"@ != "ProvisionedThroughput"@) by {
        reveal_strlit("GlobalSecondaryIndexes");
        reveal_strlit("ProvisionedThroughput");
        assert("GlobalSecondaryIndexes"@.len() != "ProvisionedThroughput"@.len());
    }
    assert("GlobalSecondaryIndexes"@ != "LocalSecondaryIndexes"@) by {
        reveal_strlit("GlobalSecondaryIndexes");
        reveal_strlit("LocalSecondaryIndexes");
        assert("GlobalSecondaryIndexes"@.len() != "LocalSecondaryIndexes"@.len());
    }
    assert("GlobalSecondaryIndexes"@ != "SSEDescription"@) by {
        reveal_strlit("GlobalSecondaryIndexes");
        reveal_strlit("SSEDescription");
        assert("GlobalSecondaryIndexes"@.len() != "SSEDescription"@.len());
    }
    assert("GlobalSecondaryIndexes"@ != "StreamSpecification"@) by {
        reveal_strlit("GlobalSecondaryIndexes");
        reveal_strlit("StreamSpecification");
        assert("GlobalSecondaryIndexes"@.len() != "StreamSpecification"@.len());
    }
    assert("GlobalSecondaryIndexes"@ != "LatestStreamArn"@) by {
        reveal_strlit("GlobalSecondaryIndexes");
        reveal_strlit("LatestStreamArn");
        assert("GlobalSecondaryIndexes"@.len() != "LatestStreamArn"@.len());
    }
    assert("GlobalSecondaryIndexes"@ != "TableClass"@) by {
        reveal_strlit("GlobalSecondaryIndexes");
        reveal_strlit("TableClass");
        assert("GlobalSecondaryIndexes"@.len() != "TableClass"@.len());
    }
    assert("GlobalSecondaryIndexes"@ != "DeletionProtectionEnabled"@) by {
        reveal_strlit("GlobalSecondaryIndexes");
        reveal_strlit("DeletionProtectionEnabled");
        assert("GlobalSecondaryIndexes"@.len() != "DeletionProtectionEnabled"@.len());
    }
}

/// A table's object holds its name under `TableName` and `Name` alike, its
/// status under `TableStatus` and `Status` alike, and its ARN under
/// `TableArn`; each key is there exactly when AWS reported the field.
#[verifier::spinoff_prover]
#[verifier::rlimit(60)]
pub proof fn law_table_name_status_arn(t: TableDescription)
    ensures
        table_json(t) is Object,
        ({
            let m = table_json(t)->Object_0;
            &&& t.table_name is None ==> !m.contains_key("TableName"@)
            &&& t.table_name is Some ==> m.contains_key("TableName"@) && m["TableName"@] == JsonView::Str(t.table_name->0@)
            &&& t.table_name is None ==> !m.contains_key("Name"@)
            &&& t.table_name is Some ==> m.contains_key("Name"@) && m["Name"@] == JsonView::Str(t.table_name->0@)
            &&& t.table_status is None ==> !m.contains_key("TableStatus"@)
            &&& t.table_status is Some ==> m.contains_key("TableStatus"@) && m["TableStatus"@] == JsonView::Str(t.table_status->0@)
            &&& t.table_status is None ==> !m.contains_key("Status"@)
            &&& t.table_status is Some ==> m.contains_key("Status"@) && m["Status"@] == JsonView::Str(t.table_status->0@)
            &&& t.table_arn is None ==> !m.contains_key("TableArn"@)
            &&& t.table_arn is Some ==> m.contains_key("TableArn"@) && m["TableArn"@] == JsonView::Str(t.table_arn->0@)
        }),
{
    lemma_table_keys_differ();
}

/// A table's key schema, attribute definitions and global indexes are
/// arrays with one entry per reported item, in the reported order; each key
/// is missing exactly when AWS reported no list.
#[verifier::spinoff_prover]
#[verifier::rlimit(60)]
pub proof fn law_table_lists_keep_order(t: TableDescription)
    ensures
        table_json(t) is Object,
        ({
            let m = table_json(t)->Object_0;
            &&& t.key_schema is None ==> !m.contains_key("KeySchema"@)
            &&& t.key_schema is Some ==> {
                let ks = t.key_schema->0@;
                &&& m.contains_key("KeySchema"@) && m["KeySchema"@] is Array
                &&& m["KeySchema"@]->Array_0.len() == ks.len()
                &&& forall|i: int| 0 <= i < ks.len() ==> #[trigger] m["KeySchema"@]->Array_0[i] == key_schema_element_json(ks[i])
            }
            &&& t.attribute_definitions is None ==> !m.contains_key("AttributeDefinitions"@)
            &&& t.attribute_definitions is Some ==> {
                let ads = t.attribute_definitions->0@;
                &&& m.contains_key("AttributeDefinitions"@) && m["AttributeDefinitions"@] is Array
                &&& m["AttributeDefinitions"@]->Array_0.len() == ads.len()
                &&& forall|i: int| 0 <= i < ads.len() ==> #[trigger] m["AttributeDefinitions"@]->Array_0[i] == attribute_definition_json(ads[i])
            }
            &&& t.global_secondary_indexes is None ==> !m.contains_key("GlobalSecondaryIndexes"@)
            &&& t.global_secondary_indexes is Some ==> {
                let gs = t.global_secondary_indexes->0@;
                &&& m.contains_key("GlobalSecondaryIndexes"@) && m["GlobalSecondaryIndexes"@] is Array
                &&& m["GlobalSecondaryIndexes"@]->Array_0.len() == gs.len()
                &&& forall|i: int| 0 <= i < gs.len() ==> #[trigger] m["GlobalSecondaryIndexes"@]->Array_0[i] == gsi_json(gs[i])
            }
        }),
{
    lemma_table_keys_differ();
}

/// What tells the keys of `pitr_json` apart: their lengths, and a letter where two have the same length.
proof fn lemma_pitr_json_keys_differ()
    ensures
        "EarliestRestorableDateTime"@.len() == 26,
        "LatestRestorableDateTime"@.len() == 24,
        "PointInTimeRecoveryStatus"@.len() == 25,
{
    reveal_strlit("EarliestRestorableDateTime");
    reveal_strlit("LatestRestorableDateTime");
    reveal_strlit("PointInTimeRecoveryStatus");
}

#[verifier::spinoff_prover]
#[verifier::rlimit(30)]
proof fn lemma_pitr_json_fields_0(p: PointInTimeRecoveryDescription)
    ensures
        pitr_json(p) is Object,
        ({
            let m = pitr_json(p)->Object_0;
            &&& p.earliest_restorable_date_time is None ==> !m.contains_key("EarliestRestorableDateTime"@)
            &&& p.earliest_restorable_date_time is Some ==> m.contains_key("EarliestRestorableDateTime"@) && m["EarliestRestorableDateTime"@] == ts_json(p.earliest_restorable_date_time->0)
            &&& p.latest_restorable_date_time is None ==> !m.contains_key("LatestRestorableDateTime"@)
            &&& p.latest_restorable_date_time is Some ==> m.contains_key("LatestRestorableDateTime"@) && m["LatestRestorableDateTime"@] == ts_json(p.latest_restorable_date_time->0)
            &&& p.point_in_time_recovery_status is None ==> !m.contains_key("PointInTimeRecoveryStatus"@)
            &&& p.point_in_time_recovery_status is Some ==> m.contains_key("PointInTimeRecoveryStatus"@) && m["PointInTimeRecoveryStatus"@] == JsonView::Str(p.point_in_time_recovery_status->0@)
        }),
{
    lemma_pitr_json_keys_differ();
}

/// A point-in-time recovery object holds its status, its earliest restorable time under `EarliestRestorableDateTime` and its latest under `LatestRestorableDateTime`, each missing exactly when AWS did not report it.
pub proof fn law_point_in_time_recovery_fields(p: PointInTimeRecoveryDescription)
    ensures
        pitr_json(p) is Object,
        ({
            let m = pitr_json(p)->Object_0;
            &&& p.earliest_restorable_date_time is None ==> !m.contains_key("EarliestRestorableDateTime"@)
            &&& p.earliest_restorable_date_time is Some ==> m.contains_key("EarliestRestorableDateTime"@) && m["EarliestRestorableDateTime"@] == ts_json(p.earliest_restorable_date_time->0)
            &&& p.latest_restorable_date_time is None ==> !m.contains_key("LatestRestorableDateTime"@)
            &&& p.latest_restorable_date_time is Some ==> m.contains_key("LatestRestorableDateTime"@) && m["LatestRestorableDateTime"@] == ts_json(p.latest_restorable_date_time->0)
            &&& p.point_in_time_recovery_status is None ==> !m.contains_key("PointInTimeRecoveryStatus"@)
            &&& p.point_in_time_recovery_status is Some ==> m.contains_key("PointInTimeRecoveryStatus"@) && m["PointInTimeRecoveryStatus"@] == JsonView::Str(p.point_in_time_recovery_status->0@)
        }),
{
    lemma_pitr_json_fields_0(p);
}


// ----- each reported field under its own key -----

/// What tells the keys of `billing_mode_summary_json` apart: their lengths, and a letter where two have the same length.
proof fn lemma_billing_mode_summary_json_keys_differ()
    ensures
        "BillingMode"@.len() == 11,
        "LastUpdateToPayPerRequestDateTime"@.len() == 33,
{
    reveal_strlit("BillingMode");
    reveal_strlit("LastUpdateToPayPerRequestDateTime");
}

#[verifier::spinoff_prover]
#[verifier::rlimit(30)]
proof fn lemma_billing_mode_summary_json_fields_0(b: BillingModeSummary)
    ensures
        billing_mode_summary_json(b) is Object,
        ({
            let m = billing_mode_summary_json(b)->Object_0;
            &&& b.billing_mode is None ==> !m.contains_key("BillingMode"@)
            &&& b.billing_mode is Some ==> m.contains_key("BillingMode"@) && m["BillingMode"@] == JsonView::Str(b.billing_mode->0@)
            &&& b.last_update_to_pay_per_request_date_time is None ==> !m.contains_key("LastUpdateToPayPerRequestDateTime"@)
            &&& b.last_update_to_pay_per_request_date_time is Some ==> m.contains_key("LastUpdateToPayPerRequestDateTime"@) && m["LastUpdateToPayPerRequestDateTime"@] == ts_json(b.last_update_to_pay_per_request_date_time->0)
        }),
{
    lemma_billing_mode_summary_json_keys_differ();
}

/// The object of a billing mode summary holds each reported field of it under its own key, and such a key is missing exactly when AWS did not report the field.
pub proof fn law_billing_mode_summary_fields(b: BillingModeSummary)
    ensures
        billing_mode_summary_json(b) is Object,
        ({
            let m = billing_mode_summary_json(b)->Object_0;
            &&& b.billing_mode is None ==> !m.contains_key("BillingMode"@)
            &&& b.billing_mode is Some ==> m.contains_key("BillingMode"@) && m["BillingMode"@] == JsonView::Str(b.billing_mode->0@)
            &&& b.last_update_to_pay_per_request_date_time is None ==> !m.contains_key("LastUpdateToPayPerRequestDateTime"@)
            &&& b.last_update_to_pay_per_request_date_time is Some ==> m.contains_key("LastUpdateToPayPerRequestDateTime"@) && m["LastUpdateToPayPerRequestDateTime"@] == ts_json(b.last_update_to_pay_per_request_date_time->0)
        }),
{
    lemma_billing_mode_summary_json_fields_0(b);
}

/// What tells the keys of `gsi_json` apart: their lengths, and a letter where two have the same length.
proof fn lemma_gsi_json_keys_differ()
    ensures
        "IndexName"@.len() == 9 && "IndexName"@[0] == 'I',
        "IndexStatus"@.len() == 11,
        "KeySchema"@.len() == 9 && "KeySchema"@[0] == 'K',
        "Projection"@.len() == 10,
{
    reveal_strlit("IndexName");
    reveal_strlit("IndexStatus");
    reveal_strlit("KeySchema");
    reveal_strlit("Projection");
}

#[verifier::spinoff_prover]
#[verifier::rlimit(30)]
proof fn lemma_gsi_json_fields_0(g: GlobalSecondaryIndexDescription)
    ensures
        gsi_json(g) is Object,
        ({
            let m = gsi_json(g)->Object_0;
            &&& g.index_name is None ==> !m.contains_key("IndexName"@)
            &&& g.index_name is Some ==> m.contains_key("IndexName"@) && m["IndexName"@] == JsonView::Str(g.index_name->0@)
            &&& g.index_status is None ==> !m.contains_key("IndexStatus"@)
            &&& g.index_status is Some ==> m.contains_key("IndexStatus"@) && m["IndexStatus"@] == JsonView::Str(g.index_status->0@)
        }),
{
    lemma_gsi_json_keys_differ();
}

/// The object of a global secondary index description holds each reported field of it under its own key, and such a key is missing exactly when AWS did not report the field.
pub proof fn law_gsi_fields(g: GlobalSecondaryIndexDescription)
    ensures
        gsi_json(g) is Object,
        ({
            let m = gsi_json(g)->Object_0;
            &&& g.index_name is None ==> !m.contains_key("IndexName"@)
            &&& g.index_name is Some ==> m.contains_key("IndexName"@) && m["IndexName"@] == JsonView::Str(g.index_name->0@)
            &&& g.index_status is None ==> !m.contains_key("IndexStatus"@)
            &&& g.index_status is Some ==> m.contains_key("IndexStatus"@) && m["IndexStatus"@] == JsonView::Str(g.index_status->0@)
        }),
{
    lemma_gsi_json_fields_0(g);
}

/// What tells the keys of `sse_json` apart: their lengths, and a letter where two have the same length.
proof fn lemma_sse_json_keys_differ()
    ensures
        "KMSMasterKeyArn"@.len() == 15,
        "SSEType"@.len() == 7,
        "Status"@.len() == 6,
{
    reveal_strlit("KMSMasterKeyArn");
    reveal_strlit("SSEType");
    reveal_strlit("Status");
}

#[verifier::spinoff_prover]
#[verifier::rlimit(30)]
proof fn lemma_sse_json_fields_0(s: SseDescription)
    ensures
        sse_json(s) is Object,
        ({
            let m = sse_json(s)->Object_0;
            &&& s.kms_master_key_arn is None ==> !m.contains_key("KMSMasterKeyArn"@)
            &&& s.kms_master_key_arn is Some ==> m.contains_key("KMSMasterKeyArn"@) && m["KMSMasterKeyArn"@] == JsonView::Str(s.kms_master_key_arn->0@)
            &&& s.sse_type is None ==> !m.contains_key("SSEType"@)
            &&& s.sse_type is Some ==> m.contains_key("SSEType"@) && m["SSEType"@] == JsonView::Str(s.sse_type->0@)
            &&& s.status is None ==> !m.contains_key("Status"@)
            &&& s.status is Some ==> m.contains_key("Status"@) && m["Status"@] == JsonView::Str(s.status->0@)
        }),
{
    lemma_sse_json_keys_differ();
}

/// The object of a sse description holds each reported field of it under its own key, and such a key is missing exactly when AWS did not report the field.
pub proof fn law_sse_fields(s: SseDescription)
    ensures
        sse_json(s) is Object,
        ({
            let m = sse_json(s)->Object_0;
            &&& s.kms_master_key_arn is None ==> !m.contains_key("KMSMasterKeyArn"@)
            &&& s.kms_master_key_arn is Some ==> m.contains_key("KMSMasterKeyArn"@) && m["KMSMasterKeyArn"@] == JsonView::Str(s.kms_master_key_arn->0@)
            &&& s.sse_type is None ==> !m.contains_key("SSEType"@)
            &&& s.sse_type is Some ==> m.contains_key("SSEType"@) && m["SSEType"@] == JsonView::Str(s.sse_type->0@)
            &&& s.status is None ==> !m.contains_key("Status"@)
            &&& s.status is Some ==> m.contains_key("Status"@) && m["Status"@] == JsonView::Str(s.status->0@)
        }),
{
    lemma_sse_json_fields_0(s);
}

/// What tells the keys of `table_json` apart: their lengths, and a letter where two have the same length.
proof fn lemma_table_json_keys_differ()
    ensures
        "AttributeDefinitions"@.len() == 20,
        "BillingModeSummary"@.len() == 18,
        "CreationDateTime"@.len() == 16,
        "DeletionProtectionEnabled"@.len() == 25,
        "GlobalSecondaryIndexes"@.len() == 22,
        "ItemCount"@.len() == 9 && "ItemCount"@[0] == 'I',
        "KeySchema"@.len() == 9 && "KeySchema"@[0] == 'K',
        "LatestStreamArn"@.len() == 15,
        "LocalSecondaryIndexes"@.len() == 21 && "LocalSecondaryIndexes"@[0] == 'L',
        "Name"@.len() == 4,
        "ProvisionedThroughput"@.len() == 21 && "ProvisionedThroughput"@[0] == 'P',
        "SSEDescription"@.len() == 14 && "SSEDescription"@[0] == 'S',
        "Status"@.len() == 6,
        "StreamSpecification"@.len() == 19,
        "TableArn"@.len() == 8,
        "TableClass"@.len() == 10,
        "TableName"@.len() == 9 && "TableName"@[0] == 'T',
        "TableSizeBytes"@.len() == 14 && "TableSizeBytes"@[0] == 'T',
        "TableStatus"@.len() == 11,
{
    reveal_strlit("AttributeDefinitions");
    reveal_strlit("BillingModeSummary");
    reveal_strlit("CreationDateTime");
    reveal_strlit("DeletionProtectionEnabled");
    reveal_strlit("GlobalSecondaryIndexes");
    reveal_strlit("ItemCount");
    reveal_strlit("KeySchema");
    reveal_strlit("LatestStreamArn");
    reveal_strlit("LocalSecondaryIndexes");
    reveal_strlit("Name");
    reveal_strlit("ProvisionedThroughput");
    reveal_strlit("SSEDescription");
    reveal_strlit("Status");
    reveal_strlit("StreamSpecification");
    reveal_strlit("TableArn");
    reveal_strlit("TableClass");
    reveal_strlit("TableName");
    reveal_strlit("TableSizeBytes");
    reveal_strlit("TableStatus");
}

#[verifier::spinoff_prover]
#[verifier::rlimit(80)]
proof fn lemma_table_json_fields_0(t: TableDescription)
    ensures
        table_json(t) is Object,
        ({
            let m = table_json(t)->Object_0;
            &&& t.creation_date_time is None ==> !m.contains_key("CreationDateTime"@)
            &&& t.creation_date_time is Some ==> m.contains_key("CreationDateTime"@) && m["CreationDateTime"@] == ts_json(t.creation_date_time->0)
            &&& t.deletion_protection_enabled is None ==> !m.contains_key("DeletionProtectionEnabled"@)
            &&& t.deletion_protection_enabled is Some ==> m.contains_key("DeletionProtectionEnabled"@) && m["DeletionProtectionEnabled"@] == JsonView::Bool(t.deletion_protection_enabled->0)
            &&& t.item_count is None ==> !m.contains_key("ItemCount"@)
            &&& t.item_count is Some ==> m.contains_key("ItemCount"@) && m["ItemCount"@] == JsonView::Number(t.item_count->0 as int)
        }),
{
    lemma_table_json_keys_differ();
}

#[verifier::spinoff_prover]
#[verifier::rlimit(80)]
proof fn lemma_table_json_fields_1(t: TableDescription)
    ensures
        table_json(t) is Object,
        ({
            let m = table_json(t)->Object_0;
            &&& t.latest_stream_arn is None ==> !m.contains_key("LatestStreamArn"@)
            &&& t.latest_stream_arn is Some ==> m.contains_key("LatestStreamArn"@) && m["LatestStreamArn"@] == JsonView::Str(t.latest_stream_arn->0@)
            &&& t.table_name is None ==> !m.contains_key("Name"@)
            &&& t.table_name is Some ==> m.contains_key("Name"@) && m["Name"@] == JsonView::Str(t.table_name->0@)
            &&& t.table_status is None ==> !m.contains_key("Status"@)
            &&& t.table_status is Some ==> m.contains_key("Status"@) && m["Status"@] == JsonView::Str(t.table_status->0@)
        }),
{
    lemma_table_json_keys_differ();
}

#[verifier::spinoff_prover]
#[verifier::rlimit(80)]
proof fn lemma_table_json_fields_2(t: TableDescription)
    ensures
        table_json(t) is Object,
        ({
            let m = table_json(t)->Object_0;
            &&& t.table_arn is None ==> !m.contains_key("TableArn"@)
            &&& t.table_arn is Some ==> m.contains_key("TableArn"@) && m["TableArn"@] == JsonView::Str(t.table_arn->0@)
            &&& t.table_name is None ==> !m.contains_key("TableName"@)
            &&& t.table_name is Some ==> m.contains_key("TableName"@) && m["TableName"@] == JsonView::Str(t.table_name->0@)
            &&& t.table_size_bytes is None ==> !m.contains_key("TableSizeBytes"@)
            &&& t.table_size_bytes is Some ==> m.contains_key("TableSizeBytes"@) && m["TableSizeBytes"@] == JsonView::Number(t.table_size_bytes->0 as int)
        }),
{
    lemma_table_json_keys_differ();
}

#[verifier::spinoff_prover]
#[verifier::rlimit(80)]
proof fn lemma_table_json_fields_3(t: TableDescription)
    ensures
        table_json(t) is Object,
        ({
            let m = table_json(t)->Object_0;
            &&& t.table_status is None ==> !m.contains_key("TableStatus"@)
            &&& t.table_status is Some ==> m.contains_key("TableStatus"@) && m["TableStatus"@] == JsonView::Str(t.table_status->0@)
        }),
{
    lemma_table_json_keys_differ();
}

/// The object of a table description holds each reported field of it under its own key, and such a key is missing exactly when AWS did not report the field.
pub proof fn law_table_fields(t: TableDescription)
    ensures
        table_json(t) is Object,
        ({
            let m = table_json(t)->Object_0;
            &&& t.creation_date_time is None ==> !m.contains_key("CreationDateTime"@)
            &&& t.creation_date_time is Some ==> m.contains_key("CreationDateTime"@) && m["CreationDateTime"@] == ts_json(t.creation_date_time->0)
            &&& t.deletion_protection_enabled is None ==> !m.contains_key("DeletionProtectionEnabled"@)
            &&& t.deletion_protection_enabled is Some ==> m.contains_key("DeletionProtectionEnabled"@) && m["DeletionProtectionEnabled"@] == JsonView::Bool(t.deletion_protection_enabled->0)
            &&& t.item_count is None ==> !m.contains_key("ItemCount"@)
            &&& t.item_count is Some ==> m.contains_key("ItemCount"@) && m["ItemCount"@] == JsonView::Number(t.item_count->0 as int)
            &&& t.latest_stream_arn is None ==> !m.contains_key("LatestStreamArn"@)
            &&& t.latest_stream_arn is Some ==> m.contains_key("LatestStreamArn"@) && m["LatestStreamArn"@] == JsonView::Str(t.latest_stream_arn->0@)
            &&& t.table_name is None ==> !m.contains_key("Name"@)
            &&& t.table_name is Some ==> m.contains_key("Name"@) && m["Name"@] == JsonView::Str(t.table_name->0@)
            &&& t.table_status is None ==> !m.contains_key("Status"@)
            &&& t.table_status is Some ==> m.contains_key("Status"@) && m["Status"@] == JsonView::Str(t.table_status->0@)
            &&& t.table_arn is None ==> !m.contains_key("TableArn"@)
            &&& t.table_arn is Some ==> m.contains_key("TableArn"@) && m["TableArn"@] == JsonView::Str(t.table_arn->0@)
            &&& t.table_name is None ==> !m.contains_key("TableName"@)
            &&& t.table_name is Some ==> m.contains_key("TableName"@) && m["TableName"@] == JsonView::Str(t.table_name->0@)
            &&& t.table_size_bytes is None ==> !m.contains_key("TableSizeBytes"@)
            &&& t.table_size_bytes is Some ==> m.contains_key("TableSizeBytes"@) && m["TableSizeBytes"@] == JsonView::Number(t.table_size_bytes->0 as int)
            &&& t.table_status is None ==> !m.contains_key("TableStatus"@)
            &&& t.table_status is Some ==> m.contains_key("TableStatus"@) && m["TableStatus"@] == JsonView::Str(t.table_status->0@)
        }),
{
    lemma_table_json_fields_0(t);
    lemma_table_json_fields_1(t);
    lemma_table_json_fields_2(t);
    lemma_table_json_fields_3(t);
}

} // verus!

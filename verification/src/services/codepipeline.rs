//! AWS CodePipeline pipelines as JSON.
use crate::json::{array_of, opt_int_json, opt_str_json, str_json, text_value, with_opt, items_view, lemma_items_view_push, pairs_map, pairs_value, JsonObject, JsonValue, JsonView};
use crate::timestamp::{ts_json, opt_ts_json, Timestamp};
use crate::text::concat_text;
use std::sync::Arc;
use vstd::prelude::*;

verus! {

/// A pipeline as `ListPipelines` reports it.
pub struct PipelineSummary {
    pub name: Option<String>,
    pub version: Option<i64>,
    pub created: Option<Timestamp>,
    pub updated: Option<Timestamp>,
}

/// The key that encrypts the artifact store; its type holds the AWS name.
pub struct EncryptionKey {
    pub key_type: String,
    pub id: String,
}

/// Where a pipeline keeps its artifacts; its type holds the AWS name.
pub struct ArtifactStore {
    pub store_type: String,
    pub location: String,
    pub encryption_key: Option<EncryptionKey>,
}

/// What an action does; category and owner hold their AWS names.
pub struct ActionTypeId {
    pub category: String,
    pub owner: String,
    pub provider: String,
    pub version: String,
}

/// An action of a stage.
pub struct ActionDeclaration {
    pub name: String,
    pub action_type_id: Option<ActionTypeId>,
    pub run_order: Option<i64>,
    pub configuration: Option<Vec<(String, String)>>,
}

/// A stage of a pipeline.
pub struct StageDeclaration {
    pub name: String,
    pub actions: Vec<ActionDeclaration>,
}

/// A pipeline as `GetPipeline` reports it.
pub struct PipelineDeclaration {
    pub name: String,
    pub role_arn: String,
    pub version: Option<i64>,
    pub artifact_store: Option<ArtifactStore>,
    pub stages: Vec<StageDeclaration>,
}

/// Reads AWS CodePipeline pipelines through a credential coordinator `C`.
pub struct CodePipelineService<C> {
    credential_coordinator: Arc<C>,
}

/// The JSON object of a listed pipeline, always with status `Active`.
pub open spec fn pipeline_summary_json(pipeline: PipelineSummary) -> JsonView {
    let m = Map::<Seq<char>, JsonView>::empty();
    let m = with_opt(m, "Name"@, opt_str_json(pipeline.name));
    let m = with_opt(m, "PipelineName"@, opt_str_json(pipeline.name));
    let m = with_opt(m, "Version"@, opt_int_json(pipeline.version));
    let m = with_opt(m, "Created"@, opt_ts_json(pipeline.created));
    let m = with_opt(m, "Updated"@, opt_ts_json(pipeline.updated));
    let m = m.insert("Status"@, JsonView::Str("Active"@));
    JsonView::Object(m)
}

/// The JSON object of a `EncryptionKey`.
pub open spec fn encryption_key_json(x: EncryptionKey) -> JsonView {
    let m = Map::<Seq<char>, JsonView>::empty();
    let m = m.insert("Type"@, str_json(x.key_type));
    let m = m.insert("Id"@, str_json(x.id));
    JsonView::Object(m)
}

fn encryption_key_to_json(x: &EncryptionKey) -> (v: JsonValue)
    ensures
        v.view() == encryption_key_json(*x),
{
    let mut json = JsonObject::new();
    json.insert_str("Type", &x.key_type);
    json.insert_str("Id", &x.id);
    JsonValue::Object(json)
}

/// The JSON object of a `ArtifactStore`.
pub open spec fn artifact_store_json(x: ArtifactStore) -> JsonView {
    let m = Map::<Seq<char>, JsonView>::empty();
    let m = m.insert("Type"@, str_json(x.store_type));
    let m = m.insert("Location"@, str_json(x.location));
    let m = match x.encryption_key { Some(e) => m.insert("EncryptionKey"@, encryption_key_json(e)), None => m };
    JsonView::Object(m)
}

fn artifact_store_to_json(x: &ArtifactStore) -> (v: JsonValue)
    ensures
        v.view() == artifact_store_json(*x),
{
    let mut json = JsonObject::new();
    json.insert_str("Type", &x.store_type);
    json.insert_str("Location", &x.location);
    if let Some(e) = &x.encryption_key {
        json.insert("EncryptionKey", encryption_key_to_json(e));
    }
    JsonValue::Object(json)
}

/// The JSON object of a `ActionDeclaration`.
pub open spec fn action_json(x: ActionDeclaration) -> JsonView {
    let m = Map::<Seq<char>, JsonView>::empty();
    let m = m.insert("Name"@, str_json(x.name));
    let m = match x.action_type_id { Some(t) => m.insert("ActionTypeId"@, JsonView::Str(action_type_text(t))), None => m };
    let m = with_opt(m, "RunOrder"@, opt_int_json(x.run_order));
    let m = match x.configuration { Some(v) => m.insert("Configuration"@, JsonView::Object(pairs_map(v@))), None => m };
    JsonView::Object(m)
}

fn action_to_json(x: &ActionDeclaration) -> (v: JsonValue)
    ensures
        v.view() == action_json(*x),
{
    let mut json = JsonObject::new();
    json.insert_str("Name", &x.name);
    if let Some(t) = &x.action_type_id {
        let text = action_type_to_text(t);
        json.insert_str("ActionTypeId", &text);
    }
    json.insert_opt_int("RunOrder", x.run_order);
    if let Some(v) = &x.configuration {
        json.insert("Configuration", pairs_value(v));
    }
    JsonValue::Object(json)
}

/// The JSON object of a `StageDeclaration`.
pub open spec fn stage_json(x: StageDeclaration) -> JsonView {
    let m = Map::<Seq<char>, JsonView>::empty();
    let m = m.insert("Name"@, str_json(x.name));
    let m = m.insert("Actions"@, JsonView::Array(x.actions@.map_values(|e: ActionDeclaration| action_json(e))));
    JsonView::Object(m)
}

fn stage_to_json(x: &StageDeclaration) -> (v: JsonValue)
    ensures
        v.view() == stage_json(*x),
{
    let mut json = JsonObject::new();
    json.insert_str("Name", &x.name);
    json.insert("Actions", array_of(&x.actions, action_to_json, Ghost(|e: ActionDeclaration| action_json(e))));
    JsonValue::Object(json)
}

/// The JSON object of a pipeline with its stages and actions, always with status `Active`.
pub open spec fn pipeline_json(pipeline: PipelineDeclaration) -> JsonView {
    let m = Map::<Seq<char>, JsonView>::empty();
    let m = m.insert("Name"@, str_json(pipeline.name));
    let m = m.insert("PipelineName"@, str_json(pipeline.name));
    let m = m.insert("RoleArn"@, str_json(pipeline.role_arn));
    let m = with_opt(m, "Version"@, opt_int_json(pipeline.version));
    let m = match pipeline.artifact_store { Some(e) => m.insert("ArtifactStore"@, artifact_store_json(e)), None => m };
    let m = m.insert("Stages"@, JsonView::Array(pipeline.stages@.map_values(|e: StageDeclaration| stage_json(e))));
    let m = m.insert("Status"@, JsonView::Str("Active"@));
    JsonView::Object(m)
}

impl<C> CodePipelineService<C> {
    /// The coordinator that the service was made with.
    pub closed spec fn coordinator(&self) -> Arc<C> {
        self.credential_coordinator
    }

    /// A service that obtains its AWS configurations from `credential_coordinator`.
    pub fn new(credential_coordinator: Arc<C>) -> (s: Self)
        ensures
            s.coordinator() == credential_coordinator,
    {
        Self { credential_coordinator }
    }

    /// The coordinator that the service was made with.
    pub fn credential_coordinator(&self) -> (c: &Arc<C>)
        ensures
            *c == self.coordinator(),
    {
        &self.credential_coordinator
    }

    /// The JSON object of a listed pipeline, always with status `Active`.
    pub fn pipeline_summary_to_json(&self, pipeline: &PipelineSummary) -> (v: JsonValue)
        ensures
            v.view() == pipeline_summary_json(*pipeline),
    {
        let mut json = JsonObject::new();
        json.insert_opt_str("Name", &pipeline.name);
        json.insert_opt_str("PipelineName", &pipeline.name);
        json.insert_opt_int("Version", pipeline.version);
        json.insert_opt_ts("Created", &pipeline.created);
        json.insert_opt_ts("Updated", &pipeline.updated);
        json.insert("Status", text_value("Active"));
        JsonValue::Object(json)
    }

    /// The JSON object of a pipeline with its stages and actions, always with status `Active`.
    pub fn pipeline_to_json(&self, pipeline: &PipelineDeclaration) -> (v: JsonValue)
        ensures
            v.view() == pipeline_json(*pipeline),
    {
        let mut json = JsonObject::new();
        json.insert_str("Name", &pipeline.name);
        json.insert_str("PipelineName", &pipeline.name);
        json.insert_str("RoleArn", &pipeline.role_arn);
        json.insert_opt_int("Version", pipeline.version);
        if let Some(e) = &pipeline.artifact_store {
            json.insert("ArtifactStore", artifact_store_to_json(e));
        }
        json.insert("Stages", array_of(&pipeline.stages, stage_to_json, Ghost(|e: StageDeclaration| stage_json(e))));
        json.insert("Status", text_value("Active"));
        JsonValue::Object(json)
    }

}

/// An action type as `category:owner:provider:version`.
pub open spec fn action_type_text(t: ActionTypeId) -> Seq<char> {
    t.category@ + ":"@ + t.owner@ + ":"@ + t.provider@ + ":"@ + t.version@
}

fn action_type_to_text(t: &ActionTypeId) -> (s: String)
    ensures
        s@ == action_type_text(*t),
{
    let mut s = concat_text(t.category.as_str(), ":");
    s.append(t.owner.as_str());
    s.append(":");
    s.append(t.provider.as_str());
    s.append(":");
    s.append(t.version.as_str());
    s
}

/// The text of the error for a pipeline that was not answered.
pub open spec fn pipeline_not_found_text(name: Seq<char>) -> Seq<char> {
    "Pipeline "@ + name + " not found"@
}

impl<C> CodePipelineService<C> {
    /// The pipelines that `ListPipelines` answered, in order.
    pub fn list_pipelines(&self, summaries: &Option<Vec<PipelineSummary>>) -> (r: Vec<JsonValue>)
        ensures
            items_view(r@) == match *summaries {
                Some(v) => v@.map_values(|x: PipelineSummary| pipeline_summary_json(x)),
                None => Seq::empty(),
            },
    {
        let mut out: Vec<JsonValue> = Vec::new();
        if let Some(list) = summaries {
            let mut i: usize = 0;
            while i < list.len()
                invariant
                    i <= list@.len(),
                    items_view(out@) =~= list@.take(i as int).map_values(|x: PipelineSummary| pipeline_summary_json(x)),
                decreases list@.len() - i,
            {
                let ghost before = out@;
                let x = self.pipeline_summary_to_json(&list[i]);
                out.push(x);
                proof {
                    lemma_items_view_push(before, x);
                    assert(list@.take(i + 1) =~= list@.take(i as int).push(list@[i as int]));
                }
                i = i + 1;
            }
            assert(list@.take(list@.len() as int) =~= list@);
        } else {
            assert(items_view(out@) =~= Seq::<JsonView>::empty());
        }
        out
    }

    /// The pipeline `pipeline_name` from what `GetPipeline` answered, or the
    /// error that names it.
    pub fn describe_pipeline(&self, pipeline: &Option<PipelineDeclaration>, pipeline_name: &str) -> (r: Result<JsonValue, String>)
        ensures
            match *pipeline {
                Some(x) => r matches Ok(v) && v.view() == pipeline_json(x),
                None => r matches Err(e) && e@ == pipeline_not_found_text(pipeline_name@),
            },
    {
        match pipeline {
            Some(x) => Ok(self.pipeline_to_json(x)),
            None => {
                let mut text = concat_text("Pipeline ", pipeline_name);
                text.append(" not found");
                Err(text)
            },
        }
    }
}


// ----- each reported field under its own key -----

/// What tells the keys of `pipeline_summary_json` apart: their lengths, and a letter where two have the same length.
proof fn lemma_pipeline_summary_json_keys_differ()
    ensures
        "Active"@.len() == 6 && "Active"@[0] == 'A',
        "Created"@.len() == 7 && "Created"@[0] == 'C',
        "Name"@.len() == 4,
        "PipelineName"@.len() == 12,
        "Status"@.len() == 6 && "Status"@[0] == 'S',
        "Updated"@.len() == 7 && "Updated"@[0] == 'U',
        "Version"@.len() == 7 && "Version"@[0] == 'V',
{
    reveal_strlit("Active");
    reveal_strlit("Created");
    reveal_strlit("Name");
    reveal_strlit("PipelineName");
    reveal_strlit("Status");
    reveal_strlit("Updated");
    reveal_strlit("Version");
}

#[verifier::spinoff_prover]
#[verifier::rlimit(30)]
proof fn lemma_pipeline_summary_json_fields_0(pipeline: PipelineSummary)
    ensures
        pipeline_summary_json(pipeline) is Object,
        ({
            let m = pipeline_summary_json(pipeline)->Object_0;
            &&& pipeline.created is None ==> !m.contains_key("Created"@)
            &&& pipeline.created is Some ==> m.contains_key("Created"@) && m["Created"@] == ts_json(pipeline.created->0)
            &&& pipeline.name is None ==> !m.contains_key("Name"@)
            &&& pipeline.name is Some ==> m.contains_key("Name"@) && m["Name"@] == JsonView::Str(pipeline.name->0@)
            &&& pipeline.name is None ==> !m.contains_key("PipelineName"@)
            &&& pipeline.name is Some ==> m.contains_key("PipelineName"@) && m["PipelineName"@] == JsonView::Str(pipeline.name->0@)
        }),
{
    lemma_pipeline_summary_json_keys_differ();
}

#[verifier::spinoff_prover]
#[verifier::rlimit(30)]
proof fn lemma_pipeline_summary_json_fields_1(pipeline: PipelineSummary)
    ensures
        pipeline_summary_json(pipeline) is Object,
        ({
            let m = pipeline_summary_json(pipeline)->Object_0;
            &&& pipeline.updated is None ==> !m.contains_key("Updated"@)
            &&& pipeline.updated is Some ==> m.contains_key("Updated"@) && m["Updated"@] == ts_json(pipeline.updated->0)
            &&& pipeline.version is None ==> !m.contains_key("Version"@)
            &&& pipeline.version is Some ==> m.contains_key("Version"@) && m["Version"@] == JsonView::Number(pipeline.version->0 as int)
        }),
{
    lemma_pipeline_summary_json_keys_differ();
}

/// The object of a pipeline summary holds each reported field of it under its own key, and such a key is missing exactly when AWS did not report the field.
pub proof fn law_pipeline_summary_fields(pipeline: PipelineSummary)
    ensures
        pipeline_summary_json(pipeline) is Object,
        ({
            let m = pipeline_summary_json(pipeline)->Object_0;
            &&& pipeline.created is None ==> !m.contains_key("Created"@)
            &&& pipeline.created is Some ==> m.contains_key("Created"@) && m["Created"@] == ts_json(pipeline.created->0)
            &&& pipeline.name is None ==> !m.contains_key("Name"@)
            &&& pipeline.name is Some ==> m.contains_key("Name"@) && m["Name"@] == JsonView::Str(pipeline.name->0@)
            &&& pipeline.name is None ==> !m.contains_key("PipelineName"@)
            &&& pipeline.name is Some ==> m.contains_key("PipelineName"@) && m["PipelineName"@] == JsonView::Str(pipeline.name->0@)
            &&& pipeline.updated is None ==> !m.contains_key("Updated"@)
            &&& pipeline.updated is Some ==> m.contains_key("Updated"@) && m["Updated"@] == ts_json(pipeline.updated->0)
            &&& pipeline.version is None ==> !m.contains_key("Version"@)
            &&& pipeline.version is Some ==> m.contains_key("Version"@) && m["Version"@] == JsonView::Number(pipeline.version->0 as int)
        }),
{
    lemma_pipeline_summary_json_fields_0(pipeline);
    lemma_pipeline_summary_json_fields_1(pipeline);
}

} // verus!

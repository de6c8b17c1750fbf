//! AWS Config configuration recorders as JSON.
use crate::json::{array_of, opt_str_json, str_json, strs_json, strs_value, text_value, with_opt, items_view, lemma_items_view_push, JsonObject, JsonValue, JsonView};
use crate::text::concat_text;
use std::sync::Arc;
use vstd::prelude::*;

verus! {

/// The resource types that a recorder leaves out.
pub struct ExclusionByResourceTypes {
    pub resource_types: Option<Vec<String>>,
}

/// What a recorder records; resource types hold their AWS names.
pub struct RecordingGroup {
    pub all_supported: bool,
    pub include_global_resource_types: bool,
    pub resource_types: Option<Vec<String>>,
    pub exclusion_by_resource_types: Option<ExclusionByResourceTypes>,
}

/// A recording frequency that applies to some resource types.
pub struct RecordingModeOverride {
    pub description: Option<String>,
    pub resource_types: Vec<String>,
    pub recording_frequency: String,
}

/// How often a recorder records.
pub struct RecordingMode {
    pub recording_frequency: String,
    pub recording_mode_overrides: Option<Vec<RecordingModeOverride>>,
}

/// A configuration recorder as `DescribeConfigurationRecorders` reports it.
pub struct ConfigurationRecorder {
    pub name: Option<String>,
    pub role_arn: Option<String>,
    pub recording_group: Option<RecordingGroup>,
    pub recording_mode: Option<RecordingMode>,
}

/// Reads AWS Config configuration recorders through a credential coordinator `C`.
pub struct ConfigService<C> {
    credential_coordinator: Arc<C>,
}

/// The JSON object of a `ExclusionByResourceTypes`.
pub open spec fn exclusion_json(x: ExclusionByResourceTypes) -> JsonView {
    let m = Map::<Seq<char>, JsonView>::empty();
    let m = match x.resource_types { Some(v) => if v@.len() > 0 { m.insert("ResourceTypes"@, strs_json(v@)) } else { m }, None => m };
    JsonView::Object(m)
}

fn exclusion_to_json(x: &ExclusionByResourceTypes) -> (v: JsonValue)
    ensures
        v.view() == exclusion_json(*x),
{
    let mut json = JsonObject::new();
    if let Some(v) = &x.resource_types {
        if v.len() > 0 {
            json.insert("ResourceTypes", strs_value(v));
        }
    }
    JsonValue::Object(json)
}

/// The JSON object of a `RecordingGroup`.
pub open spec fn recording_group_json(x: RecordingGroup) -> JsonView {
    let m = Map::<Seq<char>, JsonView>::empty();
    let m = m.insert("AllSupported"@, JsonView::Bool(x.all_supported));
    let m = m.insert("IncludeGlobalResourceTypes"@, JsonView::Bool(x.include_global_resource_types));
    let m = match x.resource_types { Some(v) => if v@.len() > 0 { m.insert("ResourceTypes"@, strs_json(v@)) } else { m }, None => m };
    let m = match x.exclusion_by_resource_types { Some(e) => m.insert("ExclusionByResourceTypes"@, exclusion_json(e)), None => m };
    JsonView::Object(m)
}

fn recording_group_to_json(x: &RecordingGroup) -> (v: JsonValue)
    ensures
        v.view() == recording_group_json(*x),
{
    let mut json = JsonObject::new();
    json.insert_bool("AllSupported", x.all_supported);
    json.insert_bool("IncludeGlobalResourceTypes", x.include_global_resource_types);
    if let Some(v) = &x.resource_types {
        if v.len() > 0 {
            json.insert("ResourceTypes", strs_value(v));
        }
    }
    if let Some(e) = &x.exclusion_by_resource_types {
        json.insert("ExclusionByResourceTypes", exclusion_to_json(e));
    }
    JsonValue::Object(json)
}

/// The JSON object of a `RecordingModeOverride`.
pub open spec fn mode_override_json(x: RecordingModeOverride) -> JsonView {
    let m = Map::<Seq<char>, JsonView>::empty();
    let m = with_opt(m, "Description"@, opt_str_json(x.description));
    let m = if x.resource_types@.len() > 0 { m.insert("ResourceTypes"@, strs_json(x.resource_types@)) } else { m };
    let m = m.insert("RecordingFrequency"@, str_json(x.recording_frequency));
    JsonView::Object(m)
}

fn mode_override_to_json(x: &RecordingModeOverride) -> (v: JsonValue)
    ensures
        v.view() == mode_override_json(*x),
{
    let mut json = JsonObject::new();
    json.insert_opt_str("Description", &x.description);
    if x.resource_types.len() > 0 {
        json.insert("ResourceTypes", strs_value(&x.resource_types));
    }
    json.insert_str("RecordingFrequency", &x.recording_frequency);
    JsonValue::Object(json)
}

/// The JSON object of a `RecordingMode`.
pub open spec fn recording_mode_json(x: RecordingMode) -> JsonView {
    let m = Map::<Seq<char>, JsonView>::empty();
    let m = m.insert("RecordingFrequency"@, str_json(x.recording_frequency));
    let m = match x.recording_mode_overrides { Some(v) => if v@.len() > 0 { m.insert("RecordingModeOverrides"@, JsonView::Array(v@.map_values(|e: RecordingModeOverride| mode_override_json(e)))) } else { m }, None => m };
    JsonView::Object(m)
}

fn recording_mode_to_json(x: &RecordingMode) -> (v: JsonValue)
    ensures
        v.view() == recording_mode_json(*x),
{
    let mut json = JsonObject::new();
    json.insert_str("RecordingFrequency", &x.recording_frequency);
    if let Some(v) = &x.recording_mode_overrides {
        if v.len() > 0 {
            json.insert("RecordingModeOverrides", array_of(v, mode_override_to_json, Ghost(|e: RecordingModeOverride| mode_override_json(e))));
        }
    }
    JsonValue::Object(json)
}

/// The JSON object of a recorder, always with status `ACTIVE`.
pub open spec fn configuration_recorder_json(recorder: ConfigurationRecorder) -> JsonView {
    let m = Map::<Seq<char>, JsonView>::empty();
    let m = with_opt(m, "Name"@, opt_str_json(recorder.name));
    let m = with_opt(m, "ResourceId"@, opt_str_json(recorder.name));
    let m = with_opt(m, "RoleArn"@, opt_str_json(recorder.role_arn));
    let m = match recorder.recording_group { Some(e) => m.insert("RecordingGroup"@, recording_group_json(e)), None => m };
    let m = match recorder.recording_mode { Some(e) => m.insert("RecordingMode"@, recording_mode_json(e)), None => m };
    let m = m.insert("Status"@, JsonView::Str("ACTIVE"@));
    JsonView::Object(m)
}

impl<C> ConfigService<C> {
    /// The coordinator that the service was made with.
    pub closed spec fn coordinator(&self) -> Arc<C> {
        self.credential_coordinator
    }

    /// A service that obtains its AWS configurations from `credential_coordinator`.
    pub fn new(credential_coordinator: Arc<C>) -> (s: Self)
        ensures
            s.coordinator() == credential_coordinator,
    {
        Self { credential_coordinator }
    }

    /// The coordinator that the service was made with.
    pub fn credential_coordinator(&self) -> (c: &Arc<C>)
        ensures
            *c == self.coordinator(),
    {
        &self.credential_coordinator
    }

    /// The JSON object of a recorder, always with status `ACTIVE`.
    pub fn configuration_recorder_to_json(&self, recorder: &ConfigurationRecorder) -> (v: JsonValue)
        ensures
            v.view() == configuration_recorder_json(*recorder),
    {
        let mut json = JsonObject::new();
        json.insert_opt_str("Name", &recorder.name);
        json.insert_opt_str("ResourceId", &recorder.name);
        json.insert_opt_str("RoleArn", &recorder.role_arn);
        if let Some(e) = &recorder.recording_group {
            json.insert("RecordingGroup", recording_group_to_json(e));
        }
        if let Some(e) = &recorder.recording_mode {
            json.insert("RecordingMode", recording_mode_to_json(e));
        }
        json.insert("Status", text_value("ACTIVE"));
        JsonValue::Object(json)
    }

}

/// The text of the error for a recorder that was not answered.
pub open spec fn recorder_not_found_text(name: Seq<char>) -> Seq<char> {
    "Configuration recorder "@ + name + " not found"@
}

/// What is answered for the recorder `name`, given the recorders that
/// `DescribeConfigurationRecorders` answered for that name: the first one,
/// else the not-found error.
pub open spec fn recorder_lookup(recorders: Option<Vec<ConfigurationRecorder>>, name: Seq<char>) -> Result<JsonView, Seq<char>> {
    match recorders {
        Some(v) => if v@.len() > 0 {
            Ok(configuration_recorder_json(v@[0]))
        } else {
            Err(recorder_not_found_text(name))
        },
        None => Err(recorder_not_found_text(name)),
    }
}

impl<C> ConfigService<C> {
    /// The recorders that `DescribeConfigurationRecorders` answered, in order.
    pub fn list_configuration_recorders(&self, recorders: &Option<Vec<ConfigurationRecorder>>) -> (r: Vec<JsonValue>)
        ensures
            items_view(r@) == match *recorders {
                Some(v) => v@.map_values(|x: ConfigurationRecorder| configuration_recorder_json(x)),
                None => Seq::empty(),
            },
    {
        let mut out: Vec<JsonValue> = Vec::new();
        if let Some(list) = recorders {
            let mut i: usize = 0;
            while i < list.len()
                invariant
                    i <= list@.len(),
                    items_view(out@) =~= list@.take(i as int).map_values(
                        |x: ConfigurationRecorder| configuration_recorder_json(x),
                    ),
                decreases list@.len() - i,
            {
                let ghost before = out@;
                let x = self.configuration_recorder_to_json(&list[i]);
                out.push(x);
                proof {
                    lemma_items_view_push(before, x);
                    assert(list@.take(i + 1) =~= list@.take(i as int).push(list@[i as int]));
                }
                i = i + 1;
            }
            assert(list@.take(list@.len() as int) =~= list@);
        } else {
            assert(items_view(out@) =~= Seq::<JsonView>::empty());
        }
        out
    }

    /// The recorder `recorder_name`: the first of those answered for it, or
    /// the error that names it.
    pub fn describe_configuration_recorder(
        &self,
        recorders: &Option<Vec<ConfigurationRecorder>>,
        recorder_name: &str,
    ) -> (r: Result<JsonValue, String>)
        ensures
            match (r, recorder_lookup(*recorders, recorder_name@)) {
                (Ok(v), Ok(w)) => v.view() == w,
                (Err(e), Err(t)) => e@ == t,
                _ => false,
            },
    {
        if let Some(list) = recorders {
            if list.len() > 0 {
                return Ok(self.configuration_recorder_to_json(&list[0]));
            }
        }
        let mut text = concat_text("Configuration recorder ", recorder_name);
        text.append(" not found");
        Err(text)
    }
}


// ----- each reported field under its own key -----

/// What tells the keys of `configuration_recorder_json` apart: their lengths, and a letter where two have the same length.
proof fn lemma_configuration_recorder_json_keys_differ()
    ensures
        "ACTIVE"@.len() == 6 && "ACTIVE"@[0] == 'A',
        "Name"@.len() == 4,
        "RecordingGroup"@.len() == 14,
        "RecordingMode"@.len() == 13,
        "ResourceId"@.len() == 10,
        "RoleArn"@.len() == 7,
        "Status"@.len() == 6 && "Status"@[0] == 'S',
{
    reveal_strlit("ACTIVE");
    reveal_strlit("Name");
    reveal_strlit("RecordingGroup");
    reveal_strlit("RecordingMode");
    reveal_strlit("ResourceId");
    reveal_strlit("RoleArn");
    reveal_strlit("Status");
}

#[verifier::spinoff_prover]
#[verifier::rlimit(30)]
proof fn lemma_configuration_recorder_json_fields_0(recorder: ConfigurationRecorder)
    ensures
        configuration_recorder_json(recorder) is Object,
        ({
            let m = configuration_recorder_json(recorder)->Object_0;
            &&& recorder.name is None ==> !m.contains_key("Name"@)
            &&& recorder.name is Some ==> m.contains_key("Name"@) && m["Name"@] == JsonView::Str(recorder.name->0@)
            &&& recorder.name is None ==> !m.contains_key("ResourceId"@)
            &&& recorder.name is Some ==> m.contains_key("ResourceId"@) && m["ResourceId"@] == JsonView::Str(recorder.name->0@)
            &&& recorder.role_arn is None ==> !m.contains_key("RoleArn"@)
            &&& recorder.role_arn is Some ==> m.contains_key("RoleArn"@) && m["RoleArn"@] == JsonView::Str(recorder.role_arn->0@)
        }),
{
    lemma_configuration_recorder_json_keys_differ();
}

/// The object of a configuration recorder holds each reported field of it under its own key, and such a key is missing exactly when AWS did not report the field.
pub proof fn law_configuration_recorder_fields(recorder: ConfigurationRecorder)
    ensures
        configuration_recorder_json(recorder) is Object,
        ({
            let m = configuration_recorder_json(recorder)->Object_0;
            &&& recorder.name is None ==> !m.contains_key("Name"@)
            &&& recorder.name is Some ==> m.contains_key("Name"@) && m["Name"@] == JsonView::Str(recorder.name->0@)
            &&& recorder.name is None ==> !m.contains_key("ResourceId"@)
            &&& recorder.name is Some ==> m.contains_key("ResourceId"@) && m["ResourceId"@] == JsonView::Str(recorder.name->0@)
            &&& recorder.role_arn is None ==> !m.contains_key("RoleArn"@)
            &&& recorder.role_arn is Some ==> m.contains_key("RoleArn"@) && m["RoleArn"@] == JsonView::Str(recorder.role_arn->0@)
        }),
{
    lemma_configuration_recorder_json_fields_0(recorder);
}

} // verus!

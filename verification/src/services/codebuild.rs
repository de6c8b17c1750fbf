//! CodeBuild projects as JSON.
use crate::json::{array_of, opt_bool_json, opt_int_json, opt_str_json, str_json, text_value, with_opt, JsonObject, JsonValue, JsonView};
use crate::timestamp::{ts_json, opt_ts_json, Timestamp};
use crate::text::concat_text;
use std::sync::Arc;
use vstd::prelude::*;

verus! {

/// Where a project's source comes from; enumerations hold their AWS names.
pub struct ProjectSource {
    pub source_type: String,
    pub location: Option<String>,
    pub buildspec: Option<String>,
    pub git_clone_depth: Option<i64>,
}

/// An environment variable of a build.
pub struct EnvironmentVariable {
    pub name: String,
    pub value: String,
    pub variable_type: Option<String>,
}

/// The build environment.
pub struct ProjectEnvironment {
    pub environment_type: String,
    pub image: String,
    pub compute_type: String,
    pub privileged_mode: Option<bool>,
    pub environment_variables: Option<Vec<EnvironmentVariable>>,
}

/// Where a project's artifacts go.
pub struct ProjectArtifacts {
    pub artifacts_type: String,
    pub location: Option<String>,
    pub name: Option<String>,
}

/// The build badge.
pub struct ProjectBadge {
    pub badge_enabled: bool,
    pub badge_request_url: Option<String>,
}

/// A tag of a project.
pub struct Tag {
    pub key: Option<String>,
    pub value: Option<String>,
}

/// A project as `BatchGetProjects` reports it.
pub struct Project {
    pub name: Option<String>,
    pub arn: Option<String>,
    pub description: Option<String>,
    pub service_role: Option<String>,
    pub created: Option<Timestamp>,
    pub last_modified: Option<Timestamp>,
    pub source: Option<ProjectSource>,
    pub environment: Option<ProjectEnvironment>,
    pub artifacts: Option<ProjectArtifacts>,
    pub timeout_in_minutes: Option<i64>,
    pub queued_timeout_in_minutes: Option<i64>,
    pub badge: Option<ProjectBadge>,
    pub tags: Option<Vec<Tag>>,
}

/// Reads CodeBuild projects through a credential coordinator `C`.
pub struct CodeBuildService<C> {
    credential_coordinator: Arc<C>,
}

/// The JSON object of a `ProjectSource`.
pub open spec fn source_json(x: ProjectSource) -> JsonView {
    let m = Map::<Seq<char>, JsonView>::empty();
    let m = m.insert("Type"@, str_json(x.source_type));
    let m = with_opt(m, "Location"@, opt_str_json(x.location));
    let m = with_opt(m, "Buildspec"@, opt_str_json(x.buildspec));
    let m = with_opt(m, "GitCloneDepth"@, opt_int_json(x.git_clone_depth));
    JsonView::Object(m)
}

fn source_to_json(x: &ProjectSource) -> (v: JsonValue)
    ensures
        v.view() == source_json(*x),
{
    let mut json = JsonObject::new();
    json.insert_str("Type", &x.source_type);
    json.insert_opt_str("Location", &x.location);
    json.insert_opt_str("Buildspec", &x.buildspec);
    json.insert_opt_int("GitCloneDepth", x.git_clone_depth);
    JsonValue::Object(json)
}

/// The JSON object of a `EnvironmentVariable`.
pub open spec fn environment_variable_json(x: EnvironmentVariable) -> JsonView {
    let m = Map::<Seq<char>, JsonView>::empty();
    let m = m.insert("Name"@, str_json(x.name));
    let m = m.insert("Value"@, str_json(x.value));
    let m = with_opt(m, "Type"@, opt_str_json(x.variable_type));
    JsonView::Object(m)
}

fn environment_variable_to_json(x: &EnvironmentVariable) -> (v: JsonValue)
    ensures
        v.view() == environment_variable_json(*x),
{
    let mut json = JsonObject::new();
    json.insert_str("Name", &x.name);
    json.insert_str("Value", &x.value);
    json.insert_opt_str("Type", &x.variable_type);
    JsonValue::Object(json)
}

/// The JSON object of a `ProjectEnvironment`.
pub open spec fn environment_json(x: ProjectEnvironment) -> JsonView {
    let m = Map::<Seq<char>, JsonView>::empty();
    let m = m.insert("Type"@, str_json(x.environment_type));
    let m = m.insert("Image"@, str_json(x.image));
    let m = m.insert("ComputeType"@, str_json(x.compute_type));
    let m = with_opt(m, "PrivilegedMode"@, opt_bool_json(x.privileged_mode));
    let m = match x.environment_variables { Some(v) => m.insert("EnvironmentVariables"@, JsonView::Array(v@.map_values(|e: EnvironmentVariable| environment_variable_json(e)))), None => m };
    JsonView::Object(m)
}

fn environment_to_json(x: &ProjectEnvironment) -> (v: JsonValue)
    ensures
        v.view() == environment_json(*x),
{
    let mut json = JsonObject::new();
    json.insert_str("Type", &x.environment_type);
    json.insert_str("Image", &x.image);
    json.insert_str("ComputeType", &x.compute_type);
    json.insert_opt_bool("PrivilegedMode", x.privileged_mode);
    if let Some(v) = &x.environment_variables {
        json.insert("EnvironmentVariables", array_of(v, environment_variable_to_json, Ghost(|e: EnvironmentVariable| environment_variable_json(e))));
    }
    JsonValue::Object(json)
}

/// The JSON object of a `ProjectArtifacts`.
pub open spec fn artifacts_json(x: ProjectArtifacts) -> JsonView {
    let m = Map::<Seq<char>, JsonView>::empty();
    let m = m.insert("Type"@, str_json(x.artifacts_type));
    let m = with_opt(m, "Location"@, opt_str_json(x.location));
    let m = with_opt(m, "Name"@, opt_str_json(x.name));
    JsonView::Object(m)
}

fn artifacts_to_json(x: &ProjectArtifacts) -> (v: JsonValue)
    ensures
        v.view() == artifacts_json(*x),
{
    let mut json = JsonObject::new();
    json.insert_str("Type", &x.artifacts_type);
    json.insert_opt_str("Location", &x.location);
    json.insert_opt_str("Name", &x.name);
    JsonValue::Object(json)
}

/// The JSON object of a `Tag`.
pub open spec fn tag_json(x: Tag) -> JsonView {
    let m = Map::<Seq<char>, JsonView>::empty();
    let m = with_opt(m, "Key"@, opt_str_json(x.key));
    let m = with_opt(m, "Value"@, opt_str_json(x.value));
    JsonView::Object(m)
}

fn tag_to_json(x: &Tag) -> (v: JsonValue)
    ensures
        v.view() == tag_json(*x),
{
    let mut json = JsonObject::new();
    json.insert_opt_str("Key", &x.key);
    json.insert_opt_str("Value", &x.value);
    JsonValue::Object(json)
}

/// The JSON object of a project, always with status `Active`.
pub open spec fn project_json(project: Project) -> JsonView {
    let m = Map::<Seq<char>, JsonView>::empty();
    let m = with_opt(m, "Name"@, opt_str_json(project.name));
    let m = with_opt(m, "ProjectName"@, opt_str_json(project.name));
    let m = with_opt(m, "Arn"@, opt_str_json(project.arn));
    let m = with_opt(m, "Description"@, opt_str_json(project.description));
    let m = with_opt(m, "ServiceRole"@, opt_str_json(project.service_role));
    let m = with_opt(m, "Created"@, opt_ts_json(project.created));
    let m = with_opt(m, "LastModified"@, opt_ts_json(project.last_modified));
    let m = match project.source { Some(e) => m.insert("Source"@, source_json(e)), None => m };
    let m = match project.environment { Some(e) => m.insert("Environment"@, environment_json(e)), None => m };
    let m = match project.artifacts { Some(e) => m.insert("Artifacts"@, artifacts_json(e)), None => m };
    let m = with_opt(m, "TimeoutInMinutes"@, opt_int_json(project.timeout_in_minutes));
    let m = with_opt(m, "QueuedTimeoutInMinutes"@, opt_int_json(project.queued_timeout_in_minutes));
    let m = match project.badge { Some(bad_5) => m.insert("BadgeEnabled"@, JsonView::Bool(bad_5.badge_enabled)), None => m };
    let m = match project.badge { Some(bad_5) => with_opt(m, "BadgeRequestUrl"@, opt_str_json(bad_5.badge_request_url)), None => m };
    let m = match project.tags { Some(v) => m.insert("Tags"@, JsonView::Array(v@.map_values(|e: Tag| tag_json(e)))), None => m };
    let m = m.insert("Status"@, JsonView::Str("Active"@));
    JsonView::Object(m)
}

impl<C> CodeBuildService<C> {
    /// The coordinator that the service was made with.
    pub closed spec fn coordinator(&self) -> Arc<C> {
        self.credential_coordinator
    }

    /// A service that obtains its AWS configurations from `credential_coordinator`.
    pub fn new(credential_coordinator: Arc<C>) -> (s: Self)
        ensures
            s.coordinator() == credential_coordinator,
    {
        Self { credential_coordinator }
    }

    /// The coordinator that the service was made with.
    pub fn credential_coordinator(&self) -> (c: &Arc<C>)
        ensures
            *c == self.coordinator(),
    {
        &self.credential_coordinator
    }

    /// The JSON object of a project, always with status `Active`.
    pub fn project_to_json(&self, project: &Project) -> (v: JsonValue)
        ensures
            v.view() == project_json(*project),
    {
        let mut json = JsonObject::new();
        json.insert_opt_str("Name", &project.name);
        json.insert_opt_str("ProjectName", &project.name);
        json.insert_opt_str("Arn", &project.arn);
        json.insert_opt_str("Description", &project.description);
        json.insert_opt_str("ServiceRole", &project.service_role);
        json.insert_opt_ts("Created", &project.created);
        json.insert_opt_ts("LastModified", &project.last_modified);
        if let Some(e) = &project.source {
            json.insert("Source", source_to_json(e));
        }
        if let Some(e) = &project.environment {
            json.insert("Environment", environment_to_json(e));
        }
        if let Some(e) = &project.artifacts {
            json.insert("Artifacts", artifacts_to_json(e));
        }
        json.insert_opt_int("TimeoutInMinutes", project.timeout_in_minutes);
        json.insert_opt_int("QueuedTimeoutInMinutes", project.queued_timeout_in_minutes);
        if let Some(bad_5) = &project.badge {
            json.insert_bool("BadgeEnabled", bad_5.badge_enabled);
        }
        if let Some(bad_5) = &project.badge {
            json.insert_opt_str("BadgeRequestUrl", &bad_5.badge_request_url);
        }
        if let Some(v) = &project.tags {
            json.insert("Tags", array_of(v, tag_to_json, Ghost(|e: Tag| tag_json(e))));
        }
        json.insert("Status", text_value("Active"));
        JsonValue::Object(json)
    }

}

impl<C> CodeBuildService<C> {
    /// The project `project_name`: the first of those that `BatchGetProjects` answered for it, or the
    /// error that names it.
    pub fn describe_project(&self, projects: &Option<Vec<Project>>, project_name: &str) -> (r: Result<JsonValue, String>)
        ensures
            match *projects {
                Some(v) => if v@.len() > 0 {
                    r matches Ok(j) && j.view() == project_json(v@[0])
                } else {
                    r matches Err(e) && e@ == "Project "@ + project_name@ + " not found"@
                },
                None => r matches Err(e) && e@ == "Project "@ + project_name@ + " not found"@,
            },
    {
        if let Some(list) = projects {
            if list.len() > 0 {
                return Ok(self.project_to_json(&list[0]));
            }
        }
        let mut text = concat_text("Project ", project_name);
        text.append(" not found");
        Err(text)
    }
}


// ----- each reported field under its own key -----

/// What tells the keys of `source_json` apart: their lengths, and a letter where two have the same length.
proof fn lemma_source_json_keys_differ()
    ensures
        "Buildspec"@.len() == 9,
        "GitCloneDepth"@.len() == 13,
        "Location"@.len() == 8,
        "Type"@.len() == 4,
{
    reveal_strlit("Buildspec");
    reveal_strlit("GitCloneDepth");
    reveal_strlit("Location");
    reveal_strlit("Type");
}

#[verifier::spinoff_prover]
#[verifier::rlimit(30)]
proof fn lemma_source_json_fields_0(x: ProjectSource)
    ensures
        source_json(x) is Object,
        ({
            let m = source_json(x)->Object_0;
            &&& x.buildspec is None ==> !m.contains_key("Buildspec"@)
            &&& x.buildspec is Some ==> m.contains_key("Buildspec"@) && m["Buildspec"@] == JsonView::Str(x.buildspec->0@)
            &&& x.git_clone_depth is None ==> !m.contains_key("GitCloneDepth"@)
            &&& x.git_clone_depth is Some ==> m.contains_key("GitCloneDepth"@) && m["GitCloneDepth"@] == JsonView::Number(x.git_clone_depth->0 as int)
            &&& x.location is None ==> !m.contains_key("Location"@)
            &&& x.location is Some ==> m.contains_key("Location"@) && m["Location"@] == JsonView::Str(x.location->0@)
        }),
{
    lemma_source_json_keys_differ();
}

/// The object of a project source holds each reported field of it under its own key, and such a key is missing exactly when AWS did not report the field.
pub proof fn law_source_fields(x: ProjectSource)
    ensures
        source_json(x) is Object,
        ({
            let m = source_json(x)->Object_0;
            &&& x.buildspec is None ==> !m.contains_key("Buildspec"@)
            &&& x.buildspec is Some ==> m.contains_key("Buildspec"@) && m["Buildspec"@] == JsonView::Str(x.buildspec->0@)
            &&& x.git_clone_depth is None ==> !m.contains_key("GitCloneDepth"@)
            &&& x.git_clone_depth is Some ==> m.contains_key("GitCloneDepth"@) && m["GitCloneDepth"@] == JsonView::Number(x.git_clone_depth->0 as int)
            &&& x.location is None ==> !m.contains_key("Location"@)
            &&& x.location is Some ==> m.contains_key("Location"@) && m["Location"@] == JsonView::Str(x.location->0@)
        }),
{
    lemma_source_json_fields_0(x);
}

/// What tells the keys of `artifacts_json` apart: their lengths, and a letter where two have the same length.
proof fn lemma_artifacts_json_keys_differ()
    ensures
        "Location"@.len() == 8,
        "Name"@.len() == 4 && "Name"@[0] == 'N',
        "Type"@.len() == 4 && "Type"@[0] == 'T',
{
    reveal_strlit("Location");
    reveal_strlit("Name");
    reveal_strlit("Type");
}

#[verifier::spinoff_prover]
#[verifier::rlimit(30)]
proof fn lemma_artifacts_json_fields_0(x: ProjectArtifacts)
    ensures
        artifacts_json(x) is Object,
        ({
            let m = artifacts_json(x)->Object_0;
            &&& x.location is None ==> !m.contains_key("Location"@)
            &&& x.location is Some ==> m.contains_key("Location"@) && m["Location"@] == JsonView::Str(x.location->0@)
            &&& x.name is None ==> !m.contains_key("Name"@)
            &&& x.name is Some ==> m.contains_key("Name"@) && m["Name"@] == JsonView::Str(x.name->0@)
        }),
{
    lemma_artifacts_json_keys_differ();
}

/// The object of a project artifacts holds each reported field of it under its own key, and such a key is missing exactly when AWS did not report the field.
pub proof fn law_artifacts_fields(x: ProjectArtifacts)
    ensures
        artifacts_json(x) is Object,
        ({
            let m = artifacts_json(x)->Object_0;
            &&& x.location is None ==> !m.contains_key("Location"@)
            &&& x.location is Some ==> m.contains_key("Location"@) && m["Location"@] == JsonView::Str(x.location->0@)
            &&& x.name is None ==> !m.contains_key("Name"@)
            &&& x.name is Some ==> m.contains_key("Name"@) && m["Name"@] == JsonView::Str(x.name->0@)
        }),
{
    lemma_artifacts_json_fields_0(x);
}

/// What tells the keys of `tag_json` apart: their lengths, and a letter where two have the same length.
proof fn lemma_tag_json_keys_differ()
    ensures
        "Key"@.len() == 3,
        "Value"@.len() == 5,
{
    reveal_strlit("Key");
    reveal_strlit("Value");
}

#[verifier::spinoff_prover]
#[verifier::rlimit(30)]
proof fn lemma_tag_json_fields_0(x: Tag)
    ensures
        tag_json(x) is Object,
        ({
            let m = tag_json(x)->Object_0;
            &&& x.key is None ==> !m.contains_key("Key"@)
            &&& x.key is Some ==> m.contains_key("Key"@) && m["Key"@] == JsonView::Str(x.key->0@)
            &&& x.value is None ==> !m.contains_key("Value"@)
            &&& x.value is Some ==> m.contains_key("Value"@) && m["Value"@] == JsonView::Str(x.value->0@)
        }),
{
    lemma_tag_json_keys_differ();
}

/// The object of a tag holds each reported field of it under its own key, and such a key is missing exactly when AWS did not report the field.
pub proof fn law_tag_fields(x: Tag)
    ensures
        tag_json(x) is Object,
        ({
            let m = tag_json(x)->Object_0;
            &&& x.key is None ==> !m.contains_key("Key"@)
            &&& x.key is Some ==> m.contains_key("Key"@) && m["Key"@] == JsonView::Str(x.key->0@)
            &&& x.value is None ==> !m.contains_key("Value"@)
            &&& x.value is Some ==> m.contains_key("Value"@) && m["Value"@] == JsonView::Str(x.value->0@)
        }),
{
    lemma_tag_json_fields_0(x);
}

/// What tells the keys of `project_json` apart: their lengths, and a letter where two have the same length.
proof fn lemma_project_json_keys_differ()
    ensures
        "Active"@.len() == 6 && "Active"@[0] == 'A',
        "Arn"@.len() == 3,
        "Artifacts"@.len() == 9,
        "BadgeEnabled"@.len() == 12 && "BadgeEnabled"@[0] == 'B',
        "BadgeRequestUrl"@.len() == 15,
        "Created"@.len() == 7,
        "Description"@.len() == 11 && "Description"@[0] == 'D',
        "Environment"@.len() == 11 && "Environment"@[0] == 'E',
        "LastModified"@.len() == 12 && "LastModified"@[0] == 'L',
        "Name"@.len() == 4 && "Name"@[0] == 'N',
        "ProjectName"@.len() == 11 && "ProjectName"@[0] == 'P',
        "QueuedTimeoutInMinutes"@.len() == 22,
        "ServiceRole"@.len() == 11 && "ServiceRole"@[0] == 'S',
        "Source"@.len() == 6 && "Source"@[0] == 'S' && "Source"@[1] == 'o',
        "Status"@.len() == 6 && "Status"@[0] == 'S' && "Status"@[1] == 't',
        "Tags"@.len() == 4 && "Tags"@[0] == 'T',
        "TimeoutInMinutes"@.len() == 16,
{
    reveal_strlit("Active");
    reveal_strlit("Arn");
    reveal_strlit("Artifacts");
    reveal_strlit("BadgeEnabled");
    reveal_strlit("BadgeRequestUrl");
    reveal_strlit("Created");
    reveal_strlit("Description");
    reveal_strlit("Environment");
    reveal_strlit("LastModified");
    reveal_strlit("Name");
    reveal_strlit("ProjectName");
    reveal_strlit("QueuedTimeoutInMinutes");
    reveal_strlit("ServiceRole");
    reveal_strlit("Source");
    reveal_strlit("Status");
    reveal_strlit("Tags");
    reveal_strlit("TimeoutInMinutes");
}

#[verifier::spinoff_prover]
#[verifier::rlimit(30)]
proof fn lemma_project_json_fields_0(project: Project)
    ensures
        project_json(project) is Object,
        ({
            let m = project_json(project)->Object_0;
            &&& project.arn is None ==> !m.contains_key("Arn"@)
            &&& project.arn is Some ==> m.contains_key("Arn"@) && m["Arn"@] == JsonView::Str(project.arn->0@)
            &&& project.created is None ==> !m.contains_key("Created"@)
            &&& project.created is Some ==> m.contains_key("Created"@) && m["Created"@] == ts_json(project.created->0)
            &&& project.description is None ==> !m.contains_key("Description"@)
            &&& project.description is Some ==> m.contains_key("Description"@) && m["Description"@] == JsonView::Str(project.description->0@)
        }),
{
    lemma_project_json_keys_differ();
}

#[verifier::spinoff_prover]
#[verifier::rlimit(30)]
proof fn lemma_project_json_fields_1(project: Project)
    ensures
        project_json(project) is Object,
        ({
            let m = project_json(project)->Object_0;
            &&& project.last_modified is None ==> !m.contains_key("LastModified"@)
            &&& project.last_modified is Some ==> m.contains_key("LastModified"@) && m["LastModified"@] == ts_json(project.last_modified->0)
            &&& project.name is None ==> !m.contains_key("Name"@)
            &&& project.name is Some ==> m.contains_key("Name"@) && m["Name"@] == JsonView::Str(project.name->0@)
            &&& project.name is None ==> !m.contains_key("ProjectName"@)
            &&& project.name is Some ==> m.contains_key("ProjectName"@) && m["ProjectName"@] == JsonView::Str(project.name->0@)
        }),
{
    lemma_project_json_keys_differ();
}

#[verifier::spinoff_prover]
#[verifier::rlimit(30)]
proof fn lemma_project_json_fields_2(project: Project)
    ensures
        project_json(project) is Object,
        ({
            let m = project_json(project)->Object_0;
            &&& project.queued_timeout_in_minutes is None ==> !m.contains_key("QueuedTimeoutInMinutes"@)
            &&& project.queued_timeout_in_minutes is Some ==> m.contains_key("QueuedTimeoutInMinutes"@) && m["QueuedTimeoutInMinutes"@] == JsonView::Number(project.queued_timeout_in_minutes->0 as int)
            &&& project.service_role is None ==> !m.contains_key("ServiceRole"@)
            &&& project.service_role is Some ==> m.contains_key("ServiceRole"@) && m["ServiceRole"@] == JsonView::Str(project.service_role->0@)
            &&& project.timeout_in_minutes is None ==> !m.contains_key("TimeoutInMinutes"@)
            &&& project.timeout_in_minutes is Some ==> m.contains_key("TimeoutInMinutes"@) && m["TimeoutInMinutes"@] == JsonView::Number(project.timeout_in_minutes->0 as int)
        }),
{
    lemma_project_json_keys_differ();
}

/// The object of a project holds each reported field of it under its own key, and such a key is missing exactly when AWS did not report the field.
pub proof fn law_project_fields(project: Project)
    ensures
        project_json(project) is Object,
        ({
            let m = project_json(project)->Object_0;
            &&& project.arn is None ==> !m.contains_key("Arn"@)
            &&& project.arn is Some ==> m.contains_key("Arn"@) && m["Arn"@] == JsonView::Str(project.arn->0@)
            &&& project.created is None ==> !m.contains_key("Created"@)
            &&& project.created is Some ==> m.contains_key("Created"@) && m["Created"@] == ts_json(project.created->0)
            &&& project.description is None ==> !m.contains_key("Description"@)
            &&& project.description is Some ==> m.contains_key("Description"@) && m["Description"@] == JsonView::Str(project.description->0@)
            &&& project.last_modified is None ==> !m.contains_key("LastModified"@)
            &&& project.last_modified is Some ==> m.contains_key("LastModified"@) && m["LastModified"@] == ts_json(project.last_modified->0)
            &&& project.name is None ==> !m.contains_key("Name"@)
            &&& project.name is Some ==> m.contains_key("Name"@) && m["Name"@] == JsonView::Str(project.name->0@)
            &&& project.name is None ==> !m.contains_key("ProjectName"@)
            &&& project.name is Some ==> m.contains_key("ProjectName"@) && m["ProjectName"@] == JsonView::Str(project.name->0@)
            &&& project.queued_timeout_in_minutes is None ==> !m.contains_key("QueuedTimeoutInMinutes"@)
            &&& project.queued_timeout_in_minutes is Some ==> m.contains_key("QueuedTimeoutInMinutes"@) && m["QueuedTimeoutInMinutes"@] == JsonView::Number(project.queued_timeout_in_minutes->0 as int)
            &&& project.service_role is None ==> !m.contains_key("ServiceRole"@)
            &&& project.service_role is Some ==> m.contains_key("ServiceRole"@) && m["ServiceRole"@] == JsonView::Str(project.service_role->0@)
            &&& project.timeout_in_minutes is None ==> !m.contains_key("TimeoutInMinutes"@)
            &&& project.timeout_in_minutes is Some ==> m.contains_key("TimeoutInMinutes"@) && m["TimeoutInMinutes"@] == JsonView::Number(project.timeout_in_minutes->0 as int)
        }),
{
    lemma_project_json_fields_0(project);
    lemma_project_json_fields_1(project);
    lemma_project_json_fields_2(project);
}

} // verus!

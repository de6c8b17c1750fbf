//! DataBrew jobs and datasets as JSON.
use crate::json::{array_of, opt_str_json, str_json, text_value, with_opt, pairs_map, pairs_value, JsonObject, JsonValue, JsonView};
use crate::timestamp::{ts_json, opt_ts_json, Timestamp};
use std::sync::Arc;
use vstd::prelude::*;

verus! {

/// A job as `ListJobs` reports it; enumerations hold their AWS names.
pub struct Job {
    pub name: String,
    pub account_id: Option<String>,
    pub created_by: Option<String>,
    pub create_date: Option<Timestamp>,
    pub last_modified_date: Option<Timestamp>,
    pub last_modified_by: Option<String>,
    pub job_type: Option<String>,
    pub project_name: Option<String>,
    pub dataset_name: Option<String>,
    pub role_arn: Option<String>,
    /// The tags, as key-value pairs.
    pub tags: Option<Vec<(String, String)>>,
}

/// The recipe of a job.
pub struct RecipeReference {
    pub name: String,
    pub recipe_version: Option<String>,
}

/// An S3 location.
pub struct S3Location {
    pub bucket: String,
    pub key: Option<String>,
}

/// An output of a job.
pub struct Output {
    pub location: Option<S3Location>,
    pub compression_format: Option<String>,
    pub format: Option<String>,
    pub overwrite: bool,
}

/// What `DescribeJob` reports of a job.
pub struct DescribeJobOutput {
    pub name: String,
    pub create_date: Option<Timestamp>,
    pub created_by: Option<String>,
    pub last_modified_date: Option<Timestamp>,
    pub last_modified_by: Option<String>,
    pub project_name: Option<String>,
    pub recipe_reference: Option<RecipeReference>,
    pub dataset_name: Option<String>,
    pub encryption_key_arn: Option<String>,
    pub encryption_mode: Option<String>,
    pub log_subscription: Option<String>,
    pub max_capacity: i64,
    pub max_retries: i64,
    pub outputs: Option<Vec<Output>>,
    pub role_arn: Option<String>,
    pub job_type: Option<String>,
    pub timeout: i64,
    /// The tags, as key-value pairs.
    pub tags: Option<Vec<(String, String)>>,
}

/// A dataset as `ListDatasets` reports it.
pub struct Dataset {
    pub name: String,
    pub account_id: Option<String>,
    pub created_by: Option<String>,
    pub create_date: Option<Timestamp>,
    pub last_modified_date: Option<Timestamp>,
    pub last_modified_by: Option<String>,
    pub source: Option<String>,
    /// The tags, as key-value pairs.
    pub tags: Option<Vec<(String, String)>>,
}

/// What `DescribeDataset` reports of a dataset: the plain fields, and whether the input, format and path options are present.
pub struct DescribeDatasetOutput {
    pub name: String,
    pub created_by: Option<String>,
    pub create_date: Option<Timestamp>,
    pub last_modified_date: Option<Timestamp>,
    pub last_modified_by: Option<String>,
    pub source: Option<String>,
    pub has_input: bool,
    pub has_format_options: bool,
    pub has_path_options: bool,
    /// The tags, as key-value pairs.
    pub tags: Option<Vec<(String, String)>>,
}

/// Reads DataBrew jobs and datasets through a credential coordinator `C`.
pub struct DataBrewService<C> {
    credential_coordinator: Arc<C>,
}

/// The JSON object of a listed job, whose status the listing does not give (`UNKNOWN`).
pub open spec fn job_json(job: Job) -> JsonView {
    let m = Map::<Seq<char>, JsonView>::empty();
    let m = m.insert("JobName"@, str_json(job.name));
    let m = m.insert("ResourceId"@, str_json(job.name));
    let m = m.insert("Name"@, str_json(job.name));
    let m = with_opt(m, "AccountId"@, opt_str_json(job.account_id));
    let m = with_opt(m, "CreatedBy"@, opt_str_json(job.created_by));
    let m = with_opt(m, "CreateDate"@, opt_ts_json(job.create_date));
    let m = with_opt(m, "LastModifiedDate"@, opt_ts_json(job.last_modified_date));
    let m = with_opt(m, "LastModifiedBy"@, opt_str_json(job.last_modified_by));
    let m = with_opt(m, "Type"@, opt_str_json(job.job_type));
    let m = with_opt(m, "ProjectName"@, opt_str_json(job.project_name));
    let m = with_opt(m, "DatasetName"@, opt_str_json(job.dataset_name));
    let m = with_opt(m, "RoleArn"@, opt_str_json(job.role_arn));
    let m = match job.tags { Some(v) => m.insert("Tags"@, JsonView::Object(pairs_map(v@))), None => m };
    let m = m.insert("Status"@, JsonView::Str("UNKNOWN"@));
    JsonView::Object(m)
}

/// The JSON object of a `RecipeReference`.
pub open spec fn recipe_reference_json(x: RecipeReference) -> JsonView {
    let m = Map::<Seq<char>, JsonView>::empty();
    let m = m.insert("Name"@, str_json(x.name));
    let m = with_opt(m, "RecipeVersion"@, opt_str_json(x.recipe_version));
    JsonView::Object(m)
}

fn recipe_reference_to_json(x: &RecipeReference) -> (v: JsonValue)
    ensures
        v.view() == recipe_reference_json(*x),
{
    let mut json = JsonObject::new();
    json.insert_str("Name", &x.name);
    json.insert_opt_str("RecipeVersion", &x.recipe_version);
    JsonValue::Object(json)
}

/// The JSON object of a `S3Location`.
pub open spec fn s3_location_json(x: S3Location) -> JsonView {
    let m = Map::<Seq<char>, JsonView>::empty();
    let m = m.insert("Bucket"@, str_json(x.bucket));
    let m = with_opt(m, "Key"@, opt_str_json(x.key));
    JsonView::Object(m)
}

fn s3_location_to_json(x: &S3Location) -> (v: JsonValue)
    ensures
        v.view() == s3_location_json(*x),
{
    let mut json = JsonObject::new();
    json.insert_str("Bucket", &x.bucket);
    json.insert_opt_str("Key", &x.key);
    JsonValue::Object(json)
}

/// The JSON object of a `Output`.
pub open spec fn output_json(x: Output) -> JsonView {
    let m = Map::<Seq<char>, JsonView>::empty();
    let m = match x.location { Some(e) => m.insert("Location"@, s3_location_json(e)), None => m };
    let m = with_opt(m, "CompressionFormat"@, opt_str_json(x.compression_format));
    let m = with_opt(m, "Format"@, opt_str_json(x.format));
    let m = m.insert("Overwrite"@, JsonView::Bool(x.overwrite));
    JsonView::Object(m)
}

fn output_to_json(x: &Output) -> (v: JsonValue)
    ensures
        v.view() == output_json(*x),
{
    let mut json = JsonObject::new();
    if let Some(e) = &x.location {
        json.insert("Location", s3_location_to_json(e));
    }
    json.insert_opt_str("CompressionFormat", &x.compression_format);
    json.insert_opt_str("Format", &x.format);
    json.insert_bool("Overwrite", x.overwrite);
    JsonValue::Object(json)
}

/// The JSON object of a described job, with status `READY`.
pub open spec fn job_detail_json(response: DescribeJobOutput) -> JsonView {
    let m = Map::<Seq<char>, JsonView>::empty();
    let m = m.insert("JobName"@, str_json(response.name));
    let m = m.insert("ResourceId"@, str_json(response.name));
    let m = m.insert("Name"@, str_json(response.name));
    let m = with_opt(m, "CreateDate"@, opt_ts_json(response.create_date));
    let m = with_opt(m, "CreatedBy"@, opt_str_json(response.created_by));
    let m = with_opt(m, "LastModifiedDate"@, opt_ts_json(response.last_modified_date));
    let m = with_opt(m, "LastModifiedBy"@, opt_str_json(response.last_modified_by));
    let m = with_opt(m, "ProjectName"@, opt_str_json(response.project_name));
    let m = match response.recipe_reference { Some(e) => m.insert("RecipeReference"@, recipe_reference_json(e)), None => m };
    let m = with_opt(m, "DatasetName"@, opt_str_json(response.dataset_name));
    let m = with_opt(m, "EncryptionKeyArn"@, opt_str_json(response.encryption_key_arn));
    let m = with_opt(m, "EncryptionMode"@, opt_str_json(response.encryption_mode));
    let m = with_opt(m, "LogSubscription"@, opt_str_json(response.log_subscription));
    let m = m.insert("MaxCapacity"@, JsonView::Number(response.max_capacity as int));
    let m = m.insert("MaxRetries"@, JsonView::Number(response.max_retries as int));
    let m = match response.outputs { Some(v) => m.insert("Outputs"@, JsonView::Array(v@.map_values(|e: Output| output_json(e)))), None => m };
    let m = with_opt(m, "RoleArn"@, opt_str_json(response.role_arn));
    let m = with_opt(m, "Type"@, opt_str_json(response.job_type));
    let m = m.insert("Timeout"@, JsonView::Number(response.timeout as int));
    let m = match response.tags { Some(v) => m.insert("Tags"@, JsonView::Object(pairs_map(v@))), None => m };
    let m = m.insert("Status"@, JsonView::Str("READY"@));
    JsonView::Object(m)
}

/// The JSON object of a listed dataset, with status `AVAILABLE`.
pub open spec fn dataset_json(dataset: Dataset) -> JsonView {
    let m = Map::<Seq<char>, JsonView>::empty();
    let m = m.insert("DatasetName"@, str_json(dataset.name));
    let m = m.insert("ResourceId"@, str_json(dataset.name));
    let m = m.insert("Name"@, str_json(dataset.name));
    let m = with_opt(m, "AccountId"@, opt_str_json(dataset.account_id));
    let m = with_opt(m, "CreatedBy"@, opt_str_json(dataset.created_by));
    let m = with_opt(m, "CreateDate"@, opt_ts_json(dataset.create_date));
    let m = with_opt(m, "LastModifiedDate"@, opt_ts_json(dataset.last_modified_date));
    let m = with_opt(m, "LastModifiedBy"@, opt_str_json(dataset.last_modified_by));
    let m = with_opt(m, "Source"@, opt_str_json(dataset.source));
    let m = match dataset.tags { Some(v) => m.insert("Tags"@, JsonView::Object(pairs_map(v@))), None => m };
    let m = m.insert("Status"@, JsonView::Str("AVAILABLE"@));
    JsonView::Object(m)
}

/// The JSON object of a described dataset, with status `AVAILABLE`; the input, format and path options are not converted, and stand as a fixed text when present.
pub open spec fn dataset_detail_json(response: DescribeDatasetOutput) -> JsonView {
    let m = Map::<Seq<char>, JsonView>::empty();
    let m = m.insert("DatasetName"@, str_json(response.name));
    let m = m.insert("ResourceId"@, str_json(response.name));
    let m = m.insert("Name"@, str_json(response.name));
    let m = with_opt(m, "CreatedBy"@, opt_str_json(response.created_by));
    let m = with_opt(m, "CreateDate"@, opt_ts_json(response.create_date));
    let m = with_opt(m, "LastModifiedDate"@, opt_ts_json(response.last_modified_date));
    let m = with_opt(m, "LastModifiedBy"@, opt_str_json(response.last_modified_by));
    let m = with_opt(m, "Source"@, opt_str_json(response.source));
    let m = if response.has_input { m.insert("Input"@, JsonView::Str("TODO: Manual conversion needed"@)) } else { m };
    let m = if response.has_format_options { m.insert("FormatOptions"@, JsonView::Str("TODO: Manual conversion needed"@)) } else { m };
    let m = if response.has_path_options { m.insert("PathOptions"@, JsonView::Str("TODO: Manual conversion needed"@)) } else { m };
    let m = match response.tags { Some(v) => m.insert("Tags"@, JsonView::Object(pairs_map(v@))), None => m };
    let m = m.insert("Status"@, JsonView::Str("AVAILABLE"@));
    JsonView::Object(m)
}

impl<C> DataBrewService<C> {
    /// The coordinator that the service was made with.
    pub closed spec fn coordinator(&self) -> Arc<C> {
        self.credential_coordinator
    }

    /// A service that obtains its AWS configurations from `credential_coordinator`.
    pub fn new(credential_coordinator: Arc<C>) -> (s: Self)
        ensures
            s.coordinator() == credential_coordinator,
    {
        Self { credential_coordinator }
    }

    /// The coordinator that the service was made with.
    pub fn credential_coordinator(&self) -> (c: &Arc<C>)
        ensures
            *c == self.coordinator(),
    {
        &self.credential_coordinator
    }

    /// The JSON object of a listed job, whose status the listing does not give (`UNKNOWN`).
    pub fn job_to_json(&self, job: &Job) -> (v: JsonValue)
        ensures
            v.view() == job_json(*job),
    {
        let mut json = JsonObject::new();
        json.insert_str("JobName", &job.name);
        json.insert_str("ResourceId", &job.name);
        json.insert_str("Name", &job.name);
        json.insert_opt_str("AccountId", &job.account_id);
        json.insert_opt_str("CreatedBy", &job.created_by);
        json.insert_opt_ts("CreateDate", &job.create_date);
        json.insert_opt_ts("LastModifiedDate", &job.last_modified_date);
        json.insert_opt_str("LastModifiedBy", &job.last_modified_by);
        json.insert_opt_str("Type", &job.job_type);
        json.insert_opt_str("ProjectName", &job.project_name);
        json.insert_opt_str("DatasetName", &job.dataset_name);
        json.insert_opt_str("RoleArn", &job.role_arn);
        if let Some(v) = &job.tags {
            json.insert("Tags", pairs_value(v));
        }
        json.insert("Status", text_value("UNKNOWN"));
        JsonValue::Object(json)
    }

    /// The JSON object of a described job, with status `READY`.
    pub fn job_detail_to_json(&self, response: &DescribeJobOutput) -> (v: JsonValue)
        ensures
            v.view() == job_detail_json(*response),
    {
        let mut json = JsonObject::new();
        json.insert_str("JobName", &response.name);
        json.insert_str("ResourceId", &response.name);
        json.insert_str("Name", &response.name);
        json.insert_opt_ts("CreateDate", &response.create_date);
        json.insert_opt_str("CreatedBy", &response.created_by);
        json.insert_opt_ts("LastModifiedDate", &response.last_modified_date);
        json.insert_opt_str("LastModifiedBy", &response.last_modified_by);
        json.insert_opt_str("ProjectName", &response.project_name);
        if let Some(e) = &response.recipe_reference {
            json.insert("RecipeReference", recipe_reference_to_json(e));
        }
        json.insert_opt_str("DatasetName", &response.dataset_name);
        json.insert_opt_str("EncryptionKeyArn", &response.encryption_key_arn);
        json.insert_opt_str("EncryptionMode", &response.encryption_mode);
        json.insert_opt_str("LogSubscription", &response.log_subscription);
        json.insert_int("MaxCapacity", response.max_capacity);
        json.insert_int("MaxRetries", response.max_retries);
        if let Some(v) = &response.outputs {
            json.insert("Outputs", array_of(v, output_to_json, Ghost(|e: Output| output_json(e))));
        }
        json.insert_opt_str("RoleArn", &response.role_arn);
        json.insert_opt_str("Type", &response.job_type);
        json.insert_int("Timeout", response.timeout);
        if let Some(v) = &response.tags {
            json.insert("Tags", pairs_value(v));
        }
        json.insert("Status", text_value("READY"));
        JsonValue::Object(json)
    }

    /// The JSON object of a listed dataset, with status `AVAILABLE`.
    pub fn dataset_to_json(&self, dataset: &Dataset) -> (v: JsonValue)
        ensures
            v.view() == dataset_json(*dataset),
    {
        let mut json = JsonObject::new();
        json.insert_str("DatasetName", &dataset.name);
        json.insert_str("ResourceId", &dataset.name);
        json.insert_str("Name", &dataset.name);
        json.insert_opt_str("AccountId", &dataset.account_id);
        json.insert_opt_str("CreatedBy", &dataset.created_by);
        json.insert_opt_ts("CreateDate", &dataset.create_date);
        json.insert_opt_ts("LastModifiedDate", &dataset.last_modified_date);
        json.insert_opt_str("LastModifiedBy", &dataset.last_modified_by);
        json.insert_opt_str("Source", &dataset.source);
        if let Some(v) = &dataset.tags {
            json.insert("Tags", pairs_value(v));
        }
        json.insert("Status", text_value("AVAILABLE"));
        JsonValue::Object(json)
    }

    /// The JSON object of a described dataset, with status `AVAILABLE`; the input, format and path options are not converted, and stand as a fixed text when present.
    pub fn dataset_detail_to_json(&self, response: &DescribeDatasetOutput) -> (v: JsonValue)
        ensures
            v.view() == dataset_detail_json(*response),
    {
        let mut json = JsonObject::new();
        json.insert_str("DatasetName", &response.name);
        json.insert_str("ResourceId", &response.name);
        json.insert_str("Name", &response.name);
        json.insert_opt_str("CreatedBy", &response.created_by);
        json.insert_opt_ts("CreateDate", &response.create_date);
        json.insert_opt_ts("LastModifiedDate", &response.last_modified_date);
        json.insert_opt_str("LastModifiedBy", &response.last_modified_by);
        json.insert_opt_str("Source", &response.source);
        if response.has_input {
            json.insert("Input", text_value("TODO: Manual conversion needed"));
        }
        if response.has_format_options {
            json.insert("FormatOptions", text_value("TODO: Manual conversion needed"));
        }
        if response.has_path_options {
            json.insert("PathOptions", text_value("TODO: Manual conversion needed"));
        }
        if let Some(v) = &response.tags {
            json.insert("Tags", pairs_value(v));
        }
        json.insert("Status", text_value("AVAILABLE"));
        JsonValue::Object(json)
    }

}


// ----- each reported field under its own key -----

/// What tells the keys of `job_json` apart: their lengths, and a letter where two have the same length.
proof fn lemma_job_json_keys_differ()
    ensures
        "AccountId"@.len() == 9 && "AccountId"@[0] == 'A',
        "CreateDate"@.len() == 10 && "CreateDate"@[0] == 'C',
        "CreatedBy"@.len() == 9 && "CreatedBy"@[0] == 'C',
        "DatasetName"@.len() == 11 && "DatasetName"@[0] == 'D',
        "JobName"@.len() == 7 && "JobName"@[0] == 'J',
        "LastModifiedBy"@.len() == 14,
        "LastModifiedDate"@.len() == 16,
        "Name"@.len() == 4 && "Name"@[0] == 'N',
        "ProjectName"@.len() == 11 && "ProjectName"@[0] == 'P',
        "ResourceId"@.len() == 10 && "ResourceId"@[0] == 'R',
        "RoleArn"@.len() == 7 && "RoleArn"@[0] == 'R',
        "Status"@.len() == 6,
        "Tags"@.len() == 4 && "Tags"@[0] == 'T' && "Tags"@[1] == 'a',
        "Type"@.len() == 4 && "Type"@[0] == 'T' && "Type"@[1] == 'y',
        "UNKNOWN"@.len() == 7 && "UNKNOWN"@[0] == 'U',
{
    reveal_strlit("AccountId");
    reveal_strlit("CreateDate");
    reveal_strlit("CreatedBy");
    reveal_strlit("DatasetName");
    reveal_strlit("JobName");
    reveal_strlit("LastModifiedBy");
    reveal_strlit("LastModifiedDate");
    reveal_strlit("Name");
    reveal_strlit("ProjectName");
    reveal_strlit("ResourceId");
    reveal_strlit("RoleArn");
    reveal_strlit("Status");
    reveal_strlit("Tags");
    reveal_strlit("Type");
    reveal_strlit("UNKNOWN");
}

#[verifier::spinoff_prover]
#[verifier::rlimit(30)]
proof fn lemma_job_json_fields_0(job: Job)
    ensures
        job_json(job) is Object,
        ({
            let m = job_json(job)->Object_0;
            &&& job.account_id is None ==> !m.contains_key("AccountId"@)
            &&& job.account_id is Some ==> m.contains_key("AccountId"@) && m["AccountId"@] == JsonView::Str(job.account_id->0@)
            &&& job.create_date is None ==> !m.contains_key("CreateDate"@)
            &&& job.create_date is Some ==> m.contains_key("CreateDate"@) && m["CreateDate"@] == ts_json(job.create_date->0)
            &&& job.created_by is None ==> !m.contains_key("CreatedBy"@)
            &&& job.created_by is Some ==> m.contains_key("CreatedBy"@) && m["CreatedBy"@] == JsonView::Str(job.created_by->0@)
        }),
{
    lemma_job_json_keys_differ();
}

#[verifier::spinoff_prover]
#[verifier::rlimit(30)]
proof fn lemma_job_json_fields_1(job: Job)
    ensures
        job_json(job) is Object,
        ({
            let m = job_json(job)->Object_0;
            &&& job.dataset_name is None ==> !m.contains_key("DatasetName"@)
            &&& job.dataset_name is Some ==> m.contains_key("DatasetName"@) && m["DatasetName"@] == JsonView::Str(job.dataset_name->0@)
            &&& job.last_modified_by is None ==> !m.contains_key("LastModifiedBy"@)
            &&& job.last_modified_by is Some ==> m.contains_key("LastModifiedBy"@) && m["LastModifiedBy"@] == JsonView::Str(job.last_modified_by->0@)
            &&& job.last_modified_date is None ==> !m.contains_key("LastModifiedDate"@)
            &&& job.last_modified_date is Some ==> m.contains_key("LastModifiedDate"@) && m["LastModifiedDate"@] == ts_json(job.last_modified_date->0)
        }),
{
    lemma_job_json_keys_differ();
}

#[verifier::spinoff_prover]
#[verifier::rlimit(30)]
proof fn lemma_job_json_fields_2(job: Job)
    ensures
        job_json(job) is Object,
        ({
            let m = job_json(job)->Object_0;
            &&& job.project_name is None ==> !m.contains_key("ProjectName"@)
            &&& job.project_name is Some ==> m.contains_key("ProjectName"@) && m["ProjectName"@] == JsonView::Str(job.project_name->0@)
            &&& job.role_arn is None ==> !m.contains_key("RoleArn"@)
            &&& job.role_arn is Some ==> m.contains_key("RoleArn"@) && m["RoleArn"@] == JsonView::Str(job.role_arn->0@)
            &&& job.job_type is None ==> !m.contains_key("Type"@)
            &&& job.job_type is Some ==> m.contains_key("Type"@) && m["Type"@] == JsonView::Str(job.job_type->0@)
        }),
{
    lemma_job_json_keys_differ();
}

/// The object of a job holds each reported field of it under its own key, and such a key is missing exactly when AWS did not report the field.
pub proof fn law_job_fields(job: Job)
    ensures
        job_json(job) is Object,
        ({
            let m = job_json(job)->Object_0;
            &&& job.account_id is None ==> !m.contains_key("AccountId"@)
            &&& job.account_id is Some ==> m.contains_key("AccountId"@) && m["AccountId"@] == JsonView::Str(job.account_id->0@)
            &&& job.create_date is None ==> !m.contains_key("CreateDate"@)
            &&& job.create_date is Some ==> m.contains_key("CreateDate"@) && m["CreateDate"@] == ts_json(job.create_date->0)
            &&& job.created_by is None ==> !m.contains_key("CreatedBy"@)
            &&& job.created_by is Some ==> m.contains_key("CreatedBy"@) && m["CreatedBy"@] == JsonView::Str(job.created_by->0@)
            &&& job.dataset_name is None ==> !m.contains_key("DatasetName"@)
            &&& job.dataset_name is Some ==> m.contains_key("DatasetName"@) && m["DatasetName"@] == JsonView::Str(job.dataset_name->0@)
            &&& job.last_modified_by is None ==> !m.contains_key("LastModifiedBy"@)
            &&& job.last_modified_by is Some ==> m.contains_key("LastModifiedBy"@) && m["LastModifiedBy"@] == JsonView::Str(job.last_modified_by->0@)
            &&& job.last_modified_date is None ==> !m.contains_key("LastModifiedDate"@)
            &&& job.last_modified_date is Some ==> m.contains_key("LastModifiedDate"@) && m["LastModifiedDate"@] == ts_json(job.last_modified_date->0)
            &&& job.project_name is None ==> !m.contains_key("ProjectName"@)
            &&& job.project_name is Some ==> m.contains_key("ProjectName"@) && m["ProjectName"@] == JsonView::Str(job.project_name->0@)
            &&& job.role_arn is None ==> !m.contains_key("RoleArn"@)
            &&& job.role_arn is Some ==> m.contains_key("RoleArn"@) && m["RoleArn"@] == JsonView::Str(job.role_arn->0@)
            &&& job.job_type is None ==> !m.contains_key("Type"@)
            &&& job.job_type is Some ==> m.contains_key("Type"@) && m["Type"@] == JsonView::Str(job.job_type->0@)
        }),
{
    lemma_job_json_fields_0(job);
    lemma_job_json_fields_1(job);
    lemma_job_json_fields_2(job);
}

/// What tells the keys of `output_json` apart: their lengths, and a letter where two have the same length.
proof fn lemma_output_json_keys_differ()
    ensures
        "CompressionFormat"@.len() == 17,
        "Format"@.len() == 6,
        "Location"@.len() == 8,
        "Overwrite"@.len() == 9,
{
    reveal_strlit("CompressionFormat");
    reveal_strlit("Format");
    reveal_strlit("Location");
    reveal_strlit("Overwrite");
}

#[verifier::spinoff_prover]
#[verifier::rlimit(30)]
proof fn lemma_output_json_fields_0(x: Output)
    ensures
        output_json(x) is Object,
        ({
            let m = output_json(x)->Object_0;
            &&& x.compression_format is None ==> !m.contains_key("CompressionFormat"@)
            &&& x.compression_format is Some ==> m.contains_key("CompressionFormat"@) && m["CompressionFormat"@] == JsonView::Str(x.compression_format->0@)
            &&& x.format is None ==> !m.contains_key("Format"@)
            &&& x.format is Some ==> m.contains_key("Format"@) && m["Format"@] == JsonView::Str(x.format->0@)
        }),
{
    lemma_output_json_keys_differ();
}

/// The object of a output holds each reported field of it under its own key, and such a key is missing exactly when AWS did not report the field.
pub proof fn law_output_fields(x: Output)
    ensures
        output_json(x) is Object,
        ({
            let m = output_json(x)->Object_0;
            &&& x.compression_format is None ==> !m.contains_key("CompressionFormat"@)
            &&& x.compression_format is Some ==> m.contains_key("CompressionFormat"@) && m["CompressionFormat"@] == JsonView::Str(x.compression_format->0@)
            &&& x.format is None ==> !m.contains_key("Format"@)
            &&& x.format is Some ==> m.contains_key("Format"@) && m["Format"@] == JsonView::Str(x.format->0@)
        }),
{
    lemma_output_json_fields_0(x);
}

/// What tells the keys of `job_detail_json` apart: their lengths, and a letter where two have the same length.
proof fn lemma_job_detail_json_keys_differ()
    ensures
        "CreateDate"@.len() == 10 && "CreateDate"@[0] == 'C',
        "CreatedBy"@.len() == 9,
        "DatasetName"@.len() == 11 && "DatasetName"@[0] == 'D',
        "EncryptionKeyArn"@.len() == 16 && "EncryptionKeyArn"@[0] == 'E',
        "EncryptionMode"@.len() == 14 && "EncryptionMode"@[0] == 'E',
        "JobName"@.len() == 7 && "JobName"@[0] == 'J',
        "LastModifiedBy"@.len() == 14 && "LastModifiedBy"@[0] == 'L',
        "LastModifiedDate"@.len() == 16 && "LastModifiedDate"@[0] == 'L',
        "LogSubscription"@.len() == 15 && "LogSubscription"@[0] == 'L',
        "MaxCapacity"@.len() == 11 && "MaxCapacity"@[0] == 'M',
        "MaxRetries"@.len() == 10 && "MaxRetries"@[0] == 'M',
        "Name"@.len() == 4 && "Name"@[0] == 'N',
        "Outputs"@.len() == 7 && "Outputs"@[0] == 'O',
        "ProjectName"@.len() == 11 && "ProjectName"@[0] == 'P',
        "READY"@.len() == 5,
        "RecipeReference"@.len() == 15 && "RecipeReference"@[0] == 'R',
        "ResourceId"@.len() == 10 && "ResourceId"@[0] == 'R',
        "RoleArn"@.len() == 7 && "RoleArn"@[0] == 'R',
        "Status"@.len() == 6,
        "Tags"@.len() == 4 && "Tags"@[0] == 'T' && "Tags"@[1] == 'a',
        "Timeout"@.len() == 7 && "Timeout"@[0] == 'T',
        "Type"@.len() == 4 && "Type"@[0] == 'T' && "Type"@[1] == 'y',
{
    reveal_strlit("CreateDate");
    reveal_strlit("CreatedBy");
    reveal_strlit("DatasetName");
    reveal_strlit("EncryptionKeyArn");
    reveal_strlit("EncryptionMode");
    reveal_strlit("JobName");
    reveal_strlit("LastModifiedBy");
    reveal_strlit("LastModifiedDate");
    reveal_strlit("LogSubscription");
    reveal_strlit("MaxCapacity");
    reveal_strlit("MaxRetries");
    reveal_strlit("Name");
    reveal_strlit("Outputs");
    reveal_strlit("ProjectName");
    reveal_strlit("READY");
    reveal_strlit("RecipeReference");
    reveal_strlit("ResourceId");
    reveal_strlit("RoleArn");
    reveal_strlit("Status");
    reveal_strlit("Tags");
    reveal_strlit("Timeout");
    reveal_strlit("Type");
}

#[verifier::spinoff_prover]
#[verifier::rlimit(30)]
proof fn lemma_job_detail_json_fields_0(response: DescribeJobOutput)
    ensures
        job_detail_json(response) is Object,
        ({
            let m = job_detail_json(response)->Object_0;
            &&& response.create_date is None ==> !m.contains_key("CreateDate"@)
            &&& response.create_date is Some ==> m.contains_key("CreateDate"@) && m["CreateDate"@] == ts_json(response.create_date->0)
            &&& response.created_by is None ==> !m.contains_key("CreatedBy"@)
            &&& response.created_by is Some ==> m.contains_key("CreatedBy"@) && m["CreatedBy"@] == JsonView::Str(response.created_by->0@)
            &&& response.dataset_name is None ==> !m.contains_key("DatasetName"@)
            &&& response.dataset_name is Some ==> m.contains_key("DatasetName"@) && m["DatasetName"@] == JsonView::Str(response.dataset_name->0@)
        }),
{
    lemma_job_detail_json_keys_differ();
}

#[verifier::spinoff_prover]
#[verifier::rlimit(30)]
proof fn lemma_job_detail_json_fields_1(response: DescribeJobOutput)
    ensures
        job_detail_json(response) is Object,
        ({
            let m = job_detail_json(response)->Object_0;
            &&& response.encryption_key_arn is None ==> !m.contains_key("EncryptionKeyArn"@)
            &&& response.encryption_key_arn is Some ==> m.contains_key("EncryptionKeyArn"@) && m["EncryptionKeyArn"@] == JsonView::Str(response.encryption_key_arn->0@)
            &&& response.encryption_mode is None ==> !m.contains_key("EncryptionMode"@)
            &&& response.encryption_mode is Some ==> m.contains_key("EncryptionMode"@) && m["EncryptionMode"@] == JsonView::Str(response.encryption_mode->0@)
            &&& response.last_modified_by is None ==> !m.contains_key("LastModifiedBy"@)
            &&& response.last_modified_by is Some ==> m.contains_key("LastModifiedBy"@) && m["LastModifiedBy"@] == JsonView::Str(response.last_modified_by->0@)
        }),
{
    lemma_job_detail_json_keys_differ();
}

#[verifier::spinoff_prover]
#[verifier::rlimit(30)]
proof fn lemma_job_detail_json_fields_2(response: DescribeJobOutput)
    ensures
        job_detail_json(response) is Object,
        ({
            let m = job_detail_json(response)->Object_0;
            &&& response.last_modified_date is None ==> !m.contains_key("LastModifiedDate"@)
            &&& response.last_modified_date is Some ==> m.contains_key("LastModifiedDate"@) && m["LastModifiedDate"@] == ts_json(response.last_modified_date->0)
            &&& response.log_subscription is None ==> !m.contains_key("LogSubscription"@)
            &&& response.log_subscription is Some ==> m.contains_key("LogSubscription"@) && m["LogSubscription"@] == JsonView::Str(response.log_subscription->0@)
            &&& response.project_name is None ==> !m.contains_key("ProjectName"@)
            &&& response.project_name is Some ==> m.contains_key("ProjectName"@) && m["ProjectName"@] == JsonView::Str(response.project_name->0@)
        }),
{
    lemma_job_detail_json_keys_differ();
}

#[verifier::spinoff_prover]
#[verifier::rlimit(30)]
proof fn lemma_job_detail_json_fields_3(response: DescribeJobOutput)
    ensures
        job_detail_json(response) is Object,
        ({
            let m = job_detail_json(response)->Object_0;
            &&& response.role_arn is None ==> !m.contains_key("RoleArn"@)
            &&& response.role_arn is Some ==> m.contains_key("RoleArn"@) && m["RoleArn"@] == JsonView::Str(response.role_arn->0@)
            &&& response.job_type is None ==> !m.contains_key("Type"@)
            &&& response.job_type is Some ==> m.contains_key("Type"@) && m["Type"@] == JsonView::Str(response.job_type->0@)
        }),
{
    lemma_job_detail_json_keys_differ();
}

/// The object of a describe job output holds each reported field of it under its own key, and such a key is missing exactly when AWS did not report the field.
pub proof fn law_job_detail_fields(response: DescribeJobOutput)
    ensures
        job_detail_json(response) is Object,
        ({
            let m = job_detail_json(response)->Object_0;
            &&& response.create_date is None ==> !m.contains_key("CreateDate"@)
            &&& response.create_date is Some ==> m.contains_key("CreateDate"@) && m["CreateDate"@] == ts_json(response.create_date->0)
            &&& response.created_by is None ==> !m.contains_key("CreatedBy"@)
            &&& response.created_by is Some ==> m.contains_key("CreatedBy"@) && m["CreatedBy"@] == JsonView::Str(response.created_by->0@)
            &&& response.dataset_name is None ==> !m.contains_key("DatasetName"@)
            &&& response.dataset_name is Some ==> m.contains_key("DatasetName"@) && m["DatasetName"@] == JsonView::Str(response.dataset_name->0@)
            &&& response.encryption_key_arn is None ==> !m.contains_key("EncryptionKeyArn"@)
            &&& response.encryption_key_arn is Some ==> m.contains_key("EncryptionKeyArn"@) && m["EncryptionKeyArn"@] == JsonView::Str(response.encryption_key_arn->0@)
            &&& response.encryption_mode is None ==> !m.contains_key("EncryptionMode"@)
            &&& response.encryption_mode is Some ==> m.contains_key("EncryptionMode"@) && m["EncryptionMode"@] == JsonView::Str(response.encryption_mode->0@)
            &&& response.last_modified_by is None ==> !m.contains_key("LastModifiedBy"@)
            &&& response.last_modified_by is Some ==> m.contains_key("LastModifiedBy"@) && m["LastModifiedBy"@] == JsonView::Str(response.last_modified_by->0@)
            &&& response.last_modified_date is None ==> !m.contains_key("LastModifiedDate"@)
            &&& response.last_modified_date is Some ==> m.contains_key("LastModifiedDate"@) && m["LastModifiedDate"@] == ts_json(response.last_modified_date->0)
            &&& response.log_subscription is None ==> !m.contains_key("LogSubscription"@)
            &&& response.log_subscription is Some ==> m.contains_key("LogSubscription"@) && m["LogSubscription"@] == JsonView::Str(response.log_subscription->0@)
            &&& response.project_name is None ==> !m.contains_key("ProjectName"@)
            &&& response.project_name is Some ==> m.contains_key("ProjectName"@) && m["ProjectName"@] == JsonView::Str(response.project_name->0@)
            &&& response.role_arn is None ==> !m.contains_key("RoleArn"@)
            &&& response.role_arn is Some ==> m.contains_key("RoleArn"@) && m["RoleArn"@] == JsonView::Str(response.role_arn->0@)
            &&& response.job_type is None ==> !m.contains_key("Type"@)
            &&& response.job_type is Some ==> m.contains_key("Type"@) && m["Type"@] == JsonView::Str(response.job_type->0@)
        }),
{
    lemma_job_detail_json_fields_0(response);
    lemma_job_detail_json_fields_1(response);
    lemma_job_detail_json_fields_2(response);
    lemma_job_detail_json_fields_3(response);
}

/// What tells the keys of `dataset_json` apart: their lengths, and a letter where two have the same length.
proof fn lemma_dataset_json_keys_differ()
    ensures
        "AVAILABLE"@.len() == 9 && "AVAILABLE"@[1] == 'V' && "AVAILABLE"@[0] == 'A',
        "AccountId"@.len() == 9 && "AccountId"@[1] == 'c' && "AccountId"@[0] == 'A',
        "CreateDate"@.len() == 10 && "CreateDate"@[0] == 'C',
        "CreatedBy"@.len() == 9 && "CreatedBy"@[0] == 'C',
        "DatasetName"@.len() == 11,
        "LastModifiedBy"@.len() == 14,
        "LastModifiedDate"@.len() == 16,
        "Name"@.len() == 4 && "Name"@[0] == 'N',
        "ResourceId"@.len() == 10 && "ResourceId"@[0] == 'R',
        "Source"@.len() == 6 && "Source"@[1] == 'o',
        "Status"@.len() == 6 && "Status"@[1] == 't',
        "Tags"@.len() == 4 && "Tags"@[0] == 'T',
{
    reveal_strlit("AVAILABLE");
    reveal_strlit("AccountId");
    reveal_strlit("CreateDate");
    reveal_strlit("CreatedBy");
    reveal_strlit("DatasetName");
    reveal_strlit("LastModifiedBy");
    reveal_strlit("LastModifiedDate");
    reveal_strlit("Name");
    reveal_strlit("ResourceId");
    reveal_strlit("Source");
    reveal_strlit("Status");
    reveal_strlit("Tags");
}

#[verifier::spinoff_prover]
#[verifier::rlimit(30)]
proof fn lemma_dataset_json_fields_0(dataset: Dataset)
    ensures
        dataset_json(dataset) is Object,
        ({
            let m = dataset_json(dataset)->Object_0;
            &&& dataset.account_id is None ==> !m.contains_key("AccountId"@)
            &&& dataset.account_id is Some ==> m.contains_key("AccountId"@) && m["AccountId"@] == JsonView::Str(dataset.account_id->0@)
            &&& dataset.create_date is None ==> !m.contains_key("CreateDate"@)
            &&& dataset.create_date is Some ==> m.contains_key("CreateDate"@) && m["CreateDate"@] == ts_json(dataset.create_date->0)
            &&& dataset.created_by is None ==> !m.contains_key("CreatedBy"@)
            &&& dataset.created_by is Some ==> m.contains_key("CreatedBy"@) && m["CreatedBy"@] == JsonView::Str(dataset.created_by->0@)
        }),
{
    lemma_dataset_json_keys_differ();
}

#[verifier::spinoff_prover]
#[verifier::rlimit(30)]
proof fn lemma_dataset_json_fields_1(dataset: Dataset)
    ensures
        dataset_json(dataset) is Object,
        ({
            let m = dataset_json(dataset)->Object_0;
            &&& dataset.last_modified_by is None ==> !m.contains_key("LastModifiedBy"@)
            &&& dataset.last_modified_by is Some ==> m.contains_key("LastModifiedBy"@) && m["LastModifiedBy"@] == JsonView::Str(dataset.last_modified_by->0@)
            &&& dataset.last_modified_date is None ==> !m.contains_key("LastModifiedDate"@)
            &&& dataset.last_modified_date is Some ==> m.contains_key("LastModifiedDate"@) && m["LastModifiedDate"@] == ts_json(dataset.last_modified_date->0)
            &&& dataset.source is None ==> !m.contains_key("Source"@)
            &&& dataset.source is Some ==> m.contains_key("Source"@) && m["Source"@] == JsonView::Str(dataset.source->0@)
        }),
{
    lemma_dataset_json_keys_differ();
}

/// The object of a dataset holds each reported field of it under its own key, and such a key is missing exactly when AWS did not report the field.
pub proof fn law_dataset_fields(dataset: Dataset)
    ensures
        dataset_json(dataset) is Object,
        ({
            let m = dataset_json(dataset)->Object_0;
            &&& dataset.account_id is None ==> !m.contains_key("AccountId"@)
            &&& dataset.account_id is Some ==> m.contains_key("AccountId"@) && m["AccountId"@] == JsonView::Str(dataset.account_id->0@)
            &&& dataset.create_date is None ==> !m.contains_key("CreateDate"@)
            &&& dataset.create_date is Some ==> m.contains_key("CreateDate"@) && m["CreateDate"@] == ts_json(dataset.create_date->0)
            &&& dataset.created_by is None ==> !m.contains_key("CreatedBy"@)
            &&& dataset.created_by is Some ==> m.contains_key("CreatedBy"@) && m["CreatedBy"@] == JsonView::Str(dataset.created_by->0@)
            &&& dataset.last_modified_by is None ==> !m.contains_key("LastModifiedBy"@)
            &&& dataset.last_modified_by is Some ==> m.contains_key("LastModifiedBy"@) && m["LastModifiedBy"@] == JsonView::Str(dataset.last_modified_by->0@)
            &&& dataset.last_modified_date is None ==> !m.contains_key("LastModifiedDate"@)
            &&& dataset.last_modified_date is Some ==> m.contains_key("LastModifiedDate"@) && m["LastModifiedDate"@] == ts_json(dataset.last_modified_date->0)
            &&& dataset.source is None ==> !m.contains_key("Source"@)
            &&& dataset.source is Some ==> m.contains_key("Source"@) && m["Source"@] == JsonView::Str(dataset.source->0@)
        }),
{
    lemma_dataset_json_fields_0(dataset);
    lemma_dataset_json_fields_1(dataset);
}

/// What tells the keys of `dataset_detail_json` apart: their lengths, and a letter where two have the same length.
proof fn lemma_dataset_detail_json_keys_differ()
    ensures
        "AVAILABLE"@.len() == 9 && "AVAILABLE"@[0] == 'A',
        "CreateDate"@.len() == 10 && "CreateDate"@[0] == 'C',
        "CreatedBy"@.len() == 9 && "CreatedBy"@[0] == 'C',
        "DatasetName"@.len() == 11 && "DatasetName"@[0] == 'D',
        "FormatOptions"@.len() == 13,
        "Input"@.len() == 5,
        "LastModifiedBy"@.len() == 14,
        "LastModifiedDate"@.len() == 16,
        "Name"@.len() == 4 && "Name"@[0] == 'N',
        "PathOptions"@.len() == 11 && "PathOptions"@[0] == 'P',
        "ResourceId"@.len() == 10 && "ResourceId"@[0] == 'R',
        "Source"@.len() == 6 && "Source"@[1] == 'o',
        "Status"@.len() == 6 && "Status"@[1] == 't',
        "Tags"@.len() == 4 && "Tags"@[0] == 'T',
{
    reveal_strlit("AVAILABLE");
    reveal_strlit("CreateDate");
    reveal_strlit("CreatedBy");
    reveal_strlit("DatasetName");
    reveal_strlit("FormatOptions");
    reveal_strlit("Input");
    reveal_strlit("LastModifiedBy");
    reveal_strlit("LastModifiedDate");
    reveal_strlit("Name");
    reveal_strlit("PathOptions");
    reveal_strlit("ResourceId");
    reveal_strlit("Source");
    reveal_strlit("Status");
    reveal_strlit("Tags");
}

#[verifier::spinoff_prover]
#[verifier::rlimit(30)]
proof fn lemma_dataset_detail_json_fields_0(response: DescribeDatasetOutput)
    ensures
        dataset_detail_json(response) is Object,
        ({
            let m = dataset_detail_json(response)->Object_0;
            &&& response.create_date is None ==> !m.contains_key("CreateDate"@)
            &&& response.create_date is Some ==> m.contains_key("CreateDate"@) && m["CreateDate"@] == ts_json(response.create_date->0)
            &&& response.created_by is None ==> !m.contains_key("CreatedBy"@)
            &&& response.created_by is Some ==> m.contains_key("CreatedBy"@) && m["CreatedBy"@] == JsonView::Str(response.created_by->0@)
            &&& response.last_modified_by is None ==> !m.contains_key("LastModifiedBy"@)
            &&& response.last_modified_by is Some ==> m.contains_key("LastModifiedBy"@) && m["LastModifiedBy"@] == JsonView::Str(response.last_modified_by->0@)
        }),
{
    lemma_dataset_detail_json_keys_differ();
}

#[verifier::spinoff_prover]
#[verifier::rlimit(30)]
proof fn lemma_dataset_detail_json_fields_1(response: DescribeDatasetOutput)
    ensures
        dataset_detail_json(response) is Object,
        ({
            let m = dataset_detail_json(response)->Object_0;
            &&& response.last_modified_date is None ==> !m.contains_key("LastModifiedDate"@)
            &&& response.last_modified_date is Some ==> m.contains_key("LastModifiedDate"@) && m["LastModifiedDate"@] == ts_json(response.last_modified_date->0)
            &&& response.source is None ==> !m.contains_key("Source"@)
            &&& response.source is Some ==> m.contains_key("Source"@) && m["Source"@] == JsonView::Str(response.source->0@)
        }),
{
    lemma_dataset_detail_json_keys_differ();
}

/// The object of a describe dataset output holds each reported field of it under its own key, and such a key is missing exactly when AWS did not report the field.
pub proof fn law_dataset_detail_fields(response: DescribeDatasetOutput)
    ensures
        dataset_detail_json(response) is Object,
        ({
            let m = dataset_detail_json(response)->Object_0;
            &&& response.create_date is None ==> !m.contains_key("CreateDate"@)
            &&& response.create_date is Some ==> m.contains_key("CreateDate"@) && m["CreateDate"@] == ts_json(response.create_date->0)
            &&& response.created_by is None ==> !m.contains_key("CreatedBy"@)
            &&& response.created_by is Some ==> m.contains_key("CreatedBy"@) && m["CreatedBy"@] == JsonView::Str(response.created_by->0@)
            &&& response.last_modified_by is None ==> !m.contains_key("LastModifiedBy"@)
            &&& response.last_modified_by is Some ==> m.contains_key("LastModifiedBy"@) && m["LastModifiedBy"@] == JsonView::Str(response.last_modified_by->0@)
            &&& response.last_modified_date is None ==> !m.contains_key("LastModifiedDate"@)
            &&& response.last_modified_date is Some ==> m.contains_key("LastModifiedDate"@) && m["LastModifiedDate"@] == ts_json(response.last_modified_date->0)
            &&& response.source is None ==> !m.contains_key("Source"@)
            &&& response.source is Some ==> m.contains_key("Source"@) && m["Source"@] == JsonView::Str(response.source->0@)
        }),
{
    lemma_dataset_detail_json_fields_0(response);
    lemma_dataset_detail_json_fields_1(response);
}

} // verus!

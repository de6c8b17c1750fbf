//! AWS CodeCommit repositories as JSON.
use crate::json::{opt_str_json, opt_strs_json, opt_view, str_json, strs_json, strs_value, text_value, with_opt, items_view, lemma_items_view_index, values_of, str_value, JsonObject, JsonValue, JsonView};
use crate::timestamp::{ts_json, opt_ts_json, Timestamp};
use crate::text::{concat_text, contains, has_substring};
use std::sync::Arc;
use vstd::prelude::*;

verus! {

/// A repository as `ListRepositories` names it.
pub struct RepositoryNameIdPair {
    pub repository_name: Option<String>,
    pub repository_id: Option<String>,
}

/// A repository as `GetRepository` reports it.
pub struct RepositoryMetadata {
    pub repository_name: Option<String>,
    pub repository_id: Option<String>,
    pub repository_description: Option<String>,
    pub default_branch: Option<String>,
    pub last_modified_date: Option<Timestamp>,
    pub creation_date: Option<Timestamp>,
    pub clone_url_http: Option<String>,
    pub clone_url_ssh: Option<String>,
    pub arn: Option<String>,
    pub account_id: Option<String>,
}

/// A trigger of a repository; each event is the debug text of its AWS enumeration value.
pub struct RepositoryTrigger {
    pub name: String,
    pub destination_arn: String,
    pub events: Vec<String>,
    pub branches: Option<Vec<String>>,
    pub custom_data: Option<String>,
}

/// A branch as `GetBranch` reports it.
pub struct BranchInfo {
    pub branch_name: Option<String>,
    pub commit_id: Option<String>,
}

/// A failed call: its error as the debug text and as the displayed text.
pub struct CallError {
    pub debug_text: String,
    pub display_text: String,
}

/// Reads AWS CodeCommit repositories through a credential coordinator `C`.
pub struct CodeCommitService<C> {
    credential_coordinator: Arc<C>,
}

/// The JSON object of a repository, always with status `Active`.
pub open spec fn repository_metadata_json(repo: RepositoryMetadata) -> JsonView {
    let m = Map::<Seq<char>, JsonView>::empty();
    let m = with_opt(m, "RepositoryName"@, opt_str_json(repo.repository_name));
    let m = with_opt(m, "Name"@, opt_str_json(repo.repository_name));
    let m = with_opt(m, "RepositoryId"@, opt_str_json(repo.repository_id));
    let m = with_opt(m, "RepositoryDescription"@, opt_str_json(repo.repository_description));
    let m = with_opt(m, "Description"@, opt_str_json(repo.repository_description));
    let m = with_opt(m, "DefaultBranch"@, opt_str_json(repo.default_branch));
    let m = with_opt(m, "LastModifiedDate"@, opt_ts_json(repo.last_modified_date));
    let m = with_opt(m, "CreationDate"@, opt_ts_json(repo.creation_date));
    let m = with_opt(m, "CloneUrlHttp"@, opt_str_json(repo.clone_url_http));
    let m = with_opt(m, "CloneUrlSsh"@, opt_str_json(repo.clone_url_ssh));
    let m = with_opt(m, "Arn"@, opt_str_json(repo.arn));
    let m = with_opt(m, "AccountId"@, opt_str_json(repo.account_id));
    let m = m.insert("Status"@, JsonView::Str("Active"@));
    JsonView::Object(m)
}

/// The JSON object of a `RepositoryTrigger`.
pub open spec fn trigger_json(x: RepositoryTrigger) -> JsonView {
    let m = Map::<Seq<char>, JsonView>::empty();
    let m = m.insert("Name"@, str_json(x.name));
    let m = m.insert("DestinationArn"@, str_json(x.destination_arn));
    let m = m.insert("Events"@, strs_json(x.events@));
    let m = with_opt(m, "Branches"@, opt_strs_json(x.branches));
    let m = with_opt(m, "CustomData"@, opt_str_json(x.custom_data));
    JsonView::Object(m)
}

fn trigger_to_json(x: &RepositoryTrigger) -> (v: JsonValue)
    ensures
        v.view() == trigger_json(*x),
{
    let mut json = JsonObject::new();
    json.insert_str("Name", &x.name);
    json.insert_str("DestinationArn", &x.destination_arn);
    json.insert("Events", strs_value(&x.events));
    json.insert_opt_strs("Branches", &x.branches);
    json.insert_opt_str("CustomData", &x.custom_data);
    JsonValue::Object(json)
}

impl<C> CodeCommitService<C> {
    /// The coordinator that the service was made with.
    pub closed spec fn coordinator(&self) -> Arc<C> {
        self.credential_coordinator
    }

    /// A service that obtains its AWS configurations from `credential_coordinator`.
    pub fn new(credential_coordinator: Arc<C>) -> (s: Self)
        ensures
            s.coordinator() == credential_coordinator,
    {
        Self { credential_coordinator }
    }

    /// The coordinator that the service was made with.
    pub fn credential_coordinator(&self) -> (c: &Arc<C>)
        ensures
            *c == self.coordinator(),
    {
        &self.credential_coordinator
    }

    /// The JSON object of a repository, always with status `Active`.
    pub fn repository_metadata_to_json(&self, repo: &RepositoryMetadata) -> (v: JsonValue)
        ensures
            v.view() == repository_metadata_json(*repo),
    {
        let mut json = JsonObject::new();
        json.insert_opt_str("RepositoryName", &repo.repository_name);
        json.insert_opt_str("Name", &repo.repository_name);
        json.insert_opt_str("RepositoryId", &repo.repository_id);
        json.insert_opt_str("RepositoryDescription", &repo.repository_description);
        json.insert_opt_str("Description", &repo.repository_description);
        json.insert_opt_str("DefaultBranch", &repo.default_branch);
        json.insert_opt_ts("LastModifiedDate", &repo.last_modified_date);
        json.insert_opt_ts("CreationDate", &repo.creation_date);
        json.insert_opt_str("CloneUrlHttp", &repo.clone_url_http);
        json.insert_opt_str("CloneUrlSsh", &repo.clone_url_ssh);
        json.insert_opt_str("Arn", &repo.arn);
        json.insert_opt_str("AccountId", &repo.account_id);
        json.insert("Status", text_value("Active"));
        JsonValue::Object(json)
    }

}

/// The entry listed for a repository whose details were not read.
pub open spec fn basic_repository_json(name: String, repository_id: Option<String>) -> JsonView {
    let m = Map::<Seq<char>, JsonView>::empty();
    let m = m.insert("RepositoryName"@, str_json(name));
    let m = m.insert("Name"@, str_json(name));
    let m = with_opt(m, "RepositoryId"@, opt_str_json(repository_id));
    JsonView::Object(m.insert("Status"@, JsonView::Str("Active"@)))
}

/// The entry a listed repository starts from: its details when they were
/// asked for and read, else the basic entry.
pub open spec fn repository_base_json(
    name: String,
    repository_id: Option<String>,
    include_details: bool,
    details: Option<Result<JsonView, Seq<char>>>,
) -> JsonView {
    match details {
        Some(Ok(d)) => if include_details {
            d
        } else {
            basic_repository_json(name, repository_id)
        },
        _ => basic_repository_json(name, repository_id),
    }
}

/// An entry with the answers of the triggers and branches calls bound in,
/// each only when it answered; a value that is not an object is left as it is.
pub open spec fn with_extras_json(entry: JsonView, triggers: Option<JsonView>, branches: Option<JsonView>) -> JsonView {
    match entry {
        JsonView::Object(m) => JsonView::Object(with_opt(with_opt(m, "Triggers"@, triggers), "Branches"@, branches)),
        other => other,
    }
}

/// Whether an error is one that reads as "nothing there": the named
/// exception, or a denied access.
pub open spec fn is_quiet_error(e: CallError, exception: Seq<char>) -> bool {
    has_substring(e.debug_text@, exception) || has_substring(e.debug_text@, "AccessDenied"@)
}

/// A list of items with its count.
pub open spec fn counted_json(items: Seq<JsonView>) -> JsonView {
    JsonView::Object(
        Map::empty().insert("Items"@, JsonView::Array(items)).insert("Count"@, JsonView::Number(items.len() as int)),
    )
}

/// An empty list of items with a note.
pub open spec fn noted_empty_json(note: Seq<char>) -> JsonView {
    JsonView::Object(Map::empty().insert("Items"@, JsonView::Array(Seq::empty())).insert("Note"@, JsonView::Str(note)))
}

/// What `GetRepositoryTriggers` is reported as: the triggers with their
/// count; for a missing repository or a denied access an empty list with a
/// note; else the error.
pub open spec fn triggers_outcome_json(outcome: Result<Option<Vec<RepositoryTrigger>>, CallError>) -> Result<JsonView, Seq<char>> {
    match outcome {
        Ok(t) => Ok(counted_json(match t {
            Some(v) => v@.map_values(|x: RepositoryTrigger| trigger_json(x)),
            None => Seq::empty(),
        })),
        Err(e) => if is_quiet_error(e, "RepositoryDoesNotExistException"@) {
            Ok(noted_empty_json("No triggers configured or access denied"@))
        } else {
            Err("Failed to get repository triggers: "@ + e.display_text@)
        },
    }
}

/// What `ListBranches` is reported as: the branch names with their count;
/// for a missing repository or a denied access an empty list with a note;
/// else the error.
pub open spec fn branches_outcome_json(outcome: Result<Option<Vec<String>>, CallError>) -> Result<JsonView, Seq<char>> {
    match outcome {
        Ok(b) => Ok(counted_json(match b {
            Some(v) => v@.map_values(|s: String| str_json(s)),
            None => Seq::empty(),
        })),
        Err(e) => if is_quiet_error(e, "RepositoryDoesNotExistException"@) {
            Ok(noted_empty_json("Repository not found or access denied"@))
        } else {
            Err("Failed to list branches: "@ + e.display_text@)
        },
    }
}

/// What `GetBranch` is reported as: its name and commit; for a missing
/// branch or a denied access a note; else the error.
pub open spec fn branch_outcome_json(outcome: Result<Option<BranchInfo>, CallError>) -> Result<JsonView, Seq<char>> {
    match outcome {
        Ok(b) => Ok(JsonView::Object(match b {
            Some(x) => with_opt(
                with_opt(Map::empty(), "BranchName"@, opt_str_json(x.branch_name)),
                "CommitId"@,
                opt_str_json(x.commit_id),
            ),
            None => Map::empty(),
        })),
        Err(e) => if is_quiet_error(e, "BranchDoesNotExistException"@) {
            Ok(JsonView::Object(Map::empty().insert("Note"@, JsonView::Str("Branch not found or access denied"@))))
        } else {
            Err("Failed to get branch: "@ + e.display_text@)
        },
    }
}

/// The details of a repository gathered from three calls: the repository's
/// own fields when it was read as an object, then the triggers and branches
/// when those calls answered.
pub open spec fn repository_details_json(
    repository: Result<JsonView, Seq<char>>,
    triggers: Result<JsonView, Seq<char>>,
    branches: Result<JsonView, Seq<char>>,
) -> JsonView {
    let m = match repository {
        Ok(JsonView::Object(m)) => m,
        _ => Map::empty(),
    };
    let m = match triggers {
        Ok(t) => m.insert("Triggers"@, t),
        Err(_) => m,
    };
    let m = match branches {
        Ok(b) => m.insert("Branches"@, b),
        Err(_) => m,
    };
    JsonView::Object(m)
}

/// The model of an outcome whose answer is a JSON value.
pub open spec fn outcome_view(r: Result<JsonValue, String>) -> Result<JsonView, Seq<char>> {
    match r {
        Ok(v) => Ok(v.view()),
        Err(e) => Err(e@),
    }
}

impl<C> CodeCommitService<C> {
    /// The entry listed for a repository whose details were not read.
    pub fn basic_repository_entry(&self, name: &String, repository_id: &Option<String>) -> (v: JsonValue)
        ensures
            v.view() == basic_repository_json(*name, *repository_id),
    {
        let mut json = JsonObject::new();
        json.insert_str("RepositoryName", name);
        json.insert_str("Name", name);
        json.insert_opt_str("RepositoryId", repository_id);
        json.insert("Status", text_value("Active"));
        JsonValue::Object(json)
    }

    /// The entry a listed repository starts from, given what reading its
    /// details answered (`None` when they were not read).
    pub fn repository_base_entry(
        &self,
        name: &String,
        repository_id: &Option<String>,
        include_details: bool,
        details: Option<Result<JsonValue, String>>,
    ) -> (v: JsonValue)
        ensures
            v.view() == repository_base_json(
                *name,
                *repository_id,
                include_details,
                match details {
                    Some(r) => Some(outcome_view(r)),
                    None => None,
                },
            ),
    {
        if include_details {
            if let Some(Ok(d)) = details {
                return d;
            }
        }
        self.basic_repository_entry(name, repository_id)
    }

    /// Whether a listed repository gets the triggers and branches calls: when
    /// details were asked for and its entry is an object.
    pub fn wants_repository_extras(&self, include_details: bool, entry: &JsonValue) -> (b: bool)
        ensures
            b == (include_details && entry.view() is Object),
    {
        include_details && match entry {
            JsonValue::Object(_) => true,
            _ => false,
        }
    }

    /// A listed repository's entry with the triggers and branches that were
    /// read.
    pub fn with_repository_extras(&self, entry: JsonValue, triggers: Option<JsonValue>, branches: Option<JsonValue>) -> (v: JsonValue)
        ensures
            v.view() == with_extras_json(entry.view(), opt_view(triggers), opt_view(branches)),
    {
        match entry {
            JsonValue::Object(mut obj) => {
                obj.insert_opt("Triggers", triggers);
                obj.insert_opt("Branches", branches);
                JsonValue::Object(obj)
            },
            other => other,
        }
    }

    /// The repository `repository_name` from what `GetRepository` answered,
    /// or the error that names it.
    pub fn repository_outcome(&self, metadata: &Option<RepositoryMetadata>, repository_name: &str) -> (r: Result<JsonValue, String>)
        ensures
            match *metadata {
                Some(m) => r matches Ok(v) && v.view() == repository_metadata_json(m),
                None => r matches Err(e) && e@ == "Repository "@ + repository_name@ + " not found"@,
            },
    {
        match metadata {
            Some(m) => Ok(self.repository_metadata_to_json(m)),
            None => {
                let mut text = concat_text("Repository ", repository_name);
                text.append(" not found");
                Err(text)
            },
        }
    }

    /// What `GetRepositoryTriggers` is reported as.
    pub fn triggers_outcome_to_json(&self, outcome: &Result<Option<Vec<RepositoryTrigger>>, CallError>) -> (r: Result<JsonValue, String>)
        ensures
            outcome_view(r) == triggers_outcome_json(*outcome),
    {
        match outcome {
            Ok(t) => {
                let items = match t {
                    Some(v) => values_of(v, trigger_to_json, Ghost(|x: RepositoryTrigger| trigger_json(x))),
                    None => Vec::new(),
                };
                proof {
                    lemma_items_view_index(items@);
                }
                Ok(counted_value(items))
            },
            Err(e) => {
                if contains(e.debug_text.as_str(), "RepositoryDoesNotExistException") || contains(
                    e.debug_text.as_str(),
                    "AccessDenied",
                ) {
                    Ok(noted_empty_value("No triggers configured or access denied"))
                } else {
                    Err(concat_text("Failed to get repository triggers: ", e.display_text.as_str()))
                }
            },
        }
    }

    /// What `ListBranches` is reported as.
    pub fn branches_outcome_to_json(&self, outcome: &Result<Option<Vec<String>>, CallError>) -> (r: Result<JsonValue, String>)
        ensures
            outcome_view(r) == branches_outcome_json(*outcome),
    {
        match outcome {
            Ok(b) => {
                let items = match b {
                    Some(v) => values_of(v, str_value, Ghost(|s: String| str_json(s))),
                    None => Vec::new(),
                };
                proof {
                    lemma_items_view_index(items@);
                }
                Ok(counted_value(items))
            },
            Err(e) => {
                if contains(e.debug_text.as_str(), "RepositoryDoesNotExistException") || contains(
                    e.debug_text.as_str(),
                    "AccessDenied",
                ) {
                    Ok(noted_empty_value("Repository not found or access denied"))
                } else {
                    Err(concat_text("Failed to list branches: ", e.display_text.as_str()))
                }
            },
        }
    }

    /// What `GetBranch` is reported as.
    pub fn branch_outcome_to_json(&self, outcome: &Result<Option<BranchInfo>, CallError>) -> (r: Result<JsonValue, String>)
        ensures
            outcome_view(r) == branch_outcome_json(*outcome),
    {
        match outcome {
            Ok(b) => {
                let mut json = JsonObject::new();
                if let Some(x) = b {
                    json.insert_opt_str("BranchName", &x.branch_name);
                    json.insert_opt_str("CommitId", &x.commit_id);
                }
                Ok(JsonValue::Object(json))
            },
            Err(e) => {
                if contains(e.debug_text.as_str(), "BranchDoesNotExistException") || contains(
                    e.debug_text.as_str(),
                    "AccessDenied",
                ) {
                    let mut json = JsonObject::new();
                    json.insert("Note", text_value("Branch not found or access denied"));
                    Ok(JsonValue::Object(json))
                } else {
                    Err(concat_text("Failed to get branch: ", e.display_text.as_str()))
                }
            },
        }
    }

    /// The details of a repository gathered from what its three calls answered.
    pub fn repository_details(
        &self,
        repository: &Result<JsonValue, String>,
        triggers: Result<JsonValue, String>,
        branches: Result<JsonValue, String>,
    ) -> (v: JsonValue)
        ensures
            v.view() == repository_details_json(outcome_view(*repository), outcome_view(triggers), outcome_view(branches)),
    {
        let mut details = match repository {
            Ok(v) => match v.clone_value() {
                JsonValue::Object(o) => o,
                _ => JsonObject::new(),
            },
            Err(_) => JsonObject::new(),
        };
        if let Ok(t) = triggers {
            details.insert("Triggers", t);
        }
        if let Ok(b) = branches {
            details.insert("Branches", b);
        }
        JsonValue::Object(details)
    }
}

/// A list of items with its count.
fn counted_value(items: Vec<JsonValue>) -> (v: JsonValue)
    ensures
        v.view() == counted_json(items_view(items@)),
{
    proof {
        lemma_items_view_index(items@);
    }
    let n = items.len();
    let mut json = JsonObject::new();
    json.insert("Items", JsonValue::Array(items));
    json.insert("Count", JsonValue::Number(n as i128));
    JsonValue::Object(json)
}

/// An empty list of items with a note.
fn noted_empty_value(note: &str) -> (v: JsonValue)
    ensures
        v.view() == noted_empty_json(note@),
{
    let mut json = JsonObject::new();
    json.insert("Items", JsonValue::Array(Vec::new()));
    json.insert("Note", text_value(note));
    proof {
        assert(items_view(Seq::<JsonValue>::empty()) =~= Seq::<JsonView>::empty());
    }
    JsonValue::Object(json)
}


// ----- each reported field under its own key -----

/// What tells the keys of `repository_metadata_json` apart: their lengths, and a letter where two have the same length.
proof fn lemma_repository_metadata_json_keys_differ()
    ensures
        "AccountId"@.len() == 9,
        "Active"@.len() == 6 && "Active"@[0] == 'A',
        "Arn"@.len() == 3,
        "CloneUrlHttp"@.len() == 12 && "CloneUrlHttp"@[1] == 'l' && "CloneUrlHttp"@[0] == 'C',
        "CloneUrlSsh"@.len() == 11 && "CloneUrlSsh"@[0] == 'C',
        "CreationDate"@.len() == 12 && "CreationDate"@[1] == 'r' && "CreationDate"@[0] == 'C',
        "DefaultBranch"@.len() == 13,
        "Description"@.len() == 11 && "Description"@[0] == 'D',
        "LastModifiedDate"@.len() == 16,
        "Name"@.len() == 4,
        "RepositoryDescription"@.len() == 21,
        "RepositoryId"@.len() == 12 && "RepositoryId"@[0] == 'R',
        "RepositoryName"@.len() == 14,
        "Status"@.len() == 6 && "Status"@[0] == 'S',
{
    reveal_strlit("AccountId");
    reveal_strlit("Active");
    reveal_strlit("Arn");
    reveal_strlit("CloneUrlHttp");
    reveal_strlit("CloneUrlSsh");
    reveal_strlit("CreationDate");
    reveal_strlit("DefaultBranch");
    reveal_strlit("Description");
    reveal_strlit("LastModifiedDate");
    reveal_strlit("Name");
    reveal_strlit("RepositoryDescription");
    reveal_strlit("RepositoryId");
    reveal_strlit("RepositoryName");
    reveal_strlit("Status");
}

#[verifier::spinoff_prover]
#[verifier::rlimit(30)]
proof fn lemma_repository_metadata_json_fields_0(repo: RepositoryMetadata)
    ensures
        repository_metadata_json(repo) is Object,
        ({
            let m = repository_metadata_json(repo)->Object_0;
            &&& repo.account_id is None ==> !m.contains_key("AccountId"@)
            &&& repo.account_id is Some ==> m.contains_key("AccountId"@) && m["AccountId"@] == JsonView::Str(repo.account_id->0@)
            &&& repo.arn is None ==> !m.contains_key("Arn"@)
            &&& repo.arn is Some ==> m.contains_key("Arn"@) && m["Arn"@] == JsonView::Str(repo.arn->0@)
            &&& repo.clone_url_http is None ==> !m.contains_key("CloneUrlHttp"@)
            &&& repo.clone_url_http is Some ==> m.contains_key("CloneUrlHttp"@) && m["CloneUrlHttp"@] == JsonView::Str(repo.clone_url_http->0@)
        }),
{
    lemma_repository_metadata_json_keys_differ();
}

#[verifier::spinoff_prover]
#[verifier::rlimit(30)]
proof fn lemma_repository_metadata_json_fields_1(repo: RepositoryMetadata)
    ensures
        repository_metadata_json(repo) is Object,
        ({
            let m = repository_metadata_json(repo)->Object_0;
            &&& repo.clone_url_ssh is None ==> !m.contains_key("CloneUrlSsh"@)
            &&& repo.clone_url_ssh is Some ==> m.contains_key("CloneUrlSsh"@) && m["CloneUrlSsh"@] == JsonView::Str(repo.clone_url_ssh->0@)
            &&& repo.creation_date is None ==> !m.contains_key("CreationDate"@)
            &&& repo.creation_date is Some ==> m.contains_key("CreationDate"@) && m["CreationDate"@] == ts_json(repo.creation_date->0)
            &&& repo.default_branch is None ==> !m.contains_key("DefaultBranch"@)
            &&& repo.default_branch is Some ==> m.contains_key("DefaultBranch"@) && m["DefaultBranch"@] == JsonView::Str(repo.default_branch->0@)
        }),
{
    lemma_repository_metadata_json_keys_differ();
}

#[verifier::spinoff_prover]
#[verifier::rlimit(30)]
proof fn lemma_repository_metadata_json_fields_2(repo: RepositoryMetadata)
    ensures
        repository_metadata_json(repo) is Object,
        ({
            let m = repository_metadata_json(repo)->Object_0;
            &&& repo.repository_description is None ==> !m.contains_key("Description"@)
            &&& repo.repository_description is Some ==> m.contains_key("Description"@) && m["Description"@] == JsonView::Str(repo.repository_description->0@)
            &&& repo.last_modified_date is None ==> !m.contains_key("LastModifiedDate"@)
            &&& repo.last_modified_date is Some ==> m.contains_key("LastModifiedDate"@) && m["LastModifiedDate"@] == ts_json(repo.last_modified_date->0)
            &&& repo.repository_name is None ==> !m.contains_key("Name"@)
            &&& repo.repository_name is Some ==> m.contains_key("Name"@) && m["Name"@] == JsonView::Str(repo.repository_name->0@)
        }),
{
    lemma_repository_metadata_json_keys_differ();
}

#[verifier::spinoff_prover]
#[verifier::rlimit(30)]
proof fn lemma_repository_metadata_json_fields_3(repo: RepositoryMetadata)
    ensures
        repository_metadata_json(repo) is Object,
        ({
            let m = repository_metadata_json(repo)->Object_0;
            &&& repo.repository_description is None ==> !m.contains_key("RepositoryDescription"@)
            &&& repo.repository_description is Some ==> m.contains_key("RepositoryDescription"@) && m["RepositoryDescription"@] == JsonView::Str(repo.repository_description->0@)
            &&& repo.repository_id is None ==> !m.contains_key("RepositoryId"@)
            &&& repo.repository_id is Some ==> m.contains_key("RepositoryId"@) && m["RepositoryId"@] == JsonView::Str(repo.repository_id->0@)
            &&& repo.repository_name is None ==> !m.contains_key("RepositoryName"@)
            &&& repo.repository_name is Some ==> m.contains_key("RepositoryName"@) && m["RepositoryName"@] == JsonView::Str(repo.repository_name->0@)
        }),
{
    lemma_repository_metadata_json_keys_differ();
}

/// The object of a repository metadata holds each reported field of it under its own key, and such a key is missing exactly when AWS did not report the field.
pub proof fn law_repository_metadata_fields(repo: RepositoryMetadata)
    ensures
        repository_metadata_json(repo) is Object,
        ({
            let m = repository_metadata_json(repo)->Object_0;
            &&& repo.account_id is None ==> !m.contains_key("AccountId"@)
            &&& repo.account_id is Some ==> m.contains_key("AccountId"@) && m["AccountId"@] == JsonView::Str(repo.account_id->0@)
            &&& repo.arn is None ==> !m.contains_key("Arn"@)
            &&& repo.arn is Some ==> m.contains_key("Arn"@) && m["Arn"@] == JsonView::Str(repo.arn->0@)
            &&& repo.clone_url_http is None ==> !m.contains_key("CloneUrlHttp"@)
            &&& repo.clone_url_http is Some ==> m.contains_key("CloneUrlHttp"@) && m["CloneUrlHttp"@] == JsonView::Str(repo.clone_url_http->0@)
            &&& repo.clone_url_ssh is None ==> !m.contains_key("CloneUrlSsh"@)
            &&& repo.clone_url_ssh is Some ==> m.contains_key("CloneUrlSsh"@) && m["CloneUrlSsh"@] == JsonView::Str(repo.clone_url_ssh->0@)
            &&& repo.creation_date is None ==> !m.contains_key("CreationDate"@)
            &&& repo.creation_date is Some ==> m.contains_key("CreationDate"@) && m["CreationDate"@] == ts_json(repo.creation_date->0)
            &&& repo.default_branch is None ==> !m.contains_key("DefaultBranch"@)
            &&& repo.default_branch is Some ==> m.contains_key("DefaultBranch"@) && m["DefaultBranch"@] == JsonView::Str(repo.default_branch->0@)
            &&& repo.repository_description is None ==> !m.contains_key("Description"@)
            &&& repo.repository_description is Some ==> m.contains_key("Description"@) && m["Description"@] == JsonView::Str(repo.repository_description->0@)
            &&& repo.last_modified_date is None ==> !m.contains_key("LastModifiedDate"@)
            &&& repo.last_modified_date is Some ==> m.contains_key("LastModifiedDate"@) && m["LastModifiedDate"@] == ts_json(repo.last_modified_date->0)
            &&& repo.repository_name is None ==> !m.contains_key("Name"@)
            &&& repo.repository_name is Some ==> m.contains_key("Name"@) && m["Name"@] == JsonView::Str(repo.repository_name->0@)
            &&& repo.repository_description is None ==> !m.contains_key("RepositoryDescription"@)
            &&& repo.repository_description is Some ==> m.contains_key("RepositoryDescription"@) && m["RepositoryDescription"@] == JsonView::Str(repo.repository_description->0@)
            &&& repo.repository_id is None ==> !m.contains_key("RepositoryId"@)
            &&& repo.repository_id is Some ==> m.contains_key("RepositoryId"@) && m["RepositoryId"@] == JsonView::Str(repo.repository_id->0@)
            &&& repo.repository_name is None ==> !m.contains_key("RepositoryName"@)
            &&& repo.repository_name is Some ==> m.contains_key("RepositoryName"@) && m["RepositoryName"@] == JsonView::Str(repo.repository_name->0@)
        }),
{
    lemma_repository_metadata_json_fields_0(repo);
    lemma_repository_metadata_json_fields_1(repo);
    lemma_repository_metadata_json_fields_2(repo);
    lemma_repository_metadata_json_fields_3(repo);
}

} // verus!

//! AWS CodeArtifact domains and repositories as JSON.
use crate::json::{opt_str_json, text_value, with_opt, items_view, lemma_items_view_index, JsonObject, JsonValue, JsonView};
use crate::timestamp::{ts_json, opt_ts_json, Timestamp};
use crate::text::concat_text;
use std::sync::Arc;
use vstd::prelude::*;

verus! {

/// A domain as `ListDomains` reports it; its status holds the AWS name.
pub struct DomainSummary {
    pub name: Option<String>,
    pub owner: Option<String>,
    pub arn: Option<String>,
    pub status: Option<String>,
    pub created_time: Option<Timestamp>,
    pub encryption_key: Option<String>,
}

/// A repository as `ListRepositories` reports it.
pub struct RepositorySummary {
    pub name: Option<String>,
    pub domain_name: Option<String>,
    pub domain_owner: Option<String>,
    pub arn: Option<String>,
    pub description: Option<String>,
    pub created_time: Option<Timestamp>,
}

/// A domain as `DescribeDomain` reports it; its status holds the AWS name.
pub struct DomainDescription {
    pub name: Option<String>,
    pub owner: Option<String>,
    pub arn: Option<String>,
    pub status: Option<String>,
    pub created_time: Option<Timestamp>,
    pub encryption_key: Option<String>,
    pub repository_count: i64,
    pub asset_size_bytes: i64,
    pub s3_bucket_arn: Option<String>,
}

/// A repository as `DescribeRepository` reports it; of its upstreams and external connections only their presence is read.
pub struct RepositoryDescription {
    pub name: Option<String>,
    pub domain_name: Option<String>,
    pub domain_owner: Option<String>,
    pub arn: Option<String>,
    pub description: Option<String>,
    pub created_time: Option<Timestamp>,
    pub has_upstreams: bool,
    pub has_external_connections: bool,
}

/// Reads AWS CodeArtifact domains and repositories through a credential coordinator `C`.
pub struct CodeArtifactService<C> {
    credential_coordinator: Arc<C>,
}

/// The JSON object of a listed domain; a missing name is the empty text.
pub open spec fn domain_json(domain: DomainSummary) -> JsonView {
    let m = Map::<Seq<char>, JsonView>::empty();
    let m = m.insert("DomainName"@, JsonView::Str(text_or_empty(domain.name)));
    let m = m.insert("ResourceId"@, JsonView::Str(text_or_empty(domain.name)));
    let m = m.insert("Name"@, JsonView::Str(text_or_empty(domain.name)));
    let m = with_opt(m, "Owner"@, opt_str_json(domain.owner));
    let m = with_opt(m, "Arn"@, opt_str_json(domain.arn));
    let m = with_opt(m, "Status"@, opt_str_json(domain.status));
    let m = with_opt(m, "CreatedTime"@, opt_ts_json(domain.created_time));
    let m = with_opt(m, "EncryptionKey"@, opt_str_json(domain.encryption_key));
    JsonView::Object(m)
}

/// The JSON object of a listed repository, always with status `ACTIVE`.
pub open spec fn repository_json(repository: RepositorySummary) -> JsonView {
    let m = Map::<Seq<char>, JsonView>::empty();
    let m = m.insert("RepositoryName"@, JsonView::Str(text_or_empty(repository.name)));
    let m = m.insert("ResourceId"@, JsonView::Str(text_or_empty(repository.name)));
    let m = m.insert("Name"@, JsonView::Str(text_or_empty(repository.name)));
    let m = with_opt(m, "DomainName"@, opt_str_json(repository.domain_name));
    let m = with_opt(m, "DomainOwner"@, opt_str_json(repository.domain_owner));
    let m = with_opt(m, "Arn"@, opt_str_json(repository.arn));
    let m = with_opt(m, "Description"@, opt_str_json(repository.description));
    let m = with_opt(m, "CreatedTime"@, opt_ts_json(repository.created_time));
    let m = m.insert("Status"@, JsonView::Str("ACTIVE"@));
    JsonView::Object(m)
}

/// The JSON object of a described domain.
pub open spec fn domain_detail_json(domain: DomainDescription) -> JsonView {
    let m = Map::<Seq<char>, JsonView>::empty();
    let m = m.insert("DomainName"@, JsonView::Str(text_or_empty(domain.name)));
    let m = m.insert("ResourceId"@, JsonView::Str(text_or_empty(domain.name)));
    let m = m.insert("Name"@, JsonView::Str(text_or_empty(domain.name)));
    let m = with_opt(m, "Owner"@, opt_str_json(domain.owner));
    let m = with_opt(m, "Arn"@, opt_str_json(domain.arn));
    let m = with_opt(m, "Status"@, opt_str_json(domain.status));
    let m = with_opt(m, "CreatedTime"@, opt_ts_json(domain.created_time));
    let m = with_opt(m, "EncryptionKey"@, opt_str_json(domain.encryption_key));
    let m = m.insert("RepositoryCount"@, JsonView::Number(domain.repository_count as int));
    let m = m.insert("AssetSizeBytes"@, JsonView::Number(domain.asset_size_bytes as int));
    let m = with_opt(m, "S3BucketArn"@, opt_str_json(domain.s3_bucket_arn));
    JsonView::Object(m)
}

/// The JSON object of a described repository, always with status `ACTIVE`; upstreams and external connections are noted as not rendered.
pub open spec fn repository_detail_json(repository: RepositoryDescription) -> JsonView {
    let m = Map::<Seq<char>, JsonView>::empty();
    let m = m.insert("RepositoryName"@, JsonView::Str(text_or_empty(repository.name)));
    let m = m.insert("ResourceId"@, JsonView::Str(text_or_empty(repository.name)));
    let m = m.insert("Name"@, JsonView::Str(text_or_empty(repository.name)));
    let m = with_opt(m, "DomainName"@, opt_str_json(repository.domain_name));
    let m = with_opt(m, "DomainOwner"@, opt_str_json(repository.domain_owner));
    let m = with_opt(m, "Arn"@, opt_str_json(repository.arn));
    let m = with_opt(m, "Description"@, opt_str_json(repository.description));
    let m = with_opt(m, "CreatedTime"@, opt_ts_json(repository.created_time));
    let m = if repository.has_upstreams { m.insert("Upstreams"@, JsonView::Str("TODO: Manual conversion needed"@)) } else { m };
    let m = if repository.has_external_connections { m.insert("ExternalConnections"@, JsonView::Str("TODO: Manual conversion needed"@)) } else { m };
    let m = m.insert("Status"@, JsonView::Str("ACTIVE"@));
    JsonView::Object(m)
}

impl<C> CodeArtifactService<C> {
    /// The coordinator that the service was made with.
    pub closed spec fn coordinator(&self) -> Arc<C> {
        self.credential_coordinator
    }

    /// A service that obtains its AWS configurations from `credential_coordinator`.
    pub fn new(credential_coordinator: Arc<C>) -> (s: Self)
        ensures
            s.coordinator() == credential_coordinator,
    {
        Self { credential_coordinator }
    }

    /// The coordinator that the service was made with.
    pub fn credential_coordinator(&self) -> (c: &Arc<C>)
        ensures
            *c == self.coordinator(),
    {
        &self.credential_coordinator
    }

    /// The JSON object of a listed domain; a missing name is the empty text.
    pub fn domain_to_json(&self, domain: &DomainSummary) -> (v: JsonValue)
        ensures
            v.view() == domain_json(*domain),
    {
        let mut json = JsonObject::new();
        json.insert_str("DomainName", &text_or_empty_exec(&domain.name));
        json.insert_str("ResourceId", &text_or_empty_exec(&domain.name));
        json.insert_str("Name", &text_or_empty_exec(&domain.name));
        json.insert_opt_str("Owner", &domain.owner);
        json.insert_opt_str("Arn", &domain.arn);
        json.insert_opt_str("Status", &domain.status);
        json.insert_opt_ts("CreatedTime", &domain.created_time);
        json.insert_opt_str("EncryptionKey", &domain.encryption_key);
        JsonValue::Object(json)
    }

    /// The JSON object of a listed repository, always with status `ACTIVE`.
    pub fn repository_to_json(&self, repository: &RepositorySummary) -> (v: JsonValue)
        ensures
            v.view() == repository_json(*repository),
    {
        let mut json = JsonObject::new();
        json.insert_str("RepositoryName", &text_or_empty_exec(&repository.name));
        json.insert_str("ResourceId", &text_or_empty_exec(&repository.name));
        json.insert_str("Name", &text_or_empty_exec(&repository.name));
        json.insert_opt_str("DomainName", &repository.domain_name);
        json.insert_opt_str("DomainOwner", &repository.domain_owner);
        json.insert_opt_str("Arn", &repository.arn);
        json.insert_opt_str("Description", &repository.description);
        json.insert_opt_ts("CreatedTime", &repository.created_time);
        json.insert("Status", text_value("ACTIVE"));
        JsonValue::Object(json)
    }

    /// The JSON object of a described domain.
    pub fn domain_detail_to_json(&self, domain: &DomainDescription) -> (v: JsonValue)
        ensures
            v.view() == domain_detail_json(*domain),
    {
        let mut json = JsonObject::new();
        json.insert_str("DomainName", &text_or_empty_exec(&domain.name));
        json.insert_str("ResourceId", &text_or_empty_exec(&domain.name));
        json.insert_str("Name", &text_or_empty_exec(&domain.name));
        json.insert_opt_str("Owner", &domain.owner);
        json.insert_opt_str("Arn", &domain.arn);
        json.insert_opt_str("Status", &domain.status);
        json.insert_opt_ts("CreatedTime", &domain.created_time);
        json.insert_opt_str("EncryptionKey", &domain.encryption_key);
        json.insert_int("RepositoryCount", domain.repository_count);
        json.insert_int("AssetSizeBytes", domain.asset_size_bytes);
        json.insert_opt_str("S3BucketArn", &domain.s3_bucket_arn);
        JsonValue::Object(json)
    }

    /// The JSON object of a described repository, always with status `ACTIVE`; upstreams and external connections are noted as not rendered.
    pub fn repository_detail_to_json(&self, repository: &RepositoryDescription) -> (v: JsonValue)
        ensures
            v.view() == repository_detail_json(*repository),
    {
        let mut json = JsonObject::new();
        json.insert_str("RepositoryName", &text_or_empty_exec(&repository.name));
        json.insert_str("ResourceId", &text_or_empty_exec(&repository.name));
        json.insert_str("Name", &text_or_empty_exec(&repository.name));
        json.insert_opt_str("DomainName", &repository.domain_name);
        json.insert_opt_str("DomainOwner", &repository.domain_owner);
        json.insert_opt_str("Arn", &repository.arn);
        json.insert_opt_str("Description", &repository.description);
        json.insert_opt_ts("CreatedTime", &repository.created_time);
        if repository.has_upstreams {
            json.insert("Upstreams", text_value("TODO: Manual conversion needed"));
        }
        if repository.has_external_connections {
            json.insert("ExternalConnections", text_value("TODO: Manual conversion needed"));
        }
        json.insert("Status", text_value("ACTIVE"));
        JsonValue::Object(json)
    }

}

/// The text, or the empty text when there is none.
pub open spec fn text_or_empty(o: Option<String>) -> Seq<char> {
    match o {
        Some(s) => s@,
        None => Seq::empty(),
    }
}

fn text_or_empty_exec(o: &Option<String>) -> (s: String)
    ensures
        s@ == text_or_empty(*o),
{
    match o {
        Some(s) => s.clone(),
        None => String::new(),
    }
}

/// The string under `key` of an object, when there is one.
pub open spec fn string_field(v: JsonView, key: Seq<char>) -> Option<Seq<char>> {
    match v {
        JsonView::Object(m) => if m.dom().contains(key) {
            match m[key] {
                JsonView::Str(s) => Some(s),
                _ => None,
            }
        } else {
            None
        },
        _ => None,
    }
}

/// The domains to ask `DescribeRepository` about for the repository `name`,
/// in listing order: that of each listed repository named `name` that has a
/// domain name.
pub open spec fn repository_domains(repositories: Seq<JsonView>, name: Seq<char>) -> Seq<Seq<char>>
    decreases repositories.len(),
{
    if repositories.len() == 0 {
        Seq::empty()
    } else {
        let r = repositories.last();
        let rest = repository_domains(repositories.drop_last(), name);
        if string_field(r, "Name"@) == Some(name) && string_field(r, "DomainName"@) is Some {
            rest.push(string_field(r, "DomainName"@)->0)
        } else {
            rest
        }
    }
}

/// The string under `key` of an object.
fn string_field_of(v: &JsonValue, key: &str) -> (r: Option<String>)
    ensures
        r is Some <==> string_field(v.view(), key@) is Some,
        r matches Some(s) ==> string_field(v.view(), key@) == Some(s@),
{
    match v {
        JsonValue::Object(obj) => match obj.get(key) {
            Some(JsonValue::Str(s)) => Some(s.clone()),
            _ => None,
        },
        _ => None,
    }
}

impl<C> CodeArtifactService<C> {
    /// The domains to ask `DescribeRepository` about for the repository
    /// `repository_name`, given the listed repositories, in order. The first
    /// of them that answers with a repository gives the details; where none
    /// does, the repository is not found.
    pub fn repository_domains_for(&self, repositories: &Vec<JsonValue>, repository_name: &String) -> (r: Vec<String>)
        ensures
            r@.map_values(|s: String| s@) == repository_domains(items_view(repositories@), repository_name@),
    {
        let mut out: Vec<String> = Vec::new();
        let mut i: usize = 0;
        proof {
            lemma_items_view_index(repositories@);
        }
        while i < repositories.len()
            invariant
                i <= repositories@.len(),
                items_view(repositories@).len() == repositories@.len(),
                forall|k: int| 0 <= k < repositories@.len() ==> #[trigger] items_view(repositories@)[k] == repositories@[k].view(),
                out@.map_values(|s: String| s@) =~= repository_domains(items_view(repositories@).take(i as int), repository_name@),
            decreases repositories@.len() - i,
        {
            let ghost views = items_view(repositories@);
            proof {
                assert(views.take(i + 1).drop_last() =~= views.take(i as int));
                assert(views.take(i + 1).last() == repositories@[i as int].view());
            }
            let name = string_field_of(&repositories[i], "Name");
            let domain = string_field_of(&repositories[i], "DomainName");
            let ghost before = out@;
            let matched = match &name {
                Some(n) => *n == *repository_name,
                None => false,
            };
            if matched {
                if let Some(d) = domain {
                    out.push(d);
                    assert(out@.map_values(|s: String| s@) =~= before.map_values(|s: String| s@).push(d@));
                }
            }
            i = i + 1;
        }
        assert(items_view(repositories@).take(repositories@.len() as int) =~= items_view(repositories@));
        out
    }

    /// The domain `domain_name` from what `DescribeDomain` answered, or the
    /// error that names it.
    pub fn describe_domain(&self, domain: &Option<DomainDescription>, domain_name: &str) -> (r: Result<JsonValue, String>)
        ensures
            match *domain {
                Some(d) => r matches Ok(v) && v.view() == domain_detail_json(d),
                None => r matches Err(e) && e@ == "Domain not found: "@ + domain_name@,
            },
    {
        match domain {
            Some(d) => Ok(self.domain_detail_to_json(d)),
            None => Err(concat_text("Domain not found: ", domain_name)),
        }
    }

    /// The error for a repository that none of its domains answered for.
    pub fn repository_not_found(&self, repository_name: &str) -> (e: String)
        ensures
            e@ == "Repository not found: "@ + repository_name@,
    {
        concat_text("Repository not found: ", repository_name)
    }
}


// ----- each reported field under its own key -----

/// What tells the keys of `domain_json` apart: their lengths, and a letter where two have the same length.
proof fn lemma_domain_json_keys_differ()
    ensures
        "Arn"@.len() == 3,
        "CreatedTime"@.len() == 11,
        "DomainName"@.len() == 10 && "DomainName"@[0] == 'D',
        "EncryptionKey"@.len() == 13,
        "Name"@.len() == 4,
        "Owner"@.len() == 5,
        "ResourceId"@.len() == 10 && "ResourceId"@[0] == 'R',
        "Status"@.len() == 6,
{
    reveal_strlit("Arn");
    reveal_strlit("CreatedTime");
    reveal_strlit("DomainName");
    reveal_strlit("EncryptionKey");
    reveal_strlit("Name");
    reveal_strlit("Owner");
    reveal_strlit("ResourceId");
    reveal_strlit("Status");
}

#[verifier::spinoff_prover]
#[verifier::rlimit(30)]
proof fn lemma_domain_json_fields_0(domain: DomainSummary)
    ensures
        domain_json(domain) is Object,
        ({
            let m = domain_json(domain)->Object_0;
            &&& domain.arn is None ==> !m.contains_key("Arn"@)
            &&& domain.arn is Some ==> m.contains_key("Arn"@) && m["Arn"@] == JsonView::Str(domain.arn->0@)
            &&& domain.created_time is None ==> !m.contains_key("CreatedTime"@)
            &&& domain.created_time is Some ==> m.contains_key("CreatedTime"@) && m["CreatedTime"@] == ts_json(domain.created_time->0)
            &&& domain.encryption_key is None ==> !m.contains_key("EncryptionKey"@)
            &&& domain.encryption_key is Some ==> m.contains_key("EncryptionKey"@) && m["EncryptionKey"@] == JsonView::Str(domain.encryption_key->0@)
        }),
{
    lemma_domain_json_keys_differ();
}

#[verifier::spinoff_prover]
#[verifier::rlimit(30)]
proof fn lemma_domain_json_fields_1(domain: DomainSummary)
    ensures
        domain_json(domain) is Object,
        ({
            let m = domain_json(domain)->Object_0;
            &&& domain.owner is None ==> !m.contains_key("Owner"@)
            &&& domain.owner is Some ==> m.contains_key("Owner"@) && m["Owner"@] == JsonView::Str(domain.owner->0@)
            &&& domain.status is None ==> !m.contains_key("Status"@)
            &&& domain.status is Some ==> m.contains_key("Status"@) && m["Status"@] == JsonView::Str(domain.status->0@)
        }),
{
    lemma_domain_json_keys_differ();
}

/// The object of a domain summary holds each reported field of it under its own key, and such a key is missing exactly when AWS did not report the field.
pub proof fn law_domain_fields(domain: DomainSummary)
    ensures
        domain_json(domain) is Object,
        ({
            let m = domain_json(domain)->Object_0;
            &&& domain.arn is None ==> !m.contains_key("Arn"@)
            &&& domain.arn is Some ==> m.contains_key("Arn"@) && m["Arn"@] == JsonView::Str(domain.arn->0@)
            &&& domain.created_time is None ==> !m.contains_key("CreatedTime"@)
            &&& domain.created_time is Some ==> m.contains_key("CreatedTime"@) && m["CreatedTime"@] == ts_json(domain.created_time->0)
            &&& domain.encryption_key is None ==> !m.contains_key("EncryptionKey"@)
            &&& domain.encryption_key is Some ==> m.contains_key("EncryptionKey"@) && m["EncryptionKey"@] == JsonView::Str(domain.encryption_key->0@)
            &&& domain.owner is None ==> !m.contains_key("Owner"@)
            &&& domain.owner is Some ==> m.contains_key("Owner"@) && m["Owner"@] == JsonView::Str(domain.owner->0@)
            &&& domain.status is None ==> !m.contains_key("Status"@)
            &&& domain.status is Some ==> m.contains_key("Status"@) && m["Status"@] == JsonView::Str(domain.status->0@)
        }),
{
    lemma_domain_json_fields_0(domain);
    lemma_domain_json_fields_1(domain);
}

/// What tells the keys of `repository_json` apart: their lengths, and a letter where two have the same length.
proof fn lemma_repository_json_keys_differ()
    ensures
        "ACTIVE"@.len() == 6 && "ACTIVE"@[0] == 'A',
        "Arn"@.len() == 3,
        "CreatedTime"@.len() == 11 && "CreatedTime"@[0] == 'C',
        "Description"@.len() == 11 && "Description"@[0] == 'D' && "Description"@[1] == 'e',
        "DomainName"@.len() == 10 && "DomainName"@[0] == 'D',
        "DomainOwner"@.len() == 11 && "DomainOwner"@[0] == 'D' && "DomainOwner"@[1] == 'o',
        "Name"@.len() == 4,
        "RepositoryName"@.len() == 14,
        "ResourceId"@.len() == 10 && "ResourceId"@[0] == 'R',
        "Status"@.len() == 6 && "Status"@[0] == 'S',
{
    reveal_strlit("ACTIVE");
    reveal_strlit("Arn");
    reveal_strlit("CreatedTime");
    reveal_strlit("Description");
    reveal_strlit("DomainName");
    reveal_strlit("DomainOwner");
    reveal_strlit("Name");
    reveal_strlit("RepositoryName");
    reveal_strlit("ResourceId");
    reveal_strlit("Status");
}

#[verifier::spinoff_prover]
#[verifier::rlimit(30)]
proof fn lemma_repository_json_fields_0(repository: RepositorySummary)
    ensures
        repository_json(repository) is Object,
        ({
            let m = repository_json(repository)->Object_0;
            &&& repository.arn is None ==> !m.contains_key("Arn"@)
            &&& repository.arn is Some ==> m.contains_key("Arn"@) && m["Arn"@] == JsonView::Str(repository.arn->0@)
            &&& repository.created_time is None ==> !m.contains_key("CreatedTime"@)
            &&& repository.created_time is Some ==> m.contains_key("CreatedTime"@) && m["CreatedTime"@] == ts_json(repository.created_time->0)
            &&& repository.description is None ==> !m.contains_key("Description"@)
            &&& repository.description is Some ==> m.contains_key("Description"@) && m["Description"@] == JsonView::Str(repository.description->0@)
        }),
{
    lemma_repository_json_keys_differ();
}

#[verifier::spinoff_prover]
#[verifier::rlimit(30)]
proof fn lemma_repository_json_fields_1(repository: RepositorySummary)
    ensures
        repository_json(repository) is Object,
        ({
            let m = repository_json(repository)->Object_0;
            &&& repository.domain_name is None ==> !m.contains_key("DomainName"@)
            &&& repository.domain_name is Some ==> m.contains_key("DomainName"@) && m["DomainName"@] == JsonView::Str(repository.domain_name->0@)
            &&& repository.domain_owner is None ==> !m.contains_key("DomainOwner"@)
            &&& repository.domain_owner is Some ==> m.contains_key("DomainOwner"@) && m["DomainOwner"@] == JsonView::Str(repository.domain_owner->0@)
        }),
{
    lemma_repository_json_keys_differ();
}

/// The object of a repository summary holds each reported field of it under its own key, and such a key is missing exactly when AWS did not report the field.
pub proof fn law_repository_fields(repository: RepositorySummary)
    ensures
        repository_json(repository) is Object,
        ({
            let m = repository_json(repository)->Object_0;
            &&& repository.arn is None ==> !m.contains_key("Arn"@)
            &&& repository.arn is Some ==> m.contains_key("Arn"@) && m["Arn"@] == JsonView::Str(repository.arn->0@)
            &&& repository.created_time is None ==> !m.contains_key("CreatedTime"@)
            &&& repository.created_time is Some ==> m.contains_key("CreatedTime"@) && m["CreatedTime"@] == ts_json(repository.created_time->0)
            &&& repository.description is None ==> !m.contains_key("Description"@)
            &&& repository.description is Some ==> m.contains_key("Description"@) && m["Description"@] == JsonView::Str(repository.description->0@)
            &&& repository.domain_name is None ==> !m.contains_key("DomainName"@)
            &&& repository.domain_name is Some ==> m.contains_key("DomainName"@) && m["DomainName"@] == JsonView::Str(repository.domain_name->0@)
            &&& repository.domain_owner is None ==> !m.contains_key("DomainOwner"@)
            &&& repository.domain_owner is Some ==> m.contains_key("DomainOwner"@) && m["DomainOwner"@] == JsonView::Str(repository.domain_owner->0@)
        }),
{
    lemma_repository_json_fields_0(repository);
    lemma_repository_json_fields_1(repository);
}

/// What tells the keys of `domain_detail_json` apart: their lengths, and a letter where two have the same length.
proof fn lemma_domain_detail_json_keys_differ()
    ensures
        "Arn"@.len() == 3,
        "AssetSizeBytes"@.len() == 14,
        "CreatedTime"@.len() == 11 && "CreatedTime"@[0] == 'C',
        "DomainName"@.len() == 10 && "DomainName"@[0] == 'D',
        "EncryptionKey"@.len() == 13,
        "Name"@.len() == 4,
        "Owner"@.len() == 5,
        "RepositoryCount"@.len() == 15,
        "ResourceId"@.len() == 10 && "ResourceId"@[0] == 'R',
        "S3BucketArn"@.len() == 11 && "S3BucketArn"@[0] == 'S',
        "Status"@.len() == 6,
{
    reveal_strlit("Arn");
    reveal_strlit("AssetSizeBytes");
    reveal_strlit("CreatedTime");
    reveal_strlit("DomainName");
    reveal_strlit("EncryptionKey");
    reveal_strlit("Name");
    reveal_strlit("Owner");
    reveal_strlit("RepositoryCount");
    reveal_strlit("ResourceId");
    reveal_strlit("S3BucketArn");
    reveal_strlit("Status");
}

#[verifier::spinoff_prover]
#[verifier::rlimit(30)]
proof fn lemma_domain_detail_json_fields_0(domain: DomainDescription)
    ensures
        domain_detail_json(domain) is Object,
        ({
            let m = domain_detail_json(domain)->Object_0;
            &&& domain.arn is None ==> !m.contains_key("Arn"@)
            &&& domain.arn is Some ==> m.contains_key("Arn"@) && m["Arn"@] == JsonView::Str(domain.arn->0@)
            &&& domain.created_time is None ==> !m.contains_key("CreatedTime"@)
            &&& domain.created_time is Some ==> m.contains_key("CreatedTime"@) && m["CreatedTime"@] == ts_json(domain.created_time->0)
            &&& domain.encryption_key is None ==> !m.contains_key("EncryptionKey"@)
            &&& domain.encryption_key is Some ==> m.contains_key("EncryptionKey"@) && m["EncryptionKey"@] == JsonView::Str(domain.encryption_key->0@)
        }),
{
    lemma_domain_detail_json_keys_differ();
}

#[verifier::spinoff_prover]
#[verifier::rlimit(30)]
proof fn lemma_domain_detail_json_fields_1(domain: DomainDescription)
    ensures
        domain_detail_json(domain) is Object,
        ({
            let m = domain_detail_json(domain)->Object_0;
            &&& domain.owner is None ==> !m.contains_key("Owner"@)
            &&& domain.owner is Some ==> m.contains_key("Owner"@) && m["Owner"@] == JsonView::Str(domain.owner->0@)
            &&& domain.s3_bucket_arn is None ==> !m.contains_key("S3BucketArn"@)
            &&& domain.s3_bucket_arn is Some ==> m.contains_key("S3BucketArn"@) && m["S3BucketArn"@] == JsonView::Str(domain.s3_bucket_arn->0@)
            &&& domain.status is None ==> !m.contains_key("Status"@)
            &&& domain.status is Some ==> m.contains_key("Status"@) && m["Status"@] == JsonView::Str(domain.status->0@)
        }),
{
    lemma_domain_detail_json_keys_differ();
}

/// The object of a domain description holds each reported field of it under its own key, and such a key is missing exactly when AWS did not report the field.
pub proof fn law_domain_detail_fields(domain: DomainDescription)
    ensures
        domain_detail_json(domain) is Object,
        ({
            let m = domain_detail_json(domain)->Object_0;
            &&& domain.arn is None ==> !m.contains_key("Arn"@)
            &&& domain.arn is Some ==> m.contains_key("Arn"@) && m["Arn"@] == JsonView::Str(domain.arn->0@)
            &&& domain.created_time is None ==> !m.contains_key("CreatedTime"@)
            &&& domain.created_time is Some ==> m.contains_key("CreatedTime"@) && m["CreatedTime"@] == ts_json(domain.created_time->0)
            &&& domain.encryption_key is None ==> !m.contains_key("EncryptionKey"@)
            &&& domain.encryption_key is Some ==> m.contains_key("EncryptionKey"@) && m["EncryptionKey"@] == JsonView::Str(domain.encryption_key->0@)
            &&& domain.owner is None ==> !m.contains_key("Owner"@)
            &&& domain.owner is Some ==> m.contains_key("Owner"@) && m["Owner"@] == JsonView::Str(domain.owner->0@)
            &&& domain.s3_bucket_arn is None ==> !m.contains_key("S3BucketArn"@)
            &&& domain.s3_bucket_arn is Some ==> m.contains_key("S3BucketArn"@) && m["S3BucketArn"@] == JsonView::Str(domain.s3_bucket_arn->0@)
            &&& domain.status is None ==> !m.contains_key("Status"@)
            &&& domain.status is Some ==> m.contains_key("Status"@) && m["Status"@] == JsonView::Str(domain.status->0@)
        }),
{
    lemma_domain_detail_json_fields_0(domain);
    lemma_domain_detail_json_fields_1(domain);
}

/// What tells the keys of `repository_detail_json` apart: their lengths, and a letter where two have the same length.
proof fn lemma_repository_detail_json_keys_differ()
    ensures
        "ACTIVE"@.len() == 6 && "ACTIVE"@[0] == 'A',
        "Arn"@.len() == 3,
        "CreatedTime"@.len() == 11 && "CreatedTime"@[0] == 'C',
        "Description"@.len() == 11 && "Description"@[0] == 'D' && "Description"@[1] == 'e',
        "DomainName"@.len() == 10 && "DomainName"@[0] == 'D',
        "DomainOwner"@.len() == 11 && "DomainOwner"@[0] == 'D' && "DomainOwner"@[1] == 'o',
        "ExternalConnections"@.len() == 19,
        "Name"@.len() == 4,
        "RepositoryName"@.len() == 14,
        "ResourceId"@.len() == 10 && "ResourceId"@[0] == 'R',
        "Status"@.len() == 6 && "Status"@[0] == 'S',
        "Upstreams"@.len() == 9,
{
    reveal_strlit("ACTIVE");
    reveal_strlit("Arn");
    reveal_strlit("CreatedTime");
    reveal_strlit("Description");
    reveal_strlit("DomainName");
    reveal_strlit("DomainOwner");
    reveal_strlit("ExternalConnections");
    reveal_strlit("Name");
    reveal_strlit("RepositoryName");
    reveal_strlit("ResourceId");
    reveal_strlit("Status");
    reveal_strlit("Upstreams");
}

#[verifier::spinoff_prover]
#[verifier::rlimit(30)]
proof fn lemma_repository_detail_json_fields_0(repository: RepositoryDescription)
    ensures
        repository_detail_json(repository) is Object,
        ({
            let m = repository_detail_json(repository)->Object_0;
            &&& repository.arn is None ==> !m.contains_key("Arn"@)
            &&& repository.arn is Some ==> m.contains_key("Arn"@) && m["Arn"@] == JsonView::Str(repository.arn->0@)
            &&& repository.created_time is None ==> !m.contains_key("CreatedTime"@)
            &&& repository.created_time is Some ==> m.contains_key("CreatedTime"@) && m["CreatedTime"@] == ts_json(repository.created_time->0)
            &&& repository.description is None ==> !m.contains_key("Description"@)
            &&& repository.description is Some ==> m.contains_key("Description"@) && m["Description"@] == JsonView::Str(repository.description->0@)
        }),
{
    lemma_repository_detail_json_keys_differ();
}

#[verifier::spinoff_prover]
#[verifier::rlimit(30)]
proof fn lemma_repository_detail_json_fields_1(repository: RepositoryDescription)
    ensures
        repository_detail_json(repository) is Object,
        ({
            let m = repository_detail_json(repository)->Object_0;
            &&& repository.domain_name is None ==> !m.contains_key("DomainName"@)
            &&& repository.domain_name is Some ==> m.contains_key("DomainName"@) && m["DomainName"@] == JsonView::Str(repository.domain_name->0@)
            &&& repository.domain_owner is None ==> !m.contains_key("DomainOwner"@)
            &&& repository.domain_owner is Some ==> m.contains_key("DomainOwner"@) && m["DomainOwner"@] == JsonView::Str(repository.domain_owner->0@)
        }),
{
    lemma_repository_detail_json_keys_differ();
}

/// The object of a repository description holds each reported field of it under its own key, and such a key is missing exactly when AWS did not report the field.
pub proof fn law_repository_detail_fields(repository: RepositoryDescription)
    ensures
        repository_detail_json(repository) is Object,
        ({
            let m = repository_detail_json(repository)->Object_0;
            &&& repository.arn is None ==> !m.contains_key("Arn"@)
            &&& repository.arn is Some ==> m.contains_key("Arn"@) && m["Arn"@] == JsonView::Str(repository.arn->0@)
            &&& repository.created_time is None ==> !m.contains_key("CreatedTime"@)
            &&& repository.created_time is Some ==> m.contains_key("CreatedTime"@) && m["CreatedTime"@] == ts_json(repository.created_time->0)
            &&& repository.description is None ==> !m.contains_key("Description"@)
            &&& repository.description is Some ==> m.contains_key("Description"@) && m["Description"@] == JsonView::Str(repository.description->0@)
            &&& repository.domain_name is None ==> !m.contains_key("DomainName"@)
            &&& repository.domain_name is Some ==> m.contains_key("DomainName"@) && m["DomainName"@] == JsonView::Str(repository.domain_name->0@)
            &&& repository.domain_owner is None ==> !m.contains_key("DomainOwner"@)
            &&& repository.domain_owner is Some ==> m.contains_key("DomainOwner"@) && m["DomainOwner"@] == JsonView::Str(repository.domain_owner->0@)
        }),
{
    lemma_repository_detail_json_fields_0(repository);
    lemma_repository_detail_json_fields_1(repository);
}

} // verus!

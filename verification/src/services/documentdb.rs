//! Amazon DocumentDB clusters as JSON.
use crate::json::{opt_int_json, opt_str_json, str_json, text_value, with_opt, items_view, lemma_items_view_push, JsonObject, JsonValue, JsonView};
use crate::text::concat_text;
use std::sync::Arc;
use vstd::prelude::*;

verus! {

/// A cluster as `DescribeDBClusters` reports it.
pub struct DbCluster {
    pub db_cluster_identifier: Option<String>,
    pub status: Option<String>,
    pub engine: Option<String>,
    pub engine_version: Option<String>,
    pub port: Option<i64>,
    pub backup_retention_period: Option<i64>,
}

/// Reads Amazon DocumentDB clusters through a credential coordinator `C`.
pub struct DocumentDbService<C> {
    credential_coordinator: Arc<C>,
}

/// The entry listed for a cluster of `account_id` in `region`.
pub open spec fn cluster_json(account_id: String, region: String, cluster: DbCluster) -> JsonView {
    let m = Map::<Seq<char>, JsonView>::empty();
    let m = with_opt(m, "ResourceId"@, opt_str_json(cluster.db_cluster_identifier));
    let m = with_opt(m, "Id"@, opt_str_json(cluster.db_cluster_identifier));
    let m = with_opt(m, "Name"@, opt_str_json(cluster.db_cluster_identifier));
    let m = m.insert("AccountId"@, str_json(account_id));
    let m = m.insert("Service"@, JsonView::Str("Amazon DocumentDB"@));
    let m = m.insert("Description"@, JsonView::Str("MongoDB-compatible database cluster"@));
    let m = m.insert("Region"@, str_json(region));
    let m = with_opt(m, "Status"@, opt_str_json(cluster.status));
    let m = with_opt(m, "Engine"@, opt_str_json(cluster.engine));
    let m = with_opt(m, "EngineVersion"@, opt_str_json(cluster.engine_version));
    JsonView::Object(m)
}

impl<C> DocumentDbService<C> {
    /// The coordinator that the service was made with.
    pub closed spec fn coordinator(&self) -> Arc<C> {
        self.credential_coordinator
    }

    /// A service that obtains its AWS configurations from `credential_coordinator`.
    pub fn new(credential_coordinator: Arc<C>) -> (s: Self)
        ensures
            s.coordinator() == credential_coordinator,
    {
        Self { credential_coordinator }
    }

    /// The coordinator that the service was made with.
    pub fn credential_coordinator(&self) -> (c: &Arc<C>)
        ensures
            *c == self.coordinator(),
    {
        &self.credential_coordinator
    }

    /// The entry listed for a cluster of `account_id` in `region`.
    pub fn cluster_to_json(&self, account_id: &String, region: &String, cluster: &DbCluster) -> (v: JsonValue)
        ensures
            v.view() == cluster_json(*account_id, *region, *cluster),
    {
        let mut json = JsonObject::new();
        json.insert_opt_str("ResourceId", &cluster.db_cluster_identifier);
        json.insert_opt_str("Id", &cluster.db_cluster_identifier);
        json.insert_opt_str("Name", &cluster.db_cluster_identifier);
        json.insert_str("AccountId", account_id);
        json.insert("Service", text_value("Amazon DocumentDB"));
        json.insert("Description", text_value("MongoDB-compatible database cluster"));
        json.insert_str("Region", region);
        json.insert_opt_str("Status", &cluster.status);
        json.insert_opt_str("Engine", &cluster.engine);
        json.insert_opt_str("EngineVersion", &cluster.engine_version);
        JsonValue::Object(json)
    }

}

/// The identifier of the entry that stands for the service itself.
pub open spec fn service_entry_id(account_id: String) -> Seq<char> {
    "documentdb-service-"@ + account_id@
}

/// The entry listed when the account answers with no cluster list.
pub open spec fn no_clusters_json(account_id: String) -> JsonView {
    let id = JsonView::Str(service_entry_id(account_id));
    let m = Map::<Seq<char>, JsonView>::empty();
    let m = m.insert("ResourceId"@, id);
    let m = m.insert("Id"@, id);
    let m = m.insert("AccountId"@, str_json(account_id));
    let m = m.insert("Name"@, JsonView::Str("DocumentDB Service"@));
    let m = m.insert("Status"@, JsonView::Str("Available"@));
    let m = m.insert("Service"@, JsonView::Str("Amazon DocumentDB"@));
    let m = m.insert("Description"@, JsonView::Str("No clusters found, but service is available"@));
    JsonView::Object(m)
}

/// The entry listed when the clusters could not be read.
pub open spec fn unavailable_json(account_id: String) -> JsonView {
    let m = Map::<Seq<char>, JsonView>::empty();
    let m = m.insert("AccountId"@, str_json(account_id));
    let m = m.insert("ResourceId"@, JsonView::Str("documentdb-"@ + account_id@));
    let m = m.insert("Status"@, JsonView::Str("Unavailable"@));
    let m = m.insert("Name"@, JsonView::Str("DocumentDB (Unavailable)"@));
    let m = m.insert("Service"@, JsonView::Str("Amazon DocumentDB"@));
    let m = m.insert("Description"@, JsonView::Str("MongoDB-compatible database service (not accessible)"@));
    JsonView::Object(m)
}

/// What is listed for an account: one entry per cluster when the answer
/// holds a cluster list, the service entry when it holds none, and the
/// unavailable entry when the call failed.
pub open spec fn clusters_listing(
    account_id: String,
    region: String,
    outcome: Result<Option<Vec<DbCluster>>, String>,
) -> Seq<JsonView> {
    match outcome {
        Ok(Some(clusters)) => clusters@.map_values(|c: DbCluster| cluster_json(account_id, region, c)),
        Ok(None) => seq![no_clusters_json(account_id)],
        Err(_) => seq![unavailable_json(account_id)],
    }
}

/// The details of a cluster: the account's fixed fields, then what the first
/// cluster of the answer reports.
pub open spec fn cluster_details_json(account_id: String, region: String, clusters: Option<Vec<DbCluster>>) -> JsonView {
    let m = Map::<Seq<char>, JsonView>::empty();
    let m = m.insert("AccountId"@, str_json(account_id));
    let m = m.insert("Service"@, JsonView::Str("Amazon DocumentDB"@));
    let m = m.insert("Description"@, JsonView::Str("MongoDB-compatible database with enterprise features"@));
    let m = m.insert("Region"@, str_json(region));
    let m = m.insert("Type"@, JsonView::Str("Document Database Cluster"@));
    let m = match clusters {
        Some(v) => if v@.len() > 0 {
            let c = v@[0];
            let m = with_opt(m, "Status"@, opt_str_json(c.status));
            let m = with_opt(m, "Engine"@, opt_str_json(c.engine));
            let m = with_opt(m, "EngineVersion"@, opt_str_json(c.engine_version));
            let m = with_opt(m, "Port"@, opt_int_json(c.port));
            with_opt(m, "BackupRetentionPeriod"@, opt_int_json(c.backup_retention_period))
        } else {
            m
        },
        None => m,
    };
    JsonView::Object(m)
}

impl<C> DocumentDbService<C> {
    /// The entry listed when the account answers with no cluster list.
    pub fn no_clusters_entry(&self, account_id: &String) -> (v: JsonValue)
        ensures
            v.view() == no_clusters_json(*account_id),
    {
        let id = concat_text("documentdb-service-", account_id.as_str());
        let mut json = JsonObject::new();
        json.insert_str("ResourceId", &id);
        json.insert_str("Id", &id);
        json.insert_str("AccountId", account_id);
        json.insert("Name", text_value("DocumentDB Service"));
        json.insert("Status", text_value("Available"));
        json.insert("Service", text_value("Amazon DocumentDB"));
        json.insert("Description", text_value("No clusters found, but service is available"));
        JsonValue::Object(json)
    }

    /// The entry listed when the clusters could not be read.
    pub fn unavailable_entry(&self, account_id: &String) -> (v: JsonValue)
        ensures
            v.view() == unavailable_json(*account_id),
    {
        let id = concat_text("documentdb-", account_id.as_str());
        let mut json = JsonObject::new();
        json.insert_str("AccountId", account_id);
        json.insert_str("ResourceId", &id);
        json.insert("Status", text_value("Unavailable"));
        json.insert("Name", text_value("DocumentDB (Unavailable)"));
        json.insert("Service", text_value("Amazon DocumentDB"));
        json.insert("Description", text_value("MongoDB-compatible database service (not accessible)"));
        JsonValue::Object(json)
    }

    /// The clusters listed for an account in a region, from the outcome of
    /// `DescribeDBClusters` (its error as text).
    pub fn list_clusters(
        &self,
        account_id: &String,
        region: &String,
        outcome: &Result<Option<Vec<DbCluster>>, String>,
    ) -> (r: Vec<JsonValue>)
        ensures
            items_view(r@) == clusters_listing(*account_id, *region, *outcome),
    {
        match outcome {
            Ok(Some(clusters)) => {
                let mut out: Vec<JsonValue> = Vec::new();
                let mut i: usize = 0;
                while i < clusters.len()
                    invariant
                        i <= clusters@.len(),
                        items_view(out@) =~= clusters@.take(i as int).map_values(
                            |c: DbCluster| cluster_json(*account_id, *region, c),
                        ),
                    decreases clusters@.len() - i,
                {
                    let ghost before = out@;
                    let x = self.cluster_to_json(account_id, region, &clusters[i]);
                    out.push(x);
                    proof {
                        lemma_items_view_push(before, x);
                        assert(clusters@.take(i + 1) =~= clusters@.take(i as int).push(clusters@[i as int]));
                    }
                    i = i + 1;
                }
                assert(clusters@.take(clusters@.len() as int) =~= clusters@);
                out
            },
            Ok(None) => {
                let e = self.no_clusters_entry(account_id);
                let mut r: Vec<JsonValue> = Vec::new();
                r.push(e);
                proof {
                    lemma_items_view_push(Seq::empty(), e);
                    assert(r@ =~= Seq::<JsonValue>::empty().push(e));
                    assert(items_view(Seq::<JsonValue>::empty()) =~= Seq::<JsonView>::empty());
                }
                r
            },
            Err(_) => {
                let e = self.unavailable_entry(account_id);
                let mut r: Vec<JsonValue> = Vec::new();
                r.push(e);
                proof {
                    lemma_items_view_push(Seq::empty(), e);
                    assert(r@ =~= Seq::<JsonValue>::empty().push(e));
                    assert(items_view(Seq::<JsonValue>::empty()) =~= Seq::<JsonView>::empty());
                }
                r
            },
        }
    }

    /// The details of a cluster from the clusters that `DescribeDBClusters`
    /// answered for its identifier.
    pub fn cluster_details_to_json(
        &self,
        account_id: &String,
        region: &String,
        clusters: &Option<Vec<DbCluster>>,
    ) -> (v: JsonValue)
        ensures
            v.view() == cluster_details_json(*account_id, *region, *clusters),
    {
        let mut json = JsonObject::new();
        json.insert_str("AccountId", account_id);
        json.insert("Service", text_value("Amazon DocumentDB"));
        json.insert("Description", text_value("MongoDB-compatible database with enterprise features"));
        json.insert_str("Region", region);
        json.insert("Type", text_value("Document Database Cluster"));
        if let Some(list) = clusters {
            if list.len() > 0 {
                let c = &list[0];
                json.insert_opt_str("Status", &c.status);
                json.insert_opt_str("Engine", &c.engine);
                json.insert_opt_str("EngineVersion", &c.engine_version);
                json.insert_opt_int("Port", c.port);
                json.insert_opt_int("BackupRetentionPeriod", c.backup_retention_period);
            }
        }
        JsonValue::Object(json)
    }
}

/// An account's listing holds one entry per cluster when the answer holds a
/// cluster list, and exactly one entry, the service or the unavailable one,
/// otherwise: no account is left without an entry unless its cluster list
/// is empty.
pub proof fn law_every_account_listed(account_id: String, region: String, outcome: Result<Option<Vec<DbCluster>>, String>)
    ensures
        clusters_listing(account_id, region, outcome).len() == match outcome {
            Ok(Some(v)) => v@.len(),
            _ => 1,
        },
{
}

} // verus!

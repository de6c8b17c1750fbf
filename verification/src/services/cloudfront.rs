//! CloudFront distributions as JSON, and how their listing is paged.
use crate::json::{
    opt_bool_json, opt_str_json, str_json, strs_json, strs_value, with_opt, JsonObject, JsonValue,
    JsonView, array_of,
};
use crate::text::{concat_text, join, joined, texts};
use crate::timestamp::{ts_json, Timestamp};
use std::sync::Arc;
use vstd::prelude::*;

verus! {

/// A distribution as `ListDistributions` summarises it. Enumerations hold
/// the debug text of the SDK value.
pub struct DistributionSummary {
    pub id: String,
    pub arn: String,
    /// The alias names (CNAMEs), when the summary lists them.
    pub aliases: Option<Vec<String>>,
    pub domain_name: String,
    pub status: String,
    pub last_modified_time: Timestamp,
    pub comment: String,
    pub enabled: bool,
    pub price_class: String,
    pub http_version: String,
    pub is_ipv6_enabled: bool,
    pub web_acl_id: String,
}

/// Whether trusted signers (or key groups) are active, and how many.
pub struct ActiveTrustedSigners {
    pub enabled: bool,
    pub quantity: i64,
}

/// An S3 origin's access identity.
pub struct S3OriginConfig {
    pub origin_access_identity: String,
}

/// A custom origin's ports and protocols.
pub struct CustomOriginConfig {
    pub http_port: i64,
    pub https_port: i64,
    pub origin_protocol_policy: String,
    /// The SSL protocols, as debug texts, when they are listed.
    pub origin_ssl_protocols: Option<Vec<String>>,
}

/// An origin of a distribution.
pub struct Origin {
    pub id: String,
    pub domain_name: String,
    pub origin_path: Option<String>,
    pub s3_origin_config: Option<S3OriginConfig>,
    pub custom_origin_config: Option<CustomOriginConfig>,
}

/// The default cache behaviour.
pub struct DefaultCacheBehavior {
    pub target_origin_id: String,
    pub viewer_protocol_policy: String,
    pub compress: Option<bool>,
    /// The allowed methods, as debug texts, when they are listed.
    pub allowed_methods: Option<Vec<String>>,
    pub cache_policy_id: Option<String>,
    pub origin_request_policy_id: Option<String>,
}

/// The viewer certificate.
pub struct ViewerCertificate {
    pub cloud_front_default_certificate: Option<bool>,
    pub iam_certificate_id: Option<String>,
    pub acm_certificate_arn: Option<String>,
    pub ssl_support_method: Option<String>,
    pub minimum_protocol_version: Option<String>,
}

/// The configuration of a distribution.
pub struct DistributionConfig {
    pub caller_reference: String,
    /// The alias names (CNAMEs), when the configuration lists them.
    pub aliases: Option<Vec<String>>,
    pub default_root_object: Option<String>,
    /// The origins, when the configuration has an origin list.
    pub origins: Option<Vec<Origin>>,
    pub default_cache_behavior: Option<DefaultCacheBehavior>,
    pub comment: String,
    pub enabled: bool,
    pub price_class: Option<String>,
    pub viewer_certificate: Option<ViewerCertificate>,
    pub web_acl_id: Option<String>,
    pub http_version: Option<String>,
    pub is_ipv6_enabled: Option<bool>,
}

/// A distribution as `GetDistribution` reports it.
pub struct Distribution {
    pub id: String,
    pub arn: String,
    pub status: String,
    pub last_modified_time: Timestamp,
    pub in_progress_invalidation_batches: i64,
    pub domain_name: String,
    pub active_trusted_signers: Option<ActiveTrustedSigners>,
    pub active_trusted_key_groups: Option<ActiveTrustedSigners>,
    pub distribution_config: Option<DistributionConfig>,
}

/// The paging part of a `ListDistributions` reply.
pub struct DistributionListPage {
    pub is_truncated: bool,
    pub next_marker: Option<String>,
    /// The ids of the distributions on the page, in order.
    pub item_ids: Option<Vec<String>>,
}

/// Reads CloudFront distributions through a credential coordinator `C`.
pub struct CloudFrontService<C> {
    credential_coordinator: Arc<C>,
}

// ----- models -----

/// The name a summary is listed under, and its domain text: the first alias
/// and all aliases joined by `", "`, or the domain name for both when there is
/// no alias.
pub open spec fn summary_names(d: DistributionSummary) -> (Seq<char>, Seq<char>) {
    match d.aliases {
        Some(items) => if items@.len() > 0 {
            (items@[0]@, joined(texts(items@), ", "@))
        } else {
            (d.domain_name@, d.domain_name@)
        },
        None => (d.domain_name@, d.domain_name@),
    }
}

/// The JSON object of a distribution summary.
pub open spec fn distribution_summary_json(d: DistributionSummary) -> JsonView {
    let m = Map::empty().insert("Id"@, str_json(d.id)).insert("ARN"@, str_json(d.arn));
    let m = m.insert("Name"@, JsonView::Str(summary_names(d).0)).insert(
        "DomainName"@,
        JsonView::Str(summary_names(d).1),
    );
    let m = m.insert("Status"@, str_json(d.status)).insert(
        "LastModifiedTime"@,
        ts_json(d.last_modified_time),
    );
    let m = m.insert("Comment"@, str_json(d.comment)).insert("Enabled"@, JsonView::Bool(d.enabled));
    let m = m.insert("PriceClass"@, str_json(d.price_class)).insert(
        "HttpVersion"@,
        str_json(d.http_version),
    );
    let m = m.insert("IsIPV6Enabled"@, JsonView::Bool(d.is_ipv6_enabled)).insert(
        "WebACLId"@,
        str_json(d.web_acl_id),
    );
    JsonView::Object(m)
}

/// The JSON object of an origin.
pub open spec fn origin_json(o: Origin) -> JsonView {
    let m = Map::empty().insert("Id"@, str_json(o.id)).insert("DomainName"@, str_json(o.domain_name));
    let m = with_opt(m, "OriginPath"@, opt_str_json(o.origin_path));
    let m = match o.s3_origin_config {
        Some(s3) => m.insert("OriginAccessIdentity"@, str_json(s3.origin_access_identity)),
        None => m,
    };
    let m = match o.custom_origin_config {
        Some(c) => {
            let m = m.insert("HTTPPort"@, JsonView::Number(c.http_port as int)).insert(
                "HTTPSPort"@,
                JsonView::Number(c.https_port as int),
            ).insert("OriginProtocolPolicy"@, str_json(c.origin_protocol_policy));
            match c.origin_ssl_protocols {
                Some(p) => m.insert("OriginSslProtocols"@, strs_json(p@)),
                None => m,
            }
        },
        None => m,
    };
    JsonView::Object(m)
}

/// The JSON object of the default cache behaviour.
pub open spec fn cache_behavior_json(b: DefaultCacheBehavior) -> JsonView {
    let m = Map::empty().insert("TargetOriginId"@, str_json(b.target_origin_id)).insert(
        "ViewerProtocolPolicy"@,
        str_json(b.viewer_protocol_policy),
    );
    let m = with_opt(m, "Compress"@, opt_bool_json(b.compress));
    let m = match b.allowed_methods {
        Some(v) => m.insert("AllowedMethods"@, strs_json(v@)),
        None => m,
    };
    let m = with_opt(m, "CachePolicyId"@, opt_str_json(b.cache_policy_id));
    JsonView::Object(with_opt(m, "OriginRequestPolicyId"@, opt_str_json(b.origin_request_policy_id)))
}

/// The JSON object of the viewer certificate.
pub open spec fn viewer_certificate_json(c: ViewerCertificate) -> JsonView {
    let m = with_opt(Map::empty(), "CloudFrontDefaultCertificate"@, opt_bool_json(c.cloud_front_default_certificate));
    let m = with_opt(m, "IAMCertificateId"@, opt_str_json(c.iam_certificate_id));
    let m = with_opt(m, "ACMCertificateArn"@, opt_str_json(c.acm_certificate_arn));
    let m = with_opt(m, "SSLSupportMethod"@, opt_str_json(c.ssl_support_method));
    JsonView::Object(with_opt(m, "MinimumProtocolVersion"@, opt_str_json(c.minimum_protocol_version)))
}

/// What the configuration adds to a distribution's object: the name (the
/// first alias, or the domain name) and the aliases, and each setting that is
/// present.
pub open spec fn config_map(
    m: Map<Seq<char>, JsonView>,
    c: DistributionConfig,
    domain_name: String,
) -> Map<Seq<char>, JsonView> {
    let m = m.insert("CallerReference"@, str_json(c.caller_reference));
    let m = match c.aliases {
        Some(items) => if items@.len() > 0 {
            m.insert("Name"@, str_json(items@[0])).insert("Aliases"@, strs_json(items@))
        } else {
            m.insert("Name"@, str_json(domain_name))
        },
        None => m.insert("Name"@, str_json(domain_name)),
    };
    let m = with_opt(m, "DefaultRootObject"@, opt_str_json(c.default_root_object));
    let m = match c.origins {
        Some(v) => m.insert("Origins"@, JsonView::Array(v@.map_values(|o: Origin| origin_json(o)))),
        None => m,
    };
    let m = match c.default_cache_behavior {
        Some(b) => m.insert("DefaultCacheBehavior"@, cache_behavior_json(b)),
        None => m,
    };
    let m = m.insert("Comment"@, str_json(c.comment)).insert("Enabled"@, JsonView::Bool(c.enabled));
    let m = with_opt(m, "PriceClass"@, opt_str_json(c.price_class));
    let m = match c.viewer_certificate {
        Some(v) => m.insert("ViewerCertificate"@, viewer_certificate_json(v)),
        None => m,
    };
    let m = with_opt(m, "WebACLId"@, opt_str_json(c.web_acl_id));
    let m = with_opt(m, "HttpVersion"@, opt_str_json(c.http_version));
    with_opt(m, "IsIPV6Enabled"@, opt_bool_json(c.is_ipv6_enabled))
}

/// The JSON object of a distribution.
pub open spec fn distribution_json(d: Distribution) -> JsonView {
    let m = Map::empty().insert("Id"@, str_json(d.id)).insert("ARN"@, str_json(d.arn));
    let m = m.insert("Status"@, str_json(d.status)).insert(
        "LastModifiedTime"@,
        ts_json(d.last_modified_time),
    );
    let m = m.insert(
        "InProgressInvalidationBatches"@,
        JsonView::Number(d.in_progress_invalidation_batches as int),
    ).insert("DomainName"@, str_json(d.domain_name));
    let m = match d.active_trusted_signers {
        Some(s) => m.insert("ActiveTrustedSignersEnabled"@, JsonView::Bool(s.enabled)).insert(
            "ActiveTrustedSignersQuantity"@,
            JsonView::Number(s.quantity as int),
        ),
        None => m,
    };
    let m = match d.active_trusted_key_groups {
        Some(s) => m.insert("ActiveTrustedKeyGroupsEnabled"@, JsonView::Bool(s.enabled)).insert(
            "ActiveTrustedKeyGroupsQuantity"@,
            JsonView::Number(s.quantity as int),
        ),
        None => m,
    };
    let m = match d.distribution_config {
        Some(c) => config_map(m, c, d.domain_name),
        None => m,
    };
    JsonView::Object(m)
}

/// Where the listing goes after a page: `None` when it is done; otherwise
/// the marker for the next request, which is the page's next marker, or the
/// last listed id when the page names none.
pub open spec fn next_page_marker(p: DistributionListPage) -> Option<Option<Seq<char>>> {
    if !p.is_truncated {
        None
    } else {
        match p.next_marker {
            Some(m) => Some(Some(m@)),
            None => match p.item_ids {
                Some(ids) => if ids@.len() > 0 {
                    Some(Some(ids@.last()@))
                } else {
                    Some(None)
                },
                None => Some(None),
            },
        }
    }
}

// ----- conversions -----

fn origin_to_json(o: &Origin) -> (v: JsonValue)
    ensures
        v.view() == origin_json(*o),
{
    let mut json = JsonObject::new();
    json.insert_str("Id", &o.id);
    json.insert_str("DomainName", &o.domain_name);
    json.insert_opt_str("OriginPath", &o.origin_path);
    if let Some(s3) = &o.s3_origin_config {
        json.insert_str("OriginAccessIdentity", &s3.origin_access_identity);
    }
    if let Some(custom) = &o.custom_origin_config {
        json.insert_int("HTTPPort", custom.http_port);
        json.insert_int("HTTPSPort", custom.https_port);
        json.insert_str("OriginProtocolPolicy", &custom.origin_protocol_policy);
        if let Some(protocols) = &custom.origin_ssl_protocols {
            json.insert("OriginSslProtocols", strs_value(protocols));
        }
    }
    JsonValue::Object(json)
}

impl<C> CloudFrontService<C> {
    /// The coordinator that the service was made with.
    pub closed spec fn coordinator(&self) -> Arc<C> {
        self.credential_coordinator
    }

    /// A service that obtains its AWS configurations from `credential_coordinator`.
    pub fn new(credential_coordinator: Arc<C>) -> (s: Self)
        ensures
            s.coordinator() == credential_coordinator,
    {
        Self { credential_coordinator }
    }

    /// The coordinator that the service was made with.
    pub fn credential_coordinator(&self) -> (c: &Arc<C>)
        ensures
            *c == self.coordinator(),
    {
        &self.credential_coordinator
    }

    /// The JSON object of a distribution summary, listed when the full
    /// distribution could not be read.
    pub fn distribution_summary_to_json(&self, summary: &DistributionSummary) -> (v: JsonValue)
        ensures
            v.view() == distribution_summary_json(*summary),
    {
        let mut json = JsonObject::new();
        json.insert_str("Id", &summary.id);
        json.insert_str("ARN", &summary.arn);
        match &summary.aliases {
            Some(items) if items.len() > 0 => {
                json.insert_str("Name", &items[0]);
                json.insert("DomainName", JsonValue::Str(join(items, ", ")));
            },
            _ => {
                json.insert_str("Name", &summary.domain_name);
                json.insert_str("DomainName", &summary.domain_name);
            },
        }
        json.insert_str("Status", &summary.status);
        json.insert("LastModifiedTime", JsonValue::Str(summary.last_modified_time.display_text()));
        json.insert_str("Comment", &summary.comment);
        json.insert_bool("Enabled", summary.enabled);
        json.insert_str("PriceClass", &summary.price_class);
        json.insert_str("HttpVersion", &summary.http_version);
        json.insert_bool("IsIPV6Enabled", summary.is_ipv6_enabled);
        json.insert_str("WebACLId", &summary.web_acl_id);
        JsonValue::Object(json)
    }

    /// The JSON object of a distribution.
    pub fn distribution_to_json(&self, distribution: &Distribution) -> (v: JsonValue)
        ensures
            v.view() == distribution_json(*distribution),
    {
        let mut json = JsonObject::new();
        json.insert_str("Id", &distribution.id);
        json.insert_str("ARN", &distribution.arn);
        json.insert_str("Status", &distribution.status);
        json.insert(
            "LastModifiedTime",
            JsonValue::Str(distribution.last_modified_time.display_text()),
        );
        json.insert_int(
            "InProgressInvalidationBatches",
            distribution.in_progress_invalidation_batches,
        );
        json.insert_str("DomainName", &distribution.domain_name);
        if let Some(signers) = &distribution.active_trusted_signers {
            json.insert_bool("ActiveTrustedSignersEnabled", signers.enabled);
            json.insert_int("ActiveTrustedSignersQuantity", signers.quantity);
        }
        if let Some(groups) = &distribution.active_trusted_key_groups {
            json.insert_bool("ActiveTrustedKeyGroupsEnabled", groups.enabled);
            json.insert_int("ActiveTrustedKeyGroupsQuantity", groups.quantity);
        }
        if let Some(config) = &distribution.distribution_config {
            let ghost before = json.view();
            json.insert_str("CallerReference", &config.caller_reference);
            match &config.aliases {
                Some(items) if items.len() > 0 => {
                    json.insert_str("Name", &items[0]);
                    json.insert("Aliases", strs_value(items));
                },
                _ => {
                    json.insert_str("Name", &distribution.domain_name);
                },
            }
            json.insert_opt_str("DefaultRootObject", &config.default_root_object);
            if let Some(origins) = &config.origins {
                json.insert(
                    "Origins",
                    array_of(origins, origin_to_json, Ghost(|o: Origin| origin_json(o))),
                );
            }
            if let Some(behavior) = &config.default_cache_behavior {
                let mut behavior_json = JsonObject::new();
                behavior_json.insert_str("TargetOriginId", &behavior.target_origin_id);
                behavior_json.insert_str("ViewerProtocolPolicy", &behavior.viewer_protocol_policy);
                behavior_json.insert_opt_bool("Compress", behavior.compress);
                if let Some(methods) = &behavior.allowed_methods {
                    behavior_json.insert("AllowedMethods", strs_value(methods));
                }
                behavior_json.insert_opt_str("CachePolicyId", &behavior.cache_policy_id);
                behavior_json.insert_opt_str(
                    "OriginRequestPolicyId",
                    &behavior.origin_request_policy_id,
                );
                json.insert("DefaultCacheBehavior", JsonValue::Object(behavior_json));
            }
            json.insert_str("Comment", &config.comment);
            json.insert_bool("Enabled", config.enabled);
            json.insert_opt_str("PriceClass", &config.price_class);
            if let Some(cert) = &config.viewer_certificate {
                let mut cert_json = JsonObject::new();
                cert_json.insert_opt_bool(
                    "CloudFrontDefaultCertificate",
                    cert.cloud_front_default_certificate,
                );
                cert_json.insert_opt_str("IAMCertificateId", &cert.iam_certificate_id);
                cert_json.insert_opt_str("ACMCertificateArn", &cert.acm_certificate_arn);
                cert_json.insert_opt_str("SSLSupportMethod", &cert.ssl_support_method);
                cert_json.insert_opt_str("MinimumProtocolVersion", &cert.minimum_protocol_version);
                json.insert("ViewerCertificate", JsonValue::Object(cert_json));
            }
            json.insert_opt_str("WebACLId", &config.web_acl_id);
            json.insert_opt_str("HttpVersion", &config.http_version);
            json.insert_opt_bool("IsIPV6Enabled", config.is_ipv6_enabled);
            assert(json.view() == config_map(before, *config, distribution.domain_name));
        }
        JsonValue::Object(json)
    }

    /// After a page of `ListDistributions`: `None` when the listing is done,
    /// otherwise the marker to send with the next request.
    pub fn next_distribution_marker(&self, page: &DistributionListPage) -> (r: Option<Option<String>>)
        ensures
            match r {
                None => next_page_marker(*page) is None,
                Some(None) => next_page_marker(*page) == Some(None::<Seq<char>>),
                Some(Some(m)) => next_page_marker(*page) == Some(Some(m@)),
            },
    {
        if !page.is_truncated {
            return None;
        }
        match &page.next_marker {
            Some(m) => Some(Some(m.clone())),
            None => match &page.item_ids {
                Some(ids) if ids.len() > 0 => Some(Some(ids[ids.len() - 1].clone())),
                _ => Some(None),
            },
        }
    }
}

impl<C> CloudFrontService<C> {
    /// The distribution `distribution_id` from what `GetDistribution`
    /// answered, or the error that names it.
    pub fn describe_distribution(&self, distribution: &Option<Distribution>, distribution_id: &str) -> (r: Result<
        JsonValue,
        String,
    >)
        ensures
            match *distribution {
                Some(d) => r matches Ok(v) && v.view() == distribution_json(d),
                None => r matches Err(e) && e@ == "Distribution "@ + distribution_id@ + " not found"@,
            },
    {
        match distribution {
            Some(d) => Ok(self.distribution_to_json(d)),
            None => {
                let mut text = concat_text("Distribution ", distribution_id);
                text.append(" not found");
                Err(text)
            },
        }
    }
}

/// The keys that the law of a distribution's object speaks of differ from every other key of it.
proof fn lemma_distribution_keys_differ()
    ensures
        "Id"@ != "ARN"@,
        "Id"@ != "Status"@,
        "Id"@ != "LastModifiedTime"@,
        "Id"@ != "InProgressInvalidationBatches"@,
        "Id"@ != "DomainName"@,
        "Id"@ != "ActiveTrustedSignersEnabled"@,
        "Id"@ != "ActiveTrustedSignersQuantity"@,
        "Id"@ != "ActiveTrustedKeyGroupsEnabled"@,
        "Id"@ != "ActiveTrustedKeyGroupsQuantity"@,
        "Id"@ != "CallerReference"@,
        "Id"@ != "Name"@,
        "Id"@ != "Aliases"@,
        "Id"@ != "DefaultRootObject"@,
        "Id"@ != "Origins"@,
        "Id"@ != "DefaultCacheBehavior"@,
        "Id"@ != "Comment"@,
        "Id"@ != "Enabled"@,
        "Id"@ != "PriceClass"@,
        "Id"@ != "ViewerCertificate"@,
        "Id"@ != "WebACLId"@,
        "Id"@ != "HttpVersion"@,
        "Id"@ != "IsIPV6Enabled"@,
        "DomainName"@ != "ARN"@,
        "DomainName"@ != "Status"@,
        "DomainName"@ != "LastModifiedTime"@,
        "DomainName"@ != "InProgressInvalidationBatches"@,
        "DomainName"@ != "ActiveTrustedSignersEnabled"@,
        "DomainName"@ != "ActiveTrustedSignersQuantity"@,
        "DomainName"@ != "ActiveTrustedKeyGroupsEnabled"@,
        "DomainName"@ != "ActiveTrustedKeyGroupsQuantity"@,
        "DomainName"@ != "CallerReference"@,
        "DomainName"@ != "Name"@,
        "DomainName"@ != "Aliases"@,
        "DomainName"@ != "DefaultRootObject"@,
        "DomainName"@ != "Origins"@,
        "DomainName"@ != "DefaultCacheBehavior"@,
        "DomainName"@ != "Comment"@,
        "DomainName"@ != "Enabled"@,
        "DomainName"@ != "PriceClass"@,
        "DomainName"@ != "ViewerCertificate"@,
        "DomainName"@ != "WebACLId"@,
        "DomainName"@ != "HttpVersion"@,
        "DomainName"@ != "IsIPV6Enabled"@,
        "Name"@ != "ARN"@,
        "Name"@ != "Status"@,
        "Name"@ != "LastModifiedTime"@,
        "Name"@ != "InProgressInvalidationBatches"@,
        "Name"@ != "ActiveTrustedSignersEnabled"@,
        "Name"@ != "ActiveTrustedSignersQuantity"@,
        "Name"@ != "ActiveTrustedKeyGroupsEnabled"@,
        "Name"@ != "ActiveTrustedKeyGroupsQuantity"@,
        "Name"@ != "CallerReference"@,
        "Name"@ != "Aliases"@,
        "Name"@ != "DefaultRootObject"@,
        "Name"@ != "Origins"@,
        "Name"@ != "DefaultCacheBehavior"@,
        "Name"@ != "Comment"@,
        "Name"@ != "Enabled"@,
        "Name"@ != "PriceClass"@,
        "Name"@ != "ViewerCertificate"@,
        "Name"@ != "WebACLId"@,
        "Name"@ != "HttpVersion"@,
        "Name"@ != "IsIPV6Enabled"@,
        "Aliases"@ != "ARN"@,
        "Aliases"@ != "Status"@,
        "Aliases"@ != "LastModifiedTime"@,
        "Aliases"@ != "InProgressInvalidationBatches"@,
        "Aliases"@ != "ActiveTrustedSignersEnabled"@,
        "Aliases"@ != "ActiveTrustedSignersQuantity"@,
        "Aliases"@ != "ActiveTrustedKeyGroupsEnabled"@,
        "Aliases"@ != "ActiveTrustedKeyGroupsQuantity"@,
        "Aliases"@ != "CallerReference"@,
        "Aliases"@ != "DefaultRootObject"@,
        "Aliases"@ != "Origins"@,
        "Aliases"@ != "DefaultCacheBehavior"@,
        "Aliases"@ != "Comment"@,
        "Aliases"@ != "Enabled"@,
        "Aliases"@ != "PriceClass"@,
        "Aliases"@ != "ViewerCertificate"@,
        "Aliases"@ != "WebACLId"@,
        "Aliases"@ != "HttpVersion"@,
        "Aliases"@ != "IsIPV6Enabled"@,
{
    assert("Id"@ != "ARN"@) by {
        reveal_strlit("Id");
        reveal_strlit("ARN");
        assert("Id"@.len() != "ARN"@.len());
    }
    assert("Id"@ != "Status"@) by {
        reveal_strlit("Id");
        reveal_strlit("Status");
        assert("Id"@.len() != "Status"@.len());
    }
    assert("Id"@ != "LastModifiedTime"@) by {
        reveal_strlit("Id");
        reveal_strlit("LastModifiedTime");
        assert("Id"@.len() != "LastModifiedTime"@.len());
    }
    assert("Id"@ != "InProgressInvalidationBatches"@) by {
        reveal_strlit("Id");
        reveal_strlit("InProgressInvalidationBatches");
        assert("Id"@.len() != "InProgressInvalidationBatches"@.len());
    }
    assert("Id"@ != "DomainName"@) by {
        reveal_strlit("Id");
        reveal_strlit("DomainName");
        assert("Id"@.len() != "DomainName"@.len());
    }
    assert("Id"@ != "ActiveTrustedSignersEnabled"@) by {
        reveal_strlit("Id");
        reveal_strlit("ActiveTrustedSignersEnabled");
        assert("Id"@.len() != "ActiveTrustedSignersEnabled"@.len());
    }
    assert("Id"@ != "ActiveTrustedSignersQuantity"@) by {
        reveal_strlit("Id");
        reveal_strlit("ActiveTrustedSignersQuantity");
        assert("Id"@.len() != "ActiveTrustedSignersQuantity"@.len());
    }
    assert("Id"@ != "ActiveTrustedKeyGroupsEnabled"@) by {
        reveal_strlit("Id");
        reveal_strlit("ActiveTrustedKeyGroupsEnabled");
        assert("Id"@.len() != "ActiveTrustedKeyGroupsEnabled"@.len());
    }
    assert("Id"@ != "ActiveTrustedKeyGroupsQuantity"@) by {
        reveal_strlit("Id");
        reveal_strlit("ActiveTrustedKeyGroupsQuantity");
        assert("Id"@.len() != "ActiveTrustedKeyGroupsQuantity"@.len());
    }
    assert("Id"@ != "CallerReference"@) by {
        reveal_strlit("Id");
        reveal_strlit("CallerReference");
        assert("Id"@.len() != "CallerReference"@.len());
    }
    assert("Id"@ != "Name"@) by {
        reveal_strlit("Id");
        reveal_strlit("Name");
        assert("Id"@.len() != "Name"@.len());
    }
    assert("Id"@ != "Aliases"@) by {
        reveal_strlit("Id");
        reveal_strlit("Aliases");
        assert("Id"@.len() != "Aliases"@.len());
    }
    assert("Id"@ != "DefaultRootObject"@) by {
        reveal_strlit("Id");
        reveal_strlit("DefaultRootObject");
        assert("Id"@.len() != "DefaultRootObject"@.len());
    }
    assert("Id"@ != "Origins"@) by {
        reveal_strlit("Id");
        reveal_strlit("Origins");
        assert("Id"@.len() != "Origins"@.len());
    }
    assert("Id"@ != "DefaultCacheBehavior"@) by {
        reveal_strlit("Id");
        reveal_strlit("DefaultCacheBehavior");
        assert("Id"@.len() != "DefaultCacheBehavior"@.len());
    }
    assert("Id"@ != "Comment"@) by {
        reveal_strlit("Id");
        reveal_strlit("Comment");
        assert("Id"@.len() != "Comment"@.len());
    }
    assert("Id"@ != "Enabled"@) by {
        reveal_strlit("Id");
        reveal_strlit("Enabled");
        assert("Id"@.len() != "Enabled"@.len());
    }
    assert("Id"@ != "PriceClass"@) by {
        reveal_strlit("Id");
        reveal_strlit("PriceClass");
        assert("Id"@.len() != "PriceClass"@.len());
    }
    assert("Id"@ != "ViewerCertificate"@) by {
        reveal_strlit("Id");
        reveal_strlit("ViewerCertificate");
        assert("Id"@.len() != "ViewerCertificate"@.len());
    }
    assert("Id"@ != "WebACLId"@) by {
        reveal_strlit("Id");
        reveal_strlit("WebACLId");
        assert("Id"@.len() != "WebACLId"@.len());
    }
    assert("Id"@ != "HttpVersion"@) by {
        reveal_strlit("Id");
        reveal_strlit("HttpVersion");
        assert("Id"@.len() != "HttpVersion"@.len());
    }
    assert("Id"@ != "IsIPV6Enabled"@) by {
        reveal_strlit("Id");
        reveal_strlit("IsIPV6Enabled");
        assert("Id"@.len() != "IsIPV6Enabled"@.len());
    }
    assert("DomainName"@ != "ARN"@) by {
        reveal_strlit("DomainName");
        reveal_strlit("ARN");
        assert("DomainName"@.len() != "ARN"@.len());
    }
    assert("DomainName"@ != "Status"@) by {
        reveal_strlit("DomainName");
        reveal_strlit("Status");
        assert("DomainName"@.len() != "Status"@.len());
    }
    assert("DomainName"@ != "LastModifiedTime"@) by {
        reveal_strlit("DomainName");
        reveal_strlit("LastModifiedTime");
        assert("DomainName"@.len() != "LastModifiedTime"@.len());
    }
    assert("DomainName"@ != "InProgressInvalidationBatches"@) by {
        reveal_strlit("DomainName");
        reveal_strlit("InProgressInvalidationBatches");
        assert("DomainName"@.len() != "InProgressInvalidationBatches"@.len());
    }
    assert("DomainName"@ != "ActiveTrustedSignersEnabled"@) by {
        reveal_strlit("DomainName");
        reveal_strlit("ActiveTrustedSignersEnabled");
        assert("DomainName"@.len() != "ActiveTrustedSignersEnabled"@.len());
    }
    assert("DomainName"@ != "ActiveTrustedSignersQuantity"@) by {
        reveal_strlit("DomainName");
        reveal_strlit("ActiveTrustedSignersQuantity");
        assert("DomainName"@.len() != "ActiveTrustedSignersQuantity"@.len());
    }
    assert("DomainName"@ != "ActiveTrustedKeyGroupsEnabled"@) by {
        reveal_strlit("DomainName");
        reveal_strlit("ActiveTrustedKeyGroupsEnabled");
        assert("DomainName"@.len() != "ActiveTrustedKeyGroupsEnabled"@.len());
    }
    assert("DomainName"@ != "ActiveTrustedKeyGroupsQuantity"@) by {
        reveal_strlit("DomainName");
        reveal_strlit("ActiveTrustedKeyGroupsQuantity");
        assert("DomainName"@.len() != "ActiveTrustedKeyGroupsQuantity"@.len());
    }
    assert("DomainName"@ != "CallerReference"@) by {
        reveal_strlit("DomainName");
        reveal_strlit("CallerReference");
        assert("DomainName"@.len() != "CallerReference"@.len());
    }
    assert("DomainName"@ != "Name"@) by {
        reveal_strlit("DomainName");
        reveal_strlit("Name");
        assert("DomainName"@.len() != "Name"@.len());
    }
    assert("DomainName"@ != "Aliases"@) by {
        reveal_strlit("DomainName");
        reveal_strlit("Aliases");
        assert("DomainName"@.len() != "Aliases"@.len());
    }
    assert("DomainName"@ != "DefaultRootObject"@) by {
        reveal_strlit("DomainName");
        reveal_strlit("DefaultRootObject");
        assert("DomainName"@.len() != "DefaultRootObject"@.len());
    }
    assert("DomainName"@ != "Origins"@) by {
        reveal_strlit("DomainName");
        reveal_strlit("Origins");
        assert("DomainName"@.len() != "Origins"@.len());
    }
    assert("DomainName"@ != "DefaultCacheBehavior"@) by {
        reveal_strlit("DomainName");
        reveal_strlit("DefaultCacheBehavior");
        assert("DomainName"@.len() != "DefaultCacheBehavior"@.len());
    }
    assert("DomainName"@ != "Comment"@) by {
        reveal_strlit("DomainName");
        reveal_strlit("Comment");
        assert("DomainName"@.len() != "Comment"@.len());
    }
    assert("DomainName"@ != "Enabled"@) by {
        reveal_strlit("DomainName");
        reveal_strlit("Enabled");
        assert("DomainName"@.len() != "Enabled"@.len());
    }
    assert("DomainName"@ != "PriceClass"@) by {
        reveal_strlit("DomainName");
        reveal_strlit("PriceClass");
        assert("DomainName"@[0] != "PriceClass"@[0]);
    }
    assert("DomainName"@ != "ViewerCertificate"@) by {
        reveal_strlit("DomainName");
        reveal_strlit("ViewerCertificate");
        assert("DomainName"@.len() != "ViewerCertificate"@.len());
    }
    assert("DomainName"@ != "WebACLId"@) by {
        reveal_strlit("DomainName");
        reveal_strlit("WebACLId");
        assert("DomainName"@.len() != "WebACLId"@.len());
    }
    assert("DomainName"@ != "HttpVersion"@) by {
        reveal_strlit("DomainName");
        reveal_strlit("HttpVersion");
        assert("DomainName"@.len() != "HttpVersion"@.len());
    }
    assert("DomainName"@ != "IsIPV6Enabled"@) by {
        reveal_strlit("DomainName");
        reveal_strlit("IsIPV6Enabled");
        assert("DomainName"@.len() != "IsIPV6Enabled"@.len());
    }
    assert("Name"@ != "ARN"@) by {
        reveal_strlit("Name");
        reveal_strlit("ARN");
        assert("Name"@.len() != "ARN"@.len());
    }
    assert("Name"@ != "Status"@) by {
        reveal_strlit("Name");
        reveal_strlit("Status");
        assert("Name"@.len() != "Status"@.len());
    }
    assert("Name"@ != "LastModifiedTime"@) by {
        reveal_strlit("Name");
        reveal_strlit("LastModifiedTime");
        assert("Name"@.len() != "LastModifiedTime"@.len());
    }
    assert("Name"@ != "InProgressInvalidationBatches"@) by {
        reveal_strlit("Name");
        reveal_strlit("InProgressInvalidationBatches");
        assert("Name"@.len() != "InProgressInvalidationBatches"@.len());
    }
    assert("Name"@ != "ActiveTrustedSignersEnabled"@) by {
        reveal_strlit("Name");
        reveal_strlit("ActiveTrustedSignersEnabled");
        assert("Name"@.len() != "ActiveTrustedSignersEnabled"@.len());
    }
    assert("Name"@ != "ActiveTrustedSignersQuantity"@) by {
        reveal_strlit("Name");
        reveal_strlit("ActiveTrustedSignersQuantity");
        assert("Name"@.len() != "ActiveTrustedSignersQuantity"@.len());
    }
    assert("Name"@ != "ActiveTrustedKeyGroupsEnabled"@) by {
        reveal_strlit("Name");
        reveal_strlit("ActiveTrustedKeyGroupsEnabled");
        assert("Name"@.len() != "ActiveTrustedKeyGroupsEnabled"@.len());
    }
    assert("Name"@ != "ActiveTrustedKeyGroupsQuantity"@) by {
        reveal_strlit("Name");
        reveal_strlit("ActiveTrustedKeyGroupsQuantity");
        assert("Name"@.len() != "ActiveTrustedKeyGroupsQuantity"@.len());
    }
    assert("Name"@ != "CallerReference"@) by {
        reveal_strlit("Name");
        reveal_strlit("CallerReference");
        assert("Name"@.len() != "CallerReference"@.len());
    }
    assert("Name"@ != "Aliases"@) by {
        reveal_strlit("Name");
        reveal_strlit("Aliases");
        assert("Name"@.len() != "Aliases"@.len());
    }
    assert("Name"@ != "DefaultRootObject"@) by {
        reveal_strlit("Name");
        reveal_strlit("DefaultRootObject");
        assert("Name"@.len() != "DefaultRootObject"@.len());
    }
    assert("Name"@ != "Origins"@) by {
        reveal_strlit("Name");
        reveal_strlit("Origins");
        assert("Name"@.len() != "Origins"@.len());
    }
    assert("Name"@ != "DefaultCacheBehavior"@) by {
        reveal_strlit("Name");
        reveal_strlit("DefaultCacheBehavior");
        assert("Name"@.len() != "DefaultCacheBehavior"@.len());
    }
    assert("Name"@ != "Comment"@) by {
        reveal_strlit("Name");
        reveal_strlit("Comment");
        assert("Name"@.len() != "Comment"@.len());
    }
    assert("Name"@ != "Enabled"@) by {
        reveal_strlit("Name");
        reveal_strlit("Enabled");
        assert("Name"@.len() != "Enabled"@.len());
    }
    assert("Name"@ != "PriceClass"@) by {
        reveal_strlit("Name");
        reveal_strlit("PriceClass");
        assert("Name"@.len() != "PriceClass"@.len());
    }
    assert("Name"@ != "ViewerCertificate"@) by {
        reveal_strlit("Name");
        reveal_strlit("ViewerCertificate");
        assert("Name"@.len() != "ViewerCertificate"@.len());
    }
    assert("Name"@ != "WebACLId"@) by {
        reveal_strlit("Name");
        reveal_strlit("WebACLId");
        assert("Name"@.len() != "WebACLId"@.len());
    }
    assert("Name"@ != "HttpVersion"@) by {
        reveal_strlit("Name");
        reveal_strlit("HttpVersion");
        assert("Name"@.len() != "HttpVersion"@.len());
    }
    assert("Name"@ != "IsIPV6Enabled"@) by {
        reveal_strlit("Name");
        reveal_strlit("IsIPV6Enabled");
        assert("Name"@.len() != "IsIPV6Enabled"@.len());
    }
    assert("Aliases"@ != "ARN"@) by {
        reveal_strlit("Aliases");
        reveal_strlit("ARN");
        assert("Aliases"@.len() != "ARN"@.len());
    }
    assert("Aliases"@ != "Status"@) by {
        reveal_strlit("Aliases");
        reveal_strlit("Status");
        assert("Aliases"@.len() != "Status"@.len());
    }
    assert("Aliases"@ != "LastModifiedTime"@) by {
        reveal_strlit("Aliases");
        reveal_strlit("LastModifiedTime");
        assert("Aliases"@.len() != "LastModifiedTime"@.len());
    }
    assert("Aliases"@ != "InProgressInvalidationBatches"@) by {
        reveal_strlit("Aliases");
        reveal_strlit("InProgressInvalidationBatches");
        assert("Aliases"@.len() != "InProgressInvalidationBatches"@.len());
    }
    assert("Aliases"@ != "ActiveTrustedSignersEnabled"@) by {
        reveal_strlit("Aliases");
        reveal_strlit("ActiveTrustedSignersEnabled");
        assert("Aliases"@.len() != "ActiveTrustedSignersEnabled"@.len());
    }
    assert("Aliases"@ != "ActiveTrustedSignersQuantity"@) by {
        reveal_strlit("Aliases");
        reveal_strlit("ActiveTrustedSignersQuantity");
        assert("Aliases"@.len() != "ActiveTrustedSignersQuantity"@.len());
    }
    assert("Aliases"@ != "ActiveTrustedKeyGroupsEnabled"@) by {
        reveal_strlit("Aliases");
        reveal_strlit("ActiveTrustedKeyGroupsEnabled");
        assert("Aliases"@.len() != "ActiveTrustedKeyGroupsEnabled"@.len());
    }
    assert("Aliases"@ != "ActiveTrustedKeyGroupsQuantity"@) by {
        reveal_strlit("Aliases");
        reveal_strlit("ActiveTrustedKeyGroupsQuantity");
        assert("Aliases"@.len() != "ActiveTrustedKeyGroupsQuantity"@.len());
    }
    assert("Aliases"@ != "CallerReference"@) by {
        reveal_strlit("Aliases");
        reveal_strlit("CallerReference");
        assert("Aliases"@.len() != "CallerReference"@.len());
    }
    assert("Aliases"@ != "DefaultRootObject"@) by {
        reveal_strlit("Aliases");
        reveal_strlit("DefaultRootObject");
        assert("Aliases"@.len() != "DefaultRootObject"@.len());
    }
    assert("Aliases"@ != "Origins"@) by {
        reveal_strlit("Aliases");
        reveal_strlit("Origins");
        assert("Aliases"@[0] != "Origins"@[0]);
    }
    assert("Aliases"@ != "DefaultCacheBehavior"@) by {
        reveal_strlit("Aliases");
        reveal_strlit("DefaultCacheBehavior");
        assert("Aliases"@.len() != "DefaultCacheBehavior"@.len());
    }
    assert("Aliases"@ != "Comment"@) by {
        reveal_strlit("Aliases");
        reveal_strlit("Comment");
        assert("Aliases"@[0] != "Comment"@[0]);
    }
    assert("Aliases"@ != "Enabled"@) by {
        reveal_strlit("Aliases");
        reveal_strlit("Enabled");
        assert("Aliases"@[0] != "Enabled"@[0]);
    }
    assert("Aliases"@ != "PriceClass"@) by {
        reveal_strlit("Aliases");
        reveal_strlit("PriceClass");
        assert("Aliases"@.len() != "PriceClass"@.len());
    }
    assert("Aliases"@ != "ViewerCertificate"@) by {
        reveal_strlit("Aliases");
        reveal_strlit("ViewerCertificate");
        assert("Aliases"@.len() != "ViewerCertificate"@.len());
    }
    assert("Aliases"@ != "WebACLId"@) by {
        reveal_strlit("Aliases");
        reveal_strlit("WebACLId");
        assert("Aliases"@.len() != "WebACLId"@.len());
    }
    assert("Aliases"@ != "HttpVersion"@) by {
        reveal_strlit("Aliases");
        reveal_strlit("HttpVersion");
        assert("Aliases"@.len() != "HttpVersion"@.len());
    }
    assert("Aliases"@ != "IsIPV6Enabled"@) by {
        reveal_strlit("Aliases");
        reveal_strlit("IsIPV6Enabled");
        assert("Aliases"@.len() != "IsIPV6Enabled"@.len());
    }
}

/// A distribution's object always holds its id and domain name. Without a
/// configuration it has neither `Name` nor `Aliases`. With one, a non-empty
/// alias list gives the name (its first alias) and `Aliases` (all of them, in
/// order); otherwise the name is the domain name and there is no `Aliases`.
#[verifier::spinoff_prover]
#[verifier::rlimit(60)]
pub proof fn law_distribution_name(d: Distribution)
    ensures
        distribution_json(d) is Object,
        ({
            let m = distribution_json(d)->Object_0;
            &&& m.contains_key("Id"@) && m["Id"@] == str_json(d.id)
            &&& m.contains_key("DomainName"@) && m["DomainName"@] == str_json(d.domain_name)
            &&& d.distribution_config is None ==> !m.contains_key("Name"@) && !m.contains_key("Aliases"@)
            &&& d.distribution_config is Some ==> {
                let aliases = d.distribution_config->0.aliases;
                &&& aliases is Some && aliases->0@.len() > 0 ==> {
                    let xs = aliases->0@;
                    &&& m.contains_key("Name"@) && m["Name"@] == str_json(xs[0])
                    &&& m.contains_key("Aliases"@) && m["Aliases"@] is Array
                    &&& m["Aliases"@]->Array_0.len() == xs.len()
                    &&& forall|i: int| 0 <= i < xs.len() ==> #[trigger] m["Aliases"@]->Array_0[i] == str_json(xs[i])
                }
                &&& !(aliases is Some && aliases->0@.len() > 0) ==> m.contains_key("Name"@) && m["Name"@] == str_json(
                    d.domain_name,
                ) && !m.contains_key("Aliases"@)
            }
        }),
{
    lemma_distribution_keys_differ();
}


// ----- each reported field under its own key -----

/// What tells the keys of `cache_behavior_json` apart: their lengths, and a letter where two have the same length.
proof fn lemma_cache_behavior_json_keys_differ()
    ensures
        "AllowedMethods"@.len() == 14 && "AllowedMethods"@[0] == 'A',
        "CachePolicyId"@.len() == 13,
        "Compress"@.len() == 8,
        "OriginRequestPolicyId"@.len() == 21,
        "TargetOriginId"@.len() == 14 && "TargetOriginId"@[0] == 'T',
        "ViewerProtocolPolicy"@.len() == 20,
{
    reveal_strlit("AllowedMethods");
    reveal_strlit("CachePolicyId");
    reveal_strlit("Compress");
    reveal_strlit("OriginRequestPolicyId");
    reveal_strlit("TargetOriginId");
    reveal_strlit("ViewerProtocolPolicy");
}

#[verifier::spinoff_prover]
#[verifier::rlimit(30)]
proof fn lemma_cache_behavior_json_fields_0(b: DefaultCacheBehavior)
    ensures
        cache_behavior_json(b) is Object,
        ({
            let m = cache_behavior_json(b)->Object_0;
            &&& b.cache_policy_id is None ==> !m.contains_key("CachePolicyId"@)
            &&& b.cache_policy_id is Some ==> m.contains_key("CachePolicyId"@) && m["CachePolicyId"@] == JsonView::Str(b.cache_policy_id->0@)
            &&& b.compress is None ==> !m.contains_key("Compress"@)
            &&& b.compress is Some ==> m.contains_key("Compress"@) && m["Compress"@] == JsonView::Bool(b.compress->0)
            &&& b.origin_request_policy_id is None ==> !m.contains_key("OriginRequestPolicyId"@)
            &&& b.origin_request_policy_id is Some ==> m.contains_key("OriginRequestPolicyId"@) && m["OriginRequestPolicyId"@] == JsonView::Str(b.origin_request_policy_id->0@)
        }),
{
    lemma_cache_behavior_json_keys_differ();
}

/// The object of a default cache behavior holds each reported field of it under its own key, and such a key is missing exactly when AWS did not report the field.
pub proof fn law_cache_behavior_fields(b: DefaultCacheBehavior)
    ensures
        cache_behavior_json(b) is Object,
        ({
            let m = cache_behavior_json(b)->Object_0;
            &&& b.cache_policy_id is None ==> !m.contains_key("CachePolicyId"@)
            &&& b.cache_policy_id is Some ==> m.contains_key("CachePolicyId"@) && m["CachePolicyId"@] == JsonView::Str(b.cache_policy_id->0@)
            &&& b.compress is None ==> !m.contains_key("Compress"@)
            &&& b.compress is Some ==> m.contains_key("Compress"@) && m["Compress"@] == JsonView::Bool(b.compress->0)
            &&& b.origin_request_policy_id is None ==> !m.contains_key("OriginRequestPolicyId"@)
            &&& b.origin_request_policy_id is Some ==> m.contains_key("OriginRequestPolicyId"@) && m["OriginRequestPolicyId"@] == JsonView::Str(b.origin_request_policy_id->0@)
        }),
{
    lemma_cache_behavior_json_fields_0(b);
}

/// What tells the keys of `viewer_certificate_json` apart: their lengths, and a letter where two have the same length.
proof fn lemma_viewer_certificate_json_keys_differ()
    ensures
        "ACMCertificateArn"@.len() == 17,
        "CloudFrontDefaultCertificate"@.len() == 28,
        "IAMCertificateId"@.len() == 16 && "IAMCertificateId"@[0] == 'I',
        "MinimumProtocolVersion"@.len() == 22,
        "SSLSupportMethod"@.len() == 16 && "SSLSupportMethod"@[0] == 'S',
{
    reveal_strlit("ACMCertificateArn");
    reveal_strlit("CloudFrontDefaultCertificate");
    reveal_strlit("IAMCertificateId");
    reveal_strlit("MinimumProtocolVersion");
    reveal_strlit("SSLSupportMethod");
}

#[verifier::spinoff_prover]
#[verifier::rlimit(30)]
proof fn lemma_viewer_certificate_json_fields_0(c: ViewerCertificate)
    ensures
        viewer_certificate_json(c) is Object,
        ({
            let m = viewer_certificate_json(c)->Object_0;
            &&& c.acm_certificate_arn is None ==> !m.contains_key("ACMCertificateArn"@)
            &&& c.acm_certificate_arn is Some ==> m.contains_key("ACMCertificateArn"@) && m["ACMCertificateArn"@] == JsonView::Str(c.acm_certificate_arn->0@)
            &&& c.cloud_front_default_certificate is None ==> !m.contains_key("CloudFrontDefaultCertificate"@)
            &&& c.cloud_front_default_certificate is Some ==> m.contains_key("CloudFrontDefaultCertificate"@) && m["CloudFrontDefaultCertificate"@] == JsonView::Bool(c.cloud_front_default_certificate->0)
            &&& c.iam_certificate_id is None ==> !m.contains_key("IAMCertificateId"@)
            &&& c.iam_certificate_id is Some ==> m.contains_key("IAMCertificateId"@) && m["IAMCertificateId"@] == JsonView::Str(c.iam_certificate_id->0@)
        }),
{
    lemma_viewer_certificate_json_keys_differ();
}

#[verifier::spinoff_prover]
#[verifier::rlimit(30)]
proof fn lemma_viewer_certificate_json_fields_1(c: ViewerCertificate)
    ensures
        viewer_certificate_json(c) is Object,
        ({
            let m = viewer_certificate_json(c)->Object_0;
            &&& c.minimum_protocol_version is None ==> !m.contains_key("MinimumProtocolVersion"@)
            &&& c.minimum_protocol_version is Some ==> m.contains_key("MinimumProtocolVersion"@) && m["MinimumProtocolVersion"@] == JsonView::Str(c.minimum_protocol_version->0@)
            &&& c.ssl_support_method is None ==> !m.contains_key("SSLSupportMethod"@)
            &&& c.ssl_support_method is Some ==> m.contains_key("SSLSupportMethod"@) && m["SSLSupportMethod"@] == JsonView::Str(c.ssl_support_method->0@)
        }),
{
    lemma_viewer_certificate_json_keys_differ();
}

/// The object of a viewer certificate holds each reported field of it under its own key, and such a key is missing exactly when AWS did not report the field.
pub proof fn law_viewer_certificate_fields(c: ViewerCertificate)
    ensures
        viewer_certificate_json(c) is Object,
        ({
            let m = viewer_certificate_json(c)->Object_0;
            &&& c.acm_certificate_arn is None ==> !m.contains_key("ACMCertificateArn"@)
            &&& c.acm_certificate_arn is Some ==> m.contains_key("ACMCertificateArn"@) && m["ACMCertificateArn"@] == JsonView::Str(c.acm_certificate_arn->0@)
            &&& c.cloud_front_default_certificate is None ==> !m.contains_key("CloudFrontDefaultCertificate"@)
            &&& c.cloud_front_default_certificate is Some ==> m.contains_key("CloudFrontDefaultCertificate"@) && m["CloudFrontDefaultCertificate"@] == JsonView::Bool(c.cloud_front_default_certificate->0)
            &&& c.iam_certificate_id is None ==> !m.contains_key("IAMCertificateId"@)
            &&& c.iam_certificate_id is Some ==> m.contains_key("IAMCertificateId"@) && m["IAMCertificateId"@] == JsonView::Str(c.iam_certificate_id->0@)
            &&& c.minimum_protocol_version is None ==> !m.contains_key("MinimumProtocolVersion"@)
            &&& c.minimum_protocol_version is Some ==> m.contains_key("MinimumProtocolVersion"@) && m["MinimumProtocolVersion"@] == JsonView::Str(c.minimum_protocol_version->0@)
            &&& c.ssl_support_method is None ==> !m.contains_key("SSLSupportMethod"@)
            &&& c.ssl_support_method is Some ==> m.contains_key("SSLSupportMethod"@) && m["SSLSupportMethod"@] == JsonView::Str(c.ssl_support_method->0@)
        }),
{
    lemma_viewer_certificate_json_fields_0(c);
    lemma_viewer_certificate_json_fields_1(c);
}

} // verus!

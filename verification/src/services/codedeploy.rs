//! AWS CodeDeploy applications and deployment groups as JSON.
use crate::json::{opt_str_json, text_value, with_opt, items_view, lemma_items_view_push, JsonObject, JsonValue, JsonView};
use crate::timestamp::{ts_json, opt_ts_json, Timestamp};
use crate::text::{chars_of, concat_text};
use std::sync::Arc;
use vstd::prelude::*;

verus! {

/// An application as `GetApplication` reports it; its platform holds the AWS name.
pub struct ApplicationInfo {
    pub application_name: Option<String>,
    pub application_id: Option<String>,
    pub create_time: Option<Timestamp>,
    pub linked_to_git_hub: bool,
    pub git_hub_account_name: Option<String>,
    pub compute_platform: Option<String>,
}

/// An Auto Scaling group of a deployment group.
pub struct AutoScalingGroup {
    pub name: Option<String>,
}

/// A deployment group as `GetDeploymentGroup` reports it. Enumerations hold their AWS names; of the settings that are only reported as present, a flag says whether each is.
pub struct DeploymentGroupInfo {
    pub deployment_group_name: Option<String>,
    pub deployment_group_id: Option<String>,
    pub service_role_arn: Option<String>,
    pub has_target_revision: bool,
    pub deployment_config_name: Option<String>,
    pub compute_platform: Option<String>,
    pub has_ec2_tag_filters: bool,
    pub has_on_premises_instance_tag_filters: bool,
    pub auto_scaling_groups: Option<Vec<AutoScalingGroup>>,
    pub has_trigger_configurations: bool,
    pub has_alarm_configuration: bool,
    pub has_auto_rollback_configuration: bool,
    pub has_deployment_style: bool,
    pub outdated_instances_strategy: Option<String>,
    pub has_blue_green_deployment_configuration: bool,
    pub has_load_balancer_info: bool,
    pub has_last_successful_deployment: bool,
    pub has_last_attempted_deployment: bool,
}

/// Reads AWS CodeDeploy applications and deployment groups through a credential coordinator `C`.
pub struct CodeDeployService<C> {
    credential_coordinator: Arc<C>,
}

/// The JSON object of an application; a missing name is the empty text.
pub open spec fn application_json(application: ApplicationInfo) -> JsonView {
    let m = Map::<Seq<char>, JsonView>::empty();
    let m = m.insert("ApplicationName"@, JsonView::Str(text_or_empty(application.application_name)));
    let m = m.insert("ResourceId"@, JsonView::Str(text_or_empty(application.application_name)));
    let m = m.insert("Name"@, JsonView::Str(text_or_empty(application.application_name)));
    let m = with_opt(m, "ApplicationId"@, opt_str_json(application.application_id));
    let m = with_opt(m, "CreateTime"@, opt_ts_json(application.create_time));
    let m = m.insert("LinkedToGitHub"@, JsonView::Bool(application.linked_to_git_hub));
    let m = with_opt(m, "GitHubAccountName"@, opt_str_json(application.git_hub_account_name));
    let m = with_opt(m, "ComputePlatform"@, opt_str_json(application.compute_platform));
    let m = m.insert("Status"@, JsonView::Str("ACTIVE"@));
    JsonView::Object(m)
}

impl<C> CodeDeployService<C> {
    /// The coordinator that the service was made with.
    pub closed spec fn coordinator(&self) -> Arc<C> {
        self.credential_coordinator
    }

    /// A service that obtains its AWS configurations from `credential_coordinator`.
    pub fn new(credential_coordinator: Arc<C>) -> (s: Self)
        ensures
            s.coordinator() == credential_coordinator,
    {
        Self { credential_coordinator }
    }

    /// The coordinator that the service was made with.
    pub fn credential_coordinator(&self) -> (c: &Arc<C>)
        ensures
            *c == self.coordinator(),
    {
        &self.credential_coordinator
    }

    /// The JSON object of an application; a missing name is the empty text.
    pub fn application_to_json(&self, application: &ApplicationInfo) -> (v: JsonValue)
        ensures
            v.view() == application_json(*application),
    {
        let mut json = JsonObject::new();
        json.insert_str("ApplicationName", &text_or_empty_exec(&application.application_name));
        json.insert_str("ResourceId", &text_or_empty_exec(&application.application_name));
        json.insert_str("Name", &text_or_empty_exec(&application.application_name));
        json.insert_opt_str("ApplicationId", &application.application_id);
        json.insert_opt_ts("CreateTime", &application.create_time);
        json.insert_bool("LinkedToGitHub", application.linked_to_git_hub);
        json.insert_opt_str("GitHubAccountName", &application.git_hub_account_name);
        json.insert_opt_str("ComputePlatform", &application.compute_platform);
        json.insert("Status", text_value("ACTIVE"));
        JsonValue::Object(json)
    }

}

/// The text, or the empty text when there is none.
pub open spec fn text_or_empty(o: Option<String>) -> Seq<char> {
    match o {
        Some(s) => s@,
        None => Seq::empty(),
    }
}

fn text_or_empty_exec(o: &Option<String>) -> (s: String)
    ensures
        s@ == text_or_empty(*o),
{
    match o {
        Some(s) => s.clone(),
        None => String::new(),
    }
}

/// The identifier of a deployment group: `application:group`.
pub open spec fn deployment_group_key(application_name: Seq<char>, group: DeploymentGroupInfo) -> Seq<char> {
    application_name + ":"@ + text_or_empty(group.deployment_group_name)
}

/// The note put where a setting is reported but not rendered.
pub open spec fn unconverted_note() -> Seq<char> {
    "TODO: Manual conversion needed"@
}

/// Adds the note under `key` when `present`.
pub open spec fn with_note(m: Map<Seq<char>, JsonView>, key: Seq<char>, present: bool) -> Map<Seq<char>, JsonView> {
    if present {
        m.insert(key, JsonView::Str(unconverted_note()))
    } else {
        m
    }
}

/// The JSON object of a deployment group of the application
/// `application_name`. Its identifier is `application:group`, unless the
/// group reports one of its own.
pub open spec fn deployment_group_json(group: DeploymentGroupInfo, application_name: Seq<char>) -> JsonView {
    let id = JsonView::Str(deployment_group_key(application_name, group));
    let name = JsonView::Str(text_or_empty(group.deployment_group_name));
    let m = Map::<Seq<char>, JsonView>::empty();
    let m = m.insert("DeploymentGroupId"@, id);
    let m = m.insert("ResourceId"@, id);
    let m = m.insert("Name"@, name);
    let m = m.insert("DeploymentGroupName"@, name);
    let m = m.insert("ApplicationName"@, JsonView::Str(application_name));
    let m = with_opt(m, "DeploymentGroupId"@, opt_str_json(group.deployment_group_id));
    let m = with_opt(m, "ServiceRoleArn"@, opt_str_json(group.service_role_arn));
    let m = with_note(m, "TargetRevision"@, group.has_target_revision);
    let m = with_opt(m, "DeploymentConfigName"@, opt_str_json(group.deployment_config_name));
    let m = with_opt(m, "ComputePlatform"@, opt_str_json(group.compute_platform));
    JsonView::Object(m.insert("Status"@, JsonView::Str("ACTIVE"@)))
}

/// The names of the Auto Scaling groups, a missing name as the empty text.
pub open spec fn auto_scaling_names_json(groups: Seq<AutoScalingGroup>) -> JsonView {
    JsonView::Array(groups.map_values(|g: AutoScalingGroup| JsonView::Str(text_or_empty(g.name))))
}

/// The details of a deployment group: its listing object with the further
/// settings it reports.
pub open spec fn deployment_group_detail_json(group: DeploymentGroupInfo, application_name: Seq<char>) -> JsonView {
    let m = deployment_group_json(group, application_name)->Object_0;
    let m = with_note(m, "Ec2TagFilters"@, group.has_ec2_tag_filters);
    let m = with_note(m, "OnPremisesInstanceTagFilters"@, group.has_on_premises_instance_tag_filters);
    let m = match group.auto_scaling_groups {
        Some(v) => m.insert("AutoScalingGroups"@, auto_scaling_names_json(v@)),
        None => m,
    };
    let m = with_note(m, "TriggerConfigurations"@, group.has_trigger_configurations);
    let m = with_note(m, "AlarmConfiguration"@, group.has_alarm_configuration);
    let m = with_note(m, "AutoRollbackConfiguration"@, group.has_auto_rollback_configuration);
    let m = with_note(m, "DeploymentStyle"@, group.has_deployment_style);
    let m = with_opt(m, "OutdatedInstancesStrategy"@, opt_str_json(group.outdated_instances_strategy));
    let m = with_note(m, "BlueGreenDeploymentConfiguration"@, group.has_blue_green_deployment_configuration);
    let m = with_note(m, "LoadBalancerInfo"@, group.has_load_balancer_info);
    let m = with_note(m, "LastSuccessfulDeployment"@, group.has_last_successful_deployment);
    let m = with_note(m, "LastAttemptedDeployment"@, group.has_last_attempted_deployment);
    JsonView::Object(m)
}

/// The application name under `ApplicationName`, when it is a string.
pub open spec fn application_name_view(application: JsonView) -> Option<Seq<char>> {
    match application {
        JsonView::Object(m) => if m.dom().contains("ApplicationName"@) {
            match m["ApplicationName"@] {
                JsonView::Str(a) => Some(a),
                _ => None,
            }
        } else {
            None
        },
        _ => None,
    }
}

/// How many times `c` occurs in `s`.
pub open spec fn count_of(s: Seq<char>, c: char) -> nat
    decreases s.len(),
{
    if s.len() == 0 {
        0
    } else {
        count_of(s.drop_last(), c) + if s.last() == c { 1nat } else { 0nat }
    }
}

/// The application and group names of a deployment group identifier: the
/// two parts around its one `:`. An identifier with no `:` or more than one
/// is refused.
pub open spec fn deployment_group_parts(id: Seq<char>) -> Option<(Seq<char>, Seq<char>)> {
    if count_of(id, ':') == 1 {
        let k = choose|k: int| 0 <= k < id.len() && id[k] == ':';
        Some((id.take(k), id.skip(k + 1)))
    } else {
        None
    }
}

/// The text of the error for a malformed deployment group identifier.
pub open spec fn invalid_group_id_text(id: Seq<char>) -> Seq<char> {
    "Invalid deployment group ID format: "@ + id
}

/// Where `k` holds `c` and no other index does, `c` occurs once.
proof fn lemma_count_one(s: Seq<char>, c: char, k: int)
    requires
        0 <= k < s.len(),
        s[k] == c,
        forall|j: int| 0 <= j < s.len() && j != k ==> s[j] != c,
    ensures
        count_of(s, c) == 1,
    decreases s.len(),
{
    if k < s.len() - 1 {
        lemma_count_one(s.drop_last(), c, k);
    } else {
        lemma_count_none(s.drop_last(), c);
    }
}

/// Where no index holds `c`, it occurs no time.
proof fn lemma_count_none(s: Seq<char>, c: char)
    requires
        forall|j: int| 0 <= j < s.len() ==> s[j] != c,
    ensures
        count_of(s, c) == 0,
    decreases s.len(),
{
    if s.len() > 0 {
        lemma_count_none(s.drop_last(), c);
    }
}

/// Where two indexes hold `c`, it occurs more than once.
proof fn lemma_count_two(s: Seq<char>, c: char, a: int, b: int)
    requires
        0 <= a < b < s.len(),
        s[a] == c,
        s[b] == c,
    ensures
        count_of(s, c) >= 2,
    decreases s.len(),
{
    if b < s.len() - 1 {
        lemma_count_two(s.drop_last(), c, a, b);
    } else {
        lemma_count_at_least_one(s.drop_last(), c, a);
    }
}

/// Where an index holds `c`, it occurs.
proof fn lemma_count_at_least_one(s: Seq<char>, c: char, a: int)
    requires
        0 <= a < s.len(),
        s[a] == c,
    ensures
        count_of(s, c) >= 1,
    decreases s.len(),
{
    if a < s.len() - 1 {
        lemma_count_at_least_one(s.drop_last(), c, a);
    }
}

impl<C> CodeDeployService<C> {
    /// The JSON object of a deployment group of `application_name`.
    pub fn deployment_group_to_json(&self, group: &DeploymentGroupInfo, application_name: &str) -> (v: JsonValue)
        ensures
            v.view() == deployment_group_json(*group, application_name@),
    {
        let name = text_or_empty_exec(&group.deployment_group_name);
        let mut id = concat_text(application_name, ":");
        id.append(name.as_str());
        let mut json = JsonObject::new();
        json.insert_str("DeploymentGroupId", &id);
        json.insert_str("ResourceId", &id);
        json.insert_str("Name", &name);
        json.insert_str("DeploymentGroupName", &name);
        json.insert("ApplicationName", text_value(application_name));
        json.insert_opt_str("DeploymentGroupId", &group.deployment_group_id);
        json.insert_opt_str("ServiceRoleArn", &group.service_role_arn);
        if group.has_target_revision {
            json.insert("TargetRevision", text_value("TODO: Manual conversion needed"));
        }
        json.insert_opt_str("DeploymentConfigName", &group.deployment_config_name);
        json.insert_opt_str("ComputePlatform", &group.compute_platform);
        json.insert("Status", text_value("ACTIVE"));
        JsonValue::Object(json)
    }

    /// The details of a deployment group of `application_name`.
    pub fn deployment_group_detail_to_json(&self, group: &DeploymentGroupInfo, application_name: &str) -> (v: JsonValue)
        ensures
            v.view() == deployment_group_detail_json(*group, application_name@),
    {
        let base = self.deployment_group_to_json(group, application_name);
        let mut json = match base {
            JsonValue::Object(obj) => obj,
            _ => JsonObject::new(),
        };
        let note = "TODO: Manual conversion needed";
        if group.has_ec2_tag_filters {
            json.insert("Ec2TagFilters", text_value(note));
        }
        if group.has_on_premises_instance_tag_filters {
            json.insert("OnPremisesInstanceTagFilters", text_value(note));
        }
        if let Some(groups) = &group.auto_scaling_groups {
            let mut names: Vec<JsonValue> = Vec::new();
            let mut i: usize = 0;
            while i < groups.len()
                invariant
                    i <= groups@.len(),
                    items_view(names@) =~= groups@.take(i as int).map_values(
                        |g: AutoScalingGroup| JsonView::Str(text_or_empty(g.name)),
                    ),
                decreases groups@.len() - i,
            {
                let ghost before = names@;
                let x = JsonValue::Str(text_or_empty_exec(&groups[i].name));
                names.push(x);
                proof {
                    lemma_items_view_push(before, x);
                    assert(groups@.take(i + 1) =~= groups@.take(i as int).push(groups@[i as int]));
                }
                i = i + 1;
            }
            assert(groups@.take(groups@.len() as int) =~= groups@);
            json.insert("AutoScalingGroups", JsonValue::Array(names));
        }
        if group.has_trigger_configurations {
            json.insert("TriggerConfigurations", text_value(note));
        }
        if group.has_alarm_configuration {
            json.insert("AlarmConfiguration", text_value(note));
        }
        if group.has_auto_rollback_configuration {
            json.insert("AutoRollbackConfiguration", text_value(note));
        }
        if group.has_deployment_style {
            json.insert("DeploymentStyle", text_value(note));
        }
        json.insert_opt_str("OutdatedInstancesStrategy", &group.outdated_instances_strategy);
        if group.has_blue_green_deployment_configuration {
            json.insert("BlueGreenDeploymentConfiguration", text_value(note));
        }
        if group.has_load_balancer_info {
            json.insert("LoadBalancerInfo", text_value(note));
        }
        if group.has_last_successful_deployment {
            json.insert("LastSuccessfulDeployment", text_value(note));
        }
        if group.has_last_attempted_deployment {
            json.insert("LastAttemptedDeployment", text_value(note));
        }
        JsonValue::Object(json)
    }

    /// The details of an application, which are what its listing shows.
    pub fn application_detail_to_json(&self, application: &ApplicationInfo) -> (v: JsonValue)
        ensures
            v.view() == application_json(*application),
    {
        self.application_to_json(application)
    }

    /// The application `application_name` from what `GetApplication`
    /// answered, or the error that names it.
    pub fn describe_application(&self, application: &Option<ApplicationInfo>, application_name: &str) -> (r: Result<JsonValue, String>)
        ensures
            match *application {
                Some(a) => r matches Ok(v) && v.view() == application_json(a),
                None => r matches Err(e) && e@ == "Application not found: "@ + application_name@,
            },
    {
        match application {
            Some(a) => Ok(self.application_detail_to_json(a)),
            None => Err(concat_text("Application not found: ", application_name)),
        }
    }

    /// The application name that a listed application carries, when it is a
    /// string under `ApplicationName`.
    pub fn application_name_of(&self, application: &JsonValue) -> (name: Option<String>)
        ensures
            name is Some <==> application_name_view(application.view()) is Some,
            name matches Some(n) ==> application_name_view(application.view()) == Some(n@),
    {
        match application {
            JsonValue::Object(obj) => match obj.get("ApplicationName") {
                Some(JsonValue::Str(a)) => Some(a.clone()),
                _ => None,
            },
            _ => None,
        }
    }

    /// The application and group names of a deployment group identifier
    /// `application:group`, or the error for an identifier that does not
    /// have exactly one `:`.
    pub fn split_deployment_group_id(&self, deployment_group_id: &str) -> (r: Result<(String, String), String>)
        ensures
            match (r, deployment_group_parts(deployment_group_id@)) {
                (Ok((a, g)), Some((pa, pg))) => a@ == pa && g@ == pg,
                (Err(e), None) => e@ == invalid_group_id_text(deployment_group_id@),
                _ => false,
            },
    {
        let chars = chars_of(deployment_group_id);
        let ghost s = deployment_group_id@;
        let mut first: Option<usize> = None;
        let mut second: Option<usize> = None;
        let mut i: usize = 0;
        while i < chars.len()
            invariant
                chars@ == s,
                i <= s.len(),
                second is Some ==> first is Some,
                match first {
                    Some(a) => a < i && s[a as int] == ':' && forall|j: int| 0 <= j < a ==> s[j] != ':',
                    None => forall|j: int| 0 <= j < i ==> s[j] != ':',
                },
                match second {
                    Some(b) => first matches Some(a) && a < b < i && s[b as int] == ':',
                    None => first matches Some(a) ==> forall|j: int| a < j < i ==> s[j] != ':',
                },
            decreases s.len() - i,
        {
            if chars[i] == ':' {
                if first.is_none() {
                    first = Some(i);
                } else if second.is_none() {
                    second = Some(i);
                }
            }
            i = i + 1;
        }
        match (first, second) {
            (Some(k), None) => {
                proof {
                    lemma_count_one(s, ':', k as int);
                    let c = choose|c: int| 0 <= c < s.len() && s[c] == ':';
                    assert(c == k);
                }
                let n = chars.len();
                let a = deployment_group_id.substring_char(0, k).to_owned();
                let g = deployment_group_id.substring_char(k + 1, n).to_owned();
                assert(a@ =~= s.take(k as int));
                assert(g@ =~= s.skip(k + 1));
                Ok((a, g))
            },
            (Some(a), Some(b)) => {
                proof {
                    lemma_count_two(s, ':', a as int, b as int);
                }
                Err(concat_text("Invalid deployment group ID format: ", deployment_group_id))
            },
            _ => {
                proof {
                    lemma_count_none(s, ':');
                }
                Err(concat_text("Invalid deployment group ID format: ", deployment_group_id))
            },
        }
    }

    /// The deployment group `deployment_group_id`, written
    /// `application:group`, from what `GetDeploymentGroup` answered when asked
    /// for the two parts that `split_deployment_group_id` gives: the error for
    /// an identifier without exactly one `:`, the group's details under its
    /// application, or the error that names a group that was not answered.
    pub fn describe_deployment_group(
        &self,
        group: &Option<DeploymentGroupInfo>,
        deployment_group_id: &str,
    ) -> (r: Result<JsonValue, String>)
        ensures
            match deployment_group_parts(deployment_group_id@) {
                None => r matches Err(e) && e@ == invalid_group_id_text(deployment_group_id@),
                Some((application_name, _)) => match *group {
                    Some(x) => r matches Ok(v) && v.view() == deployment_group_detail_json(x, application_name),
                    None => r matches Err(e) && e@ == "Deployment group not found: "@ + deployment_group_id@,
                },
            },
    {
        match self.split_deployment_group_id(deployment_group_id) {
            Err(e) => Err(e),
            Ok((application_name, _)) => match group {
                Some(x) => Ok(self.deployment_group_detail_to_json(x, application_name.as_str())),
                None => Err(concat_text("Deployment group not found: ", deployment_group_id)),
            },
        }
    }
}

/// The identifier that a deployment group is listed under, `application:group`,
/// splits back into its application and group names, when neither holds a
/// `:`; so a listed group can be described again by its identifier.
pub proof fn law_group_key_splits_back(application_name: Seq<char>, group: DeploymentGroupInfo)
    requires
        forall|j: int| 0 <= j < application_name.len() ==> application_name[j] != ':',
        forall|j: int|
            0 <= j < text_or_empty(group.deployment_group_name).len() ==> text_or_empty(group.deployment_group_name)[j]
                != ':',
    ensures
        deployment_group_parts(deployment_group_key(application_name, group)) == Some(
            (application_name, text_or_empty(group.deployment_group_name)),
        ),
{
    let name = text_or_empty(group.deployment_group_name);
    let id = deployment_group_key(application_name, group);
    let k = application_name.len() as int;
    assert(id =~= application_name + seq![':'] + name) by {
        reveal_strlit(":");
    }
    assert forall|j: int| 0 <= j < id.len() && j != k implies id[j] != ':' by {
        if j < k {
            assert(id[j] == application_name[j]);
        } else {
            assert(id[j] == name[j - k - 1]);
        }
    }
    lemma_count_one(id, ':', k);
    let c = choose|c: int| 0 <= c < id.len() && id[c] == ':';
    assert(id[k] == ':');
    assert(c == k);
    assert(id.take(k) =~= application_name);
    assert(id.skip(k + 1) =~= name);
}


// ----- each reported field under its own key -----

/// What tells the keys of `application_json` apart: their lengths, and a letter where two have the same length.
proof fn lemma_application_json_keys_differ()
    ensures
        "ACTIVE"@.len() == 6 && "ACTIVE"@[0] == 'A',
        "ApplicationId"@.len() == 13,
        "ApplicationName"@.len() == 15 && "ApplicationName"@[0] == 'A',
        "ComputePlatform"@.len() == 15 && "ComputePlatform"@[0] == 'C',
        "CreateTime"@.len() == 10 && "CreateTime"@[0] == 'C',
        "GitHubAccountName"@.len() == 17,
        "LinkedToGitHub"@.len() == 14,
        "Name"@.len() == 4,
        "ResourceId"@.len() == 10 && "ResourceId"@[0] == 'R',
        "Status"@.len() == 6 && "Status"@[0] == 'S',
{
    reveal_strlit("ACTIVE");
    reveal_strlit("ApplicationId");
    reveal_strlit("ApplicationName");
    reveal_strlit("ComputePlatform");
    reveal_strlit("CreateTime");
    reveal_strlit("GitHubAccountName");
    reveal_strlit("LinkedToGitHub");
    reveal_strlit("Name");
    reveal_strlit("ResourceId");
    reveal_strlit("Status");
}

#[verifier::spinoff_prover]
#[verifier::rlimit(30)]
proof fn lemma_application_json_fields_0(application: ApplicationInfo)
    ensures
        application_json(application) is Object,
        ({
            let m = application_json(application)->Object_0;
            &&& application.application_id is None ==> !m.contains_key("ApplicationId"@)
            &&& application.application_id is Some ==> m.contains_key("ApplicationId"@) && m["ApplicationId"@] == JsonView::Str(application.application_id->0@)
            &&& application.compute_platform is None ==> !m.contains_key("ComputePlatform"@)
            &&& application.compute_platform is Some ==> m.contains_key("ComputePlatform"@) && m["ComputePlatform"@] == JsonView::Str(application.compute_platform->0@)
            &&& application.create_time is None ==> !m.contains_key("CreateTime"@)
            &&& application.create_time is Some ==> m.contains_key("CreateTime"@) && m["CreateTime"@] == ts_json(application.create_time->0)
        }),
{
    lemma_application_json_keys_differ();
}

#[verifier::spinoff_prover]
#[verifier::rlimit(30)]
proof fn lemma_application_json_fields_1(application: ApplicationInfo)
    ensures
        application_json(application) is Object,
        ({
            let m = application_json(application)->Object_0;
            &&& application.git_hub_account_name is None ==> !m.contains_key("GitHubAccountName"@)
            &&& application.git_hub_account_name is Some ==> m.contains_key("GitHubAccountName"@) && m["GitHubAccountName"@] == JsonView::Str(application.git_hub_account_name->0@)
        }),
{
    lemma_application_json_keys_differ();
}

/// The object of a application info holds each reported field of it under its own key, and such a key is missing exactly when AWS did not report the field.
pub proof fn law_application_fields(application: ApplicationInfo)
    ensures
        application_json(application) is Object,
        ({
            let m = application_json(application)->Object_0;
            &&& application.application_id is None ==> !m.contains_key("ApplicationId"@)
            &&& application.application_id is Some ==> m.contains_key("ApplicationId"@) && m["ApplicationId"@] == JsonView::Str(application.application_id->0@)
            &&& application.compute_platform is None ==> !m.contains_key("ComputePlatform"@)
            &&& application.compute_platform is Some ==> m.contains_key("ComputePlatform"@) && m["ComputePlatform"@] == JsonView::Str(application.compute_platform->0@)
            &&& application.create_time is None ==> !m.contains_key("CreateTime"@)
            &&& application.create_time is Some ==> m.contains_key("CreateTime"@) && m["CreateTime"@] == ts_json(application.create_time->0)
            &&& application.git_hub_account_name is None ==> !m.contains_key("GitHubAccountName"@)
            &&& application.git_hub_account_name is Some ==> m.contains_key("GitHubAccountName"@) && m["GitHubAccountName"@] == JsonView::Str(application.git_hub_account_name->0@)
        }),
{
    lemma_application_json_fields_0(application);
    lemma_application_json_fields_1(application);
}

} // verus!

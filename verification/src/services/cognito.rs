//! Amazon Cognito user pools, identity pools and app clients as JSON.
use crate::json::{array_of, opt_bool_json, opt_int_json, opt_str_json, str_json, text_value, with_opt, pairs_map, pairs_value, JsonObject, JsonValue, JsonView};
use crate::timestamp::{ts_json, opt_ts_json, Timestamp};
use crate::text::concat_text;
use std::sync::Arc;
use vstd::prelude::*;

verus! {

/// A user pool as `ListUserPools` reports it.
pub struct UserPoolDescription {
    pub id: Option<String>,
    pub name: Option<String>,
    pub creation_date: Option<Timestamp>,
    pub last_modified_date: Option<Timestamp>,
}

/// The password policy of a user pool.
pub struct PasswordPolicy {
    pub minimum_length: Option<i64>,
    pub require_uppercase: bool,
    pub require_lowercase: bool,
    pub require_numbers: bool,
    pub require_symbols: bool,
}

/// The policies of a user pool.
pub struct UserPoolPolicies {
    pub password_policy: Option<PasswordPolicy>,
}

/// How a user pool sends email; the sending account is the debug text of its AWS enumeration value.
pub struct EmailConfiguration {
    pub source_arn: Option<String>,
    pub reply_to_email_address: Option<String>,
    pub email_sending_account: Option<String>,
}

/// How a user pool sends SMS messages.
pub struct SmsConfiguration {
    pub sns_caller_arn: String,
    pub external_id: Option<String>,
}

/// A user pool as `DescribeUserPool` reports it.
pub struct UserPool {
    pub id: Option<String>,
    pub name: Option<String>,
    pub creation_date: Option<Timestamp>,
    pub last_modified_date: Option<Timestamp>,
    pub policies: Option<UserPoolPolicies>,
    pub estimated_number_of_users: i64,
    pub email_configuration: Option<EmailConfiguration>,
    pub sms_configuration: Option<SmsConfiguration>,
}

/// A user pool that an identity pool trusts.
pub struct CognitoIdentityProvider {
    pub provider_name: Option<String>,
    pub client_id: Option<String>,
    pub server_side_token_check: Option<bool>,
}

/// An identity pool as `DescribeIdentityPool` reports it.
pub struct IdentityPool {
    pub identity_pool_id: String,
    pub identity_pool_name: String,
    pub allow_unauthenticated_identities: bool,
    pub allow_classic_flow: Option<bool>,
    pub supported_login_providers: Option<Vec<(String, String)>>,
    pub cognito_identity_providers: Option<Vec<CognitoIdentityProvider>>,
}

/// An app client as `DescribeUserPoolClient` reports it.
pub struct UserPoolClient {
    pub client_name: Option<String>,
    pub client_id: Option<String>,
    pub access_token_validity: Option<i64>,
    pub refresh_token_validity: i64,
    pub id_token_validity: Option<i64>,
    pub creation_date: Option<Timestamp>,
    pub last_modified_date: Option<Timestamp>,
}

/// An identity pool as `ListIdentityPools` reports it.
pub struct IdentityPoolShort {
    pub identity_pool_id: Option<String>,
    pub identity_pool_name: Option<String>,
}

/// An app client as `ListUserPoolClients` reports it.
pub struct UserPoolClientDescription {
    pub client_id: Option<String>,
    pub client_name: Option<String>,
}

/// Reads Amazon Cognito user pools, identity pools and app clients through a credential coordinator `C`.
pub struct CognitoService<C> {
    credential_coordinator: Arc<C>,
}

/// The JSON object of a listed user pool, always `Active`.
pub open spec fn user_pool_summary_json(pool: UserPoolDescription) -> JsonView {
    let m = Map::<Seq<char>, JsonView>::empty();
    let m = with_opt(m, "Id"@, opt_str_json(pool.id));
    let m = with_opt(m, "Name"@, opt_str_json(pool.name));
    let m = m.insert("Status"@, JsonView::Str("Active"@));
    let m = with_opt(m, "CreationDate"@, opt_ts_json(pool.creation_date));
    let m = with_opt(m, "LastModifiedDate"@, opt_ts_json(pool.last_modified_date));
    JsonView::Object(m)
}

/// The JSON object of a `PasswordPolicy`.
pub open spec fn password_policy_json(x: PasswordPolicy) -> JsonView {
    let m = Map::<Seq<char>, JsonView>::empty();
    let m = with_opt(m, "MinimumLength"@, opt_int_json(x.minimum_length));
    let m = m.insert("RequireUppercase"@, JsonView::Bool(x.require_uppercase));
    let m = m.insert("RequireLowercase"@, JsonView::Bool(x.require_lowercase));
    let m = m.insert("RequireNumbers"@, JsonView::Bool(x.require_numbers));
    let m = m.insert("RequireSymbols"@, JsonView::Bool(x.require_symbols));
    JsonView::Object(m)
}

fn password_policy_to_json(x: &PasswordPolicy) -> (v: JsonValue)
    ensures
        v.view() == password_policy_json(*x),
{
    let mut json = JsonObject::new();
    json.insert_opt_int("MinimumLength", x.minimum_length);
    json.insert_bool("RequireUppercase", x.require_uppercase);
    json.insert_bool("RequireLowercase", x.require_lowercase);
    json.insert_bool("RequireNumbers", x.require_numbers);
    json.insert_bool("RequireSymbols", x.require_symbols);
    JsonValue::Object(json)
}

/// The JSON object of a `UserPoolPolicies`.
pub open spec fn policies_json(x: UserPoolPolicies) -> JsonView {
    let m = Map::<Seq<char>, JsonView>::empty();
    let m = match x.password_policy { Some(e) => m.insert("PasswordPolicy"@, password_policy_json(e)), None => m };
    JsonView::Object(m)
}

fn policies_to_json(x: &UserPoolPolicies) -> (v: JsonValue)
    ensures
        v.view() == policies_json(*x),
{
    let mut json = JsonObject::new();
    if let Some(e) = &x.password_policy {
        json.insert("PasswordPolicy", password_policy_to_json(e));
    }
    JsonValue::Object(json)
}

/// The JSON object of a `EmailConfiguration`.
pub open spec fn email_configuration_json(x: EmailConfiguration) -> JsonView {
    let m = Map::<Seq<char>, JsonView>::empty();
    let m = with_opt(m, "SourceArn"@, opt_str_json(x.source_arn));
    let m = with_opt(m, "ReplyToEmailAddress"@, opt_str_json(x.reply_to_email_address));
    let m = with_opt(m, "EmailSendingAccount"@, opt_str_json(x.email_sending_account));
    JsonView::Object(m)
}

fn email_configuration_to_json(x: &EmailConfiguration) -> (v: JsonValue)
    ensures
        v.view() == email_configuration_json(*x),
{
    let mut json = JsonObject::new();
    json.insert_opt_str("SourceArn", &x.source_arn);
    json.insert_opt_str("ReplyToEmailAddress", &x.reply_to_email_address);
    json.insert_opt_str("EmailSendingAccount", &x.email_sending_account);
    JsonValue::Object(json)
}

/// The JSON object of a `SmsConfiguration`.
pub open spec fn sms_configuration_json(x: SmsConfiguration) -> JsonView {
    let m = Map::<Seq<char>, JsonView>::empty();
    let m = m.insert("SnsCallerArn"@, str_json(x.sns_caller_arn));
    let m = with_opt(m, "ExternalId"@, opt_str_json(x.external_id));
    JsonView::Object(m)
}

fn sms_configuration_to_json(x: &SmsConfiguration) -> (v: JsonValue)
    ensures
        v.view() == sms_configuration_json(*x),
{
    let mut json = JsonObject::new();
    json.insert_str("SnsCallerArn", &x.sns_caller_arn);
    json.insert_opt_str("ExternalId", &x.external_id);
    JsonValue::Object(json)
}

/// The JSON object of a described user pool, always `Active`, with a note on where its attributes are.
pub open spec fn user_pool_json(pool: UserPool) -> JsonView {
    let m = Map::<Seq<char>, JsonView>::empty();
    let m = with_opt(m, "Id"@, opt_str_json(pool.id));
    let m = with_opt(m, "Name"@, opt_str_json(pool.name));
    let m = m.insert("Status"@, JsonView::Str("Active"@));
    let m = with_opt(m, "CreationDate"@, opt_ts_json(pool.creation_date));
    let m = with_opt(m, "LastModifiedDate"@, opt_ts_json(pool.last_modified_date));
    let m = match pool.policies { Some(e) => m.insert("Policies"@, policies_json(e)), None => m };
    let m = m.insert("EstimatedNumberOfUsers"@, JsonView::Number(pool.estimated_number_of_users as int));
    let m = match pool.email_configuration { Some(e) => m.insert("EmailConfiguration"@, email_configuration_json(e)), None => m };
    let m = match pool.sms_configuration { Some(e) => m.insert("SmsConfiguration"@, sms_configuration_json(e)), None => m };
    let m = m.insert("AttributesNote"@, JsonView::Str("Use DescribeUserPoolAttributes for detailed schema"@));
    JsonView::Object(m)
}

/// The JSON object of a `CognitoIdentityProvider`.
pub open spec fn identity_provider_json(x: CognitoIdentityProvider) -> JsonView {
    let m = Map::<Seq<char>, JsonView>::empty();
    let m = with_opt(m, "ProviderName"@, opt_str_json(x.provider_name));
    let m = with_opt(m, "ClientId"@, opt_str_json(x.client_id));
    let m = with_opt(m, "ServerSideTokenCheck"@, opt_bool_json(x.server_side_token_check));
    JsonView::Object(m)
}

fn identity_provider_to_json(x: &CognitoIdentityProvider) -> (v: JsonValue)
    ensures
        v.view() == identity_provider_json(*x),
{
    let mut json = JsonObject::new();
    json.insert_opt_str("ProviderName", &x.provider_name);
    json.insert_opt_str("ClientId", &x.client_id);
    json.insert_opt_bool("ServerSideTokenCheck", x.server_side_token_check);
    JsonValue::Object(json)
}

/// The JSON object of a described identity pool.
pub open spec fn identity_pool_json(pool: IdentityPool) -> JsonView {
    let m = Map::<Seq<char>, JsonView>::empty();
    let m = m.insert("IdentityPoolId"@, str_json(pool.identity_pool_id));
    let m = m.insert("IdentityPoolName"@, str_json(pool.identity_pool_name));
    let m = m.insert("Name"@, str_json(pool.identity_pool_name));
    let m = m.insert("AllowUnauthenticatedIdentities"@, JsonView::Bool(pool.allow_unauthenticated_identities));
    let m = with_opt(m, "AllowClassicFlow"@, opt_bool_json(pool.allow_classic_flow));
    let m = match pool.supported_login_providers { Some(v) => m.insert("SupportedLoginProviders"@, JsonView::Object(pairs_map(v@))), None => m };
    let m = match pool.cognito_identity_providers { Some(v) => m.insert("CognitoIdentityProviders"@, JsonView::Array(v@.map_values(|e: CognitoIdentityProvider| identity_provider_json(e)))), None => m };
    JsonView::Object(m)
}

/// The JSON object of an app client of the user pool `user_pool_id`.
pub open spec fn user_pool_client_json(user_pool_id: String, client: UserPoolClient) -> JsonView {
    let m = Map::<Seq<char>, JsonView>::empty();
    let m = m.insert("UserPoolId"@, str_json(user_pool_id));
    let m = with_opt(m, "ClientName"@, opt_str_json(client.client_name));
    let m = with_opt(m, "Name"@, opt_str_json(client.client_name));
    let m = with_opt(m, "ClientId"@, opt_str_json(client.client_id));
    let m = with_opt(m, "AccessTokenValidity"@, opt_int_json(client.access_token_validity));
    let m = m.insert("RefreshTokenValidity"@, JsonView::Number(client.refresh_token_validity as int));
    let m = with_opt(m, "IdTokenValidity"@, opt_int_json(client.id_token_validity));
    let m = with_opt(m, "CreationDate"@, opt_ts_json(client.creation_date));
    let m = with_opt(m, "LastModifiedDate"@, opt_ts_json(client.last_modified_date));
    JsonView::Object(m)
}

impl<C> CognitoService<C> {
    /// The coordinator that the service was made with.
    pub closed spec fn coordinator(&self) -> Arc<C> {
        self.credential_coordinator
    }

    /// A service that obtains its AWS configurations from `credential_coordinator`.
    pub fn new(credential_coordinator: Arc<C>) -> (s: Self)
        ensures
            s.coordinator() == credential_coordinator,
    {
        Self { credential_coordinator }
    }

    /// The coordinator that the service was made with.
    pub fn credential_coordinator(&self) -> (c: &Arc<C>)
        ensures
            *c == self.coordinator(),
    {
        &self.credential_coordinator
    }

    /// The JSON object of a listed user pool, always `Active`.
    pub fn user_pool_summary_to_json(&self, pool: &UserPoolDescription) -> (v: JsonValue)
        ensures
            v.view() == user_pool_summary_json(*pool),
    {
        let mut json = JsonObject::new();
        json.insert_opt_str("Id", &pool.id);
        json.insert_opt_str("Name", &pool.name);
        json.insert("Status", text_value("Active"));
        json.insert_opt_ts("CreationDate", &pool.creation_date);
        json.insert_opt_ts("LastModifiedDate", &pool.last_modified_date);
        JsonValue::Object(json)
    }

    /// The JSON object of a described user pool, always `Active`, with a note on where its attributes are.
    pub fn user_pool_to_json(&self, pool: &UserPool) -> (v: JsonValue)
        ensures
            v.view() == user_pool_json(*pool),
    {
        let mut json = JsonObject::new();
        json.insert_opt_str("Id", &pool.id);
        json.insert_opt_str("Name", &pool.name);
        json.insert("Status", text_value("Active"));
        json.insert_opt_ts("CreationDate", &pool.creation_date);
        json.insert_opt_ts("LastModifiedDate", &pool.last_modified_date);
        if let Some(e) = &pool.policies {
            json.insert("Policies", policies_to_json(e));
        }
        json.insert_int("EstimatedNumberOfUsers", pool.estimated_number_of_users);
        if let Some(e) = &pool.email_configuration {
            json.insert("EmailConfiguration", email_configuration_to_json(e));
        }
        if let Some(e) = &pool.sms_configuration {
            json.insert("SmsConfiguration", sms_configuration_to_json(e));
        }
        json.insert("AttributesNote", text_value("Use DescribeUserPoolAttributes for detailed schema"));
        JsonValue::Object(json)
    }

    /// The JSON object of a described identity pool.
    pub fn identity_pool_to_json(&self, pool: &IdentityPool) -> (v: JsonValue)
        ensures
            v.view() == identity_pool_json(*pool),
    {
        let mut json = JsonObject::new();
        json.insert_str("IdentityPoolId", &pool.identity_pool_id);
        json.insert_str("IdentityPoolName", &pool.identity_pool_name);
        json.insert_str("Name", &pool.identity_pool_name);
        json.insert_bool("AllowUnauthenticatedIdentities", pool.allow_unauthenticated_identities);
        json.insert_opt_bool("AllowClassicFlow", pool.allow_classic_flow);
        if let Some(v) = &pool.supported_login_providers {
            json.insert("SupportedLoginProviders", pairs_value(v));
        }
        if let Some(v) = &pool.cognito_identity_providers {
            json.insert("CognitoIdentityProviders", array_of(v, identity_provider_to_json, Ghost(|e: CognitoIdentityProvider| identity_provider_json(e))));
        }
        JsonValue::Object(json)
    }

    /// The JSON object of an app client of the user pool `user_pool_id`.
    pub fn user_pool_client_to_json(&self, user_pool_id: &String, client: &UserPoolClient) -> (v: JsonValue)
        ensures
            v.view() == user_pool_client_json(*user_pool_id, *client),
    {
        let mut json = JsonObject::new();
        json.insert_str("UserPoolId", user_pool_id);
        json.insert_opt_str("ClientName", &client.client_name);
        json.insert_opt_str("Name", &client.client_name);
        json.insert_opt_str("ClientId", &client.client_id);
        json.insert_opt_int("AccessTokenValidity", client.access_token_validity);
        json.insert_int("RefreshTokenValidity", client.refresh_token_validity);
        json.insert_opt_int("IdTokenValidity", client.id_token_validity);
        json.insert_opt_ts("CreationDate", &client.creation_date);
        json.insert_opt_ts("LastModifiedDate", &client.last_modified_date);
        JsonValue::Object(json)
    }

}

/// The entry listed for an identity pool whose description was not read.
pub open spec fn basic_identity_pool_json(pool_id: String, pool: IdentityPoolShort) -> JsonView {
    let m = Map::<Seq<char>, JsonView>::empty().insert("IdentityPoolId"@, str_json(pool_id));
    let m = match pool.identity_pool_name {
        Some(n) => m.insert("IdentityPoolName"@, str_json(n)).insert("Name"@, str_json(n)),
        None => m,
    };
    JsonView::Object(m)
}

/// The entry listed for an app client whose description was not read.
pub open spec fn basic_client_json(client_id: String, user_pool_id: String, client: UserPoolClientDescription) -> JsonView {
    let m = Map::<Seq<char>, JsonView>::empty();
    let m = m.insert("ClientId"@, str_json(client_id)).insert("UserPoolId"@, str_json(user_pool_id));
    let m = match client.client_name {
        Some(n) => m.insert("ClientName"@, str_json(n)).insert("Name"@, str_json(n)),
        None => m,
    };
    JsonView::Object(m)
}

impl<C> CognitoService<C> {
    /// The entry listed for a user pool: its description when it was read,
    /// else its listing.
    pub fn user_pool_entry(&self, pool: &UserPoolDescription, details: Option<JsonValue>) -> (v: JsonValue)
        ensures
            v.view() == match details {
                Some(d) => d.view(),
                None => user_pool_summary_json(*pool),
            },
    {
        match details {
            Some(d) => d,
            None => self.user_pool_summary_to_json(pool),
        }
    }

    /// The entry listed for the identity pool `pool_id`: its description
    /// when it was read, else its id and name.
    pub fn identity_pool_entry(&self, pool_id: &String, pool: &IdentityPoolShort, details: Option<JsonValue>) -> (v: JsonValue)
        ensures
            v.view() == match details {
                Some(d) => d.view(),
                None => basic_identity_pool_json(*pool_id, *pool),
            },
    {
        match details {
            Some(d) => d,
            None => {
                let mut json = JsonObject::new();
                json.insert_str("IdentityPoolId", pool_id);
                if let Some(n) = &pool.identity_pool_name {
                    json.insert_str("IdentityPoolName", n);
                    json.insert_str("Name", n);
                }
                JsonValue::Object(json)
            },
        }
    }

    /// The entry listed for the app client `client_id` of the user pool
    /// `user_pool_id`: its description when it was read, else its ids and name.
    pub fn user_pool_client_entry(
        &self,
        client_id: &String,
        user_pool_id: &String,
        client: &UserPoolClientDescription,
        details: Option<JsonValue>,
    ) -> (v: JsonValue)
        ensures
            v.view() == match details {
                Some(d) => d.view(),
                None => basic_client_json(*client_id, *user_pool_id, *client),
            },
    {
        match details {
            Some(d) => d,
            None => {
                let mut json = JsonObject::new();
                json.insert_str("ClientId", client_id);
                json.insert_str("UserPoolId", user_pool_id);
                if let Some(n) = &client.client_name {
                    json.insert_str("ClientName", n);
                    json.insert_str("Name", n);
                }
                JsonValue::Object(json)
            },
        }
    }

    /// The user pool `user_pool_id` from what `DescribeUserPool` answered, or
    /// the error that names it.
    pub fn user_pool_outcome(&self, pool: &Option<UserPool>, user_pool_id: &str) -> (r: Result<JsonValue, String>)
        ensures
            match *pool {
                Some(p) => r matches Ok(v) && v.view() == user_pool_json(p),
                None => r matches Err(e) && e@ == "User Pool "@ + user_pool_id@ + " not found"@,
            },
    {
        match pool {
            Some(p) => Ok(self.user_pool_to_json(p)),
            None => {
                let mut text = concat_text("User Pool ", user_pool_id);
                text.append(" not found");
                Err(text)
            },
        }
    }

    /// The app client `client_id` of the user pool `user_pool_id` from what
    /// `DescribeUserPoolClient` answered, or the error that names it.
    pub fn user_pool_client_outcome(
        &self,
        client: &Option<UserPoolClient>,
        user_pool_id: &String,
        client_id: &str,
    ) -> (r: Result<JsonValue, String>)
        ensures
            match *client {
                Some(c) => r matches Ok(v) && v.view() == user_pool_client_json(*user_pool_id, c),
                None => r matches Err(e) && e@ == client_not_found_text(client_id@),
            },
    {
        match client {
            Some(c) => Ok(self.user_pool_client_to_json(user_pool_id, c)),
            None => Err(self.client_not_found(client_id)),
        }
    }

    /// The error for an app client that no user pool answered for.
    pub fn client_not_found(&self, client_id: &str) -> (e: String)
        ensures
            e@ == client_not_found_text(client_id@),
    {
        let mut text = concat_text("User Pool Client ", client_id);
        text.append(" not found");
        text
    }
}

/// The text of the error for an app client that was not found.
pub open spec fn client_not_found_text(client_id: Seq<char>) -> Seq<char> {
    "User Pool Client "@ + client_id + " not found"@
}


// ----- each reported field under its own key -----

/// What tells the keys of `user_pool_summary_json` apart: their lengths, and a letter where two have the same length.
proof fn lemma_user_pool_summary_json_keys_differ()
    ensures
        "Active"@.len() == 6 && "Active"@[0] == 'A',
        "CreationDate"@.len() == 12,
        "Id"@.len() == 2,
        "LastModifiedDate"@.len() == 16,
        "Name"@.len() == 4,
        "Status"@.len() == 6 && "Status"@[0] == 'S',
{
    reveal_strlit("Active");
    reveal_strlit("CreationDate");
    reveal_strlit("Id");
    reveal_strlit("LastModifiedDate");
    reveal_strlit("Name");
    reveal_strlit("Status");
}

#[verifier::spinoff_prover]
#[verifier::rlimit(30)]
proof fn lemma_user_pool_summary_json_fields_0(pool: UserPoolDescription)
    ensures
        user_pool_summary_json(pool) is Object,
        ({
            let m = user_pool_summary_json(pool)->Object_0;
            &&& pool.creation_date is None ==> !m.contains_key("CreationDate"@)
            &&& pool.creation_date is Some ==> m.contains_key("CreationDate"@) && m["CreationDate"@] == ts_json(pool.creation_date->0)
            &&& pool.id is None ==> !m.contains_key("Id"@)
            &&& pool.id is Some ==> m.contains_key("Id"@) && m["Id"@] == JsonView::Str(pool.id->0@)
            &&& pool.last_modified_date is None ==> !m.contains_key("LastModifiedDate"@)
            &&& pool.last_modified_date is Some ==> m.contains_key("LastModifiedDate"@) && m["LastModifiedDate"@] == ts_json(pool.last_modified_date->0)
        }),
{
    lemma_user_pool_summary_json_keys_differ();
}

#[verifier::spinoff_prover]
#[verifier::rlimit(30)]
proof fn lemma_user_pool_summary_json_fields_1(pool: UserPoolDescription)
    ensures
        user_pool_summary_json(pool) is Object,
        ({
            let m = user_pool_summary_json(pool)->Object_0;
            &&& pool.name is None ==> !m.contains_key("Name"@)
            &&& pool.name is Some ==> m.contains_key("Name"@) && m["Name"@] == JsonView::Str(pool.name->0@)
        }),
{
    lemma_user_pool_summary_json_keys_differ();
}

/// The object of a user pool description holds each reported field of it under its own key, and such a key is missing exactly when AWS did not report the field.
pub proof fn law_user_pool_summary_fields(pool: UserPoolDescription)
    ensures
        user_pool_summary_json(pool) is Object,
        ({
            let m = user_pool_summary_json(pool)->Object_0;
            &&& pool.creation_date is None ==> !m.contains_key("CreationDate"@)
            &&& pool.creation_date is Some ==> m.contains_key("CreationDate"@) && m["CreationDate"@] == ts_json(pool.creation_date->0)
            &&& pool.id is None ==> !m.contains_key("Id"@)
            &&& pool.id is Some ==> m.contains_key("Id"@) && m["Id"@] == JsonView::Str(pool.id->0@)
            &&& pool.last_modified_date is None ==> !m.contains_key("LastModifiedDate"@)
            &&& pool.last_modified_date is Some ==> m.contains_key("LastModifiedDate"@) && m["LastModifiedDate"@] == ts_json(pool.last_modified_date->0)
            &&& pool.name is None ==> !m.contains_key("Name"@)
            &&& pool.name is Some ==> m.contains_key("Name"@) && m["Name"@] == JsonView::Str(pool.name->0@)
        }),
{
    lemma_user_pool_summary_json_fields_0(pool);
    lemma_user_pool_summary_json_fields_1(pool);
}

/// What tells the keys of `email_configuration_json` apart: their lengths, and a letter where two have the same length.
proof fn lemma_email_configuration_json_keys_differ()
    ensures
        "EmailSendingAccount"@.len() == 19 && "EmailSendingAccount"@[0] == 'E',
        "ReplyToEmailAddress"@.len() == 19 && "ReplyToEmailAddress"@[0] == 'R',
        "SourceArn"@.len() == 9,
{
    reveal_strlit("EmailSendingAccount");
    reveal_strlit("ReplyToEmailAddress");
    reveal_strlit("SourceArn");
}

#[verifier::spinoff_prover]
#[verifier::rlimit(30)]
proof fn lemma_email_configuration_json_fields_0(x: EmailConfiguration)
    ensures
        email_configuration_json(x) is Object,
        ({
            let m = email_configuration_json(x)->Object_0;
            &&& x.email_sending_account is None ==> !m.contains_key("EmailSendingAccount"@)
            &&& x.email_sending_account is Some ==> m.contains_key("EmailSendingAccount"@) && m["EmailSendingAccount"@] == JsonView::Str(x.email_sending_account->0@)
            &&& x.reply_to_email_address is None ==> !m.contains_key("ReplyToEmailAddress"@)
            &&& x.reply_to_email_address is Some ==> m.contains_key("ReplyToEmailAddress"@) && m["ReplyToEmailAddress"@] == JsonView::Str(x.reply_to_email_address->0@)
            &&& x.source_arn is None ==> !m.contains_key("SourceArn"@)
            &&& x.source_arn is Some ==> m.contains_key("SourceArn"@) && m["SourceArn"@] == JsonView::Str(x.source_arn->0@)
        }),
{
    lemma_email_configuration_json_keys_differ();
}

/// The object of a email configuration holds each reported field of it under its own key, and such a key is missing exactly when AWS did not report the field.
pub proof fn law_email_configuration_fields(x: EmailConfiguration)
    ensures
        email_configuration_json(x) is Object,
        ({
            let m = email_configuration_json(x)->Object_0;
            &&& x.email_sending_account is None ==> !m.contains_key("EmailSendingAccount"@)
            &&& x.email_sending_account is Some ==> m.contains_key("EmailSendingAccount"@) && m["EmailSendingAccount"@] == JsonView::Str(x.email_sending_account->0@)
            &&& x.reply_to_email_address is None ==> !m.contains_key("ReplyToEmailAddress"@)
            &&& x.reply_to_email_address is Some ==> m.contains_key("ReplyToEmailAddress"@) && m["ReplyToEmailAddress"@] == JsonView::Str(x.reply_to_email_address->0@)
            &&& x.source_arn is None ==> !m.contains_key("SourceArn"@)
            &&& x.source_arn is Some ==> m.contains_key("SourceArn"@) && m["SourceArn"@] == JsonView::Str(x.source_arn->0@)
        }),
{
    lemma_email_configuration_json_fields_0(x);
}

/// What tells the keys of `user_pool_json` apart: their lengths, and a letter where two have the same length.
proof fn lemma_user_pool_json_keys_differ()
    ensures
        "Active"@.len() == 6 && "Active"@[0] == 'A',
        "AttributesNote"@.len() == 14,
        "CreationDate"@.len() == 12,
        "EmailConfiguration"@.len() == 18,
        "EstimatedNumberOfUsers"@.len() == 22,
        "Id"@.len() == 2,
        "LastModifiedDate"@.len() == 16 && "LastModifiedDate"@[0] == 'L',
        "Name"@.len() == 4,
        "Policies"@.len() == 8,
        "SmsConfiguration"@.len() == 16 && "SmsConfiguration"@[0] == 'S',
        "Status"@.len() == 6 && "Status"@[0] == 'S',
{
    reveal_strlit("Active");
    reveal_strlit("AttributesNote");
    reveal_strlit("CreationDate");
    reveal_strlit("EmailConfiguration");
    reveal_strlit("EstimatedNumberOfUsers");
    reveal_strlit("Id");
    reveal_strlit("LastModifiedDate");
    reveal_strlit("Name");
    reveal_strlit("Policies");
    reveal_strlit("SmsConfiguration");
    reveal_strlit("Status");
}

#[verifier::spinoff_prover]
#[verifier::rlimit(30)]
proof fn lemma_user_pool_json_fields_0(pool: UserPool)
    ensures
        user_pool_json(pool) is Object,
        ({
            let m = user_pool_json(pool)->Object_0;
            &&& pool.creation_date is None ==> !m.contains_key("CreationDate"@)
            &&& pool.creation_date is Some ==> m.contains_key("CreationDate"@) && m["CreationDate"@] == ts_json(pool.creation_date->0)
            &&& pool.id is None ==> !m.contains_key("Id"@)
            &&& pool.id is Some ==> m.contains_key("Id"@) && m["Id"@] == JsonView::Str(pool.id->0@)
            &&& pool.last_modified_date is None ==> !m.contains_key("LastModifiedDate"@)
            &&& pool.last_modified_date is Some ==> m.contains_key("LastModifiedDate"@) && m["LastModifiedDate"@] == ts_json(pool.last_modified_date->0)
        }),
{
    lemma_user_pool_json_keys_differ();
}

#[verifier::spinoff_prover]
#[verifier::rlimit(30)]
proof fn lemma_user_pool_json_fields_1(pool: UserPool)
    ensures
        user_pool_json(pool) is Object,
        ({
            let m = user_pool_json(pool)->Object_0;
            &&& pool.name is None ==> !m.contains_key("Name"@)
            &&& pool.name is Some ==> m.contains_key("Name"@) && m["Name"@] == JsonView::Str(pool.name->0@)
        }),
{
    lemma_user_pool_json_keys_differ();
}

/// The object of a user pool holds each reported field of it under its own key, and such a key is missing exactly when AWS did not report the field.
pub proof fn law_user_pool_fields(pool: UserPool)
    ensures
        user_pool_json(pool) is Object,
        ({
            let m = user_pool_json(pool)->Object_0;
            &&& pool.creation_date is None ==> !m.contains_key("CreationDate"@)
            &&& pool.creation_date is Some ==> m.contains_key("CreationDate"@) && m["CreationDate"@] == ts_json(pool.creation_date->0)
            &&& pool.id is None ==> !m.contains_key("Id"@)
            &&& pool.id is Some ==> m.contains_key("Id"@) && m["Id"@] == JsonView::Str(pool.id->0@)
            &&& pool.last_modified_date is None ==> !m.contains_key("LastModifiedDate"@)
            &&& pool.last_modified_date is Some ==> m.contains_key("LastModifiedDate"@) && m["LastModifiedDate"@] == ts_json(pool.last_modified_date->0)
            &&& pool.name is None ==> !m.contains_key("Name"@)
            &&& pool.name is Some ==> m.contains_key("Name"@) && m["Name"@] == JsonView::Str(pool.name->0@)
        }),
{
    lemma_user_pool_json_fields_0(pool);
    lemma_user_pool_json_fields_1(pool);
}

/// What tells the keys of `identity_provider_json` apart: their lengths, and a letter where two have the same length.
proof fn lemma_identity_provider_json_keys_differ()
    ensures
        "ClientId"@.len() == 8,
        "ProviderName"@.len() == 12,
        "ServerSideTokenCheck"@.len() == 20,
{
    reveal_strlit("ClientId");
    reveal_strlit("ProviderName");
    reveal_strlit("ServerSideTokenCheck");
}

#[verifier::spinoff_prover]
#[verifier::rlimit(30)]
proof fn lemma_identity_provider_json_fields_0(x: CognitoIdentityProvider)
    ensures
        identity_provider_json(x) is Object,
        ({
            let m = identity_provider_json(x)->Object_0;
            &&& x.client_id is None ==> !m.contains_key("ClientId"@)
            &&& x.client_id is Some ==> m.contains_key("ClientId"@) && m["ClientId"@] == JsonView::Str(x.client_id->0@)
            &&& x.provider_name is None ==> !m.contains_key("ProviderName"@)
            &&& x.provider_name is Some ==> m.contains_key("ProviderName"@) && m["ProviderName"@] == JsonView::Str(x.provider_name->0@)
            &&& x.server_side_token_check is None ==> !m.contains_key("ServerSideTokenCheck"@)
            &&& x.server_side_token_check is Some ==> m.contains_key("ServerSideTokenCheck"@) && m["ServerSideTokenCheck"@] == JsonView::Bool(x.server_side_token_check->0)
        }),
{
    lemma_identity_provider_json_keys_differ();
}

/// The object of a cognito identity provider holds each reported field of it under its own key, and such a key is missing exactly when AWS did not report the field.
pub proof fn law_identity_provider_fields(x: CognitoIdentityProvider)
    ensures
        identity_provider_json(x) is Object,
        ({
            let m = identity_provider_json(x)->Object_0;
            &&& x.client_id is None ==> !m.contains_key("ClientId"@)
            &&& x.client_id is Some ==> m.contains_key("ClientId"@) && m["ClientId"@] == JsonView::Str(x.client_id->0@)
            &&& x.provider_name is None ==> !m.contains_key("ProviderName"@)
            &&& x.provider_name is Some ==> m.contains_key("ProviderName"@) && m["ProviderName"@] == JsonView::Str(x.provider_name->0@)
            &&& x.server_side_token_check is None ==> !m.contains_key("ServerSideTokenCheck"@)
            &&& x.server_side_token_check is Some ==> m.contains_key("ServerSideTokenCheck"@) && m["ServerSideTokenCheck"@] == JsonView::Bool(x.server_side_token_check->0)
        }),
{
    lemma_identity_provider_json_fields_0(x);
}

} // verus!

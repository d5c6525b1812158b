//! The token file of kiro-cli and what is read off it.
use vstd::prelude::*;

use crate::json::{json_parse, parse_json, text_member, text_member_of, JsonMember};
use crate::text::{
    contains_text, first_chars, joined, occurs_in, opt_text, prefix_of, text_eq, to_lowercase,
    unicode_lowercase,
};

verus! {

/// The members of the token file that are strings.
#[derive(Debug, PartialEq, Eq)]
pub struct TokenFields {
    pub access_token: Option<String>,
    pub refresh_token: Option<String>,
    pub expires_at: Option<String>,
    pub auth_method: Option<String>,
    pub region: Option<String>,
    pub client_id_hash: Option<String>,
    pub start_url: Option<String>,
    pub profile_arn: Option<String>,
}

/// What [`TokenFields`] holds.
pub struct TokenFieldsView {
    pub access_token: Option<Seq<char>>,
    pub refresh_token: Option<Seq<char>>,
    pub expires_at: Option<Seq<char>>,
    pub auth_method: Option<Seq<char>>,
    pub region: Option<Seq<char>>,
    pub client_id_hash: Option<Seq<char>>,
    pub start_url: Option<Seq<char>>,
    pub profile_arn: Option<Seq<char>>,
}

impl View for TokenFields {
    type V = TokenFieldsView;

    open spec fn view(&self) -> TokenFieldsView {
        TokenFieldsView {
            access_token: opt_text(self.access_token),
            refresh_token: opt_text(self.refresh_token),
            expires_at: opt_text(self.expires_at),
            auth_method: opt_text(self.auth_method),
            region: opt_text(self.region),
            client_id_hash: opt_text(self.client_id_hash),
            start_url: opt_text(self.start_url),
            profile_arn: opt_text(self.profile_arn),
        }
    }
}

/// A token with all that an import needs.
#[derive(Debug, PartialEq, Eq)]
pub struct CliToken {
    pub access_token: String,
    pub refresh_token: String,
    pub expires_at: Option<String>,
    pub auth_method: String,
    pub region: String,
    pub client_id_hash: Option<String>,
    pub start_url: Option<String>,
    pub profile_arn: Option<String>,
}

/// What [`CliToken`] holds.
pub struct TokenView {
    pub access_token: Seq<char>,
    pub refresh_token: Seq<char>,
    pub expires_at: Option<Seq<char>>,
    pub auth_method: Seq<char>,
    pub region: Seq<char>,
    pub client_id_hash: Option<Seq<char>>,
    pub start_url: Option<Seq<char>>,
    pub profile_arn: Option<Seq<char>>,
}

impl View for CliToken {
    type V = TokenView;

    open spec fn view(&self) -> TokenView {
        TokenView {
            access_token: self.access_token@,
            refresh_token: self.refresh_token@,
            expires_at: opt_text(self.expires_at),
            auth_method: self.auth_method@,
            region: self.region@,
            client_id_hash: opt_text(self.client_id_hash),
            start_url: opt_text(self.start_url),
            profile_arn: opt_text(self.profile_arn),
        }
    }
}

impl TokenView {
    /// The token belongs to an account of the identity center.
    pub open spec fn is_idc(self) -> bool {
        self.auth_method == "IdC"@
    }
}

/// The outcome of reading a file.
#[derive(Debug, PartialEq, Eq)]
pub enum FileRead {
    /// There is no such file; `path` is its displayed path.
    Missing { path: String },
    /// The file could not be read.
    Unreadable { reason: String },
    /// What the file holds.
    Content { text: String },
}

/// Who issued an account.
#[derive(Clone, Copy, Debug, PartialEq, Eq)]
pub enum Provider {
    Enterprise,
    BuilderId,
    Github,
    Google,
}

impl Provider {
    /// The name under which the provider is stored.
    pub open spec fn name_text(self) -> Seq<char> {
        match self {
            Provider::Enterprise => "Enterprise"@,
            Provider::BuilderId => "BuilderId"@,
            Provider::Github => "Github"@,
            Provider::Google => "Google"@,
        }
    }

    /// The name under which the provider is stored.
    pub fn name(self) -> (r: String)
        ensures
            r@ == self.name_text(),
    {
        match self {
            Provider::Enterprise => "Enterprise".to_string(),
            Provider::BuilderId => "BuilderId".to_string(),
            Provider::Github => "Github".to_string(),
            Provider::Google => "Google".to_string(),
        }
    }
}

/// The client registration that belongs to a token.
#[derive(Debug, PartialEq, Eq)]
pub struct ClientRegistration {
    pub client_id: Option<String>,
    pub client_secret: Option<String>,
}

/// What [`ClientRegistration`] holds.
pub struct RegistrationView {
    pub client_id: Option<Seq<char>>,
    pub client_secret: Option<Seq<char>>,
}

impl View for ClientRegistration {
    type V = RegistrationView;

    open spec fn view(&self) -> RegistrationView {
        RegistrationView {
            client_id: opt_text(self.client_id),
            client_secret: opt_text(self.client_secret),
        }
    }
}

/// The string members of a token document.
pub open spec fn fields_of(members: Map<Seq<char>, JsonMember>) -> TokenFieldsView {
    TokenFieldsView {
        access_token: text_member_of(members, "accessToken"@),
        refresh_token: text_member_of(members, "refreshToken"@),
        expires_at: text_member_of(members, "expiresAt"@),
        auth_method: text_member_of(members, "authMethod"@),
        region: text_member_of(members, "region"@),
        client_id_hash: text_member_of(members, "clientIdHash"@),
        start_url: text_member_of(members, "startUrl"@),
        profile_arn: text_member_of(members, "profileArn"@),
    }
}

/// The token that the fields make, or the message about what is missing. The
/// authentication method and the region have defaults.
pub open spec fn completed(f: TokenFieldsView) -> Result<TokenView, Seq<char>> {
    match (f.access_token, f.refresh_token) {
        (None, _) => Err("kiro-auth-token-cli.json 缺少 accessToken"@),
        (Some(_), None) => Err("kiro-auth-token-cli.json 缺少 refreshToken"@),
        (Some(access), Some(refresh)) => Ok(
            TokenView {
                access_token: access,
                refresh_token: refresh,
                expires_at: f.expires_at,
                auth_method: match f.auth_method {
                    Some(method) => method,
                    None => "IdC"@,
                },
                region: match f.region {
                    Some(region) => region,
                    None => "us-east-1"@,
                },
                client_id_hash: f.client_id_hash,
                start_url: f.start_url,
                profile_arn: f.profile_arn,
            },
        ),
    }
}

/// The token that a text holds, or the message about what is wrong with it.
pub open spec fn token_of_text(text: Seq<char>) -> Result<TokenView, Seq<char>> {
    match json_parse(text) {
        Ok(members) => completed(fields_of(members)),
        Err(message) => Err("解析 kiro-auth-token-cli.json 失败: "@ + message),
    }
}

/// The token that reading the token file gives, or the message of the failure.
pub open spec fn token_of_read(read: FileRead) -> Result<TokenView, Seq<char>> {
    match read {
        FileRead::Missing { path } => Err("未找到 kiro-cli token 文件: "@ + path@),
        FileRead::Unreadable { reason } => Err(
            "读取 kiro-auth-token-cli.json 失败: "@ + reason@,
        ),
        FileRead::Content { text } => token_of_text(text@),
    }
}

/// What a result with a token holds.
pub open spec fn token_result(r: Result<CliToken, String>) -> Result<TokenView, Seq<char>> {
    match r {
        Ok(token) => Ok(token@),
        Err(message) => Err(message@),
    }
}

/// The provider, decided on the lowercase forms of the start URL and the profile ARN.
///
/// An account of the identity center belongs to an enterprise when it has a start
/// URL outside of `view.awsapps.com`; any other account is told apart by its
/// profile ARN.
pub open spec fn provider_for(
    auth_method: Seq<char>,
    start_url_lower: Option<Seq<char>>,
    profile_arn_lower: Option<Seq<char>>,
) -> Provider {
    if auth_method == "IdC"@ {
        match start_url_lower {
            Some(url) => if occurs_in(url, "view.awsapps.com"@) {
                Provider::BuilderId
            } else {
                Provider::Enterprise
            },
            None => Provider::BuilderId,
        }
    } else {
        match profile_arn_lower {
            Some(arn) => if occurs_in(arn, "github"@) {
                Provider::Github
            } else {
                Provider::Google
            },
            None => Provider::Google,
        }
    }
}

/// The lowercase form of an optional text.
pub open spec fn opt_lowercase(o: Option<Seq<char>>) -> Option<Seq<char>> {
    match o {
        Some(s) => Some(unicode_lowercase(s)),
        None => None,
    }
}

/// The provider of the account that a token belongs to.
pub open spec fn token_provider(t: TokenView) -> Provider {
    provider_for(t.auth_method, opt_lowercase(t.start_url), opt_lowercase(t.profile_arn))
}

/// How the account of a token is identified: by its client id hash or, without
/// one, by the first characters of its refresh token.
pub open spec fn token_user_id(t: TokenView) -> Seq<char> {
    match t.client_id_hash {
        Some(hash) => hash,
        None => prefix_of(t.refresh_token, 20),
    }
}

/// The name of the file with the client registration of a token, if there is to be one.
pub open spec fn registration_name_of(t: TokenView) -> Option<Seq<char>> {
    if t.is_idc() {
        match t.client_id_hash {
            Some(hash) => Some(hash + ".json"@),
            None => None,
        }
    } else {
        None
    }
}

/// The client registration that a text holds. Without a text, or when it is not
/// JSON, there is none.
pub open spec fn registration_of_text(content: Option<Seq<char>>) -> RegistrationView {
    match content {
        Some(text) => match json_parse(text) {
            Ok(members) => RegistrationView {
                client_id: text_member_of(members, "clientId"@),
                client_secret: text_member_of(members, "clientSecret"@),
            },
            Err(_) => RegistrationView { client_id: None, client_secret: None },
        },
        None => RegistrationView { client_id: None, client_secret: None },
    }
}

/// Makes a token of the fields of a token document.
pub fn complete_token(fields: TokenFields) -> (r: Result<CliToken, String>)
    ensures
        token_result(r) == completed(fields@),
{
    let access_token: String = match fields.access_token {
        Some(s) => s,
        None => {
            return Err("kiro-auth-token-cli.json 缺少 accessToken".to_string());
        },
    };
    let refresh_token: String = match fields.refresh_token {
        Some(s) => s,
        None => {
            return Err("kiro-auth-token-cli.json 缺少 refreshToken".to_string());
        },
    };
    let auth_method: String = match fields.auth_method {
        Some(s) => s,
        None => "IdC".to_string(),
    };
    let region: String = match fields.region {
        Some(s) => s,
        None => "us-east-1".to_string(),
    };
    Ok(
        CliToken {
            access_token,
            refresh_token,
            expires_at: fields.expires_at,
            auth_method,
            region,
            client_id_hash: fields.client_id_hash,
            start_url: fields.start_url,
            profile_arn: fields.profile_arn,
        },
    )
}

/// Reads a token off the text of the token file.
pub fn parse_cli_token(text: &str) -> (r: Result<CliToken, String>)
    ensures
        token_result(r) == token_of_text(text@),
{
    match parse_json(text) {
        Ok(doc) => complete_token(
            TokenFields {
                access_token: text_member(&doc, "accessToken"),
                refresh_token: text_member(&doc, "refreshToken"),
                expires_at: text_member(&doc, "expiresAt"),
                auth_method: text_member(&doc, "authMethod"),
                region: text_member(&doc, "region"),
                client_id_hash: text_member(&doc, "clientIdHash"),
                start_url: text_member(&doc, "startUrl"),
                profile_arn: text_member(&doc, "profileArn"),
            },
        ),
        Err(message) => Err(
            joined("解析 kiro-auth-token-cli.json 失败: ", message.as_str()),
        ),
    }
}

/// Turns the outcome of reading the token file into a token.
pub fn read_cli_token(read: FileRead) -> (r: Result<CliToken, String>)
    ensures
        token_result(r) == token_of_read(read),
{
    match read {
        FileRead::Missing { path } => Err(
            joined("未找到 kiro-cli token 文件: ", path.as_str()),
        ),
        FileRead::Unreadable { reason } => Err(
            joined("读取 kiro-auth-token-cli.json 失败: ", reason.as_str()),
        ),
        FileRead::Content { text } => parse_cli_token(text.as_str()),
    }
}

/// Decides on the provider by the lowercase forms of the start URL and the profile ARN.
pub fn choose_provider(
    auth_method: &str,
    start_url_lower: &Option<String>,
    profile_arn_lower: &Option<String>,
) -> (r: Provider)
    ensures
        r == provider_for(
            auth_method@,
            opt_text(*start_url_lower),
            opt_text(*profile_arn_lower),
        ),
{
    if text_eq(auth_method, "IdC") {
        match start_url_lower {
            Some(url) => {
                if contains_text(url.as_str(), "view.awsapps.com") {
                    Provider::BuilderId
                } else {
                    Provider::Enterprise
                }
            },
            None => Provider::BuilderId,
        }
    } else {
        match profile_arn_lower {
            Some(arn) => {
                if contains_text(arn.as_str(), "github") {
                    Provider::Github
                } else {
                    Provider::Google
                }
            },
            None => Provider::Google,
        }
    }
}

/// The lowercase form of an optional text.
fn lowercase_of(o: &Option<String>) -> (r: Option<String>)
    ensures
        opt_text(r) == opt_lowercase(opt_text(*o)),
{
    match o {
        Some(s) => Some(to_lowercase(s.as_str())),
        None => None,
    }
}

/// Tells the provider of the account that a token belongs to.
pub fn detect_provider(token: &CliToken) -> (r: Provider)
    ensures
        r == token_provider(token@),
{
    choose_provider(
        token.auth_method.as_str(),
        &lowercase_of(&token.start_url),
        &lowercase_of(&token.profile_arn),
    )
}

/// Tells how the account of a token is identified.
pub fn import_user_id(token: &CliToken) -> (r: String)
    ensures
        r@ == token_user_id(token@),
{
    match &token.client_id_hash {
        Some(hash) => hash.clone(),
        None => first_chars(token.refresh_token.as_str(), 20),
    }
}

/// The name of the file with the client registration of a token, if one is to be read.
pub fn registration_name(token: &CliToken) -> (r: Option<String>)
    ensures
        opt_text(r) == registration_name_of(token@),
{
    if text_eq(token.auth_method.as_str(), "IdC") {
        match &token.client_id_hash {
            Some(hash) => Some(joined(hash.as_str(), ".json")),
            None => None,
        }
    } else {
        None
    }
}

/// Reads a client registration off the text of its file.
pub fn parse_registration(content: Option<&String>) -> (r: ClientRegistration)
    ensures
        r@ == registration_of_text(crate::text::opt_ref_text(content)),
{
    if let Some(text) = content {
        if let Ok(doc) = parse_json(text.as_str()) {
            return ClientRegistration {
                client_id: text_member(&doc, "clientId"),
                client_secret: text_member(&doc, "clientSecret"),
            };
        }
    }
    ClientRegistration { client_id: None, client_secret: None }
}

} // verus!

//! Switching the login of kiro-cli to a stored account.
use vstd::prelude::*;

use crate::account::{
    account_views, account_with_id, find_account, lemma_update_views, same_text, Account,
    AccountView,
};
use crate::clock::{current_time, expiry_text, is_clock_reading, reaches, Timestamp};
use crate::json::{
    empty_object, json_members, json_parse, json_text, json_to_string, no_members, optional_member,
    set_optional_text, set_texts, JsonMember,
};
use crate::text::{joined, opt_text, text_eq, texts};

verus! {

/// The profile that is written for a social account without one.
pub const SOCIAL_PROFILE_ARN: &'static str =
    "arn:aws:codewhisperer:us-east-1:699475941385:profile/EHGA3GRVQMUK";

/// The profile that is written for a BuilderId account without one.
pub const BUILDER_ID_PROFILE_ARN: &'static str =
    "arn:aws:codewhisperer:us-east-1:638616132270:profile/AAAACCCCXXXX";

/// How long the token is declared valid when it is written, in seconds.
pub const TOKEN_LIFETIME: i64 = 3600;

/// What is written into the database of kiro-cli.
#[derive(Debug, PartialEq, Eq)]
pub struct KiroCliSwitchPayload {
    pub token_key: String,
    pub token_value: String,
    pub device_reg_key: String,
    pub device_reg_value: String,
}

/// What [`KiroCliSwitchPayload`] holds.
pub struct PayloadView {
    pub token_key: Seq<char>,
    pub token_value: Seq<char>,
    pub device_reg_key: Seq<char>,
    pub device_reg_value: Seq<char>,
}

impl View for KiroCliSwitchPayload {
    type V = PayloadView;

    open spec fn view(&self) -> PayloadView {
        PayloadView {
            token_key: self.token_key@,
            token_value: self.token_value@,
            device_reg_key: self.device_reg_key@,
            device_reg_value: self.device_reg_value@,
        }
    }
}

/// How kiro-cli logs in.
#[derive(Clone, Copy, Debug, PartialEq, Eq)]
pub enum Login {
    /// Through the identity center.
    IdC,
    /// Through a social account.
    Social,
}

impl Login {
    /// The key under which kiro-cli keeps the token.
    pub open spec fn token_key(self) -> Seq<char> {
        match self {
            Login::IdC => "kirocli:odic:token"@,
            Login::Social => "kirocli:social:token"@,
        }
    }

    /// The key under which kiro-cli keeps the device registration.
    pub open spec fn device_reg_key(self) -> Seq<char> {
        match self {
            Login::IdC => "kirocli:odic:device-registration"@,
            Login::Social => "kirocli:social:device-registration"@,
        }
    }

    /// The profile that is written when the account has none.
    pub open spec fn default_profile(self) -> Seq<char> {
        match self {
            Login::IdC => BUILDER_ID_PROFILE_ARN@,
            Login::Social => SOCIAL_PROFILE_ARN@,
        }
    }
}

/// Tokens that were renewed.
#[derive(Debug, PartialEq, Eq)]
pub struct RefreshedTokens {
    pub access_token: String,
    pub refresh_token: Option<String>,
    /// How long the access token is valid, in seconds.
    pub expires_in: i64,
}

/// How kiro-cli logs in with an account of the named provider, if it can.
pub open spec fn login_for(provider: Seq<char>) -> Option<Login> {
    if provider == "BuilderId"@ {
        Some(Login::IdC)
    } else if provider == "Google"@ || provider == "Github"@ {
        Some(Login::Social)
    } else {
        None
    }
}

/// How kiro-cli logs in with the account, or why it cannot.
pub open spec fn login_of(account: AccountView) -> Result<Login, Seq<char>> {
    match account.provider {
        Some(provider) => match login_for(provider) {
            Some(login) => Ok(login),
            None => Err("不支持的 provider: "@ + provider),
        },
        None => Err("账号缺少 provider 字段"@),
    }
}

/// `text`, or else `default`.
pub open spec fn text_or(text: Option<Seq<char>>, default: Seq<char>) -> Seq<char> {
    match text {
        Some(s) => s,
        None => default,
    }
}

/// The scopes that an identity center token is declared to have.
pub open spec fn scopes() -> Seq<Seq<char>> {
    seq![
        "codewhisperer:completions"@,
        "codewhisperer:analysis"@,
        "codewhisperer:conversations"@,
    ]
}

/// The members of the token document for an account.
pub open spec fn token_members(account: AccountView, login: Login, expires_at: Seq<char>) -> Map<
    Seq<char>,
    JsonMember,
> {
    let common = no_members().insert(
        "access_token"@,
        optional_member(account.access_token),
    ).insert("refresh_token"@, optional_member(account.refresh_token)).insert(
        "region"@,
        JsonMember::Text(text_or(account.region, "us-east-1"@)),
    ).insert("expires_at"@, JsonMember::Text(expires_at));
    let profile = JsonMember::Text(text_or(account.profile_arn, login.default_profile()));
    match login {
        Login::IdC => common.insert("scopes"@, JsonMember::Texts(scopes())).insert(
            "oauth_flow"@,
            JsonMember::Text("Pkce"@),
        ).insert("profile_arn"@, profile),
        Login::Social => common.insert(
            "start_url"@,
            JsonMember::Text("https://view.awsapps.com/start"@),
        ).insert("profile_arn"@, profile),
    }
}

/// The members of the device registration document for an account.
pub open spec fn device_members(account: AccountView) -> Map<Seq<char>, JsonMember> {
    no_members().insert(
        "client_id"@,
        JsonMember::Text(text_or(account.client_id, Seq::empty())),
    ).insert(
        "client_secret"@,
        JsonMember::Text(text_or(account.client_secret, Seq::empty())),
    ).insert("region"@, JsonMember::Text(text_or(account.region, "us-east-1"@)))
}

/// `payload` is what is written for an account that kiro-cli logs in with as `login`
/// when the clock shows `now`.
pub open spec fn payload_for(
    account: AccountView,
    login: Login,
    now: Timestamp,
    payload: PayloadView,
) -> bool {
    let token = token_members(account, login, now.text_after(TOKEN_LIFETIME as int));
    let device = device_members(account);
    &&& payload.token_key == login.token_key()
    &&& payload.token_value == json_text(token)
    &&& json_parse(payload.token_value) matches Ok(m) && m == token
    &&& payload.device_reg_key == login.device_reg_key()
    &&& payload.device_reg_value == json_text(device)
    &&& json_parse(payload.device_reg_value) matches Ok(m) && m == device
}

/// `r` is the answer to a request for a payload when the clock shows `now`: an error
/// for an account that kiro-cli cannot log in with; otherwise the payload, or nothing
/// when the date at which the token is to expire cannot be held.
pub open spec fn payload_answer(
    account: AccountView,
    now: Timestamp,
    r: Option<Result<KiroCliSwitchPayload, String>>,
) -> bool {
    match login_of(account) {
        Ok(login) => if now.reaches(TOKEN_LIFETIME as int) {
            r matches Some(Ok(payload)) && payload_for(account, login, now, payload@)
        } else {
            r is None
        },
        Err(reason) => r matches Some(Err(message)) && message@ == reason,
    }
}

/// `account` with renewed tokens, when the clock shows `now`.
pub open spec fn renewed(
    account: AccountView,
    tokens: RefreshedTokens,
    now: Timestamp,
) -> AccountView {
    AccountView {
        access_token: Some(tokens.access_token@),
        refresh_token: opt_text(tokens.refresh_token),
        expires_at: Some(now.text_after(tokens.expires_in as int)),
        ..account
    }
}

/// `account` with a new quota report.
pub open spec fn reported(account: AccountView, usage_data: Seq<char>) -> AccountView {
    AccountView { usage_data: Some(usage_data), ..account }
}

/// The store after a quota report was written into the account at `found`.
pub open spec fn store_with_report(
    accounts: Seq<AccountView>,
    found: Option<usize>,
    usage_data: Seq<char>,
) -> Seq<AccountView> {
    match found {
        Some(i) => accounts.update(i as int, reported(accounts[i as int], usage_data)),
        None => accounts,
    }
}

/// The account with the given id, if there is one.
pub fn select_account(accounts: &[Account], account_id: &str) -> (r: Option<Account>)
    ensures
        match r {
            Some(account) => exists|i: usize| #[trigger]
                account_with_id(account_views(accounts@), account_id@, Some(i)) && account
                    == accounts@[i as int],
            None => account_with_id(account_views(accounts@), account_id@, None),
        },
{
    match find_account(accounts, account_id) {
        Some(i) => {
            let account: Account = accounts[i].clone();
            assert(account_with_id(account_views(accounts@), account_id@, Some(i)));
            Some(account)
        },
        None => None,
    }
}

/// Renews the tokens of an account.
pub fn renew_account(account: Account, tokens: RefreshedTokens, now: Timestamp) -> (r: Account)
    requires
        now.wf(),
        now.reaches(tokens.expires_in as int),
    ensures
        r@ == renewed(account@, tokens, now),
{
    let mut renewed_account: Account = account;
    renewed_account.access_token = Some(tokens.access_token);
    renewed_account.refresh_token = tokens.refresh_token;
    renewed_account.expires_at = Some(expiry_text(now, tokens.expires_in));
    renewed_account
}

/// A copy of an account with a new quota report.
fn with_report(account: &Account, usage_data: String) -> (r: Account)
    ensures
        r@ == reported(account@, usage_data@),
{
    let mut out: Account = account.clone();
    out.usage_data = Some(usage_data);
    out
}

/// Writes a quota report into the account with the given id and tells where the
/// account stands. An account that is not there is left out.
pub fn record_report(accounts: &mut Vec<Account>, account_id: &str, usage_data: String) -> (r:
    Option<usize>)
    ensures
        account_with_id(account_views(old(accounts)@), account_id@, r),
        account_views(final(accounts)@) == store_with_report(
            account_views(old(accounts)@),
            r,
            usage_data@,
        ),
{
    let found: Option<usize> = find_account(accounts.as_slice(), account_id);
    if let Some(i) = found {
        let ghost before = accounts@;
        let account: Account = with_report(&accounts[i], usage_data);
        accounts.set(i, account);
        proof {
            lemma_update_views(before, i as int, account);
            assert(account_views(before)[i as int] == before[i as int]@);
        }
    }
    found
}

/// Tells how kiro-cli logs in with an account.
pub fn login_kind(account: &Account) -> (r: Result<Login, String>)
    ensures
        match login_of(account@) {
            Ok(login) => r == Ok::<Login, String>(login),
            Err(reason) => r matches Err(message) && message@ == reason,
        },
{
    match &account.provider {
        Some(provider) => {
            if text_eq(provider.as_str(), "BuilderId") {
                Ok(Login::IdC)
            } else if text_eq(provider.as_str(), "Google") || text_eq(
                provider.as_str(),
                "Github",
            ) {
                Ok(Login::Social)
            } else {
                Err(joined("不支持的 provider: ", provider.as_str()))
            }
        },
        None => Err("账号缺少 provider 字段".to_string()),
    }
}

/// A copy of an optional text, or else the default.
fn some_text_or(o: &Option<String>, default: &str) -> (r: Option<String>)
    ensures
        opt_text(r) == Some(text_or(opt_text(*o), default@)),
{
    match o {
        Some(s) => Some(s.clone()),
        None => Some(default.to_owned()),
    }
}

/// The document that holds the token of an account.
fn token_document(account: &Account, login: Login, expires_at: String) -> (doc: serde_json::Value)
    ensures
        crate::json::json_is_object(doc),
        json_members(doc) == token_members(account@, login, expires_at@),
{
    let mut doc = empty_object();
    set_optional_text(&mut doc, "access_token", same_text(&account.access_token));
    set_optional_text(&mut doc, "refresh_token", same_text(&account.refresh_token));
    set_optional_text(&mut doc, "region", some_text_or(&account.region, "us-east-1"));
    set_optional_text(&mut doc, "expires_at", Some(expires_at));
    match login {
        Login::IdC => {
            let mut list: Vec<String> = Vec::new();
            list.push("codewhisperer:completions".to_string());
            list.push("codewhisperer:analysis".to_string());
            list.push("codewhisperer:conversations".to_string());
            assert(texts(list@) =~= scopes());
            set_texts(&mut doc, "scopes", list);
            set_optional_text(&mut doc, "oauth_flow", Some("Pkce".to_string()));
            set_optional_text(
                &mut doc,
                "profile_arn",
                some_text_or(&account.profile_arn, BUILDER_ID_PROFILE_ARN),
            );
        },
        Login::Social => {
            set_optional_text(
                &mut doc,
                "start_url",
                Some("https://view.awsapps.com/start".to_string()),
            );
            set_optional_text(
                &mut doc,
                "profile_arn",
                some_text_or(&account.profile_arn, SOCIAL_PROFILE_ARN),
            );
        },
    }
    doc
}

/// The document that holds the device registration of an account.
fn device_document(account: &Account) -> (doc: serde_json::Value)
    ensures
        crate::json::json_is_object(doc),
        json_members(doc) == device_members(account@),
{
    let mut doc = empty_object();
    proof {
        reveal_strlit("");
        assert(""@ =~= Seq::<char>::empty());
    }
    set_optional_text(&mut doc, "client_id", some_text_or(&account.client_id, ""));
    set_optional_text(&mut doc, "client_secret", some_text_or(&account.client_secret, ""));
    set_optional_text(&mut doc, "region", some_text_or(&account.region, "us-east-1"));
    doc
}

/// Puts the written documents under the keys of the login.
pub fn payload_under(login: Login, token_value: String, device_reg_value: String) -> (r:
    KiroCliSwitchPayload)
    ensures
        r.token_key@ == login.token_key(),
        r.token_value == token_value,
        r.device_reg_key@ == login.device_reg_key(),
        r.device_reg_value == device_reg_value,
{
    match login {
        Login::IdC => KiroCliSwitchPayload {
            token_key: "kirocli:odic:token".to_string(),
            token_value,
            device_reg_key: "kirocli:odic:device-registration".to_string(),
            device_reg_value,
        },
        Login::Social => KiroCliSwitchPayload {
            token_key: "kirocli:social:token".to_string(),
            token_value,
            device_reg_key: "kirocli:social:device-registration".to_string(),
            device_reg_value,
        },
    }
}

/// Makes the payload for an account when the clock shows `now`.
pub fn build_switch_payload_at(account: &Account, now: Timestamp) -> (r: Option<
    Result<KiroCliSwitchPayload, String>,
>)
    requires
        now.wf(),
    ensures
        payload_answer(account@, now, r),
{
    let login: Login = match login_kind(account) {
        Ok(login) => login,
        Err(message) => {
            return Some(Err(message));
        },
    };
    if !reaches(now, TOKEN_LIFETIME) {
        return None;
    }
    let token = token_document(account, login, expiry_text(now, TOKEN_LIFETIME));
    let token_value: String = match json_to_string(&token) {
        Ok(text) => text,
        Err(e) => {
            return Some(Err(joined("序列化 token 失败: ", e.as_str())));
        },
    };
    let device = device_document(account);
    let device_reg_value: String = match json_to_string(&device) {
        Ok(text) => text,
        Err(e) => {
            return Some(Err(joined("序列化 device registration 失败: ", e.as_str())));
        },
    };
    Some(Ok(payload_under(login, token_value, device_reg_value)))
}

/// Makes the payload for an account. The token is declared valid for one hour from the
/// time that the clock shows. There is no answer when the clock shows a time so late
/// that the date one hour later cannot be held.
pub fn build_switch_payload(account: &Account) -> (r: Option<Result<KiroCliSwitchPayload, String>>)
    ensures
        exists|now: Timestamp|
            {
                &&& #[trigger] is_clock_reading(now)
                &&& now.wf()
                &&& now.seconds >= 0
                &&& payload_answer(account@, now, r)
            },
{
    build_switch_payload_at(account, current_time())
}

} // verus!

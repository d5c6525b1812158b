//! What each part of an import does to what it is given.
use vstd::prelude::*;

use crate::account::{Account, AccountView};
use crate::import::{
    filled, fresh_label, import_stored, is_new_machine_id, is_random_uuid, kept_label_of,
    named_region, named_user_id, plan_of, query_of, report_of, seed_of, standing_of, store_after,
    with_status, with_usage, AccountSeed, ImportPlan, KiroCliImportResult, PlanView, UsageOutcome,
    UsageQuery,
};
use crate::import_run::{
    import_expects, import_moves, ImportAction, ImportEvent, ImportState,
};
use crate::json::{json_parse, JsonMember};
use crate::laws::imported;
use crate::text::{occurs_in, unicode_lowercase};
use crate::token::{
    completed, provider_for, registration_name_of, registration_of_text, token_of_read,
    token_of_text, token_provider, token_result, token_user_id, CliToken, ClientRegistration,
    FileRead, Provider, RegistrationView, TokenFieldsView, TokenView,
};

verus! {

// ---------------------------------------------------------------------------
// Tokens
// ---------------------------------------------------------------------------

/// A token file that is missing, that cannot be read or that is not JSON gives the message
/// about it, with the path, the reason or the parser's words at its end.
pub proof fn law_token_file_failures(read: FileRead)
    ensures
        read matches FileRead::Missing { path } ==> token_of_read(read) == Err::<
            TokenView,
            Seq<char>,
        >("未找到 kiro-cli token 文件: "@ + path@),
        read matches FileRead::Unreadable { reason } ==> token_of_read(read) == Err::<
            TokenView,
            Seq<char>,
        >("读取 kiro-auth-token-cli.json 失败: "@ + reason@),
        read matches FileRead::Content { text } ==> token_of_read(read) == token_of_text(text@),
        read matches FileRead::Content { text } ==> (json_parse(text@) matches Err(words)
            ==> token_of_read(read) == Err::<TokenView, Seq<char>>(
            "解析 kiro-auth-token-cli.json 失败: "@ + words,
        )),
{
}

/// A document with both tokens makes a token that holds them as they are written. Every
/// other field of it is the string member under its key; the authentication method and the
/// region have defaults.
pub proof fn law_token_holds_its_members(
    text: Seq<char>,
    members: Map<Seq<char>, JsonMember>,
    access: Seq<char>,
    refresh: Seq<char>,
    s: Seq<char>,
)
    requires
        json_parse(text) == Ok::<Map<Seq<char>, JsonMember>, Seq<char>>(members),
        members.contains_pair("accessToken"@, JsonMember::Text(access)),
        members.contains_pair("refreshToken"@, JsonMember::Text(refresh)),
    ensures
        token_of_text(text) matches Ok(t) && {
            &&& t.access_token == access
            &&& t.refresh_token == refresh
            &&& t.expires_at == Some(s) <==> members.contains_pair(
                "expiresAt"@,
                JsonMember::Text(s),
            )
            &&& t.client_id_hash == Some(s) <==> members.contains_pair(
                "clientIdHash"@,
                JsonMember::Text(s),
            )
            &&& t.start_url == Some(s) <==> members.contains_pair("startUrl"@, JsonMember::Text(s))
            &&& t.profile_arn == Some(s) <==> members.contains_pair(
                "profileArn"@,
                JsonMember::Text(s),
            )
            &&& members.contains_pair("authMethod"@, JsonMember::Text(s)) ==> t.auth_method == s
            &&& members.contains_pair("region"@, JsonMember::Text(s)) ==> t.region == s
            &&& (forall|x: Seq<char>|
                !#[trigger] members.contains_pair("authMethod"@, JsonMember::Text(x)))
                ==> t.auth_method == "IdC"@
            &&& (forall|x: Seq<char>|
                !#[trigger] members.contains_pair("region"@, JsonMember::Text(x))) ==> t.region
                == "us-east-1"@
        },
{
    let t = token_of_text(text)->Ok_0;
    if forall|x: Seq<char>| !#[trigger] members.contains_pair("authMethod"@, JsonMember::Text(x)) {
        assert(!members.contains_pair(
            "authMethod"@,
            JsonMember::Text(members["authMethod"@]->Text_0),
        ));
    }
    if forall|x: Seq<char>| !#[trigger] members.contains_pair("region"@, JsonMember::Text(x)) {
        assert(!members.contains_pair("region"@, JsonMember::Text(members["region"@]->Text_0)));
    }
}

/// A document makes a token exactly when it holds both tokens as strings; the message about
/// a missing access token comes before that about a missing refresh token.
pub proof fn law_token_needs_both_tokens(text: Seq<char>, members: Map<Seq<char>, JsonMember>)
    requires
        json_parse(text) == Ok::<Map<Seq<char>, JsonMember>, Seq<char>>(members),
    ensures
        token_of_text(text) is Ok <==> {
            &&& exists|a: Seq<char>|
                #[trigger] members.contains_pair("accessToken"@, JsonMember::Text(a))
            &&& exists|r: Seq<char>|
                #[trigger] members.contains_pair("refreshToken"@, JsonMember::Text(r))
        },
        (forall|a: Seq<char>|
            !#[trigger] members.contains_pair("accessToken"@, JsonMember::Text(a)))
            ==> token_of_text(text) == Err::<TokenView, Seq<char>>(
            "kiro-auth-token-cli.json 缺少 accessToken"@,
        ),
        (exists|a: Seq<char>|
            #[trigger] members.contains_pair("accessToken"@, JsonMember::Text(a))) && (forall|
            r: Seq<char>,
        | !#[trigger] members.contains_pair("refreshToken"@, JsonMember::Text(r)))
            ==> token_of_text(text) == Err::<TokenView, Seq<char>>(
            "kiro-auth-token-cli.json 缺少 refreshToken"@,
        ),
{
    let a0 = members["accessToken"@]->Text_0;
    let r0 = members["refreshToken"@]->Text_0;
    if token_of_text(text) is Ok {
        assert(members.contains_pair("accessToken"@, JsonMember::Text(a0)));
        assert(members.contains_pair("refreshToken"@, JsonMember::Text(r0)));
    }
    if forall|a: Seq<char>| !#[trigger] members.contains_pair("accessToken"@, JsonMember::Text(a)) {
        assert(!members.contains_pair("accessToken"@, JsonMember::Text(a0)));
    }
    if forall|r: Seq<char>| !#[trigger] members.contains_pair("refreshToken"@, JsonMember::Text(r)) {
        assert(!members.contains_pair("refreshToken"@, JsonMember::Text(r0)));
    }
}

/// Fields make a token exactly when both tokens are among them, and the token holds each
/// of them unchanged.
pub proof fn law_fields_make_a_token(f: TokenFieldsView)
    ensures
        completed(f) is Ok <==> f.access_token is Some && f.refresh_token is Some,
        f.access_token is None ==> completed(f) == Err::<TokenView, Seq<char>>(
            "kiro-auth-token-cli.json 缺少 accessToken"@,
        ),
        f.access_token is Some && f.refresh_token is None ==> completed(f) == Err::<
            TokenView,
            Seq<char>,
        >("kiro-auth-token-cli.json 缺少 refreshToken"@),
        completed(f) matches Ok(t) ==> {
            &&& f.access_token == Some(t.access_token)
            &&& f.refresh_token == Some(t.refresh_token)
            &&& f.expires_at == t.expires_at
            &&& f.client_id_hash == t.client_id_hash
            &&& f.start_url == t.start_url
            &&& f.profile_arn == t.profile_arn
            &&& f.auth_method is Some ==> f.auth_method == Some(t.auth_method)
            &&& f.auth_method is None ==> t.auth_method == "IdC"@
            &&& f.region is Some ==> f.region == Some(t.region)
            &&& f.region is None ==> t.region == "us-east-1"@
        },
{
}

/// A result with a token shows that token, or that message.
pub proof fn law_token_result_shows(r: Result<CliToken, String>)
    ensures
        r matches Ok(t) ==> token_result(r) == Ok::<TokenView, Seq<char>>(t@),
        r matches Err(e) ==> token_result(r) == Err::<TokenView, Seq<char>>(e@),
{
}

/// An account of the identity center belongs to an enterprise exactly when it has a start
/// URL without `view.awsapps.com` in it, and to BuilderId otherwise. Any other account is
/// one of Github exactly when its profile ARN has `github` in it, and one of Google
/// otherwise. Case does not count.
pub proof fn law_provider_of_token(token: TokenView)
    ensures
        token.auth_method == "IdC"@ ==> {
            &&& token_provider(token) == Provider::Enterprise <==> (token.start_url matches Some(
                url,
            ) && !occurs_in(unicode_lowercase(url), "view.awsapps.com"@))
            &&& token_provider(token) == Provider::BuilderId <==> (token.start_url matches Some(url)
                ==> occurs_in(unicode_lowercase(url), "view.awsapps.com"@))
        },
        token.auth_method != "IdC"@ ==> {
            &&& token_provider(token) == Provider::Github <==> (token.profile_arn matches Some(arn)
                && occurs_in(unicode_lowercase(arn), "github"@))
            &&& token_provider(token) == Provider::Google <==> (token.profile_arn matches Some(arn)
                ==> !occurs_in(unicode_lowercase(arn), "github"@))
        },
{
}

/// The same, decided on texts that are in lowercase already.
pub proof fn law_provider_of_lowercase(
    auth_method: Seq<char>,
    start_url: Option<Seq<char>>,
    profile_arn: Option<Seq<char>>,
)
    ensures
        auth_method == "IdC"@ ==> {
            let p = provider_for(auth_method, start_url, profile_arn);
            &&& p == Provider::Enterprise <==> (start_url matches Some(url) && !occurs_in(
                url,
                "view.awsapps.com"@,
            ))
            &&& p == Provider::BuilderId <==> (start_url matches Some(url) ==> occurs_in(
                url,
                "view.awsapps.com"@,
            ))
        },
        auth_method != "IdC"@ ==> {
            let p = provider_for(auth_method, start_url, profile_arn);
            &&& p == Provider::Github <==> (profile_arn matches Some(arn) && occurs_in(
                arn,
                "github"@,
            ))
            &&& p == Provider::Google <==> (profile_arn matches Some(arn) ==> !occurs_in(
                arn,
                "github"@,
            ))
        },
{
}

/// The provider does not depend on the tokens, the expiry, the region or the client id
/// hash; for the identity center it does not depend on the profile ARN, and otherwise not
/// on the start URL.
pub proof fn law_provider_depends_on_little(a: TokenView, b: TokenView)
    requires
        a.auth_method == b.auth_method,
        a.auth_method == "IdC"@ ==> a.start_url == b.start_url,
        a.auth_method != "IdC"@ ==> a.profile_arn == b.profile_arn,
    ensures
        token_provider(a) == token_provider(b),
{
}

/// The names under which the providers are stored.
pub proof fn law_provider_names()
    ensures
        Provider::Enterprise.name_text() == "Enterprise"@,
        Provider::BuilderId.name_text() == "BuilderId"@,
        Provider::Github.name_text() == "Github"@,
        Provider::Google.name_text() == "Google"@,
{
}

/// The account of a token is identified by the client id hash or, without one, by the
/// first twenty characters of the refresh token, or all when there are fewer.
pub proof fn law_user_id_of_token(token: TokenView)
    ensures
        token.client_id_hash matches Some(hash) ==> token_user_id(token) == hash,
        token.client_id_hash is None ==> {
            let id = token_user_id(token);
            &&& id.len() == if token.refresh_token.len() < 20 {
                token.refresh_token.len() as int
            } else {
                20int
            }
            &&& forall|i: int| 0 <= i < id.len() ==> #[trigger] id[i] == token.refresh_token[i]
        },
{
}

/// A client registration is looked for exactly for a token of the identity center with a
/// client id hash, in the file that is named after the hash.
pub proof fn law_registration_name(token: TokenView, name: Seq<char>)
    ensures
        registration_name_of(token) == Some(name) <==> token.auth_method == "IdC"@ && (
        token.client_id_hash matches Some(hash) && name == hash + ".json"@),
{
}

/// A client registration holds the string members of its document, and nothing where
/// there is no document or it is not JSON.
pub proof fn law_registration_holds_its_members(
    text: Seq<char>,
    members: Map<Seq<char>, JsonMember>,
    s: Seq<char>,
)
    ensures
        json_parse(text) == Ok::<Map<Seq<char>, JsonMember>, Seq<char>>(members) ==> {
            let reg = registration_of_text(Some(text));
            &&& reg.client_id == Some(s) <==> members.contains_pair("clientId"@, JsonMember::Text(s))
            &&& reg.client_secret == Some(s) <==> members.contains_pair(
                "clientSecret"@,
                JsonMember::Text(s),
            )
        },
        json_parse(text) is Err ==> {
            let reg = registration_of_text(Some(text));
            reg.client_id is None && reg.client_secret is None
        },
        registration_of_text(None).client_id is None,
        registration_of_text(None).client_secret is None,
{
}

// ---------------------------------------------------------------------------
// Accounts
// ---------------------------------------------------------------------------

/// The plan for a token keeps the token and decides the rest on it.
pub proof fn law_plan_of_token(token: TokenView)
    ensures
        plan_of(token).token == token,
        plan_of(token).provider == token_provider(token),
        plan_of(token).user_id == token_user_id(token),
        plan_of(token).registration == registration_name_of(token),
{
}

/// A new account is labelled with its start URL, or with `BuilderId` where it has none; an
/// account that is there keeps its label.
pub proof fn law_labels(url: Seq<char>, accounts: Seq<AccountView>, index: int)
    ensures
        fresh_label(Some(url)) == "从 kiro-cli 导入 ("@ + url + ")"@,
        fresh_label(None) == "从 kiro-cli 导入 ("@ + "BuilderId"@ + ")"@,
        0 <= index < accounts.len() ==> kept_label_of(accounts, index) == accounts[index].label,
        !(0 <= index < accounts.len()) ==> kept_label_of(accounts, index) == "从 kiro-cli 导入"@,
{
}

/// Filling an account writes every field of the token under its own name, whoever issued
/// the account. The profile ARN is written except for the identity center. The id, the
/// email, the status, the machine id and the quota report stay.
pub proof fn law_filled_account(
    base: AccountView,
    label: Seq<char>,
    plan: PlanView,
    reg: RegistrationView,
)
    ensures
        ({
            let account = filled(base, label, plan, reg);
            &&& account.label == label
            &&& account.access_token == Some(plan.token.access_token)
            &&& account.refresh_token == Some(plan.token.refresh_token)
            &&& account.expires_at == plan.token.expires_at
            &&& account.user_id == Some(plan.user_id)
            &&& account.oidc_region == Some(plan.token.region)
            &&& account.region == Some(plan.token.region)
            &&& account.auth_method == Some(plan.token.auth_method)
            &&& account.client_id_hash == plan.token.client_id_hash
            &&& account.start_url == plan.token.start_url
            &&& account.client_id == reg.client_id
            &&& account.client_secret == reg.client_secret
            &&& plan.token.auth_method == "IdC"@ ==> account.profile_arn == base.profile_arn
            &&& plan.token.auth_method != "IdC"@ ==> account.profile_arn == plan.token.profile_arn
            &&& plan.provider == Provider::Enterprise ==> account.provider == Some("Enterprise"@)
            &&& plan.provider == Provider::BuilderId ==> account.provider == Some("BuilderId"@)
            &&& plan.provider == Provider::Github ==> account.provider == Some("Github"@)
            &&& plan.provider == Provider::Google ==> account.provider == Some("Google"@)
            &&& account.id == base.id
            &&& account.email == base.email
            &&& account.status == base.status
            &&& account.machine_id == base.machine_id
            &&& account.usage_data == base.usage_data
        }),
{
}

/// A report is found in every outcome that came with one.
pub proof fn law_report_of_outcome(outcome: UsageOutcome)
    ensures
        outcome is Failed <==> report_of(outcome) is None,
        outcome matches UsageOutcome::Reported { report } ==> report_of(outcome) == Some(report),
        outcome matches UsageOutcome::Probed { detected_region, report } ==> report_of(outcome)
            == Some(report),
        outcome matches UsageOutcome::Reported { report } ==> (report.user_id matches Some(u)
            ==> named_user_id(outcome) == Some(u@)),
        outcome matches UsageOutcome::Probed { detected_region, report } ==> (
        report.user_id matches Some(u) ==> named_user_id(outcome) == Some(u@)),
        outcome matches UsageOutcome::Reported { report } ==> (report.user_id is None
            ==> named_user_id(outcome) is None),
        outcome matches UsageOutcome::Probed { detected_region, report } ==> (report.user_id is None
            ==> named_user_id(outcome) is None),
        outcome is Failed ==> named_user_id(outcome) is None,
        outcome !is Probed ==> named_region(outcome) is None,
        outcome matches UsageOutcome::Probed { detected_region, report } ==> (
        detected_region@.len() > 0 ==> named_region(outcome) == Some(detected_region@)),
        outcome matches UsageOutcome::Probed { detected_region, report } ==> (
        detected_region@.len() == 0 ==> named_region(outcome) is None),
{
}

/// A report, however it was asked for, is written into the account with the email and
/// the user id that it names; where it names none, those of the account stay. The region
/// changes only to one that was detected. Without a report the account becomes invalid and
/// nothing else changes.
pub proof fn law_usage_is_written(account: AccountView, outcome: UsageOutcome)
    ensures
        ({
            let after = with_usage(account, outcome);
            &&& outcome is Failed ==> after.status == "invalid"@ && after == AccountView {
                status: after.status,
                ..account
            }
            &&& outcome !is Failed ==> after == AccountView {
                email: after.email,
                user_id: after.user_id,
                region: after.region,
                usage_data: after.usage_data,
                ..account
            }
            &&& outcome matches UsageOutcome::Reported { report } ==> {
                &&& after.usage_data == Some(report.usage_data@)
                &&& report.email matches Some(e) ==> after.email == Some(e@)
                &&& report.email is None ==> after.email == account.email
                &&& report.user_id matches Some(u) ==> after.user_id == Some(u@)
                &&& report.user_id is None ==> after.user_id == account.user_id
                &&& after.region == account.region
            }
            &&& outcome matches UsageOutcome::Probed { detected_region, report } ==> {
                &&& after.usage_data == Some(report.usage_data@)
                &&& report.email matches Some(e) ==> after.email == Some(e@)
                &&& report.email is None ==> after.email == account.email
                &&& report.user_id matches Some(u) ==> after.user_id == Some(u@)
                &&& report.user_id is None ==> after.user_id == account.user_id
                &&& detected_region@.len() > 0 ==> after.region == Some(detected_region@)
                &&& detected_region@.len() == 0 ==> after.region == account.region
            }
        }),
{
}

/// A report gives the standing that it tells, and only a report gives one. The status
/// that follows is the only thing that it changes of the account.
pub proof fn law_standing_and_status(account: AccountView, outcome: UsageOutcome, status: Seq<char>)
    ensures
        outcome is Failed <==> standing_of(outcome) is None,
        outcome matches UsageOutcome::Reported { report } ==> (standing_of(outcome) matches Some(s)
            && s.is_banned == report.is_banned && s.is_auth_error == report.is_auth_error),
        outcome matches UsageOutcome::Probed { detected_region, report } ==> (standing_of(
            outcome,
        ) matches Some(s) && s.is_banned == report.is_banned && s.is_auth_error
            == report.is_auth_error),
        with_status(account, status).status == status,
        with_status(account, status) == (AccountView {
            status: with_status(account, status).status,
            ..account
        }),
{
}

/// An imported account holds the tokens of the token file, each under its own name, with
/// the expiry, the region and what else the file holds, whoever issued the account and
/// whatever the quota report says.
pub proof fn law_imported_holds_token(
    base: AccountView,
    label: Seq<char>,
    token: TokenView,
    content: Option<Seq<char>>,
    outcome: UsageOutcome,
    status: Seq<char>,
)
    ensures
        ({
            let account = imported(base, label, token, content, outcome, status);
            &&& account.access_token == Some(token.access_token)
            &&& account.refresh_token == Some(token.refresh_token)
            &&& account.expires_at == token.expires_at
            &&& account.oidc_region == Some(token.region)
            &&& account.auth_method == Some(token.auth_method)
            &&& account.client_id_hash == token.client_id_hash
            &&& account.start_url == token.start_url
            &&& token.auth_method == "IdC"@ ==> account.profile_arn == base.profile_arn
            &&& token.auth_method != "IdC"@ ==> account.profile_arn == token.profile_arn
            &&& account.id == base.id
            &&& account.machine_id == base.machine_id
            &&& account.label == label
        }),
{
}

/// The provider of an imported account is `Enterprise` or `BuilderId` exactly for the
/// identity center, by the start URL, and otherwise `Github` or `Google`, by the profile
/// ARN.
pub proof fn law_imported_provider(
    base: AccountView,
    label: Seq<char>,
    token: TokenView,
    content: Option<Seq<char>>,
    outcome: UsageOutcome,
    status: Seq<char>,
)
    ensures
        ({
            let account = imported(base, label, token, content, outcome, status);
            &&& token.auth_method == "IdC"@ ==> {
                &&& token.start_url is None ==> account.provider == Some("BuilderId"@)
                &&& token.start_url matches Some(url) ==> account.provider == Some(
                    if occurs_in(unicode_lowercase(url), "view.awsapps.com"@) {
                        "BuilderId"@
                    } else {
                        "Enterprise"@
                    },
                )
            }
            &&& token.auth_method != "IdC"@ ==> {
                &&& token.profile_arn is None ==> account.provider == Some("Google"@)
                &&& token.profile_arn matches Some(arn) ==> account.provider == Some(
                    if occurs_in(unicode_lowercase(arn), "github"@) {
                        "Github"@
                    } else {
                        "Google"@
                    },
                )
            }
        }),
{
}

/// An imported account holds the client id and secret of the registration file exactly
/// when the token is one of the identity center with a client id hash and the file holds
/// them as strings.
pub proof fn law_imported_registration(
    base: AccountView,
    label: Seq<char>,
    token: TokenView,
    content: Option<Seq<char>>,
    outcome: UsageOutcome,
    status: Seq<char>,
    s: Seq<char>,
)
    ensures
        ({
            let account = imported(base, label, token, content, outcome, status);
            let read = token.auth_method == "IdC"@ && token.client_id_hash is Some;
            &&& account.client_id == Some(s) <==> read && (content matches Some(text)
                && json_parse(text) matches Ok(members) && members.contains_pair(
                "clientId"@,
                JsonMember::Text(s),
            ))
            &&& account.client_secret == Some(s) <==> read && (content matches Some(text)
                && json_parse(text) matches Ok(members) && members.contains_pair(
                "clientSecret"@,
                JsonMember::Text(s),
            ))
        }),
{
}

/// An imported account holds what the quota report names: its data, and the email, the
/// user id and the detected region where it names them. Where it does not, the email is
/// that of the account as it was started, the user id is that of the token and the region
/// that of the token.
pub proof fn law_imported_holds_report(
    base: AccountView,
    label: Seq<char>,
    token: TokenView,
    content: Option<Seq<char>>,
    outcome: UsageOutcome,
    status: Seq<char>,
)
    ensures
        ({
            let account = imported(base, label, token, content, outcome, status);
            &&& outcome is Failed ==> {
                &&& account.email == base.email
                &&& account.usage_data == base.usage_data
                &&& account.region == Some(token.region)
                &&& account.status == "invalid"@
                &&& account.user_id == Some(token_user_id(token))
            }
            &&& outcome !is Failed ==> account.status == status
            &&& outcome matches UsageOutcome::Reported { report } ==> {
                &&& account.usage_data == Some(report.usage_data@)
                &&& report.email matches Some(e) ==> account.email == Some(e@)
                &&& report.email is None ==> account.email == base.email
                &&& report.user_id matches Some(u) ==> account.user_id == Some(u@)
                &&& report.user_id is None ==> account.user_id == Some(token_user_id(token))
                &&& account.region == Some(token.region)
            }
            &&& outcome matches UsageOutcome::Probed { detected_region, report } ==> {
                &&& account.usage_data == Some(report.usage_data@)
                &&& report.email matches Some(e) ==> account.email == Some(e@)
                &&& report.email is None ==> account.email == base.email
                &&& report.user_id matches Some(u) ==> account.user_id == Some(u@)
                &&& report.user_id is None ==> account.user_id == Some(token_user_id(token))
                &&& detected_region@.len() > 0 ==> account.region == Some(detected_region@)
                &&& detected_region@.len() == 0 ==> account.region == Some(token.region)
            }
        }),
{
}

/// An account of the identity center is started with its user id, any other with an empty
/// email address; both with the label.
pub proof fn law_seed_of_plan(plan: PlanView, label: Seq<char>, seed: AccountSeed)
    requires
        seed_of(plan, label, seed),
    ensures
        plan.provider == Provider::Enterprise || plan.provider == Provider::BuilderId
            <==> seed is Enterprise,
        seed matches AccountSeed::Enterprise { user_id, label: l } ==> user_id@ == plan.user_id
            && l@ == label,
        seed matches AccountSeed::Social { email, label: l } ==> email@.len() == 0 && l@ == label,
{
}

/// The quota is asked for with the access token of the account: in several regions exactly
/// for an enterprise, with the machine id of the account, and under the name of the
/// provider for any other.
pub proof fn law_query_of_account(account: AccountView, provider: Provider, query: UsageQuery)
    requires
        query_of(account, provider, query),
    ensures
        provider == Provider::Enterprise <==> query is Probe,
        query matches UsageQuery::Probe { access_token, machine_id } ==> {
            &&& account.access_token matches Some(t) ==> access_token@ == t
            &&& account.access_token is None ==> access_token@.len() == 0
            &&& machine_id matches Some(m) ==> account.machine_id == Some(m@)
            &&& machine_id is None ==> account.machine_id is None
        },
        query matches UsageQuery::Direct { provider: name, access_token } ==> {
            &&& account.access_token matches Some(t) ==> access_token@ == t
            &&& account.access_token is None ==> access_token@.len() == 0
            &&& provider == Provider::BuilderId ==> name@ == "BuilderId"@
            &&& provider == Provider::Github ==> name@ == "Github"@
            &&& provider == Provider::Google ==> name@ == "Google"@
        },
{
}

// ---------------------------------------------------------------------------
// The store
// ---------------------------------------------------------------------------

/// The text of a random UUID has five groups of lowercase hexadecimal digits with a
/// hyphen between them, the version 4 and one of the four variants.
pub proof fn law_random_uuid(s: Seq<char>)
    ensures
        is_random_uuid(s) ==> {
            &&& s.len() == 36
            &&& s[8] == '-' && s[13] == '-' && s[18] == '-' && s[23] == '-'
            &&& s[14] == '4'
            &&& s[19] == '8' || s[19] == '9' || s[19] == 'a' || s[19] == 'b'
            &&& forall|i: int|
                0 <= i < 36 && i != 8 && i != 13 && i != 18 && i != 23 ==> (48 <= #[trigger] s[i]
                    as u32 <= 57 || 97 <= s[i] as u32 <= 102)
        },
        is_new_machine_id(s) ==> is_random_uuid(s),
{
}

/// The result of an import shows the account that stands in the store afterwards: in the
/// place of the one that was found, or behind all others. It is a success without an error,
/// and new exactly when none was found.
pub proof fn law_import_is_stored(
    before: Seq<AccountView>,
    existing: Option<usize>,
    account: AccountView,
    machine: spec_fn(Seq<char>) -> bool,
    after: Seq<AccountView>,
    result: KiroCliImportResult,
)
    requires
        existing matches Some(i) ==> i < before.len(),
        import_stored(before, existing, account, machine, after, result),
    ensures
        result.success,
        result.error is None,
        result.is_new <==> existing is None,
        result.account is Some,
        ({
            let saved = result.account->0@;
            &&& existing matches Some(i) ==> {
                &&& after[i as int] == saved
                &&& saved.id == before[i as int].id
                &&& saved.machine_id == before[i as int].machine_id
            }
            &&& existing is None ==> {
                &&& after[before.len() as int] == saved
                &&& saved.id == account.id
                &&& account.machine_id is Some ==> saved.machine_id == account.machine_id
                &&& account.machine_id is None ==> (saved.machine_id matches Some(m) && machine(m))
            }
            &&& saved.email == account.email
            &&& saved.label == account.label
            &&& saved.status == account.status
            &&& saved.access_token == account.access_token
            &&& saved.refresh_token == account.refresh_token
            &&& saved.expires_at == account.expires_at
            &&& saved.provider == account.provider
            &&& saved.user_id == account.user_id
            &&& saved.oidc_region == account.oidc_region
            &&& saved.region == account.region
            &&& saved.auth_method == account.auth_method
            &&& saved.client_id_hash == account.client_id_hash
            &&& saved.start_url == account.start_url
            &&& saved.client_id == account.client_id
            &&& saved.client_secret == account.client_secret
            &&& saved.profile_arn == account.profile_arn
            &&& saved.usage_data == account.usage_data
        }),
{
}

/// The store has one account more exactly when a new one was put into it; every other
/// account stands where it stood.
pub proof fn law_store_after_import(
    before: Seq<AccountView>,
    existing: Option<usize>,
    saved: AccountView,
    j: int,
)
    requires
        existing matches Some(i) ==> i < before.len(),
    ensures
        existing is Some ==> store_after(before, existing, saved).len() == before.len(),
        existing is None ==> store_after(before, existing, saved).len() == before.len() + 1,
        existing matches Some(i) ==> store_after(before, existing, saved)[i as int] == saved,
        existing is None ==> store_after(before, existing, saved)[before.len() as int] == saved,
        0 <= j < before.len() && (existing matches Some(i) ==> i != j) ==> store_after(
            before,
            existing,
            saved,
        )[j] == before[j],
{
}

// ---------------------------------------------------------------------------
// The steps
// ---------------------------------------------------------------------------

/// An import waits for nothing but the report on what it asked for, and takes every such
/// report; a quota report comes from several regions exactly for an enterprise.
pub proof fn law_import_takes_reports(state: ImportState, event: ImportEvent)
    ensures
        state is Reading ==> (import_expects(state, event) <==> event is TokenRead),
        state is Registering ==> (import_expects(state, event) <==> event is RegistrationRead),
        state is Searching ==> (import_expects(state, event) <==> event is Searched),
        state is Naming ==> (import_expects(state, event) <==> event is Named),
        state is Starting ==> (import_expects(state, event) <==> event is Started),
        state is Rating ==> (import_expects(state, event) <==> event is Rated),
        state is Storing || state is Failed ==> !import_expects(state, event),
        state matches ImportState::Asking { account, provider, existing } ==> (import_expects(
            state,
            event,
        ) <==> (event matches ImportEvent::Answered { outcome } && (outcome is Reported ==> provider
            != Provider::Enterprise) && (outcome is Probed ==> provider == Provider::Enterprise))),
{
}

/// Once the token is read, the registration file is asked for by its name where there is
/// to be one; otherwise the store is searched for the user id of the token.
pub proof fn law_step_token_read(read: FileRead, next: ImportState, action: ImportAction)
    requires
        import_moves(ImportState::Reading, ImportEvent::TokenRead { read }, next, action),
    ensures
        token_of_read(read) matches Err(reason) ==> {
            &&& next is Failed
            &&& action matches ImportAction::Fail { message } && message@ == reason
        },
        token_of_read(read) matches Ok(token) ==> {
            let registered = token.auth_method == "IdC"@ && token.client_id_hash is Some;
            &&& registered ==> {
                &&& next matches ImportState::Registering { plan } && plan.token@ == token
                    && plan.provider == token_provider(token) && plan.user_id@ == token_user_id(
                    token,
                )
                &&& action matches ImportAction::ReadRegistration { name } && name@
                    == token.client_id_hash->0 + ".json"@
            }
            &&& !registered ==> {
                &&& next matches ImportState::Searching { plan, registration } && plan.token@
                    == token && plan.provider == token_provider(token) && plan.user_id@
                    == token_user_id(token) && registration.client_id is None
                    && registration.client_secret is None
                &&& action matches ImportAction::Search { user_id } && user_id@ == token_user_id(
                    token,
                )
            }
        },
{
}

/// Once the registration file is read, or could not be, the store is searched for the
/// user id of the plan. What the file holds is kept.
pub proof fn law_step_registration_read(
    plan: ImportPlan,
    content: Option<String>,
    next: ImportState,
    action: ImportAction,
    s: Seq<char>,
)
    requires
        import_moves(
            ImportState::Registering { plan },
            ImportEvent::RegistrationRead { content },
            next,
            action,
        ),
    ensures
        next is Searching,
        next->Searching_plan@ == plan@,
        action matches ImportAction::Search { user_id } && user_id@ == plan.user_id@,
        next->Searching_registration@.client_id == Some(s) <==> (content matches Some(text)
            && json_parse(text@) matches Ok(members) && members.contains_pair(
            "clientId"@,
            JsonMember::Text(s),
        )),
        next->Searching_registration@.client_secret == Some(s) <==> (content matches Some(text)
            && json_parse(text@) matches Ok(members) && members.contains_pair(
            "clientSecret"@,
            JsonMember::Text(s),
        )),
{
}

/// Once the store is searched, the label of the account that was found is asked for; where
/// none was found, an account is started with a label that shows the start URL.
pub proof fn law_step_searched(
    plan: ImportPlan,
    registration: ClientRegistration,
    existing: Option<usize>,
    next: ImportState,
    action: ImportAction,
)
    requires
        import_moves(
            ImportState::Searching { plan, registration },
            ImportEvent::Searched { existing },
            next,
            action,
        ),
    ensures
        existing matches Some(found) ==> {
            &&& next matches ImportState::Naming { plan: p, registration: r, index } && p@ == plan@
                && r@ == registration@ && index == found
            &&& action matches ImportAction::ReadLabel { index } && index == found
        },
        existing is None ==> {
            &&& next matches ImportState::Starting {
                plan: p,
                registration: r,
                existing: none,
                label,
            } && p@ == plan@ && r@ == registration@ && none is None && label@
                == "从 kiro-cli 导入 ("@ + (if plan@.token.start_url is Some {
                plan@.token.start_url->0
            } else {
                "BuilderId"@
            }) + ")"@
            &&& action matches ImportAction::Start { seed } && seed_of(
                plan@,
                next->Starting_label@,
                seed,
            )
        },
{
}

/// The label that was read is the one that the account is started with, in the place of
/// the account that was found.
pub proof fn law_step_named(
    plan: ImportPlan,
    registration: ClientRegistration,
    index: usize,
    label: String,
    next: ImportState,
    action: ImportAction,
)
    requires
        import_moves(
            ImportState::Naming { plan, registration, index },
            ImportEvent::Named { label },
            next,
            action,
        ),
    ensures
        next matches ImportState::Starting { plan: p, registration: r, existing, label: l } && p@
            == plan@ && r@ == registration@ && existing == Some(index) && l@ == label@,
        action matches ImportAction::Start { seed } && seed_of(plan@, label@, seed),
{
}

/// The account that was started is filled, and its quota is asked for with the access
/// token that it was just given.
pub proof fn law_step_started(
    plan: ImportPlan,
    registration: ClientRegistration,
    existing: Option<usize>,
    label: String,
    base: Account,
    next: ImportState,
    action: ImportAction,
)
    requires
        import_moves(
            ImportState::Starting { plan, registration, existing, label },
            ImportEvent::Started { account: base },
            next,
            action,
        ),
    ensures
        next matches ImportState::Asking { account, provider, existing: kept } && {
            &&& account@ == filled(base@, label@, plan@, registration@)
            &&& account@.access_token == Some(plan.token.access_token@)
            &&& account@.refresh_token == Some(plan.token.refresh_token@)
            &&& provider == plan.provider
            &&& kept == existing
        },
        action matches ImportAction::Ask { query } && {
            &&& plan.provider == Provider::Enterprise <==> query is Probe
            &&& query matches UsageQuery::Probe { access_token, machine_id } ==> access_token@
                == plan.token.access_token@ && (machine_id matches Some(m) ==> base@.machine_id
                == Some(m@)) && (machine_id is None ==> base@.machine_id is None)
            &&& query matches UsageQuery::Direct { provider: name, access_token } ==> access_token@
                == plan.token.access_token@ && name@ == plan.provider.name_text()
        },
{
}

/// A report is written into the account and the status is asked for with the account and
/// the standing that the report gives; without a report the account goes to the store.
pub proof fn law_step_answered(
    account: Account,
    provider: Provider,
    existing: Option<usize>,
    outcome: UsageOutcome,
    next: ImportState,
    action: ImportAction,
)
    requires
        import_moves(
            ImportState::Asking { account, provider, existing },
            ImportEvent::Answered { outcome },
            next,
            action,
        ),
    ensures
        outcome is Failed ==> {
            &&& next matches ImportState::Storing { account: a, existing: kept } && a@ == (
            AccountView { status: "invalid"@, ..account@ }) && kept == existing
            &&& action is Store
        },
        outcome matches UsageOutcome::Reported { report } ==> {
            &&& next matches ImportState::Rating { account: a, existing: kept } && a@ == with_usage(
                account@,
                outcome,
            ) && kept == existing
            &&& action matches ImportAction::Rate { account: a, standing } && a@ == with_usage(
                account@,
                outcome,
            ) && standing.is_banned == report.is_banned && standing.is_auth_error
                == report.is_auth_error
        },
        outcome matches UsageOutcome::Probed { detected_region, report } ==> {
            &&& next matches ImportState::Rating { account: a, existing: kept } && a@ == with_usage(
                account@,
                outcome,
            ) && kept == existing
            &&& action matches ImportAction::Rate { account: a, standing } && a@ == with_usage(
                account@,
                outcome,
            ) && standing.is_banned == report.is_banned && standing.is_auth_error
                == report.is_auth_error
        },
{
}

/// The status that was found out is the one that the account is stored with.
pub proof fn law_step_rated(
    account: Account,
    existing: Option<usize>,
    status: String,
    next: ImportState,
    action: ImportAction,
)
    requires
        import_moves(
            ImportState::Rating { account, existing },
            ImportEvent::Rated { status },
            next,
            action,
        ),
    ensures
        next matches ImportState::Storing { account: a, existing: kept } && a@ == (AccountView {
            status: status@,
            ..account@
        }) && kept == existing,
        action is Store,
{
}

} // verus!

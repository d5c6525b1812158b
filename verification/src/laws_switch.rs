//! What each part of a switch does to what it is given.
use vstd::prelude::*;

use crate::account::{Account, AccountView};
use crate::clock::{rfc3339_text, Timestamp};
use crate::json::{json_parse, json_text, JsonMember};
use crate::laws::lemma_payload_keys;
use crate::switch::{
    login_for, login_of, payload_answer, payload_for, renewed, reported, store_with_report, text_or,
    KiroCliSwitchPayload, Login, PayloadView, RefreshedTokens,
};
use crate::switch_run::{
    switch_expects, switch_moves, QuotaReport, SwitchAction, SwitchEvent, SwitchState,
};

verus! {

// ---------------------------------------------------------------------------
// Logins
// ---------------------------------------------------------------------------

/// kiro-cli logs in through the identity center exactly for BuilderId and as a social
/// account exactly for Google and Github; no other provider has a login.
pub proof fn law_login_of_provider(provider: Seq<char>)
    ensures
        login_for(provider) == Some(Login::IdC) <==> provider == "BuilderId"@,
        login_for(provider) == Some(Login::Social) <==> provider == "Google"@ || provider
            == "Github"@,
{
    reveal_strlit("BuilderId");
    reveal_strlit("Google");
    reveal_strlit("Github");
    assert("BuilderId"@.len() == 9);
    assert("Google"@.len() == 6);
    assert("Github"@.len() == 6);
}

/// The login of an account follows from its provider alone. An account without a provider,
/// or with another one, is refused with the message about it.
pub proof fn law_login_of_account(account: AccountView)
    ensures
        login_of(account) == Ok::<Login, Seq<char>>(Login::IdC) <==> account.provider == Some(
            "BuilderId"@,
        ),
        login_of(account) == Ok::<Login, Seq<char>>(Login::Social) <==> account.provider == Some(
            "Google"@,
        ) || account.provider == Some("Github"@),
        account.provider is None ==> login_of(account) == Err::<Login, Seq<char>>(
            "账号缺少 provider 字段"@,
        ),
        account.provider matches Some(p) ==> (p != "BuilderId"@ && p != "Google"@ && p != "Github"@
            ==> login_of(account) == Err::<Login, Seq<char>>("不支持的 provider: "@ + p)),
{
    if account.provider is Some {
        law_login_of_provider(account.provider->0);
    }
}

/// What stands under which key, and which profile is written where an account has none.
pub proof fn law_login_literals()
    ensures
        Login::IdC.token_key() == "kirocli:odic:token"@,
        Login::IdC.device_reg_key() == "kirocli:odic:device-registration"@,
        Login::IdC.default_profile()
            == "arn:aws:codewhisperer:us-east-1:638616132270:profile/AAAACCCCXXXX"@,
        Login::Social.token_key() == "kirocli:social:token"@,
        Login::Social.device_reg_key() == "kirocli:social:device-registration"@,
        Login::Social.default_profile()
            == "arn:aws:codewhisperer:us-east-1:699475941385:profile/EHGA3GRVQMUK"@,
{
}

/// A default stands in only for what is missing.
pub proof fn law_default_only_for_missing(s: Seq<char>, default: Seq<char>)
    ensures
        text_or(Some(s), default) == s,
        text_or(None, default) == default,
{
}

// ---------------------------------------------------------------------------
// Payloads
// ---------------------------------------------------------------------------

/// The token document holds the access token and the refresh token of the account whole,
/// or null where the account has none; its region and its profile ARN whole, or the
/// default; and the date one hour after `now`.
pub proof fn law_token_document(
    account: AccountView,
    login: Login,
    now: Timestamp,
    payload: PayloadView,
)
    requires
        payload_for(account, login, now, payload),
    ensures
        json_parse(payload.token_value) is Ok,
        ({
            let token = json_parse(payload.token_value)->Ok_0;
            &&& payload.token_value == json_text(token)
            &&& account.access_token matches Some(s) ==> token.contains_pair(
                "access_token"@,
                JsonMember::Text(s),
            )
            &&& account.access_token is None ==> token.contains_pair(
                "access_token"@,
                JsonMember::Null,
            )
            &&& account.refresh_token matches Some(s) ==> token.contains_pair(
                "refresh_token"@,
                JsonMember::Text(s),
            )
            &&& account.refresh_token is None ==> token.contains_pair(
                "refresh_token"@,
                JsonMember::Null,
            )
            &&& account.region matches Some(s) ==> token.contains_pair(
                "region"@,
                JsonMember::Text(s),
            )
            &&& account.region is None ==> token.contains_pair(
                "region"@,
                JsonMember::Text("us-east-1"@),
            )
            &&& token.contains_pair(
                "expires_at"@,
                JsonMember::Text(rfc3339_text(now.seconds + 3600, now.nanos as int)),
            )
            &&& account.profile_arn matches Some(s) ==> token.contains_pair(
                "profile_arn"@,
                JsonMember::Text(s),
            )
            &&& account.profile_arn is None && login == Login::IdC ==> token.contains_pair(
                "profile_arn"@,
                JsonMember::Text(
                    "arn:aws:codewhisperer:us-east-1:638616132270:profile/AAAACCCCXXXX"@,
                ),
            )
            &&& account.profile_arn is None && login == Login::Social ==> token.contains_pair(
                "profile_arn"@,
                JsonMember::Text(
                    "arn:aws:codewhisperer:us-east-1:699475941385:profile/EHGA3GRVQMUK"@,
                ),
            )
        }),
{
    lemma_payload_keys();
}

/// The token document of the identity center has the three scopes and the flow, that of a
/// social account the start URL; neither has a member besides those that are named here.
pub proof fn law_token_document_members(
    account: AccountView,
    login: Login,
    now: Timestamp,
    payload: PayloadView,
    key: Seq<char>,
)
    requires
        payload_for(account, login, now, payload),
    ensures
        json_parse(payload.token_value) is Ok,
        ({
            let token = json_parse(payload.token_value)->Ok_0;
            let common = key == "access_token"@ || key == "refresh_token"@ || key == "region"@
                || key == "expires_at"@ || key == "profile_arn"@;
            &&& login == Login::IdC ==> {
                &&& token.contains_key(key) <==> common || key == "scopes"@ || key == "oauth_flow"@
                &&& token["scopes"@] matches JsonMember::Texts(list) && list.len() == 3 && list[0]
                    == "codewhisperer:completions"@ && list[1] == "codewhisperer:analysis"@
                    && list[2] == "codewhisperer:conversations"@
                &&& token["oauth_flow"@] == JsonMember::Text("Pkce"@)
            }
            &&& login == Login::Social ==> {
                &&& token.contains_key(key) <==> common || key == "start_url"@
                &&& token["start_url"@] == JsonMember::Text("https://view.awsapps.com/start"@)
            }
        }),
{
    lemma_payload_keys();
}

/// The device registration document holds the client id and the client secret of the
/// account whole, or nothing in their place, and the same region as the token document. It
/// has no other member.
pub proof fn law_device_document(
    account: AccountView,
    login: Login,
    now: Timestamp,
    payload: PayloadView,
    key: Seq<char>,
)
    requires
        payload_for(account, login, now, payload),
    ensures
        json_parse(payload.device_reg_value) is Ok,
        ({
            let device = json_parse(payload.device_reg_value)->Ok_0;
            &&& payload.device_reg_value == json_text(device)
            &&& account.client_id matches Some(s) ==> device.contains_pair(
                "client_id"@,
                JsonMember::Text(s),
            )
            &&& account.client_id is None ==> device.contains_pair(
                "client_id"@,
                JsonMember::Text(Seq::empty()),
            )
            &&& account.client_secret matches Some(s) ==> device.contains_pair(
                "client_secret"@,
                JsonMember::Text(s),
            )
            &&& account.client_secret is None ==> device.contains_pair(
                "client_secret"@,
                JsonMember::Text(Seq::empty()),
            )
            &&& account.region matches Some(s) ==> device.contains_pair(
                "region"@,
                JsonMember::Text(s),
            )
            &&& account.region is None ==> device.contains_pair(
                "region"@,
                JsonMember::Text("us-east-1"@),
            )
            &&& device.contains_key(key) <==> key == "client_id"@ || key == "client_secret"@ || key
                == "region"@
        }),
{
    lemma_payload_keys();
}

/// A payload stands under the keys of its login.
pub proof fn law_payload_keys(
    account: AccountView,
    login: Login,
    now: Timestamp,
    payload: PayloadView,
)
    requires
        payload_for(account, login, now, payload),
    ensures
        login == Login::IdC ==> payload.token_key == "kirocli:odic:token"@ && payload.device_reg_key
            == "kirocli:odic:device-registration"@,
        login == Login::Social ==> payload.token_key == "kirocli:social:token"@
            && payload.device_reg_key == "kirocli:social:device-registration"@,
{
}

/// What a request for a payload is answered. A provider without a login is refused with
/// its message, whatever the clock shows. With a login there is a payload, under the keys
/// of that login, unless the date one hour later cannot be held.
pub proof fn law_payload_is_answered(
    account: AccountView,
    now: Timestamp,
    r: Option<Result<KiroCliSwitchPayload, String>>,
)
    requires
        payload_answer(account, now, r),
    ensures
        account.provider is None ==> (r matches Some(Err(e)) && e@ == "账号缺少 provider 字段"@),
        account.provider matches Some(p) ==> {
            let social = p == "Google"@ || p == "Github"@;
            let held = -8334601228800 <= now.seconds + 3600 <= 8210266876799;
            &&& p != "BuilderId"@ && !social ==> (r matches Some(Err(e)) && e@
                == "不支持的 provider: "@ + p)
            &&& (p == "BuilderId"@ || social) && !held ==> r is None
            &&& p == "BuilderId"@ && held ==> (r matches Some(Ok(payload)) && payload_for(
                account,
                Login::IdC,
                now,
                payload@,
            ))
            &&& social && held ==> (r matches Some(Ok(payload)) && payload_for(
                account,
                Login::Social,
                now,
                payload@,
            ))
        },
{
    if account.provider is Some {
        law_login_of_provider(account.provider->0);
    }
}

/// Two accounts that agree in what a payload shows are written alike: the label, the
/// email, the status, the user id, the stored expiry and the rest do not count.
pub proof fn law_payload_shows_only(
    a: AccountView,
    b: AccountView,
    login: Login,
    now: Timestamp,
    pa: PayloadView,
    pb: PayloadView,
)
    requires
        payload_for(a, login, now, pa),
        payload_for(b, login, now, pb),
        a.access_token == b.access_token,
        a.refresh_token == b.refresh_token,
        a.region == b.region,
        a.profile_arn == b.profile_arn,
        a.client_id == b.client_id,
        a.client_secret == b.client_secret,
    ensures
        pa == pb,
{
}

// ---------------------------------------------------------------------------
// Accounts and the store
// ---------------------------------------------------------------------------

/// Renewed tokens take the place of those of the account, the refresh token even where
/// none came; they expire as many seconds after `now` as they are valid. Nothing else
/// changes.
pub proof fn law_renewed_account(account: AccountView, tokens: RefreshedTokens, now: Timestamp)
    ensures
        ({
            let after = renewed(account, tokens, now);
            &&& after.access_token == Some(tokens.access_token@)
            &&& tokens.refresh_token matches Some(s) ==> after.refresh_token == Some(s@)
            &&& tokens.refresh_token is None ==> after.refresh_token is None
            &&& after.expires_at == Some(
                rfc3339_text(now.seconds + tokens.expires_in, now.nanos as int),
            )
            &&& after == AccountView {
                access_token: after.access_token,
                refresh_token: after.refresh_token,
                expires_at: after.expires_at,
                ..account
            }
        }),
{
}

/// A quota report is written into the account that was found, and changes nothing else of
/// it; where none was found the store stays as it is.
pub proof fn law_report_is_stored(
    before: Seq<AccountView>,
    found: Option<usize>,
    usage_data: Seq<char>,
    account: AccountView,
)
    requires
        found matches Some(i) ==> i < before.len(),
    ensures
        reported(account, usage_data).usage_data == Some(usage_data),
        reported(account, usage_data) == (AccountView {
            usage_data: reported(account, usage_data).usage_data,
            ..account
        }),
        found is None ==> store_with_report(before, found, usage_data) == before,
        found matches Some(i) ==> {
            let after = store_with_report(before, found, usage_data);
            &&& after.len() == before.len()
            &&& after[i as int].usage_data == Some(usage_data)
            &&& after[i as int] == AccountView {
                usage_data: after[i as int].usage_data,
                ..before[i as int]
            }
            &&& forall|j: int| 0 <= j < before.len() && j != i ==> #[trigger] after[j] == before[j]
        },
{
}

// ---------------------------------------------------------------------------
// The steps
// ---------------------------------------------------------------------------

/// A switch waits for nothing but the report on what it asked for, and takes every such
/// report; renewed tokens must expire at a date that can be held.
pub proof fn law_switch_takes_reports(state: SwitchState, event: SwitchEvent)
    ensures
        state is Selecting ==> (switch_expects(state, event) <==> event is Selected),
        state is Refreshing ==> (switch_expects(state, event) <==> event is Refreshed),
        state is Asking ==> (switch_expects(state, event) <==> event is Answered),
        state is Recording ==> (switch_expects(state, event) <==> event is Recorded),
        state is Ready || state is Failed ==> !switch_expects(state, event),
        state matches SwitchState::Renewing { account, tokens } ==> (switch_expects(state, event)
            <==> (event matches SwitchEvent::Stored { now } && -8334601228800 <= now.seconds
            && now.seconds <= 8210266876799 && now.nanos < 1_000_000_000 && -8334601228800
            <= now.seconds + tokens.expires_in && now.seconds + tokens.expires_in
            <= 8210266876799)),
{
}

/// `next` and `action` ask for the quota of an account with its own provider and access
/// token, or fail on the one that it lacks.
pub open spec fn asks_for_quota(
    account: AccountView,
    next: SwitchState,
    action: SwitchAction,
) -> bool {
    &&& account.provider is None ==> {
        &&& next is Failed
        &&& action matches SwitchAction::Fail { message } && message@ == "账号缺少 provider 字段"@
    }
    &&& account.provider is Some && account.access_token is None ==> {
        &&& next is Failed
        &&& action matches SwitchAction::Fail { message } && message@ == "账号缺少 access_token"@
    }
    &&& account.provider is Some && account.access_token is Some ==> {
        &&& next matches SwitchState::Asking { account: a } && a@ == account
        &&& action matches SwitchAction::Ask { provider, access_token } && Some(provider@)
            == account.provider && Some(access_token@) == account.access_token
    }
}

/// An account that is not there fails the switch, with its id in the message. One with a
/// refresh token is renewed first; the quota of any other is asked for at once.
pub proof fn law_step_selected(
    account_id: String,
    selected: Option<Account>,
    next: SwitchState,
    action: SwitchAction,
)
    requires
        switch_moves(
            SwitchState::Selecting { account_id },
            SwitchEvent::Selected { account: selected },
            next,
            action,
        ),
    ensures
        selected is None ==> {
            &&& next is Failed
            &&& action matches SwitchAction::Fail { message } && message@ == "账号不存在: "@
                + account_id@
        },
        selected matches Some(account) ==> {
            &&& account@.refresh_token is Some ==> {
                &&& next matches SwitchState::Refreshing { account: a } && a@ == account@
                &&& action matches SwitchAction::Refresh { account: a } && a@ == account@
            }
            &&& account@.refresh_token is None ==> asks_for_quota(account@, next, action)
        },
{
}

/// Renewed tokens are stored; where the renewal failed the switch goes on with the tokens
/// that the account has.
pub proof fn law_step_refreshed(
    account: Account,
    tokens: Option<RefreshedTokens>,
    next: SwitchState,
    action: SwitchAction,
)
    requires
        switch_moves(
            SwitchState::Refreshing { account },
            SwitchEvent::Refreshed { tokens },
            next,
            action,
        ),
    ensures
        tokens matches Some(fresh) ==> {
            &&& next matches SwitchState::Renewing { account: a, tokens: t } && a@ == account@ && t
                == fresh
            &&& action is StoreTokens
        },
        tokens is None ==> asks_for_quota(account@, next, action),
{
}

/// Once renewed tokens are stored, the quota is asked for with the new access token.
pub proof fn law_step_stored(
    account: Account,
    tokens: RefreshedTokens,
    now: Timestamp,
    next: SwitchState,
    action: SwitchAction,
)
    requires
        switch_moves(
            SwitchState::Renewing { account, tokens },
            SwitchEvent::Stored { now },
            next,
            action,
        ),
    ensures
        asks_for_quota(renewed(account@, tokens, now), next, action),
        account@.provider is Some ==> next is Asking && (action matches SwitchAction::Ask {
            provider,
            access_token,
        } && access_token@ == tokens.access_token@ && Some(provider@) == account@.provider),
{
}

/// A quota report is recorded as it came, with its standing; without one the account is
/// written as it is.
pub proof fn law_step_quota(
    account: Account,
    report: Option<QuotaReport>,
    next: SwitchState,
    action: SwitchAction,
)
    requires
        switch_moves(
            SwitchState::Asking { account },
            SwitchEvent::Answered { report },
            next,
            action,
        ),
    ensures
        report matches Some(quota) ==> {
            &&& next matches SwitchState::Recording { account: a, is_banned } && a@ == account@
                && is_banned == quota.standing.is_banned
            &&& action matches SwitchAction::Record { usage_data, standing } && usage_data@
                == quota.usage_data@ && standing.is_banned == quota.standing.is_banned
                && standing.is_auth_error == quota.standing.is_auth_error
        },
        report is None ==> {
            &&& next matches SwitchState::Ready { account: a } && a@ == account@
            &&& action is Write
        },
{
}

/// The switch is refused exactly for an account that is banned and still listed; any other
/// is written as it is.
pub proof fn law_step_recorded(
    account: Account,
    is_banned: bool,
    listed: bool,
    next: SwitchState,
    action: SwitchAction,
)
    requires
        switch_moves(
            SwitchState::Recording { account, is_banned },
            SwitchEvent::Recorded { listed },
            next,
            action,
        ),
    ensures
        is_banned && listed ==> {
            &&& next is Failed
            &&& action matches SwitchAction::Fail { message } && message@
                == "账号已被封禁，无法切换到 CLI"@
        },
        !is_banned || !listed ==> {
            &&& next matches SwitchState::Ready { account: a } && a@ == account@
            &&& action is Write
        },
{
}

} // verus!

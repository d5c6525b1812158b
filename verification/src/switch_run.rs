//! The course of a switch to a stored account, step by step.
//!
//! A switch starts in [`SwitchState::Selecting`]. In each state the caller performs the
//! action it was last asked for and reports the outcome as an event to
//! [`switch_step`], until the state is [`SwitchState::Ready`] or
//! [`SwitchState::Failed`].
use vstd::prelude::*;

use crate::account::{Account, AccountView};
use crate::clock::Timestamp;
use crate::import::Standing;
use crate::switch::{renew_account, renewed, RefreshedTokens};
use crate::text::joined;

verus! {

/// How far a switch has come.
#[derive(Debug, PartialEq, Eq)]
pub enum SwitchState {
    /// The account is to be looked up in the store.
    Selecting { account_id: String },
    /// The tokens of the account are to be renewed.
    Refreshing { account: Account },
    /// The tokens were renewed; they are to be written to the store and the clock is to be read.
    Renewing { account: Account, tokens: RefreshedTokens },
    /// The quota of the account is to be asked for.
    Asking { account: Account },
    /// The quota report is to be written to the store.
    Recording { account: Account, is_banned: bool },
    /// The account is to be written into the database of kiro-cli.
    Ready { account: Account },
    /// The switch has failed.
    Failed,
}

/// What a quota report says about an account that is switched to.
#[derive(Debug, PartialEq, Eq)]
pub struct QuotaReport {
    /// The report itself, as JSON text.
    pub usage_data: String,
    pub standing: Standing,
}

/// What the caller reports.
#[derive(Debug, PartialEq, Eq)]
pub enum SwitchEvent {
    /// The account was looked up.
    Selected { account: Option<Account> },
    /// The tokens were asked to be renewed; there are none when that failed.
    Refreshed { tokens: Option<RefreshedTokens> },
    /// The tokens are stored and the clock shows `now`.
    Stored { now: Timestamp },
    /// The quota was asked for; there is no report when that failed.
    Answered { report: Option<QuotaReport> },
    /// The report was written, if the account is still listed in the store.
    Recorded { listed: bool },
}

/// What the caller is asked to do.
#[derive(Debug, PartialEq, Eq)]
pub enum SwitchAction {
    /// Renew the tokens of the account.
    Refresh { account: Account },
    /// Write the renewed tokens to the store and read the clock.
    StoreTokens,
    /// Ask for the quota.
    Ask { provider: String, access_token: String },
    /// Write the quota report and the standing to the store.
    Record { usage_data: String, standing: Standing },
    /// Write the account into the database of kiro-cli.
    Write,
    /// Report the message.
    Fail { message: String },
}

/// The event is one that the state waits for. The expiry of renewed tokens is a date
/// that can be held.
pub open spec fn switch_expects(state: SwitchState, event: SwitchEvent) -> bool {
    match state {
        SwitchState::Selecting { .. } => event is Selected,
        SwitchState::Refreshing { .. } => event is Refreshed,
        SwitchState::Renewing { account, tokens } => event matches SwitchEvent::Stored { now }
            && now.wf() && now.reaches(tokens.expires_in as int),
        SwitchState::Asking { .. } => event is Answered,
        SwitchState::Recording { .. } => event is Recorded,
        SwitchState::Ready { .. } => false,
        SwitchState::Failed => false,
    }
}

/// The switch fails with the message.
pub open spec fn fails_with(reason: Seq<char>, next: SwitchState, action: SwitchAction) -> bool {
    &&& next is Failed
    &&& action matches SwitchAction::Fail { message } && message@ == reason
}

/// The quota of `account` is to be asked for. That takes a provider and an access token.
pub open spec fn goes_asking(
    account: AccountView,
    next: SwitchState,
    action: SwitchAction,
) -> bool {
    match (account.provider, account.access_token) {
        (None, _) => fails_with("账号缺少 provider 字段"@, next, action),
        (Some(_), None) => fails_with("账号缺少 access_token"@, next, action),
        (Some(name), Some(token)) => {
            &&& next matches SwitchState::Asking { account: a } && a@ == account
            &&& action matches SwitchAction::Ask { provider, access_token } && provider@ == name
                && access_token@ == token
        },
    }
}

/// `account` is to be written into the database of kiro-cli.
pub open spec fn goes_writing(
    account: AccountView,
    next: SwitchState,
    action: SwitchAction,
) -> bool {
    &&& next matches SwitchState::Ready { account: a } && a@ == account
    &&& action is Write
}

/// `state` goes over to `next` on `event`, and `action` is asked for.
pub open spec fn switch_moves(
    state: SwitchState,
    event: SwitchEvent,
    next: SwitchState,
    action: SwitchAction,
) -> bool {
    match (state, event) {
        (
            SwitchState::Selecting { account_id },
            SwitchEvent::Selected { account },
        ) => match account {
            Some(selected) => if selected.refresh_token is Some {
                &&& next matches SwitchState::Refreshing { account: a } && a@ == selected@
                &&& action matches SwitchAction::Refresh { account: a } && a@ == selected@
            } else {
                goes_asking(selected@, next, action)
            },
            None => fails_with("账号不存在: "@ + account_id@, next, action),
        },
        (SwitchState::Refreshing { account }, SwitchEvent::Refreshed { tokens }) => match tokens {
            Some(fresh) => {
                &&& next matches SwitchState::Renewing { account: a, tokens: t } && a@ == account@
                    && t == fresh
                &&& action is StoreTokens
            },
            None => goes_asking(account@, next, action),
        },
        (
            SwitchState::Renewing { account, tokens },
            SwitchEvent::Stored { now },
        ) => goes_asking(renewed(account@, tokens, now), next, action),
        (SwitchState::Asking { account }, SwitchEvent::Answered { report }) => match report {
            Some(quota) => {
                &&& next matches SwitchState::Recording { account: a, is_banned } && a@ == account@
                    && is_banned == quota.standing.is_banned
                &&& action matches SwitchAction::Record { usage_data, standing } && usage_data@
                    == quota.usage_data@ && standing == quota.standing
            },
            None => goes_writing(account@, next, action),
        },
        (
            SwitchState::Recording { account, is_banned },
            SwitchEvent::Recorded { listed },
        ) => if listed && is_banned {
            fails_with("账号已被封禁，无法切换到 CLI"@, next, action)
        } else {
            goes_writing(account@, next, action)
        },
        _ => false,
    }
}

/// Goes over to asking for the quota of an account.
fn go_asking(account: Account) -> (r: (SwitchState, SwitchAction))
    ensures
        goes_asking(account@, r.0, r.1),
{
    let provider: String = match &account.provider {
        Some(s) => s.clone(),
        None => {
            let message: String = "账号缺少 provider 字段".to_string();
            return (SwitchState::Failed, SwitchAction::Fail { message });
        },
    };
    let access_token: String = match &account.access_token {
        Some(s) => s.clone(),
        None => {
            let message: String = "账号缺少 access_token".to_string();
            return (SwitchState::Failed, SwitchAction::Fail { message });
        },
    };
    (SwitchState::Asking { account }, SwitchAction::Ask { provider, access_token })
}

/// Takes a switch one step further.
pub fn switch_step(state: SwitchState, event: SwitchEvent) -> (r: (SwitchState, SwitchAction))
    requires
        switch_expects(state, event),
    ensures
        switch_moves(state, event, r.0, r.1),
{
    match (state, event) {
        (
            SwitchState::Selecting { account_id },
            SwitchEvent::Selected { account },
        ) => match account {
            Some(selected) => {
                if selected.refresh_token.is_some() {
                    let copy: Account = selected.clone();
                    (
                        SwitchState::Refreshing { account: selected },
                        SwitchAction::Refresh { account: copy },
                    )
                } else {
                    go_asking(selected)
                }
            },
            None => {
                let message: String = joined("账号不存在: ", account_id.as_str());
                (SwitchState::Failed, SwitchAction::Fail { message })
            },
        },
        (SwitchState::Refreshing { account }, SwitchEvent::Refreshed { tokens }) => match tokens {
            Some(tokens) => (
                SwitchState::Renewing { account, tokens },
                SwitchAction::StoreTokens,
            ),
            None => go_asking(account),
        },
        (SwitchState::Renewing { account, tokens }, SwitchEvent::Stored { now }) => {
            go_asking(renew_account(account, tokens, now))
        },
        (SwitchState::Asking { account }, SwitchEvent::Answered { report }) => match report {
            Some(quota) => (
                SwitchState::Recording { account, is_banned: quota.standing.is_banned },
                SwitchAction::Record {
                    usage_data: quota.usage_data,
                    standing: quota.standing,
                },
            ),
            None => (SwitchState::Ready { account }, SwitchAction::Write),
        },
        (SwitchState::Recording { account, is_banned }, SwitchEvent::Recorded { listed }) => {
            if listed && is_banned {
                let message: String = "账号已被封禁，无法切换到 CLI".to_string();
                (SwitchState::Failed, SwitchAction::Fail { message })
            } else {
                (SwitchState::Ready { account }, SwitchAction::Write)
            }
        },
        _ => {
            let message: String = "unexpected event".to_string();
            (SwitchState::Failed, SwitchAction::Fail { message })
        },
    }
}

} // verus!

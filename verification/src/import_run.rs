//! The course of an import, step by step.
//!
//! An import starts in [`ImportState::Reading`]. In each state the caller performs the
//! action it was last asked for and reports the outcome as an event to
//! [`import_step`], until the state is [`ImportState::Storing`] or
//! [`ImportState::Failed`].
use vstd::prelude::*;

use crate::account::Account;
use crate::import::{
    account_seed, fill_account, filled, fresh_label, new_label, plan_import, plan_of, query_of,
    record_usage, seed_of, standing_of, usage_query, with_status, with_usage, AccountSeed,
    ImportPlan, PlanView, Standing, UsageOutcome, UsageQuery,
};
use crate::text::opt_text;
use crate::token::{
    parse_registration, read_cli_token, registration_name_of, registration_of_text, token_of_read,
    ClientRegistration, FileRead, Provider, RegistrationView,
};

verus! {

/// How far an import has come.
#[derive(Debug, PartialEq, Eq)]
pub enum ImportState {
    /// The token file is to be read.
    Reading,
    /// The file with the client registration is to be read.
    Registering { plan: ImportPlan },
    /// The account is to be looked for in the store.
    Searching { plan: ImportPlan, registration: ClientRegistration },
    /// The label of the account that was found is to be read.
    Naming { plan: ImportPlan, registration: ClientRegistration, index: usize },
    /// The account is to be started.
    Starting {
        plan: ImportPlan,
        registration: ClientRegistration,
        existing: Option<usize>,
        label: String,
    },
    /// The quota of the account is to be asked for.
    Asking { account: Account, provider: Provider, existing: Option<usize> },
    /// The status of the account is to be found out.
    Rating { account: Account, existing: Option<usize> },
    /// The account is to be stored: in the place of an existing one, or as a new one.
    Storing { account: Account, existing: Option<usize> },
    /// The import has failed.
    Failed,
}

/// What the caller reports.
#[derive(Debug, PartialEq, Eq)]
pub enum ImportEvent {
    /// The token file was read.
    TokenRead { read: FileRead },
    /// The file with the client registration was read; there is no content when that failed.
    RegistrationRead { content: Option<String> },
    /// The store was searched.
    Searched { existing: Option<usize> },
    /// The label was read.
    Named { label: String },
    /// The account was started.
    Started { account: Account },
    /// The quota was asked for.
    Answered { outcome: UsageOutcome },
    /// The status of the account was found out.
    Rated { status: String },
}

/// What the caller is asked to do.
#[derive(Debug, PartialEq, Eq)]
pub enum ImportAction {
    /// Read the named file of the token cache.
    ReadRegistration { name: String },
    /// Look for the account with this user id.
    Search { user_id: String },
    /// Read the label of the account at this position.
    ReadLabel { index: usize },
    /// Start an account.
    Start { seed: AccountSeed },
    /// Ask for a quota.
    Ask { query: UsageQuery },
    /// Find out the status that follows from the standing of the account.
    Rate { account: Account, standing: Standing },
    /// Store the account.
    Store,
    /// Report the message.
    Fail { message: String },
}

/// The outcome answers the question that is asked for an account of the provider:
/// several regions are looked into exactly for enterprise accounts.
pub open spec fn answers(provider: Provider, outcome: UsageOutcome) -> bool {
    match outcome {
        UsageOutcome::Failed => true,
        UsageOutcome::Reported { .. } => provider != Provider::Enterprise,
        UsageOutcome::Probed { .. } => provider == Provider::Enterprise,
    }
}

/// The event is one that the state waits for.
pub open spec fn import_expects(state: ImportState, event: ImportEvent) -> bool {
    match state {
        ImportState::Reading => event is TokenRead,
        ImportState::Registering { .. } => event is RegistrationRead,
        ImportState::Searching { .. } => event is Searched,
        ImportState::Naming { .. } => event is Named,
        ImportState::Starting { .. } => event is Started,
        ImportState::Asking { account, provider, existing } => event matches ImportEvent::Answered {
            outcome,
        } && answers(provider, outcome),
        ImportState::Rating { .. } => event is Rated,
        ImportState::Storing { .. } => false,
        ImportState::Failed => false,
    }
}

/// No client registration.
pub open spec fn no_registration() -> RegistrationView {
    RegistrationView { client_id: None, client_secret: None }
}

/// The store is to be searched for the account of `plan`.
pub open spec fn goes_searching(
    plan: PlanView,
    reg: RegistrationView,
    next: ImportState,
    action: ImportAction,
) -> bool {
    &&& next matches ImportState::Searching { plan: p, registration } && p@ == plan
        && registration@ == reg
    &&& action matches ImportAction::Search { user_id } && user_id@ == plan.user_id
}

/// An account with the label is to be started for `plan`.
pub open spec fn goes_starting(
    plan: PlanView,
    reg: RegistrationView,
    found: Option<usize>,
    label: Seq<char>,
    next: ImportState,
    action: ImportAction,
) -> bool {
    &&& next matches ImportState::Starting { plan: p, registration, existing, label: l } && p@
        == plan && registration@ == reg && existing == found && l@ == label
    &&& action matches ImportAction::Start { seed } && seed_of(plan, label, seed)
}

/// `state` goes over to `next` on `event`, and `action` is asked for.
pub open spec fn import_moves(
    state: ImportState,
    event: ImportEvent,
    next: ImportState,
    action: ImportAction,
) -> bool {
    match (state, event) {
        (ImportState::Reading, ImportEvent::TokenRead { read }) => match token_of_read(read) {
            Ok(token) => match registration_name_of(token) {
                Some(file) => {
                    &&& next matches ImportState::Registering { plan } && plan@ == plan_of(token)
                    &&& action matches ImportAction::ReadRegistration { name } && name@ == file
                },
                None => goes_searching(plan_of(token), no_registration(), next, action),
            },
            Err(reason) => {
                &&& next is Failed
                &&& action matches ImportAction::Fail { message } && message@ == reason
            },
        },
        (ImportState::Registering { plan }, ImportEvent::RegistrationRead { content }) => {
            goes_searching(plan@, registration_of_text(opt_text(content)), next, action)
        },
        (
            ImportState::Searching { plan, registration },
            ImportEvent::Searched { existing },
        ) => match existing {
            Some(found) => {
                &&& next matches ImportState::Naming { plan: p, registration: reg, index } && p@
                    == plan@ && reg@ == registration@ && index == found
                &&& action matches ImportAction::ReadLabel { index } && index == found
            },
            None => goes_starting(
                plan@,
                registration@,
                None,
                fresh_label(plan@.token.start_url),
                next,
                action,
            ),
        },
        (
            ImportState::Naming { plan, registration, index },
            ImportEvent::Named { label },
        ) => goes_starting(plan@, registration@, Some(index), label@, next, action),
        (
            ImportState::Starting { plan, registration, existing, label },
            ImportEvent::Started { account: base },
        ) => {
            &&& next matches ImportState::Asking { account, provider, existing: kept } && account@
                == filled(base@, label@, plan@, registration@) && provider == plan@.provider && kept
                == existing
            &&& action matches ImportAction::Ask { query } && query_of(
                filled(base@, label@, plan@, registration@),
                plan@.provider,
                query,
            )
        },
        (
            ImportState::Asking { account, provider, existing },
            ImportEvent::Answered { outcome },
        ) => match standing_of(outcome) {
            Some(given) => {
                &&& next matches ImportState::Rating { account: a, existing: kept } && a@
                    == with_usage(account@, outcome) && kept == existing
                &&& action matches ImportAction::Rate { account: a, standing } && a@
                    == with_usage(account@, outcome) && standing == given
            },
            None => {
                &&& next matches ImportState::Storing { account: a, existing: kept } && a@
                    == with_usage(account@, outcome) && kept == existing
                &&& action is Store
            },
        },
        (ImportState::Rating { account, existing }, ImportEvent::Rated { status }) => {
            &&& next matches ImportState::Storing { account: a, existing: kept } && a@
                == with_status(account@, status@) && kept == existing
            &&& action is Store
        },
        _ => false,
    }
}

/// Goes over to searching the store.
fn go_searching(plan: ImportPlan, registration: ClientRegistration) -> (r: (
    ImportState,
    ImportAction,
))
    ensures
        goes_searching(plan@, registration@, r.0, r.1),
{
    let user_id: String = plan.user_id.clone();
    (ImportState::Searching { plan, registration }, ImportAction::Search { user_id })
}

/// Goes over to starting an account with the label.
fn go_starting(
    plan: ImportPlan,
    registration: ClientRegistration,
    existing: Option<usize>,
    label: String,
) -> (r: (ImportState, ImportAction))
    ensures
        goes_starting(plan@, registration@, existing, label@, r.0, r.1),
{
    let seed: AccountSeed = account_seed(&plan, label.clone());
    (ImportState::Starting { plan, registration, existing, label }, ImportAction::Start { seed })
}

/// Takes an import one step further.
pub fn import_step(state: ImportState, event: ImportEvent) -> (r: (ImportState, ImportAction))
    requires
        import_expects(state, event),
    ensures
        import_moves(state, event, r.0, r.1),
{
    match (state, event) {
        (ImportState::Reading, ImportEvent::TokenRead { read }) => match read_cli_token(read) {
            Ok(token) => {
                let plan: ImportPlan = plan_import(token);
                let file: Option<String> = crate::account::same_text(&plan.registration);
                match file {
                    Some(name) => (
                        ImportState::Registering { plan },
                        ImportAction::ReadRegistration { name },
                    ),
                    None => go_searching(
                        plan,
                        ClientRegistration { client_id: None, client_secret: None },
                    ),
                }
            },
            Err(message) => (ImportState::Failed, ImportAction::Fail { message }),
        },
        (ImportState::Registering { plan }, ImportEvent::RegistrationRead { content }) => {
            let registration: ClientRegistration = parse_registration(content.as_ref());
            go_searching(plan, registration)
        },
        (
            ImportState::Searching { plan, registration },
            ImportEvent::Searched { existing },
        ) => match existing {
            Some(index) => (
                ImportState::Naming { plan, registration, index },
                ImportAction::ReadLabel { index },
            ),
            None => {
                let label: String = new_label(&plan);
                go_starting(plan, registration, None, label)
            },
        },
        (
            ImportState::Naming { plan, registration, index },
            ImportEvent::Named { label },
        ) => go_starting(plan, registration, Some(index), label),
        (
            ImportState::Starting { plan, registration, existing, label },
            ImportEvent::Started { account: base },
        ) => {
            let account: Account = fill_account(base, label, &plan, registration);
            let provider: Provider = plan.provider;
            let query: UsageQuery = usage_query(&account, provider);
            (ImportState::Asking { account, provider, existing }, ImportAction::Ask { query })
        },
        (
            ImportState::Asking { account, provider: _, existing },
            ImportEvent::Answered { outcome },
        ) => {
            let mut account: Account = account;
            match record_usage(&mut account, outcome) {
                Some(standing) => {
                    let copy: Account = account.clone();
                    (
                        ImportState::Rating { account, existing },
                        ImportAction::Rate { account: copy, standing },
                    )
                },
                None => (ImportState::Storing { account, existing }, ImportAction::Store),
            }
        },
        (ImportState::Rating { account, existing }, ImportEvent::Rated { status }) => {
            let mut account: Account = account;
            account.status = status;
            (ImportState::Storing { account, existing }, ImportAction::Store)
        },
        _ => {
            let message: String = "unexpected event".to_string();
            (ImportState::Failed, ImportAction::Fail { message })
        },
    }
}

} // verus!

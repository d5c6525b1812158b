//! What holds of imports and switches as a whole.
use vstd::prelude::*;

use crate::account::{
    account_with_id, existing_account, identified_by, Account, AccountView,
};
use crate::clock::Timestamp;
use crate::import::{
    filled, fresh_label, import_stored, kept_label_of, named_region, named_user_id, plan_of, seed_of,
    with_status, with_usage, KiroCliImportResult, UsageOutcome,
};
use crate::import_run::{
    import_expects, import_moves, no_registration, ImportAction, ImportEvent, ImportState,
};
use crate::json::{json_parse, text_member_of, JsonMember};
use crate::paths::{database_places, expanded, first_existing, Platform};
use crate::switch::{
    login_of, payload_answer, payload_for, renewed, scopes, store_with_report, text_or,
    KiroCliSwitchPayload, Login, PayloadView, RefreshedTokens, TOKEN_LIFETIME,
};
use crate::switch_run::{switch_moves, QuotaReport, SwitchAction, SwitchEvent, SwitchState};
use crate::text::opt_text;
use crate::token::{
    opt_lowercase, registration_name_of, registration_of_text, token_of_read, token_provider,
    token_user_id, FileRead, Provider, RegistrationView, TokenView,
};

verus! {

// ---------------------------------------------------------------------------
// Imports
// ---------------------------------------------------------------------------

/// How many steps an import still takes at most.
pub open spec fn import_rank(state: ImportState) -> nat {
    match state {
        ImportState::Reading => 7,
        ImportState::Registering { .. } => 6,
        ImportState::Searching { .. } => 5,
        ImportState::Naming { .. } => 4,
        ImportState::Starting { .. } => 3,
        ImportState::Asking { .. } => 2,
        ImportState::Rating { .. } => 1,
        ImportState::Storing { .. } => 0,
        ImportState::Failed => 0,
    }
}

/// The account whose place an import is to take, as far as the state knows of one.
pub open spec fn import_target(state: ImportState) -> Option<usize> {
    match state {
        ImportState::Naming { index, .. } => Some(index),
        ImportState::Starting { existing, .. } => existing,
        ImportState::Asking { existing, .. } => existing,
        ImportState::Rating { existing, .. } => existing,
        ImportState::Storing { existing, .. } => existing,
        _ => None,
    }
}

/// Every step takes an import nearer to its end, so an import ends.
pub proof fn law_import_ends(
    state: ImportState,
    event: ImportEvent,
    next: ImportState,
    action: ImportAction,
)
    requires
        import_moves(state, event, next, action),
    ensures
        import_rank(next) < import_rank(state),
{
}

/// An import fails only on account of the token file: once a token is read, no
/// client registration, no quota and no failure to get either stops it.
pub proof fn law_import_fails_only_on_token(
    state: ImportState,
    event: ImportEvent,
    next: ImportState,
    action: ImportAction,
)
    requires
        import_moves(state, event, next, action),
    ensures
        next is Failed <==> (event matches ImportEvent::TokenRead { read } && token_of_read(
            read,
        ) is Err),
        next is Failed <==> action is Fail,
{
}

/// After the store was searched, an import keeps to the account that was found.
pub proof fn law_import_keeps_target(
    state: ImportState,
    event: ImportEvent,
    next: ImportState,
    action: ImportAction,
)
    requires
        import_moves(state, event, next, action),
    ensures
        event matches ImportEvent::Searched { existing } ==> import_target(next) == existing,
        import_rank(state) < 5 ==> import_target(next) == import_target(state),
{
}

/// The client registration that an import comes to: that of the file where one is to
/// be read, and none otherwise.
pub open spec fn registration_for(token: TokenView, content: Option<Seq<char>>) -> RegistrationView {
    match registration_name_of(token) {
        Some(_) => registration_of_text(content),
        None => no_registration(),
    }
}

/// What an import meets with on its way.
pub struct ImportCourse {
    /// The token that was read.
    pub token: TokenView,
    /// What the file with the client registration holds.
    pub content: Option<Seq<char>>,
    /// Where the account was found in the store.
    pub existing: Option<usize>,
    /// The account as it was started.
    pub base: AccountView,
    /// The outcome of asking for the quota.
    pub outcome: UsageOutcome,
    /// The status that was found out for a quota report.
    pub status: Seq<char>,
}

impl ImportCourse {
    /// The label of the account: that of the account that was found, or a new one.
    pub open spec fn label(self, accounts: Seq<AccountView>) -> Seq<char> {
        match self.existing {
            Some(i) => kept_label_of(accounts, i as int),
            None => fresh_label(self.token.start_url),
        }
    }

    /// The account that the import comes to.
    pub open spec fn account(self, accounts: Seq<AccountView>) -> AccountView {
        imported(
            self.base,
            self.label(accounts),
            self.token,
            self.content,
            self.outcome,
            self.status,
        )
    }

    /// The import turns the store `before`, which nobody else changes, into `after`.
    pub open spec fn leads(
        self,
        before: Seq<AccountView>,
        machine: spec_fn(Seq<char>) -> bool,
        after: Seq<AccountView>,
        result: KiroCliImportResult,
    ) -> bool {
        &&& existing_account(before, Some(token_user_id(self.token)), self.existing)
        &&& import_stored(before, self.existing, self.account(before), machine, after, result)
    }
}

/// `account` after a quota was asked for and, where there is a report, the status was
/// found out.
pub open spec fn settled(
    account: AccountView,
    outcome: UsageOutcome,
    status: Seq<char>,
) -> AccountView {
    if outcome is Failed {
        with_usage(account, outcome)
    } else {
        with_status(with_usage(account, outcome), status)
    }
}

/// The account that an import comes to.
pub open spec fn imported(
    base: AccountView,
    label: Seq<char>,
    token: TokenView,
    content: Option<Seq<char>>,
    outcome: UsageOutcome,
    status: Seq<char>,
) -> AccountView {
    settled(
        filled(base, label, plan_of(token), registration_for(token, content)),
        outcome,
        status,
    )
}

/// From the token to the search: a run that reads the token file, and the client
/// registration where there is to be one, comes to search for the user id of the token.
pub proof fn law_import_searches_for_token(
    read: FileRead,
    content: Option<String>,
    s1: ImportState,
    a1: ImportAction,
    s2: ImportState,
    a2: ImportAction,
)
    requires
        token_of_read(read) is Ok,
        import_moves(ImportState::Reading, ImportEvent::TokenRead { read }, s1, a1),
        if s1 is Registering {
            import_moves(s1, ImportEvent::RegistrationRead { content }, s2, a2)
        } else {
            s2 == s1 && a2 == a1
        },
    ensures
        s1 is Registering <==> registration_name_of(token_of_read(read)->Ok_0) is Some,
        s2 matches ImportState::Searching { plan, registration } && plan@ == plan_of(
            token_of_read(read)->Ok_0,
        ) && registration@ == registration_for(token_of_read(read)->Ok_0, opt_text(content)),
        a2 matches ImportAction::Search { user_id } && user_id@ == token_user_id(
            token_of_read(read)->Ok_0,
        ),
{
}

/// From the search to the store: whatever the search finds and the quota says, the
/// run comes to an account that is made of the started account, the label, the plan, the
/// client registration, the outcome of the quota and the status, and it goes into the
/// place that was found.
pub proof fn law_import_fills_account(
    s2: ImportState,
    existing: Option<usize>,
    s3: ImportState,
    a3: ImportAction,
    label: String,
    s4: ImportState,
    a4: ImportAction,
    base: Account,
    s5: ImportState,
    a5: ImportAction,
    outcome: UsageOutcome,
    s6: ImportState,
    a6: ImportAction,
    status: String,
    s7: ImportState,
    a7: ImportAction,
)
    requires
        s2 is Searching,
        import_moves(s2, ImportEvent::Searched { existing }, s3, a3),
        if existing is Some {
            import_moves(s3, ImportEvent::Named { label }, s4, a4)
        } else {
            s4 == s3 && a4 == a3
        },
        import_moves(s4, ImportEvent::Started { account: base }, s5, a5),
        import_moves(s5, ImportEvent::Answered { outcome }, s6, a6),
        if s6 is Rating {
            import_moves(s6, ImportEvent::Rated { status }, s7, a7)
        } else {
            s7 == s6 && a7 == a6
        },
    ensures
        ({
            let plan = s2->Searching_plan@;
            let registration = s2->Searching_registration@;
            let shown = if existing is Some {
                label@
            } else {
                fresh_label(plan.token.start_url)
            };
            &&& a4 matches ImportAction::Start { seed } && seed_of(plan, shown, seed)
            &&& s7 matches ImportState::Storing { account, existing: place } && account@ == settled(
                filled(base@, shown, plan, registration),
                outcome,
                status@,
            ) && place == existing
        }),
{
}

/// A run from the token file to the store, whose search and label are taken from
/// `accounts`, comes to the account of its course.
pub proof fn law_import_follows_course(
    accounts: Seq<AccountView>,
    read: FileRead,
    s1: ImportState,
    a1: ImportAction,
    content: Option<String>,
    s2: ImportState,
    a2: ImportAction,
    existing: Option<usize>,
    s3: ImportState,
    a3: ImportAction,
    label: String,
    s4: ImportState,
    a4: ImportAction,
    base: Account,
    s5: ImportState,
    a5: ImportAction,
    outcome: UsageOutcome,
    s6: ImportState,
    a6: ImportAction,
    status: String,
    s7: ImportState,
    a7: ImportAction,
)
    requires
        token_of_read(read) is Ok,
        import_moves(ImportState::Reading, ImportEvent::TokenRead { read }, s1, a1),
        if s1 is Registering {
            import_moves(s1, ImportEvent::RegistrationRead { content }, s2, a2)
        } else {
            s2 == s1 && a2 == a1
        },
        import_moves(s2, ImportEvent::Searched { existing }, s3, a3),
        if existing is Some {
            import_moves(s3, ImportEvent::Named { label }, s4, a4)
        } else {
            s4 == s3 && a4 == a3
        },
        existing matches Some(i) ==> label@ == kept_label_of(accounts, i as int),
        import_moves(s4, ImportEvent::Started { account: base }, s5, a5),
        import_moves(s5, ImportEvent::Answered { outcome }, s6, a6),
        if s6 is Rating {
            import_moves(s6, ImportEvent::Rated { status }, s7, a7)
        } else {
            s7 == s6 && a7 == a6
        },
    ensures
        ({
            let course = ImportCourse {
                token: token_of_read(read)->Ok_0,
                content: opt_text(content),
                existing,
                base: base@,
                outcome,
                status: status@,
            };
            s7 matches ImportState::Storing { account, existing: place } && account@
                == course.account(accounts) && place == existing
        }),
{
    law_import_searches_for_token(read, content, s1, a1, s2, a2);
    law_import_fills_account(
        s2, existing, s3, a3, label, s4, a4, base, s5, a5, outcome, s6, a6, status, s7, a7,
    );
}

/// The user id of the token identifies the imported account, also after a quota
/// report, unless the report names another user id and the token has no client id hash.
pub proof fn law_imported_is_identified(
    base: AccountView,
    label: Seq<char>,
    token: TokenView,
    content: Option<Seq<char>>,
    outcome: UsageOutcome,
    status: Seq<char>,
)
    requires
        token.client_id_hash is None ==> (named_user_id(outcome) matches Some(uid) ==> uid
            == token_user_id(token)),
    ensures
        identified_by(
            imported(base, label, token, content, outcome, status),
            token_user_id(token),
        ),
{
}

/// Importing again is recognised: when an account was stored where the search by `uid`
/// pointed to, and `uid` identifies it, the next search by `uid` finds that account.
pub proof fn law_reimport_finds_account(
    before: Seq<AccountView>,
    uid: Seq<char>,
    existing: Option<usize>,
    account: AccountView,
    machine: spec_fn(Seq<char>) -> bool,
    after: Seq<AccountView>,
    result: KiroCliImportResult,
    found: Option<usize>,
)
    requires
        existing_account(before, Some(uid), existing),
        identified_by(account, uid),
        import_stored(before, existing, account, machine, after, result),
        existing_account(after, Some(uid), found),
    ensures
        found is Some,
        found->0 == match existing {
            Some(i) => i as int,
            None => before.len() as int,
        },
        result.account matches Some(saved) && after[found->0 as int] == saved@,
{
    let saved = result.account->0@;
    let place: int = match existing {
        Some(i) => i as int,
        None => before.len() as int,
    };
    let hit = |a: AccountView| identified_by(a, uid);
    assert(after[place] == saved);
    assert(hit(after[place]));
    assert forall|j: int| 0 <= j < place implies !hit(#[trigger] after[j]) by {
        assert(after[j] == before[j]);
    }
    if found is Some && found->0 < place {
        assert(hit(after[found->0 as int]));
    }
}

/// Importing twice makes one account: the second import of a token is not new, it
/// keeps the id, the machine id and the label that the first one stored, and the store
/// does not grow. Left out is a token without a client id hash for which the first quota
/// report names another user id.
pub proof fn law_importing_twice_makes_one_account(
    first: ImportCourse,
    second: ImportCourse,
    before: Seq<AccountView>,
    machine: spec_fn(Seq<char>) -> bool,
    between: Seq<AccountView>,
    r1: KiroCliImportResult,
    after: Seq<AccountView>,
    r2: KiroCliImportResult,
)
    requires
        first.token == second.token,
        first.token.client_id_hash is None ==> (named_user_id(first.outcome) matches Some(uid)
            ==> uid == token_user_id(first.token)),
        first.leads(before, machine, between, r1),
        second.leads(between, machine, after, r2),
    ensures
        !r2.is_new,
        r1.account is Some,
        r2.account is Some,
        r2.account->0@.id == r1.account->0@.id,
        r2.account->0@.machine_id == r1.account->0@.machine_id,
        r2.account->0@.label == r1.account->0@.label,
        after.len() == between.len(),
        second.existing is Some,
        between[second.existing->0 as int] == r1.account->0@,
        after[second.existing->0 as int] == r2.account->0@,
{
    let uid = token_user_id(first.token);
    law_imported_is_identified(
        first.base,
        first.label(before),
        first.token,
        first.content,
        first.outcome,
        first.status,
    );
    law_reimport_finds_account(
        before,
        uid,
        first.existing,
        first.account(before),
        machine,
        between,
        r1,
        second.existing,
    );
}

/// Storing an import touches no other account, and the store grows exactly when the
/// account is new.
pub proof fn law_import_keeps_others(
    before: Seq<AccountView>,
    existing: Option<usize>,
    account: AccountView,
    machine: spec_fn(Seq<char>) -> bool,
    after: Seq<AccountView>,
    result: KiroCliImportResult,
)
    requires
        existing matches Some(i) ==> i < before.len(),
        import_stored(before, existing, account, machine, after, result),
    ensures
        after.len() == before.len() + if result.is_new {
            1int
        } else {
            0int
        },
        forall|j: int|
            0 <= j < before.len() && existing != Some(j as usize) ==> #[trigger] after[j]
                == before[j],
{
    assert forall|j: int|
        0 <= j < before.len() && existing != Some(j as usize) implies #[trigger] after[j]
        == before[j] by {
        if existing is Some {
            assert(existing->0 as int != j);
        }
    }
}

/// An account that is imported again keeps its id and its machine id; a new account
/// keeps its id and has a machine id in the end. Nothing else of the account changes
/// when it is stored.
pub proof fn law_import_keeps_machine(
    before: Seq<AccountView>,
    existing: Option<usize>,
    account: AccountView,
    machine: spec_fn(Seq<char>) -> bool,
    after: Seq<AccountView>,
    result: KiroCliImportResult,
)
    requires
        existing matches Some(i) ==> i < before.len(),
        import_stored(before, existing, account, machine, after, result),
    ensures
        result.account matches Some(saved) && {
            &&& match existing {
                Some(i) => saved@.id == before[i as int].id && saved@.machine_id
                    == before[i as int].machine_id,
                None => saved@.id == account.id && saved@.machine_id is Some,
            }
            &&& saved@ == AccountView {
                id: saved@.id,
                machine_id: saved@.machine_id,
                ..account
            }
        },
{
}

/// The service is called in the region of the token until looking into several regions
/// finds another; the region for refreshing tokens is always that of the token.
pub proof fn law_imported_region(
    base: AccountView,
    label: Seq<char>,
    token: TokenView,
    content: Option<Seq<char>>,
    outcome: UsageOutcome,
    status: Seq<char>,
)
    ensures
        ({
            let account = imported(base, label, token, content, outcome, status);
            &&& account.oidc_region == Some(token.region)
            &&& account.region == match named_region(outcome) {
                Some(region) => Some(region),
                None => Some(token.region),
            }
        }),
{
}

/// Only an enterprise account is ever given another region than that of its token.
pub proof fn law_only_enterprise_changes_region(
    account: Account,
    provider: Provider,
    existing: Option<usize>,
    outcome: UsageOutcome,
)
    requires
        import_expects(
            ImportState::Asking { account, provider, existing },
            ImportEvent::Answered { outcome },
        ),
        provider != Provider::Enterprise,
    ensures
        with_usage(account@, outcome).region == account@.region,
{
}

/// Whether letters are upper or lower case in the start URL and the profile ARN makes
/// no difference to the provider.
pub proof fn law_provider_ignores_case(a: TokenView, b: TokenView)
    requires
        a.auth_method == b.auth_method,
        opt_lowercase(a.start_url) == opt_lowercase(b.start_url),
        opt_lowercase(a.profile_arn) == opt_lowercase(b.profile_arn),
    ensures
        token_provider(a) == token_provider(b),
{
}

/// The kind of login decides between two pairs of providers.
pub proof fn law_provider_follows_login(token: TokenView)
    ensures
        token.is_idc() <==> (token_provider(token) == Provider::Enterprise || token_provider(token)
            == Provider::BuilderId),
        token_provider(token) == Provider::Enterprise ==> token.start_url is Some,
        token_provider(token) == Provider::Github ==> token.profile_arn is Some,
{
}

/// The names of the providers differ.
proof fn lemma_provider_names()
    ensures
        "Enterprise"@ != "BuilderId"@,
        "Enterprise"@ != "Google"@,
        "Enterprise"@ != "Github"@,
        "BuilderId"@ != "Google"@,
        "BuilderId"@ != "Github"@,
{
    reveal_strlit("Enterprise");
    reveal_strlit("BuilderId");
    reveal_strlit("Google");
    reveal_strlit("Github");
    assert("Enterprise"@.len() == 10);
    assert("BuilderId"@.len() == 9);
    assert("Google"@.len() == 6);
    assert("Github"@.len() == 6);
}

/// kiro-cli can be switched to every imported account but those of an enterprise, and
/// it logs in with it the way the token was obtained.
pub proof fn law_imported_is_switchable(
    base: AccountView,
    label: Seq<char>,
    token: TokenView,
    content: Option<Seq<char>>,
    outcome: UsageOutcome,
    status: Seq<char>,
)
    ensures
        ({
            let login = login_of(imported(base, label, token, content, outcome, status));
            match token_provider(token) {
                Provider::Enterprise => login matches Err(message) && message
                    == "不支持的 provider: "@ + "Enterprise"@,
                _ => login matches Ok(kind) && kind == if token.is_idc() {
                    Login::IdC
                } else {
                    Login::Social
                },
            }
        }),
{
    lemma_provider_names();
}

// ---------------------------------------------------------------------------
// Switches
// ---------------------------------------------------------------------------

/// How many steps a switch still takes at most.
pub open spec fn switch_rank(state: SwitchState) -> nat {
    match state {
        SwitchState::Selecting { .. } => 5,
        SwitchState::Refreshing { .. } => 4,
        SwitchState::Renewing { .. } => 3,
        SwitchState::Asking { .. } => 2,
        SwitchState::Recording { .. } => 1,
        SwitchState::Ready { .. } => 0,
        SwitchState::Failed => 0,
    }
}

/// The account that is switched to, as far as the state knows it.
pub open spec fn switch_account(state: SwitchState) -> Option<AccountView> {
    match state {
        SwitchState::Refreshing { account } => Some(account@),
        SwitchState::Renewing { account, .. } => Some(account@),
        SwitchState::Asking { account } => Some(account@),
        SwitchState::Recording { account, .. } => Some(account@),
        SwitchState::Ready { account } => Some(account@),
        _ => None,
    }
}

/// From the question for the quota on, the account has a provider and an access token.
pub open spec fn switch_inv(state: SwitchState) -> bool {
    switch_rank(state) <= 2 ==> (switch_account(state) matches Some(account)
        ==> account.provider is Some && account.access_token is Some)
}

/// Every step takes a switch nearer to its end, so a switch ends.
pub proof fn law_switch_ends(
    state: SwitchState,
    event: SwitchEvent,
    next: SwitchState,
    action: SwitchAction,
)
    requires
        switch_moves(state, event, next, action),
    ensures
        switch_rank(next) < switch_rank(state),
{
}

/// A switch starts with the invariant.
pub proof fn law_switch_starts_with_invariant(account_id: String)
    ensures
        switch_inv(SwitchState::Selecting { account_id }),
{
}

/// Every step keeps the invariant: only an account with a provider and an access token
/// is ever written into the database of kiro-cli.
pub proof fn law_switch_keeps_invariant(
    state: SwitchState,
    event: SwitchEvent,
    next: SwitchState,
    action: SwitchAction,
)
    requires
        switch_inv(state),
        switch_moves(state, event, next, action),
    ensures
        switch_inv(next),
{
}

/// A banned account that the store lists is refused, and its database entry is not
/// written; every other answer about the quota lets the switch go on.
pub proof fn law_banned_is_refused(
    state: SwitchState,
    event: SwitchEvent,
    next: SwitchState,
    action: SwitchAction,
)
    requires
        state is Asking || state is Recording,
        switch_moves(state, event, next, action),
    ensures
        next is Failed <==> (state matches SwitchState::Recording { is_banned, .. } && is_banned
            && (event matches SwitchEvent::Recorded { listed } && listed)),
        next is Failed ==> (action matches SwitchAction::Fail { message } && message@
            == "账号已被封禁，无法切换到 CLI"@),
        next !is Failed ==> switch_account(next) == switch_account(state),
{
}

/// A switch alters nothing of the account but its tokens and their expiry, and these
/// only when they were renewed.
pub proof fn law_switch_alters_only_tokens(
    state: SwitchState,
    event: SwitchEvent,
    next: SwitchState,
    action: SwitchAction,
)
    requires
        switch_account(state) is Some,
        switch_moves(state, event, next, action),
        next !is Failed,
    ensures
        switch_account(next) matches Some(after) && {
            let before = switch_account(state)->0;
            &&& after == AccountView {
                access_token: after.access_token,
                refresh_token: after.refresh_token,
                expires_at: after.expires_at,
                ..before
            }
            &&& state !is Renewing ==> after == before
        },
{
}

/// A failed renewal does not stop a switch: it goes on as for an account whose tokens
/// are not to be renewed.
pub proof fn law_failed_renewal_goes_on(
    account: Account,
    next: SwitchState,
    action: SwitchAction,
)
    requires
        switch_moves(
            SwitchState::Refreshing { account },
            SwitchEvent::Refreshed { tokens: None },
            next,
            action,
        ),
        account@.provider is Some,
        account@.access_token is Some,
    ensures
        next matches SwitchState::Asking { account: a } && a@ == account@,
        action matches SwitchAction::Ask { provider, access_token } && Some(provider@)
            == account@.provider && Some(access_token@) == account@.access_token,
{
}

/// A quota report is written into the account with the id and into no other.
pub proof fn law_report_keeps_others(
    before: Seq<AccountView>,
    id: Seq<char>,
    found: Option<usize>,
    usage_data: Seq<char>,
)
    requires
        account_with_id(before, id, found),
    ensures
        store_with_report(before, found, usage_data).len() == before.len(),
        forall|j: int|
            0 <= j < before.len() && found != Some(j as usize) ==> #[trigger] store_with_report(
                before,
                found,
                usage_data,
            )[j] == before[j],
        forall|j: int|
            0 <= j < before.len() ==> #[trigger] store_with_report(before, found, usage_data)[j].id
                == before[j].id,
{
    assert forall|j: int|
        0 <= j < before.len() && found != Some(j as usize) implies #[trigger] store_with_report(
        before,
        found,
        usage_data,
    )[j] == before[j] by {
        if found is Some {
            assert(found->0 as int != j);
        }
    }
}

/// The keys of the written documents differ.
pub(crate) proof fn lemma_payload_keys()
    ensures
        "access_token"@.len() == 12,
        "refresh_token"@.len() == 13,
        "region"@.len() == 6,
        "expires_at"@.len() == 10,
        "scopes"@.len() == 6,
        "oauth_flow"@.len() == 10,
        "profile_arn"@.len() == 11,
        "start_url"@.len() == 9,
        "client_id"@.len() == 9,
        "client_secret"@.len() == 13,
        "region"@[0] != "scopes"@[0],
        "expires_at"@[0] != "oauth_flow"@[0],
{
    reveal_strlit("access_token");
    reveal_strlit("refresh_token");
    reveal_strlit("region");
    reveal_strlit("expires_at");
    reveal_strlit("scopes");
    reveal_strlit("oauth_flow");
    reveal_strlit("profile_arn");
    reveal_strlit("start_url");
    reveal_strlit("client_id");
    reveal_strlit("client_secret");
}

/// What is written reads back: the token document holds the tokens of the account as
/// they are, the region and the profile with their defaults and the new expiry; the
/// scopes stand in it exactly for the identity center and the start URL exactly for
/// social accounts.
pub proof fn law_payload_reads_back(
    account: AccountView,
    login: Login,
    now: Timestamp,
    payload: PayloadView,
)
    requires
        payload_for(account, login, now, payload),
    ensures
        json_parse(payload.token_value) matches Ok(token) && {
            &&& text_member_of(token, "access_token"@) == account.access_token
            &&& text_member_of(token, "refresh_token"@) == account.refresh_token
            &&& text_member_of(token, "region"@) == Some(text_or(account.region, "us-east-1"@))
            &&& text_member_of(token, "expires_at"@) == Some(now.text_after(3600))
            &&& text_member_of(token, "profile_arn"@) == Some(
                text_or(account.profile_arn, login.default_profile()),
            )
            &&& token.contains_key("scopes"@) <==> login == Login::IdC
            &&& login == Login::IdC ==> token["scopes"@] == JsonMember::Texts(scopes())
            &&& token.contains_key("oauth_flow"@) <==> login == Login::IdC
            &&& token.contains_key("start_url"@) <==> login == Login::Social
        },
        json_parse(payload.device_reg_value) matches Ok(device) && {
            &&& text_member_of(device, "client_id"@) == Some(
                text_or(account.client_id, Seq::empty()),
            )
            &&& text_member_of(device, "client_secret"@) == Some(
                text_or(account.client_secret, Seq::empty()),
            )
            &&& text_member_of(device, "region"@) == Some(text_or(account.region, "us-east-1"@))
        },
{
    lemma_payload_keys();
}

/// A payload is owed exactly for the providers that kiro-cli can log in with: whatever
/// else an account lacks makes no error.
pub proof fn law_payload_is_owed(
    account: AccountView,
    now: Timestamp,
    r: Option<Result<KiroCliSwitchPayload, String>>,
)
    requires
        now.reaches(TOKEN_LIFETIME as int),
        payload_answer(account, now, r),
    ensures
        r is Some,
        r->0 is Ok <==> (account.provider matches Some(p) && (p == "BuilderId"@ || p == "Google"@
            || p == "Github"@)),
{
}

/// An account that reaches the end of a switch is written with an access token, never
/// with null.
pub proof fn law_ready_account_has_token(
    state: SwitchState,
    login: Login,
    now: Timestamp,
    payload: PayloadView,
)
    requires
        state is Ready,
        switch_inv(state),
        payload_for(state->Ready_account@, login, now, payload),
    ensures
        json_parse(payload.token_value) matches Ok(token) && text_member_of(
            token,
            "access_token"@,
        ) is Some,
{
    law_payload_reads_back(state->Ready_account@, login, now, payload);
}

/// After a renewal it is the renewed tokens that are written.
pub proof fn law_renewed_tokens_are_written(
    account: AccountView,
    tokens: RefreshedTokens,
    renewed_at: Timestamp,
    login: Login,
    now: Timestamp,
    payload: PayloadView,
)
    requires
        payload_for(renewed(account, tokens, renewed_at), login, now, payload),
    ensures
        json_parse(payload.token_value) matches Ok(token) && {
            &&& text_member_of(token, "access_token"@) == Some(tokens.access_token@)
            &&& text_member_of(token, "refresh_token"@) == opt_text(tokens.refresh_token)
        },
{
    law_payload_reads_back(renewed(account, tokens, renewed_at), login, now, payload);
}

/// The expiry that is written is always a new one: that of the account has no part in
/// the payload.
pub proof fn law_written_expiry_is_new(
    account: AccountView,
    expires_at: Option<Seq<char>>,
    login: Login,
    now: Timestamp,
    payload: PayloadView,
)
    requires
        payload_for(account, login, now, payload),
    ensures
        payload_for(AccountView { expires_at, ..account }, login, now, payload),
{
}

/// What a switch meets with on its way.
pub struct SwitchCourse {
    /// The account that was looked up.
    pub selected: Option<AccountView>,
    /// The renewed tokens, for an account that has a refresh token.
    pub tokens: Option<RefreshedTokens>,
    /// The time that the clock showed after the renewal.
    pub renewed_at: Timestamp,
    /// The quota report.
    pub report: Option<QuotaReport>,
    /// The store still lists the account when the report is written.
    pub listed: bool,
}

impl SwitchCourse {
    /// The account that a switch to `account` is about to write: with renewed tokens
    /// where it has a refresh token and the renewal succeeded, as it is otherwise.
    pub open spec fn current(self, account: AccountView) -> AccountView {
        match self.tokens {
            Some(tokens) => if account.refresh_token is Some {
                renewed(account, tokens, self.renewed_at)
            } else {
                account
            },
            None => account,
        }
    }

    /// The quota report says that the account is banned, and the store lists it.
    pub open spec fn is_banned(self) -> bool {
        self.listed && (self.report matches Some(report) && report.standing.is_banned)
    }

    /// The account that the switch writes, or the message that it fails with.
    pub open spec fn outcome(self, account_id: Seq<char>) -> Result<AccountView, Seq<char>> {
        match self.selected {
            None => Err("账号不存在: "@ + account_id),
            Some(account) => {
                let current = self.current(account);
                if current.provider is None {
                    Err("账号缺少 provider 字段"@)
                } else if current.access_token is None {
                    Err("账号缺少 access_token"@)
                } else if self.is_banned() {
                    Err("账号已被封禁，无法切换到 CLI"@)
                } else {
                    Ok(current)
                }
            },
        }
    }
}

/// A whole switch comes to the outcome of its course: it fails with the message, or the
/// account is the one to be written.
pub proof fn law_switch_follows_course(
    account_id: String,
    account: Option<Account>,
    s1: SwitchState,
    a1: SwitchAction,
    tokens: Option<RefreshedTokens>,
    s2: SwitchState,
    a2: SwitchAction,
    now: Timestamp,
    s3: SwitchState,
    a3: SwitchAction,
    report: Option<QuotaReport>,
    s4: SwitchState,
    a4: SwitchAction,
    listed: bool,
    s5: SwitchState,
    a5: SwitchAction,
)
    requires
        switch_moves(
            SwitchState::Selecting { account_id },
            SwitchEvent::Selected { account },
            s1,
            a1,
        ),
        if s1 is Refreshing {
            switch_moves(s1, SwitchEvent::Refreshed { tokens }, s2, a2)
        } else {
            s2 == s1 && a2 == a1
        },
        if s2 is Renewing {
            switch_moves(s2, SwitchEvent::Stored { now }, s3, a3)
        } else {
            s3 == s2 && a3 == a2
        },
        if s3 is Asking {
            switch_moves(s3, SwitchEvent::Answered { report }, s4, a4)
        } else {
            s4 == s3 && a4 == a3
        },
        if s4 is Recording {
            switch_moves(s4, SwitchEvent::Recorded { listed }, s5, a5)
        } else {
            s5 == s4 && a5 == a4
        },
    ensures
        ({
            let course = SwitchCourse {
                selected: match account {
                    Some(a) => Some(a@),
                    None => None,
                },
                tokens,
                renewed_at: now,
                report,
                listed,
            };
            match course.outcome(account_id@) {
                Ok(written) => {
                    &&& s5 matches SwitchState::Ready { account: a } && a@ == written
                    &&& a5 is Write
                },
                Err(reason) => {
                    &&& s5 is Failed
                    &&& a5 matches SwitchAction::Fail { message } && message@ == reason
                },
            }
        }),
{
}

/// What the payload of a switch that came to its end holds: it is refused exactly for an
/// account that kiro-cli cannot log in with, such as one of an enterprise; otherwise the
/// tokens of the account that the course came to are what is written, and the access
/// token is there.
pub proof fn law_switch_writes_course(
    course: SwitchCourse,
    account_id: Seq<char>,
    now: Timestamp,
    r: Option<Result<KiroCliSwitchPayload, String>>,
)
    requires
        course.outcome(account_id) is Ok,
        payload_answer(course.outcome(account_id)->Ok_0, now, r),
    ensures
        ({
            let written = course.outcome(account_id)->Ok_0;
            &&& (r is Some && r->0 is Err) <==> login_of(written) is Err
            &&& r is None <==> login_of(written) is Ok && !now.reaches(TOKEN_LIFETIME as int)
            &&& r matches Some(Ok(payload)) ==> (json_parse(payload.token_value@) matches Ok(token)
                && {
                &&& text_member_of(token, "access_token"@) == written.access_token
                &&& text_member_of(token, "access_token"@) is Some
                &&& text_member_of(token, "refresh_token"@) == written.refresh_token
                &&& text_member_of(token, "expires_at"@) == Some(
                    now.text_after(TOKEN_LIFETIME as int),
                )
            })
        }),
{
    let written = course.outcome(account_id)->Ok_0;
    if r is Some && r->0 is Ok {
        law_payload_reads_back(written, login_of(written)->Ok_0, now, r->0->Ok_0@);
    }
}

/// The two kinds of login are kept under keys of their own: no key of one is a key of
/// the other.
pub proof fn law_login_keys_differ()
    ensures
        Login::IdC.token_key() != Login::Social.token_key(),
        Login::IdC.device_reg_key() != Login::Social.device_reg_key(),
        Login::IdC.token_key() != Login::IdC.device_reg_key(),
        Login::Social.token_key() != Login::Social.device_reg_key(),
{
    reveal_strlit("kirocli:odic:token");
    reveal_strlit("kirocli:social:token");
    reveal_strlit("kirocli:odic:device-registration");
    reveal_strlit("kirocli:social:device-registration");
    assert(Login::IdC.token_key().len() == 18);
    assert(Login::Social.token_key().len() == 20);
    assert(Login::IdC.device_reg_key().len() == 32);
    assert(Login::Social.device_reg_key().len() == 34);
}

// ---------------------------------------------------------------------------
// Paths
// ---------------------------------------------------------------------------

/// A path without a leading `~` stays as it is, with or without a home directory.
pub proof fn law_plain_path_is_kept(path: Seq<char>, home: Option<Seq<char>>)
    requires
        path.len() == 0 || path[0] != '~',
    ensures
        expanded(path, home) == Some(path),
{
}

/// Expanding an expanded path changes nothing. Left out are a home directory that
/// begins with `~` itself, unless it is just that, and an empty one before a second `~`.
pub proof fn law_expansion_is_final(path: Seq<char>, home: Seq<char>)
    requires
        ({
            ||| path.len() == 0
            ||| path[0] != '~'
            ||| home == seq!['~']
            ||| home.len() > 0 && home[0] != '~'
            ||| home.len() == 0 && !(path.len() > 1 && path[1] == '~')
        }),
    ensures
        expanded(path, Some(home)) matches Some(once) && expanded(once, Some(home)) == Some(once),
{
    let once = expanded(path, Some(home))->0;
    if home == seq!['~'] && path.len() > 0 && path[0] == '~' {
        assert(once =~= path);
    }
}

/// Only the leading `~` is replaced; what follows it stays.
pub proof fn law_expansion_keeps_rest(path: Seq<char>, home: Seq<char>)
    requires
        path.len() > 0,
        path[0] == '~',
    ensures
        expanded(path, Some(home)) matches Some(text) && {
            &&& text.len() == home.len() + path.len() - 1
            &&& text.take(home.len() as int) == home
            &&& text.skip(home.len() as int) == path.skip(1)
        },
{
    let text = home + path.skip(1);
    assert(text.take(home.len() as int) =~= home);
    assert(text.skip(home.len() as int) =~= path.skip(1));
}

/// There is one answer to which of the paths exists first.
pub proof fn law_existing_path_is_unique(
    paths: Seq<Seq<char>>,
    exists_at: Seq<bool>,
    a: Seq<char>,
    b: Seq<char>,
)
    requires
        paths.len() == exists_at.len(),
        first_existing(paths, exists_at, a),
        first_existing(paths, exists_at, b),
    ensures
        a == b,
{
    if exists|i: int| 0 <= i < paths.len() && #[trigger] exists_at[i] {
        let i = choose|i: int|
            {
                &&& 0 <= i < paths.len()
                &&& #[trigger] exists_at[i]
                &&& a == paths[i]
                &&& forall|j: int| 0 <= j < i ==> !#[trigger] exists_at[j]
            };
        let k = choose|k: int|
            {
                &&& 0 <= k < paths.len()
                &&& #[trigger] exists_at[k]
                &&& b == paths[k]
                &&& forall|j: int| 0 <= j < k ==> !#[trigger] exists_at[j]
            };
        assert(i == k);
    } else {
        assert(a =~= b);
    }
}

/// Where `XDG_DATA_HOME` is set, it goes before the home directory; outside of Windows
/// there is always a place to look at.
pub proof fn law_database_places(
    platform: Platform,
    home: Seq<char>,
    local_app_data: Option<Seq<char>>,
    xdg_data_home: Option<Seq<char>>,
)
    ensures
        ({
            let places = database_places(platform, home, local_app_data, xdg_data_home);
            &&& platform == Platform::Other && xdg_data_home is Some ==> places.len() == 2
                && places[0].base == xdg_data_home->0 && places[1].base == home
            &&& places.len() == 0 <==> platform == Platform::Windows && local_app_data is None
        }),
{
}

} // verus!

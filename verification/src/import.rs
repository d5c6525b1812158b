//! Import of the account that kiro-cli is logged in with.
//!
//! The steps of an import, in their order: a token is read ([`crate::token`]) and
//! planned for ([`plan_import`]), an account is started ([`account_seed`]), filled
//! ([`fill_account`]) and brought up to date with a quota report ([`usage_query`],
//! [`record_usage`]), and in the end it is stored ([`store_import`]).
use vstd::prelude::*;

use crate::account::{account_views, same_text, Account, AccountView};
use crate::text::{all_ascii, ascii_lower, joined, opt_text, text_eq, to_lowercase, unicode_lowercase};
use crate::token::{
    detect_provider, import_user_id, registration_name, registration_name_of, token_provider,
    token_user_id, ClientRegistration, CliToken, Provider, RegistrationView, TokenView,
};

verus! {

/// The outcome of an import.
#[derive(Debug, PartialEq, Eq)]
pub struct KiroCliImportResult {
    pub success: bool,
    pub is_new: bool,
    pub account: Option<Account>,
    pub error: Option<String>,
}

/// What is decided about an import once the token is read.
#[derive(Debug, PartialEq, Eq)]
pub struct ImportPlan {
    pub token: CliToken,
    pub provider: Provider,
    pub user_id: String,
    /// The name of the file with the client registration, if one is to be read.
    pub registration: Option<String>,
}

/// What [`ImportPlan`] holds.
pub struct PlanView {
    pub token: TokenView,
    pub provider: Provider,
    pub user_id: Seq<char>,
    pub registration: Option<Seq<char>>,
}

impl View for ImportPlan {
    type V = PlanView;

    open spec fn view(&self) -> PlanView {
        PlanView {
            token: self.token@,
            provider: self.provider,
            user_id: self.user_id@,
            registration: opt_text(self.registration),
        }
    }
}

/// How an account is started.
#[derive(Debug, PartialEq, Eq)]
pub enum AccountSeed {
    /// An account that is known by a user id.
    Enterprise { user_id: String, label: String },
    /// An account that is known by an email address.
    Social { email: String, label: String },
}

/// Which quota is asked for.
#[derive(Debug, PartialEq, Eq)]
pub enum UsageQuery {
    /// The quota of an enterprise account, looked for in several regions. Without a
    /// machine id, that of this machine is used.
    Probe { access_token: String, machine_id: Option<String> },
    /// The quota of an account of the named provider.
    Direct { provider: String, access_token: String },
}

/// A quota report.
#[derive(Debug, PartialEq, Eq)]
pub struct UsageReport {
    /// The report itself, as JSON text.
    pub usage_data: String,
    /// The email address that the report names.
    pub email: Option<String>,
    /// The user id that the report names.
    pub user_id: Option<String>,
    pub is_banned: bool,
    pub is_auth_error: bool,
}

/// The outcome of asking for a quota.
#[derive(Debug, PartialEq, Eq)]
pub enum UsageOutcome {
    /// There is no report.
    Failed,
    /// A report came.
    Reported { report: UsageReport },
    /// A report came after several regions were looked into. `detected_region` is the one
    /// that answered; it is empty when that is not known.
    Probed { detected_region: String, report: UsageReport },
}

/// What a quota report says about the standing of an account.
#[derive(Clone, Copy, Debug, PartialEq, Eq)]
pub struct Standing {
    pub is_banned: bool,
    pub is_auth_error: bool,
}

/// The plan for the import of a token.
pub open spec fn plan_of(t: TokenView) -> PlanView {
    PlanView {
        token: t,
        provider: token_provider(t),
        user_id: token_user_id(t),
        registration: registration_name_of(t),
    }
}

/// The label of an account that is imported for the first time.
pub open spec fn fresh_label(start_url: Option<Seq<char>>) -> Seq<char> {
    "从 kiro-cli 导入 ("@ + match start_url {
        Some(url) => url,
        None => "BuilderId"@,
    } + ")"@
}

/// The label of an account that is imported again: the one it has.
pub open spec fn kept_label_of(accounts: Seq<AccountView>, index: int) -> Seq<char> {
    if 0 <= index < accounts.len() {
        accounts[index].label
    } else {
        "从 kiro-cli 导入"@
    }
}

/// `base` with its label and with the fields that the token and the client
/// registration give.
pub open spec fn filled(
    base: AccountView,
    label: Seq<char>,
    plan: PlanView,
    reg: RegistrationView,
) -> AccountView {
    AccountView {
        label,
        access_token: Some(plan.token.access_token),
        refresh_token: Some(plan.token.refresh_token),
        expires_at: plan.token.expires_at,
        provider: Some(plan.provider.name_text()),
        user_id: Some(plan.user_id),
        oidc_region: Some(plan.token.region),
        region: Some(plan.token.region),
        auth_method: Some(plan.token.auth_method),
        client_id_hash: plan.token.client_id_hash,
        start_url: plan.token.start_url,
        client_id: reg.client_id,
        client_secret: reg.client_secret,
        profile_arn: if plan.token.is_idc() {
            base.profile_arn
        } else {
            plan.token.profile_arn
        },
        ..base
    }
}

/// `seed` is how the account of `plan` is started.
pub open spec fn seed_of(plan: PlanView, label: Seq<char>, seed: AccountSeed) -> bool {
    match seed {
        AccountSeed::Enterprise { user_id, label: l } => {
            &&& plan.provider == Provider::Enterprise || plan.provider == Provider::BuilderId
            &&& user_id@ == plan.user_id
            &&& l@ == label
        },
        AccountSeed::Social { email, label: l } => {
            &&& plan.provider == Provider::Github || plan.provider == Provider::Google
            &&& email@ == Seq::<char>::empty()
            &&& l@ == label
        },
    }
}

/// The text of an optional string, empty when there is none.
pub open spec fn text_or_empty(o: Option<Seq<char>>) -> Seq<char> {
    match o {
        Some(s) => s,
        None => Seq::empty(),
    }
}

/// `query` is the quota that is asked for about `account`.
pub open spec fn query_of(account: AccountView, provider: Provider, query: UsageQuery) -> bool {
    match query {
        UsageQuery::Probe { access_token, machine_id } => {
            &&& provider == Provider::Enterprise
            &&& access_token@ == text_or_empty(account.access_token)
            &&& opt_text(machine_id) == account.machine_id
        },
        UsageQuery::Direct { provider: name, access_token } => {
            &&& provider != Provider::Enterprise
            &&& name@ == provider.name_text()
            &&& access_token@ == text_or_empty(account.access_token)
        },
    }
}

/// `update` where it is present, `present` otherwise.
pub open spec fn updated(present: Option<Seq<char>>, update: Option<Seq<char>>) -> Option<
    Seq<char>,
> {
    match update {
        Some(s) => Some(s),
        None => present,
    }
}

/// The report that an outcome holds, if it holds one.
pub open spec fn report_of(outcome: UsageOutcome) -> Option<UsageReport> {
    match outcome {
        UsageOutcome::Failed => None,
        UsageOutcome::Reported { report } => Some(report),
        UsageOutcome::Probed { detected_region, report } => Some(report),
    }
}

/// The user id that an outcome names, if it names one.
pub open spec fn named_user_id(outcome: UsageOutcome) -> Option<Seq<char>> {
    match report_of(outcome) {
        Some(report) => opt_text(report.user_id),
        None => None,
    }
}

/// The region that an outcome names, if it names one.
pub open spec fn named_region(outcome: UsageOutcome) -> Option<Seq<char>> {
    match outcome {
        UsageOutcome::Probed { detected_region, report } => if detected_region@.len() == 0 {
            None
        } else {
            Some(detected_region@)
        },
        _ => None,
    }
}

/// `account` after a quota was asked for.
pub open spec fn with_usage(account: AccountView, outcome: UsageOutcome) -> AccountView {
    match report_of(outcome) {
        None => AccountView { status: "invalid"@, ..account },
        Some(report) => AccountView {
            region: updated(account.region, named_region(outcome)),
            email: updated(account.email, opt_text(report.email)),
            user_id: updated(account.user_id, named_user_id(outcome)),
            usage_data: Some(report.usage_data@),
            ..account
        },
    }
}

/// The standing that an outcome gives, if it gives one.
pub open spec fn standing_of(outcome: UsageOutcome) -> Option<Standing> {
    match report_of(outcome) {
        None => None,
        Some(report) => Some(
            Standing { is_banned: report.is_banned, is_auth_error: report.is_auth_error },
        ),
    }
}

/// `account` with the status that follows from its standing.
pub open spec fn with_status(account: AccountView, status: Seq<char>) -> AccountView {
    AccountView { status, ..account }
}

/// Lowercase hexadecimal digit.
pub open spec fn is_hex(c: char) -> bool {
    ('0' <= c && c <= '9') || ('a' <= c && c <= 'f')
}

/// The positions of the hyphens in the text of a UUID.
pub open spec fn is_hyphen_position(i: int) -> bool {
    i == 8 || i == 13 || i == 18 || i == 23
}

/// The text of a random UUID: hyphenated, in lowercase, with the version and the
/// variant in their places.
pub open spec fn is_random_uuid(s: Seq<char>) -> bool {
    &&& s.len() == 36
    &&& forall|i: int|
        0 <= i < 36 ==> if is_hyphen_position(i) {
            #[trigger] s[i] == '-'
        } else {
            is_hex(s[i])
        }
    &&& s[14] == '4'
    &&& s[19] == '8' || s[19] == '9' || s[19] == 'a' || s[19] == 'b'
}

/// `saved` is `account` as it is stored. An account that is there already keeps its
/// id and its machine id. A new account without a machine id gets one for which
/// `machine` holds.
pub open spec fn saved_as(
    accounts: Seq<AccountView>,
    existing: Option<usize>,
    account: AccountView,
    machine: spec_fn(Seq<char>) -> bool,
    saved: AccountView,
) -> bool {
    match existing {
        Some(i) => saved == AccountView {
            machine_id: accounts[i as int].machine_id,
            id: accounts[i as int].id,
            ..account
        },
        None => match account.machine_id {
            Some(_) => saved == account,
            None => {
                &&& saved.machine_id matches Some(m) && machine(m)
                &&& saved == AccountView { machine_id: saved.machine_id, ..account }
            },
        },
    }
}

/// The store after `saved` has been put into it.
pub open spec fn store_after(
    accounts: Seq<AccountView>,
    existing: Option<usize>,
    saved: AccountView,
) -> Seq<AccountView> {
    match existing {
        Some(i) => accounts.update(i as int, saved),
        None => accounts.push(saved),
    }
}

/// `after` and `result` are what an import makes of the store `before`.
pub open spec fn import_stored(
    before: Seq<AccountView>,
    existing: Option<usize>,
    account: AccountView,
    machine: spec_fn(Seq<char>) -> bool,
    after: Seq<AccountView>,
    result: KiroCliImportResult,
) -> bool {
    &&& result.success
    &&& result.is_new == (existing is None)
    &&& result.error is None
    &&& result.account matches Some(saved) && {
        &&& saved_as(before, existing, account, machine, saved@)
        &&& after == store_after(before, existing, saved@)
    }
}

/// Calls `uuid::Uuid::new_v4` and writes the UUID with its `Display`.
///
/// The UUID is random; what is claimed of it is the form of its text.
#[verifier::external_body]
pub(crate) fn random_uuid() -> (r: String)
    ensures
        is_random_uuid(r@),
{
    uuid::Uuid::new_v4().to_string()
}

/// `m` is a machine id made for a new account: the lowercase form of a UUID that came
/// from a call of [`random_uuid`].
pub closed spec fn is_drawn_uuid(m: Seq<char>) -> bool {
    exists|uuid: String| #[trigger]
        call_ensures(random_uuid, (), uuid) && m == unicode_lowercase(uuid@)
}

/// A machine id as a new account gets it: drawn at random, in the form of a UUID.
pub open spec fn is_new_machine_id(m: Seq<char>) -> bool {
    is_drawn_uuid(m) && is_random_uuid(m)
}

/// A new machine id is nothing but the lowercase form of what a call of
/// [`random_uuid`] returned.
proof fn law_machine_id_is_drawn(m: Seq<char>)
    ensures
        is_new_machine_id(m) ==> exists|uuid: String| #[trigger]
            call_ensures(random_uuid, (), uuid) && m == unicode_lowercase(uuid@),
{
}

/// Plans the import of a token.
pub fn plan_import(token: CliToken) -> (r: ImportPlan)
    ensures
        r@ == plan_of(token@),
{
    let provider: Provider = detect_provider(&token);
    let user_id: String = import_user_id(&token);
    let registration: Option<String> = registration_name(&token);
    ImportPlan { token, provider, user_id, registration }
}

/// The label of an account that is imported for the first time.
pub fn new_label(plan: &ImportPlan) -> (r: String)
    ensures
        r@ == fresh_label(plan@.token.start_url),
{
    let shown: String = match &plan.token.start_url {
        Some(url) => url.clone(),
        None => "BuilderId".to_string(),
    };
    joined(joined("从 kiro-cli 导入 (", shown.as_str()).as_str(), ")")
}

/// The label of an account that is imported again.
pub fn kept_label(accounts: &[Account], index: usize) -> (r: String)
    ensures
        r@ == kept_label_of(account_views(accounts@), index as int),
{
    if index < accounts.len() {
        accounts[index].label.clone()
    } else {
        "从 kiro-cli 导入".to_string()
    }
}

/// Tells how the account of a plan is started.
pub fn account_seed(plan: &ImportPlan, label: String) -> (r: AccountSeed)
    ensures
        seed_of(plan@, label@, r),
{
    match plan.provider {
        Provider::Enterprise | Provider::BuilderId => AccountSeed::Enterprise {
            user_id: plan.user_id.clone(),
            label,
        },
        Provider::Github | Provider::Google => AccountSeed::Social {
            email: String::new(),
            label,
        },
    }
}

/// Fills a started account with its label and with what the token and the client
/// registration give.
pub fn fill_account(
    base: Account,
    label: String,
    plan: &ImportPlan,
    registration: ClientRegistration,
) -> (r: Account)
    ensures
        r@ == filled(base@, label@, plan@, registration@),
{
    let mut account: Account = base;
    account.label = label;
    account.access_token = Some(plan.token.access_token.clone());
    account.refresh_token = Some(plan.token.refresh_token.clone());
    account.expires_at = same_text(&plan.token.expires_at);
    account.provider = Some(plan.provider.name());
    account.user_id = Some(plan.user_id.clone());
    account.oidc_region = Some(plan.token.region.clone());
    account.region = Some(plan.token.region.clone());
    account.auth_method = Some(plan.token.auth_method.clone());
    account.client_id_hash = same_text(&plan.token.client_id_hash);
    account.start_url = same_text(&plan.token.start_url);
    account.client_id = registration.client_id;
    account.client_secret = registration.client_secret;
    if !text_eq(plan.token.auth_method.as_str(), "IdC") {
        account.profile_arn = same_text(&plan.token.profile_arn);
    }
    account
}

/// Tells which quota is asked for about an imported account.
pub fn usage_query(account: &Account, provider: Provider) -> (r: UsageQuery)
    ensures
        query_of(account@, provider, r),
{
    let access_token: String = match &account.access_token {
        Some(s) => s.clone(),
        None => String::new(),
    };
    match provider {
        Provider::Enterprise => UsageQuery::Probe {
            access_token,
            machine_id: same_text(&account.machine_id),
        },
        _ => UsageQuery::Direct { provider: provider.name(), access_token },
    }
}

/// Writes a quota report into an account and tells the standing that it gives.
fn record_quota(account: &mut Account, report: UsageReport) -> (r: Standing)
    ensures
        final(account)@ == (AccountView {
            email: updated(old(account)@.email, opt_text(report.email)),
            user_id: updated(old(account)@.user_id, opt_text(report.user_id)),
            usage_data: Some(report.usage_data@),
            ..old(account)@
        }),
        r.is_banned == report.is_banned,
        r.is_auth_error == report.is_auth_error,
{
    if let Some(email) = report.email {
        account.email = Some(email);
    }
    if let Some(user_id) = report.user_id {
        account.user_id = Some(user_id);
    }
    account.usage_data = Some(report.usage_data);
    Standing { is_banned: report.is_banned, is_auth_error: report.is_auth_error }
}

/// Records the outcome of asking for a quota. A failure marks the account as invalid
/// and does not stop the import. A report gives the standing of the account.
pub fn record_usage(account: &mut Account, outcome: UsageOutcome) -> (r: Option<Standing>)
    ensures
        final(account)@ == with_usage(old(account)@, outcome),
        r == standing_of(outcome),
{
    match outcome {
        UsageOutcome::Failed => {
            account.status = "invalid".to_string();
            None
        },
        UsageOutcome::Reported { report } => Some(record_quota(account, report)),
        UsageOutcome::Probed { detected_region, report } => {
            if !detected_region.as_str().is_empty() {
                account.region = Some(detected_region);
            }
            Some(record_quota(account, report))
        },
    }
}

/// Stores an imported account. `machine_id` is for a new account that has none.
pub fn store_import_with(
    accounts: &mut Vec<Account>,
    existing: Option<usize>,
    account: Account,
    machine_id: String,
) -> (r: KiroCliImportResult)
    requires
        existing matches Some(i) ==> i < old(accounts)@.len(),
    ensures
        import_stored(
            account_views(old(accounts)@),
            existing,
            account@,
            |m: Seq<char>| m == machine_id@,
            account_views(final(accounts)@),
            r,
        ),
{
    let ghost before = account_views(accounts@);
    let mut saved: Account = account;
    match existing {
        Some(i) => {
            assert(before[i as int] == accounts@[i as int]@);
            saved.machine_id = same_text(&accounts[i].machine_id);
            saved.id = accounts[i].id.clone();
            accounts.set(i, saved.clone());
        },
        None => {
            if saved.machine_id.is_none() {
                saved.machine_id = Some(machine_id);
            }
            accounts.push(saved.clone());
        },
    }
    assert(account_views(accounts@) =~= store_after(before, existing, saved@));
    KiroCliImportResult {
        success: true,
        is_new: existing.is_none(),
        account: Some(saved),
        error: None,
    }
}

/// The text of a random UUID is in lowercase already.
proof fn lemma_uuid_is_lowercase(s: Seq<char>)
    requires
        is_random_uuid(s),
    ensures
        all_ascii(s),
        s.map_values(|c: char| ascii_lower(c)) == s,
{
    assert forall|i: int| 0 <= i < s.len() implies (#[trigger] s[i] as u32) < 128 && ascii_lower(
        s[i],
    ) == s[i] by {}
    assert(s.map_values(|c: char| ascii_lower(c)) =~= s);
}

/// Stores an imported account: in the place of the account at `existing`, or as a
/// new one. A new account without a machine id gets a random one.
pub fn store_import(accounts: &mut Vec<Account>, existing: Option<usize>, account: Account) -> (r:
    KiroCliImportResult)
    requires
        existing matches Some(i) ==> i < old(accounts)@.len(),
    ensures
        import_stored(
            account_views(old(accounts)@),
            existing,
            account@,
            |m: Seq<char>| is_new_machine_id(m),
            account_views(final(accounts)@),
            r,
        ),
{
    if existing.is_none() && account.machine_id.is_none() {
        let uuid: String = random_uuid();
        let machine_id: String = to_lowercase(uuid.as_str());
        proof {
            lemma_uuid_is_lowercase(uuid@);
        }
        store_import_with(accounts, existing, account, machine_id)
    } else {
        store_import_with(accounts, existing, account, String::new())
    }
}

} // verus!

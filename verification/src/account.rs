//! Accounts and the search for one of them.
use vstd::prelude::*;

use crate::text::text_eq;

verus! {

/// A stored account.
#[derive(Debug, PartialEq, Eq)]
pub struct Account {
    pub id: String,
    pub email: Option<String>,
    pub label: String,
    pub status: String,
    pub access_token: Option<String>,
    pub refresh_token: Option<String>,
    pub expires_at: Option<String>,
    pub provider: Option<String>,
    pub user_id: Option<String>,
    /// The region in which tokens are refreshed.
    pub oidc_region: Option<String>,
    /// The region in which the service is called.
    pub region: Option<String>,
    pub auth_method: Option<String>,
    pub client_id_hash: Option<String>,
    pub start_url: Option<String>,
    pub client_id: Option<String>,
    pub client_secret: Option<String>,
    pub profile_arn: Option<String>,
    pub machine_id: Option<String>,
    /// The last quota report, as JSON text.
    pub usage_data: Option<String>,
}

/// What an account holds.
pub struct AccountView {
    pub id: Seq<char>,
    pub email: Option<Seq<char>>,
    pub label: Seq<char>,
    pub status: Seq<char>,
    pub access_token: Option<Seq<char>>,
    pub refresh_token: Option<Seq<char>>,
    pub expires_at: Option<Seq<char>>,
    pub provider: Option<Seq<char>>,
    pub user_id: Option<Seq<char>>,
    pub oidc_region: Option<Seq<char>>,
    pub region: Option<Seq<char>>,
    pub auth_method: Option<Seq<char>>,
    pub client_id_hash: Option<Seq<char>>,
    pub start_url: Option<Seq<char>>,
    pub client_id: Option<Seq<char>>,
    pub client_secret: Option<Seq<char>>,
    pub profile_arn: Option<Seq<char>>,
    pub machine_id: Option<Seq<char>>,
    pub usage_data: Option<Seq<char>>,
}

impl View for Account {
    type V = AccountView;

    open spec fn view(&self) -> AccountView {
        AccountView {
            id: self.id@,
            email: crate::text::opt_text(self.email),
            label: self.label@,
            status: self.status@,
            access_token: crate::text::opt_text(self.access_token),
            refresh_token: crate::text::opt_text(self.refresh_token),
            expires_at: crate::text::opt_text(self.expires_at),
            provider: crate::text::opt_text(self.provider),
            user_id: crate::text::opt_text(self.user_id),
            oidc_region: crate::text::opt_text(self.oidc_region),
            region: crate::text::opt_text(self.region),
            auth_method: crate::text::opt_text(self.auth_method),
            client_id_hash: crate::text::opt_text(self.client_id_hash),
            start_url: crate::text::opt_text(self.start_url),
            client_id: crate::text::opt_text(self.client_id),
            client_secret: crate::text::opt_text(self.client_secret),
            profile_arn: crate::text::opt_text(self.profile_arn),
            machine_id: crate::text::opt_text(self.machine_id),
            usage_data: crate::text::opt_text(self.usage_data),
        }
    }
}

/// A copy of an optional string.
pub(crate) fn same_text(o: &Option<String>) -> (r: Option<String>)
    ensures
        r == *o,
{
    match o {
        Some(s) => Some(s.clone()),
        None => None,
    }
}

impl Clone for Account {
    fn clone(&self) -> (r: Self)
        ensures
            r == *self,
    {
        Account {
            id: self.id.clone(),
            email: same_text(&self.email),
            label: self.label.clone(),
            status: self.status.clone(),
            access_token: same_text(&self.access_token),
            refresh_token: same_text(&self.refresh_token),
            expires_at: same_text(&self.expires_at),
            provider: same_text(&self.provider),
            user_id: same_text(&self.user_id),
            oidc_region: same_text(&self.oidc_region),
            region: same_text(&self.region),
            auth_method: same_text(&self.auth_method),
            client_id_hash: same_text(&self.client_id_hash),
            start_url: same_text(&self.start_url),
            client_id: same_text(&self.client_id),
            client_secret: same_text(&self.client_secret),
            profile_arn: same_text(&self.profile_arn),
            machine_id: same_text(&self.machine_id),
            usage_data: same_text(&self.usage_data),
        }
    }
}

/// What each account of a list holds.
pub open spec fn account_views(accounts: Seq<Account>) -> Seq<AccountView> {
    accounts.map_values(|a: Account| a@)
}

/// Replacing an account replaces what it holds.
pub(crate) proof fn lemma_update_views(accounts: Seq<Account>, i: int, account: Account)
    requires
        0 <= i < accounts.len(),
    ensures
        account_views(accounts.update(i, account)) == account_views(accounts).update(i, account@),
{
    assert(account_views(accounts.update(i, account)) =~= account_views(accounts).update(
        i,
        account@,
    ));
}

/// `uid` identifies the account: it is its user id or its client id hash.
pub open spec fn identified_by(a: AccountView, uid: Seq<char>) -> bool {
    a.user_id == Some(uid) || a.client_id_hash == Some(uid)
}

/// `found` is the position of the first account that satisfies `hit`, or `None`
/// when no account does.
pub open spec fn first_hit(
    accounts: Seq<AccountView>,
    hit: spec_fn(AccountView) -> bool,
    found: Option<usize>,
) -> bool {
    match found {
        Some(i) => {
            &&& i < accounts.len()
            &&& hit(accounts[i as int])
            &&& forall|j: int| 0 <= j < i ==> !hit(#[trigger] accounts[j])
        },
        None => forall|j: int| 0 <= j < accounts.len() ==> !hit(#[trigger] accounts[j]),
    }
}

/// `found` is the answer to a search for an account by its user id or client id hash.
pub open spec fn existing_account(
    accounts: Seq<AccountView>,
    user_id: Option<Seq<char>>,
    found: Option<usize>,
) -> bool {
    match user_id {
        Some(uid) => first_hit(accounts, |a: AccountView| identified_by(a, uid), found),
        None => found is None,
    }
}

/// `found` is the answer to a search for an account by its id.
pub open spec fn account_with_id(
    accounts: Seq<AccountView>,
    id: Seq<char>,
    found: Option<usize>,
) -> bool {
    first_hit(accounts, |a: AccountView| a.id == id, found)
}

/// Tests whether an optional text is present and equal to `text`.
fn holds_text(o: &Option<String>, text: &String) -> (r: bool)
    ensures
        r == (crate::text::opt_text(*o) == Some(text@)),
{
    match o {
        Some(s) => *s == *text,
        None => false,
    }
}

/// Finds the account that is identified by `user_id`, either as its user id or as
/// its client id hash. Without a user id nothing is found; the email is not looked at.
pub fn find_existing_account(
    accounts: &[Account],
    user_id: Option<&String>,
    _email: Option<&String>,
) -> (r: Option<usize>)
    ensures
        existing_account(account_views(accounts@), crate::text::opt_ref_text(user_id), r),
{
    if let Some(uid) = user_id {
        let mut i: usize = 0;
        while i < accounts.len()
            invariant
                user_id == Some(uid),
                i <= accounts.len(),
                forall|j: int|
                    0 <= j < i ==> !identified_by(
                        #[trigger] account_views(accounts@)[j],
                        uid@,
                    ),
            decreases accounts.len() - i,
        {
            let a: &Account = &accounts[i];
            assert(account_views(accounts@)[i as int] == a@);
            if holds_text(&a.user_id, uid) || holds_text(&a.client_id_hash, uid) {
                return Some(i);
            }
            i += 1;
        }
    }
    None
}

/// Finds the account with the given id.
pub fn find_account(accounts: &[Account], id: &str) -> (r: Option<usize>)
    ensures
        account_with_id(account_views(accounts@), id@, r),
{
    let mut i: usize = 0;
    while i < accounts.len()
        invariant
            i <= accounts.len(),
            forall|j: int| 0 <= j < i ==> (#[trigger] account_views(accounts@)[j]).id != id@,
        decreases accounts.len() - i,
    {
        assert(account_views(accounts@)[i as int] == accounts@[i as int]@);
        if text_eq(accounts[i].id.as_str(), id) {
            return Some(i);
        }
        i += 1;
    }
    None
}

} // verus!

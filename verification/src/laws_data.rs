//! What holds of the data: views, texts, JSON members, times, places and searches.
use std::sync::LockResult;

use vstd::prelude::*;

use crate::account::{account_views, account_with_id, existing_account, Account, AccountView};
use crate::clock::{rfc3339_text, Timestamp};
use crate::import::ImportPlan;
use crate::json::{no_members, optional_member, plain_members, text_member_of, JsonMember};
use crate::paths::{
    cache_place, database_places, expanded, first_existing, location_views, FileLocation, Platform,
    UserDirs,
};
use crate::store::locked_as;
use crate::switch::KiroCliSwitchPayload;
use crate::text::{
    all_ascii, ascii_lower, occurs_in, opt_ref_text, opt_text, prefix_of, texts,
};
use crate::token::{ClientRegistration, CliToken, TokenFields};

verus! {

// ---------------------------------------------------------------------------
// Views
// ---------------------------------------------------------------------------

/// An optional string shows its characters exactly when it is there.
pub proof fn law_optional_text_shows(o: Option<String>, r: Option<&String>)
    ensures
        o is None <==> opt_text(o) is None,
        o matches Some(s) ==> opt_text(o) == Some(s@),
        r is None <==> opt_ref_text(r) is None,
        r matches Some(s) ==> opt_ref_text(r) == Some(s@),
{
}

/// A list of strings shows the characters of each, in the same order.
pub proof fn law_texts_show(list: Seq<String>, i: int)
    ensures
        texts(list).len() == list.len(),
        0 <= i < list.len() ==> texts(list)[i] == list[i]@,
{
}

/// A list of accounts shows each account, in the same order.
pub proof fn law_accounts_show(accounts: Seq<Account>, i: int)
    ensures
        account_views(accounts).len() == accounts.len(),
        0 <= i < accounts.len() ==> account_views(accounts)[i] == accounts[i]@,
{
}

/// A file location shows its directory and its components, and so does each of a list.
pub proof fn law_locations_show(l: FileLocation, list: Seq<FileLocation>, i: int)
    ensures
        l@.base == l.base@,
        l@.parts.len() == l.parts@.len(),
        0 <= i < l.parts@.len() ==> l@.parts[i] == l.parts@[i]@,
        location_views(list).len() == list.len(),
        0 <= i < list.len() ==> location_views(list)[i] == list[i]@,
{
}

/// The view of an account shows each of its fields and nothing else.
pub proof fn law_account_shows_its_fields(a: Account)
    ensures
        a@.id == a.id@,
        a@.label == a.label@,
        a@.status == a.status@,
        a.email is None <==> a@.email is None,
        a.email matches Some(s) ==> a@.email == Some(s@),
        a.access_token is None <==> a@.access_token is None,
        a.access_token matches Some(s) ==> a@.access_token == Some(s@),
        a.refresh_token is None <==> a@.refresh_token is None,
        a.refresh_token matches Some(s) ==> a@.refresh_token == Some(s@),
        a.expires_at is None <==> a@.expires_at is None,
        a.expires_at matches Some(s) ==> a@.expires_at == Some(s@),
        a.provider is None <==> a@.provider is None,
        a.provider matches Some(s) ==> a@.provider == Some(s@),
        a.user_id is None <==> a@.user_id is None,
        a.user_id matches Some(s) ==> a@.user_id == Some(s@),
        a.oidc_region is None <==> a@.oidc_region is None,
        a.oidc_region matches Some(s) ==> a@.oidc_region == Some(s@),
        a.region is None <==> a@.region is None,
        a.region matches Some(s) ==> a@.region == Some(s@),
        a.auth_method is None <==> a@.auth_method is None,
        a.auth_method matches Some(s) ==> a@.auth_method == Some(s@),
        a.client_id_hash is None <==> a@.client_id_hash is None,
        a.client_id_hash matches Some(s) ==> a@.client_id_hash == Some(s@),
        a.start_url is None <==> a@.start_url is None,
        a.start_url matches Some(s) ==> a@.start_url == Some(s@),
        a.client_id is None <==> a@.client_id is None,
        a.client_id matches Some(s) ==> a@.client_id == Some(s@),
        a.client_secret is None <==> a@.client_secret is None,
        a.client_secret matches Some(s) ==> a@.client_secret == Some(s@),
        a.profile_arn is None <==> a@.profile_arn is None,
        a.profile_arn matches Some(s) ==> a@.profile_arn == Some(s@),
        a.machine_id is None <==> a@.machine_id is None,
        a.machine_id matches Some(s) ==> a@.machine_id == Some(s@),
        a.usage_data is None <==> a@.usage_data is None,
        a.usage_data matches Some(s) ==> a@.usage_data == Some(s@),
{
}

/// The view of a token shows each of its fields and nothing else.
pub proof fn law_token_shows_its_fields(t: CliToken)
    ensures
        t@.access_token == t.access_token@,
        t@.refresh_token == t.refresh_token@,
        t@.auth_method == t.auth_method@,
        t@.region == t.region@,
        t.expires_at is None <==> t@.expires_at is None,
        t.expires_at matches Some(s) ==> t@.expires_at == Some(s@),
        t.client_id_hash is None <==> t@.client_id_hash is None,
        t.client_id_hash matches Some(s) ==> t@.client_id_hash == Some(s@),
        t.start_url is None <==> t@.start_url is None,
        t.start_url matches Some(s) ==> t@.start_url == Some(s@),
        t.profile_arn is None <==> t@.profile_arn is None,
        t.profile_arn matches Some(s) ==> t@.profile_arn == Some(s@),
{
}

/// The view of the members of a token file shows each of them.
pub proof fn law_token_fields_show(f: TokenFields)
    ensures
        f.access_token is None <==> f@.access_token is None,
        f.access_token matches Some(s) ==> f@.access_token == Some(s@),
        f.refresh_token is None <==> f@.refresh_token is None,
        f.refresh_token matches Some(s) ==> f@.refresh_token == Some(s@),
        f.expires_at is None <==> f@.expires_at is None,
        f.expires_at matches Some(s) ==> f@.expires_at == Some(s@),
        f.auth_method is None <==> f@.auth_method is None,
        f.auth_method matches Some(s) ==> f@.auth_method == Some(s@),
        f.region is None <==> f@.region is None,
        f.region matches Some(s) ==> f@.region == Some(s@),
        f.client_id_hash is None <==> f@.client_id_hash is None,
        f.client_id_hash matches Some(s) ==> f@.client_id_hash == Some(s@),
        f.start_url is None <==> f@.start_url is None,
        f.start_url matches Some(s) ==> f@.start_url == Some(s@),
        f.profile_arn is None <==> f@.profile_arn is None,
        f.profile_arn matches Some(s) ==> f@.profile_arn == Some(s@),
{
}

/// The view of a client registration shows its fields.
pub proof fn law_registration_shows_its_fields(c: ClientRegistration)
    ensures
        c.client_id is None <==> c@.client_id is None,
        c.client_id matches Some(s) ==> c@.client_id == Some(s@),
        c.client_secret is None <==> c@.client_secret is None,
        c.client_secret matches Some(s) ==> c@.client_secret == Some(s@),
{
}

/// The view of a plan shows its fields.
pub proof fn law_plan_shows_its_fields(p: ImportPlan)
    ensures
        p@.token == p.token@,
        p@.user_id == p.user_id@,
        p@.provider == p.provider,
        p.registration is None <==> p@.registration is None,
        p.registration matches Some(s) ==> p@.registration == Some(s@),
{
}

/// The view of a payload shows its fields.
pub proof fn law_payload_shows_its_fields(p: KiroCliSwitchPayload)
    ensures
        p@.token_key == p.token_key@,
        p@.token_value == p.token_value@,
        p@.device_reg_key == p.device_reg_key@,
        p@.device_reg_value == p.device_reg_value@,
{
}

// ---------------------------------------------------------------------------
// Texts
// ---------------------------------------------------------------------------

/// A text that is put between two others occurs in the whole.
pub proof fn law_part_occurs(before: Seq<char>, needle: Seq<char>, after: Seq<char>)
    ensures
        occurs_in(before + needle + after, needle),
{
    let whole = before + needle + after;
    assert(whole.subrange(before.len() as int, before.len() as int + needle.len()) =~= needle);
    assert(crate::text::occurs_at(whole, needle, before.len() as int));
}

/// A text occurs in another only as a part of it, with something before and after.
pub proof fn law_occurrence_is_a_part(text: Seq<char>, needle: Seq<char>)
    requires
        occurs_in(text, needle),
    ensures
        exists|before: Seq<char>, after: Seq<char>| text == #[trigger] (before + needle + after),
{
    let at = choose|at: int| crate::text::occurs_at(text, needle, at);
    let before = text.subrange(0, at);
    let after = text.subrange(at + needle.len(), text.len() as int);
    assert(text =~= before + needle + after) by {
        assert(text.subrange(at, at + needle.len()) == needle);
        assert forall|k: int| 0 <= k < needle.len() implies text[at + k] == needle[k] by {
            assert(text.subrange(at, at + needle.len())[k] == text[at + k]);
        }
    }
}

/// The first `n` characters are a beginning of the text: `n` of them, or all when there
/// are no more.
pub proof fn law_prefix_is_a_beginning(s: Seq<char>, n: int)
    requires
        0 <= n,
    ensures
        prefix_of(s, n).len() == if s.len() < n {
            s.len() as int
        } else {
            n
        },
        forall|i: int| 0 <= i < prefix_of(s, n).len() ==> #[trigger] prefix_of(s, n)[i] == s[i],
{
}

/// Lowering an ASCII letter moves it by the distance of the two alphabets and leaves
/// every other character alone.
pub proof fn law_ascii_lowering(c: char)
    ensures
        65 <= c as u32 <= 90 ==> ascii_lower(c) as u32 == c as u32 + 32,
        !(65 <= c as u32 <= 90) ==> ascii_lower(c) == c,
{
}

/// A text is ASCII exactly when no character of it is above 127.
pub proof fn law_ascii_text(s: Seq<char>)
    ensures
        all_ascii(s) <==> forall|i: int| 0 <= i < s.len() ==> (#[trigger] s[i] as u32) <= 127,
{
}

// ---------------------------------------------------------------------------
// JSON members
// ---------------------------------------------------------------------------

/// A string is read off a member exactly when the member is that string.
pub proof fn law_text_member(members: Map<Seq<char>, JsonMember>, key: Seq<char>, s: Seq<char>)
    ensures
        text_member_of(members, key) == Some(s) <==> members.contains_pair(
            key,
            JsonMember::Text(s),
        ),
{
}

/// An optional string becomes that string or null, and an empty object has no key.
pub proof fn law_optional_member(s: Seq<char>, key: Seq<char>)
    ensures
        optional_member(Some(s)) == JsonMember::Text(s),
        optional_member(None) == JsonMember::Null,
        !no_members().contains_key(key),
{
}

/// Members are plain exactly when each is null, a string or a list of strings.
pub proof fn law_plain_members(members: Map<Seq<char>, JsonMember>)
    ensures
        plain_members(members) <==> forall|key: Seq<char>|
            members.contains_key(key) ==> (#[trigger] members[key] is Null || members[key] is Text
                || members[key] is Texts),
{
}

// ---------------------------------------------------------------------------
// Times
// ---------------------------------------------------------------------------

/// A date that can be held lies between the first day of the year 262144 before Christ
/// and the last day of the year 262142; later dates are counted in seconds.
pub proof fn law_dates(at: Timestamp, seconds: int)
    ensures
        at.wf() <==> -8334601228800 <= at.seconds <= 8210266876799 && at.nanos < 1_000_000_000,
        at.reaches(seconds) <==> -8334601228800 <= at.seconds + seconds <= 8210266876799,
        at.text_after(seconds) == rfc3339_text(at.seconds + seconds, at.nanos as int),
{
}

// ---------------------------------------------------------------------------
// The lock
// ---------------------------------------------------------------------------

/// An attempt that succeeds gives its guard; one on a poisoned lock gives the message.
pub proof fn law_lock_is_answered<G>(attempt: LockResult<G>, r: Result<G, String>)
    requires
        locked_as(attempt, r),
    ensures
        attempt is Ok <==> r is Ok,
        attempt is Ok ==> r->Ok_0 == attempt->Ok_0,
        attempt is Err ==> r->Err_0@ == "Failed to acquire store lock"@,
{
}

// ---------------------------------------------------------------------------
// Searches
// ---------------------------------------------------------------------------

/// The search by id finds an account exactly when one of the store has that id, whatever
/// else the accounts hold, and it finds the first of them.
pub proof fn law_search_by_id(accounts: Seq<AccountView>, id: Seq<char>, found: Option<usize>)
    requires
        account_with_id(accounts, id, found),
    ensures
        found is Some <==> exists|j: int|
            0 <= j < accounts.len() && (#[trigger] accounts[j]).id == id,
        found matches Some(i) ==> {
            &&& i < accounts.len()
            &&& accounts[i as int].id == id
            &&& forall|j: int| 0 <= j < i ==> (#[trigger] accounts[j]).id != id
        },
{
    let hit = |a: AccountView| a.id == id;
    assert forall|j: int| 0 <= j < accounts.len() implies hit(#[trigger] accounts[j]) == (
    accounts[j].id == id) by {}
}

/// The search for an existing account finds one exactly when a user id is given and is
/// the user id or the client id hash of an account, whatever else the accounts hold; it
/// finds the first of them.
pub proof fn law_search_by_user_id(
    accounts: Seq<AccountView>,
    user_id: Option<Seq<char>>,
    found: Option<usize>,
)
    requires
        existing_account(accounts, user_id, found),
    ensures
        found is Some <==> user_id is Some && exists|j: int|
            0 <= j < accounts.len() && ((#[trigger] accounts[j]).user_id == user_id
                || accounts[j].client_id_hash == user_id),
        found matches Some(i) ==> {
            &&& i < accounts.len()
            &&& accounts[i as int].user_id == user_id || accounts[i as int].client_id_hash
                == user_id
            &&& forall|j: int|
                0 <= j < i ==> (#[trigger] accounts[j]).user_id != user_id
                    && accounts[j].client_id_hash != user_id
        },
{
    if user_id is Some {
        let uid = user_id->0;
        let hit = |a: AccountView| crate::account::identified_by(a, uid);
        assert forall|j: int| 0 <= j < accounts.len() implies hit(#[trigger] accounts[j]) == (
        accounts[j].user_id == user_id || accounts[j].client_id_hash == user_id) by {}
    }
}

// ---------------------------------------------------------------------------
// Places
// ---------------------------------------------------------------------------

/// The home directory is `HOME` where it is set, else `USERPROFILE`, else unknown.
pub proof fn law_home_directory(dirs: UserDirs)
    ensures
        dirs.home matches Some(h) ==> dirs.home_text() == Some(h@),
        dirs.home is None ==> (dirs.user_profile matches Some(p) ==> dirs.home_text() == Some(p@)),
        dirs.home is None && dirs.user_profile is None <==> dirs.home_text() is None,
{
}

/// A path cannot be expanded exactly when it begins with `~` and no home directory is
/// known.
pub proof fn law_expansion_needs_home(path: Seq<char>, home: Option<Seq<char>>)
    ensures
        expanded(path, home) is None <==> path.len() > 0 && path[0] == '~' && home is None,
{
}

/// Where the database may stand on each platform, component by component.
pub proof fn law_database_places_by_platform(
    home: Seq<char>,
    local_app_data: Option<Seq<char>>,
    xdg_data_home: Option<Seq<char>>,
)
    ensures
        ({
            let mac = database_places(Platform::MacOs, home, local_app_data, xdg_data_home);
            &&& mac.len() == 1
            &&& mac[0].base == home
            &&& mac[0].parts.len() == 4
            &&& mac[0].parts[0] == "Library"@
            &&& mac[0].parts[1] == "Application Support"@
            &&& mac[0].parts[2] == "kiro-cli"@
            &&& mac[0].parts[3] == "data.sqlite3"@
        }),
        ({
            let win = database_places(Platform::Windows, home, local_app_data, xdg_data_home);
            &&& local_app_data is None ==> win.len() == 0
            &&& local_app_data matches Some(dir) ==> {
                &&& win.len() == 1
                &&& win[0].base == dir
                &&& win[0].parts.len() == 2
                &&& win[0].parts[0] == "Kiro-Cli"@
                &&& win[0].parts[1] == "data.sqlite3"@
            }
        }),
        ({
            let other = database_places(Platform::Other, home, local_app_data, xdg_data_home);
            let n = other.len();
            &&& n == if xdg_data_home is Some {
                2int
            } else {
                1int
            }
            &&& xdg_data_home matches Some(dir) ==> {
                &&& other[0].base == dir
                &&& other[0].parts.len() == 2
                &&& other[0].parts[0] == "kiro-cli"@
                &&& other[0].parts[1] == "data.sqlite3"@
            }
            &&& other[n - 1].base == home
            &&& other[n - 1].parts.len() == 4
            &&& other[n - 1].parts[0] == ".local"@
            &&& other[n - 1].parts[1] == "share"@
            &&& other[n - 1].parts[2] == "kiro-cli"@
            &&& other[n - 1].parts[3] == "data.sqlite3"@
        }),
{
}

/// A file of the token cache stands in `.aws/sso/cache` below the home directory.
pub proof fn law_cache_place(home: Seq<char>, name: Seq<char>)
    ensures
        cache_place(home, name).base == home,
        cache_place(home, name).parts.len() == 4,
        cache_place(home, name).parts[0] == ".aws"@,
        cache_place(home, name).parts[1] == "sso"@,
        cache_place(home, name).parts[2] == "cache"@,
        cache_place(home, name).parts[3] == name,
{
}

/// The path that is chosen is the first that exists; it is empty when none does.
pub proof fn law_first_existing_path(
    paths: Seq<Seq<char>>,
    exists_at: Seq<bool>,
    chosen: Seq<char>,
    i: int,
)
    requires
        paths.len() == exists_at.len(),
        first_existing(paths, exists_at, chosen),
    ensures
        0 <= i < paths.len() && exists_at[i] && (forall|j: int|
            0 <= j < i ==> !#[trigger] exists_at[j]) ==> chosen == paths[i],
        (forall|j: int| 0 <= j < paths.len() ==> !#[trigger] exists_at[j]) ==> chosen.len() == 0,
{
    if 0 <= i < paths.len() && exists_at[i] && (forall|j: int| 0 <= j < i ==> !#[trigger] exists_at[j]) {
        let k = choose|k: int|
            {
                &&& 0 <= k < paths.len()
                &&& #[trigger] exists_at[k]
                &&& chosen == paths[k]
                &&& forall|j: int| 0 <= j < k ==> !#[trigger] exists_at[j]
            };
        assert(i == k);
    }
}

} // verus!

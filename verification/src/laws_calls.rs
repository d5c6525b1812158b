//! What calls of the library return, stated on their arguments and results alone.
use std::sync::LockResult;

use vstd::prelude::*;

use crate::account::{
    account_views, find_account, find_existing_account, Account, AccountView,
};
use crate::clock::{expiry_text, is_clock_reading, reaches, rfc3339_text, Timestamp};
use crate::import::{
    account_seed, fill_account, is_new_machine_id, kept_label, new_label, plan_import, record_usage,
    store_import, store_import_with, usage_query, AccountSeed, ImportPlan, KiroCliImportResult,
    Standing, UsageOutcome, UsageQuery,
};
use crate::import_run::{import_step, ImportAction, ImportEvent, ImportState};
use crate::json::{json_parse, JsonMember};
use crate::laws_data::{law_first_existing_path, law_search_by_id, law_search_by_user_id};
use crate::laws_import::{law_token_holds_its_members, law_token_needs_both_tokens};
use crate::laws_switch::{law_device_document, law_payload_is_answered, law_token_document};
use crate::paths::{
    choose_existing, database_candidates, expand_home_dir, home_dir, registration_file, token_file,
    FileLocation, Platform, UserDirs,
};
use crate::store::lock_outcome;
use crate::switch::{
    build_switch_payload, build_switch_payload_at, login_kind, payload_under, record_report,
    renew_account, select_account, KiroCliSwitchPayload, Login, RefreshedTokens,
};
use crate::switch_run::{switch_step, QuotaReport, SwitchAction, SwitchEvent, SwitchState};
use crate::text::{contains_text, first_chars, joined, occurs_in, text_eq, unicode_lowercase};
use crate::token::{
    choose_provider, complete_token, detect_provider, import_user_id, parse_cli_token,
    parse_registration, read_cli_token, registration_name, ClientRegistration, CliToken, FileRead,
    Provider, TokenFields,
};

verus! {

// ---------------------------------------------------------------------------
// Texts and times
// ---------------------------------------------------------------------------

/// Comparing, joining and cutting texts.
pub proof fn law_text_calls(
    a: &str,
    b: &str,
    n: usize,
    equal: bool,
    whole: String,
    first: String,
)
    ensures
        call_ensures(text_eq, (a, b), equal) ==> (equal <==> a@ == b@),
        call_ensures(joined, (a, b), whole) ==> whole@ == a@ + b@,
        call_ensures(first_chars, (a, n), first) ==> {
            &&& first@.len() == if a@.len() < n {
                a@.len() as int
            } else {
                n as int
            }
            &&& forall|i: int| 0 <= i < first@.len() ==> #[trigger] first@[i] == a@[i]
        },
{
}

/// A text is found in another exactly when the other is made of something before it, the
/// text itself and something after it.
pub proof fn law_contains_call(text: &str, needle: &str, found: bool)
    requires
        call_ensures(contains_text, (text, needle), found),
    ensures
        found <==> exists|before: Seq<char>, after: Seq<char>|
            text@ == #[trigger] (before + needle@ + after),
{
    if found {
        crate::laws_data::law_occurrence_is_a_part(text@, needle@);
    }
    if exists|before: Seq<char>, after: Seq<char>|
        text@ == #[trigger] (before + needle@ + after) {
        let (before, after) = choose|before: Seq<char>, after: Seq<char>|
            text@ == #[trigger] (before + needle@ + after);
        crate::laws_data::law_part_occurs(before, needle@, after);
    }
}

/// A later date can be held exactly when its second lies within the range of dates; its
/// text is that of the second so many later.
pub proof fn law_clock_calls(at: Timestamp, seconds: i64, held: bool, text: String)
    ensures
        call_ensures(reaches, (at, seconds), held) ==> (held <==> -8334601228800 <= at.seconds
            + seconds <= 8210266876799),
        call_ensures(expiry_text, (at, seconds), text) ==> text@ == rfc3339_text(
            at.seconds + seconds,
            at.nanos as int,
        ),
{
}

/// The guard comes through; a poisoned lock becomes the message.
pub proof fn law_lock_call<G>(attempt: LockResult<G>, r: Result<G, String>)
    requires
        call_ensures(lock_outcome, (attempt,), r),
    ensures
        attempt is Ok ==> r is Ok && r->Ok_0 == attempt->Ok_0,
        attempt is Err ==> (r matches Err(e) && e@ == "Failed to acquire store lock"@),
{
}

// ---------------------------------------------------------------------------
// Places
// ---------------------------------------------------------------------------

/// The home directory is `HOME` or else `USERPROFILE`; a leading `~` is replaced by it and
/// nothing else of a path changes.
pub proof fn law_home_calls(
    dirs: &UserDirs,
    path: &str,
    home: Result<String, String>,
    full: Result<String, String>,
)
    requires
        call_ensures(home_dir, (dirs,), home),
        call_ensures(expand_home_dir, (path, dirs), full),
    ensures
        dirs.home matches Some(h) ==> (home matches Ok(s) && s@ == h@),
        dirs.home is None ==> (dirs.user_profile matches Some(p) ==> (home matches Ok(s) && s@
            == p@)),
        dirs.home is None && dirs.user_profile is None ==> (home matches Err(e) && e@
            == "无法获取用户主目录"@),
        !(path@.len() > 0 && path@[0] == '~') ==> (full matches Ok(s) && s@ == path@),
        path@.len() > 0 && path@[0] == '~' ==> {
            &&& home matches Ok(h) ==> (full matches Ok(s) && s@ == h@ + path@.subrange(
                1,
                path@.len() as int,
            ))
            &&& home is Err ==> (full matches Err(e) && e@ == "无法获取用户主目录"@)
        },
{
    if path@.len() > 0 {
        assert(path@.skip(1) =~= path@.subrange(1, path@.len() as int));
    }
}

/// The files of the token cache: below the home directory, or for a client registration
/// below an empty path where there is none.
pub proof fn law_cache_calls(
    dirs: &UserDirs,
    name: &str,
    home: Result<String, String>,
    token: Result<FileLocation, String>,
    registration: FileLocation,
)
    requires
        call_ensures(home_dir, (dirs,), home),
        call_ensures(token_file, (dirs,), token),
        call_ensures(registration_file, (dirs, name), registration),
    ensures
        home matches Ok(h) ==> {
            &&& token matches Ok(l) && l.base@ == h@ && l.parts@.len() == 4 && l.parts@[0]@
                == ".aws"@ && l.parts@[1]@ == "sso"@ && l.parts@[2]@ == "cache"@ && l.parts@[3]@
                == "kiro-auth-token-cli.json"@
            &&& registration.base@ == h@
        },
        home is Err ==> {
            &&& token matches Err(e) && e@ == "无法获取用户主目录"@
            &&& registration.base@.len() == 0
        },
        registration.parts@.len() == 4,
        registration.parts@[0]@ == ".aws"@,
        registration.parts@[1]@ == "sso"@,
        registration.parts@[2]@ == "cache"@,
        registration.parts@[3]@ == name@,
{
    assert(registration@.parts.len() == 4);
    assert forall|i: int| 0 <= i < 4 implies #[trigger] registration.parts@[i]@
        == registration@.parts[i] by {}
    if token is Ok {
        let l = token->Ok_0;
        assert(l@.parts.len() == 4);
        assert forall|i: int| 0 <= i < 4 implies #[trigger] l.parts@[i]@ == l@.parts[i] by {}
    }
}

/// The places of the database lie below the directory of the platform and end in the file
/// of the database.
pub proof fn law_database_calls(
    platform: Platform,
    dirs: &UserDirs,
    home: Result<String, String>,
    r: Result<Vec<FileLocation>, String>,
)
    requires
        call_ensures(home_dir, (dirs,), home),
        call_ensures(database_candidates, (platform, dirs), r),
    ensures
        home is Err ==> (r matches Err(e) && e@ == "无法获取用户主目录"@),
        home is Ok ==> r is Ok,
        home is Ok && platform == Platform::MacOs ==> r->Ok_0@.len() == 1 && r->Ok_0@[0].base@
            == home->Ok_0@,
        home is Ok && platform == Platform::Windows && dirs.local_app_data is None
            ==> r->Ok_0@.len() == 0,
        home is Ok && platform == Platform::Windows ==> (dirs.local_app_data matches Some(dir)
            ==> r->Ok_0@.len() == 1 && r->Ok_0@[0].base@ == dir@),
        home is Ok && platform == Platform::Other && dirs.xdg_data_home is None
            ==> r->Ok_0@.len() == 1 && r->Ok_0@[0].base@ == home->Ok_0@,
        home is Ok && platform == Platform::Other ==> (dirs.xdg_data_home matches Some(dir)
            ==> r->Ok_0@.len() == 2 && r->Ok_0@[0].base@ == dir@ && r->Ok_0@[1].base@
            == home->Ok_0@),
        r matches Ok(v) ==> forall|i: int|
            0 <= i < v@.len() ==> (#[trigger] v@[i]).parts@.len() >= 2
                && v@[i].parts@[v@[i].parts@.len() - 1]@ == "data.sqlite3"@
                && v@[i].parts@[v@[i].parts@.len() - 2]@ == if platform == Platform::Windows {
                "Kiro-Cli"@
            } else {
                "kiro-cli"@
            },
{
    if r is Ok {
        let v = r->Ok_0@;
        let views = crate::paths::location_views(v);
        assert(views.len() == v.len());
        assert forall|i: int| 0 <= i < v.len() implies (#[trigger] v[i]).parts@.len() >= 2
            && v[i].parts@[v[i].parts@.len() - 1]@ == "data.sqlite3"@
            && v[i].parts@[v[i].parts@.len() - 2]@ == if platform == Platform::Windows {
            "Kiro-Cli"@
        } else {
            "kiro-cli"@
        } by {
            let n = v[i].parts@.len();
            assert(views[i] == v[i]@);
            assert(v[i]@.parts.len() == n);
            assert(v[i]@.parts[n - 1] == v[i].parts@[n - 1]@);
            assert(v[i]@.parts[n - 2] == v[i].parts@[n - 2]@);
        }
        if v.len() > 0 {
            assert(views[0] == v[0]@);
        }
        if v.len() > 1 {
            assert(views[1] == v[1]@);
        }
    }
}

/// The path that is chosen exists and none before it does; it is empty when none exists.
pub proof fn law_choose_call(paths: &[String], exists_at: &[bool], r: String, i: int)
    requires
        paths@.len() == exists_at@.len(),
        call_ensures(choose_existing, (paths, exists_at), r),
    ensures
        0 <= i < paths@.len() && exists_at@[i] && (forall|j: int|
            0 <= j < i ==> !#[trigger] exists_at@[j]) ==> r@ == paths@[i]@,
        (forall|j: int| 0 <= j < paths@.len() ==> !#[trigger] exists_at@[j]) ==> r@.len() == 0,
{
    law_first_existing_path(crate::text::texts(paths@), exists_at@, r@, i);
}

// ---------------------------------------------------------------------------
// Searches
// ---------------------------------------------------------------------------

/// The account with an id is found exactly when the store holds one, at the first place
/// where it does, and it is handed out as it is.
pub proof fn law_find_calls(
    accounts: &[Account],
    id: &str,
    found: Option<usize>,
    selected: Option<Account>,
)
    requires
        call_ensures(find_account, (accounts, id), found),
        call_ensures(select_account, (accounts, id), selected),
    ensures
        found is Some <==> exists|j: int|
            0 <= j < accounts@.len() && (#[trigger] accounts@[j]).id@ == id@,
        found matches Some(i) ==> {
            &&& i < accounts@.len()
            &&& accounts@[i as int].id@ == id@
            &&& forall|j: int| 0 <= j < i ==> (#[trigger] accounts@[j]).id@ != id@
        },
        selected is Some <==> found is Some,
        selected matches Some(account) ==> account == accounts@[found->0 as int],
{
    let views = account_views(accounts@);
    assert forall|j: int| 0 <= j < accounts@.len() implies views[j].id == (
    #[trigger] accounts@[j]).id@ by {}
    law_search_by_id(views, id@, found);
    if found is Some {
        assert(views[found->0 as int].id == id@);
    }
    if selected is Some {
        let i = choose|i: usize| #[trigger]
            crate::account::account_with_id(views, id@, Some(i)) && selected->0
                == accounts@[i as int];
        law_search_by_id(views, id@, Some(i));
        assert(accounts@[i as int].id@ == id@);
        assert(found is Some);
        assert(views[i as int].id == id@);
        assert(!(found->0 < i));
        assert(!(i < found->0));
    } else {
        law_search_by_id(views, id@, None);
        if found is Some {
            assert(views[found->0 as int].id == id@);
        }
    }
}

/// An existing account is found exactly when a user id is given and is the user id or the
/// client id hash of an account, at the first place where it is. The email does not count.
pub proof fn law_find_existing_call(
    accounts: &[Account],
    user_id: Option<&String>,
    email: Option<&String>,
    found: Option<usize>,
)
    requires
        call_ensures(find_existing_account, (accounts, user_id, email), found),
    ensures
        user_id is None ==> found is None,
        user_id matches Some(uid) ==> {
            &&& found is Some <==> exists|j: int|
                0 <= j < accounts@.len() && (((#[trigger] accounts@[j]).user_id matches Some(u)
                    && u@ == uid@) || (accounts@[j].client_id_hash matches Some(h) && h@ == uid@))
            &&& found matches Some(i) ==> {
                &&& i < accounts@.len()
                &&& (accounts@[i as int].user_id matches Some(u) && u@ == uid@) || (
                accounts@[i as int].client_id_hash matches Some(h) && h@ == uid@)
                &&& forall|j: int|
                    0 <= j < i ==> !((#[trigger] accounts@[j]).user_id matches Some(u) && u@
                        == uid@) && !(accounts@[j].client_id_hash matches Some(h) && h@ == uid@)
            }
        },
{
    let views = account_views(accounts@);
    let wanted = crate::text::opt_ref_text(user_id);
    law_search_by_user_id(views, wanted, found);
    if user_id is Some {
        let uid = user_id->0;
        assert forall|j: int| 0 <= j < accounts@.len() implies ((views[j].user_id == wanted) == ((
        #[trigger] accounts@[j]).user_id matches Some(u) && u@ == uid@)) && ((
        views[j].client_id_hash == wanted) == (accounts@[j].client_id_hash matches Some(h) && h@
            == uid@)) by {}
        if found is Some {
            let i = found->0 as int;
            assert(views[i] == accounts@[i]@);
        }
    }
}

// ---------------------------------------------------------------------------
// Tokens
// ---------------------------------------------------------------------------

/// A text makes a token exactly when it is JSON with both tokens in it; the token holds
/// them as they are written.
pub proof fn law_parse_token_call(
    text: &str,
    r: Result<CliToken, String>,
    members: Map<Seq<char>, JsonMember>,
    access: Seq<char>,
    refresh: Seq<char>,
)
    requires
        call_ensures(parse_cli_token, (text,), r),
    ensures
        json_parse(text@) matches Err(words) ==> (r matches Err(e) && e@
            == "解析 kiro-auth-token-cli.json 失败: "@ + words),
        json_parse(text@) == Ok::<Map<Seq<char>, JsonMember>, Seq<char>>(members) ==> {
            &&& r is Ok <==> {
                &&& exists|a: Seq<char>| #[trigger]
                    members.contains_pair("accessToken"@, JsonMember::Text(a))
                &&& exists|b: Seq<char>| #[trigger]
                    members.contains_pair("refreshToken"@, JsonMember::Text(b))
            }
            &&& members.contains_pair("accessToken"@, JsonMember::Text(access))
                && members.contains_pair("refreshToken"@, JsonMember::Text(refresh)) ==> (
            r matches Ok(t) && t.access_token@ == access && t.refresh_token@ == refresh)
        },
{
    if json_parse(text@) == Ok::<Map<Seq<char>, JsonMember>, Seq<char>>(members) {
        law_token_needs_both_tokens(text@, members);
        if members.contains_pair("accessToken"@, JsonMember::Text(access))
            && members.contains_pair("refreshToken"@, JsonMember::Text(refresh)) {
            law_token_holds_its_members(text@, members, access, refresh, access);
        }
    }
}

/// What was read is parsed; a file that is missing or cannot be read is told of. The fields
/// of a document make a token exactly when both tokens are among them.
pub proof fn law_read_token_calls(
    read: FileRead,
    r: Result<CliToken, String>,
    fields: TokenFields,
    c: Result<CliToken, String>,
)
    requires
        call_ensures(read_cli_token, (read,), r),
        call_ensures(complete_token, (fields,), c),
    ensures
        read matches FileRead::Missing { path } ==> (r matches Err(e) && e@
            == "未找到 kiro-cli token 文件: "@ + path@),
        read matches FileRead::Unreadable { reason } ==> (r matches Err(e) && e@
            == "读取 kiro-auth-token-cli.json 失败: "@ + reason@),
        read matches FileRead::Content { text } ==> (json_parse(text@) is Err ==> r is Err),
        c is Ok <==> fields.access_token is Some && fields.refresh_token is Some,
        c matches Ok(t) ==> {
            &&& t.access_token@ == fields.access_token->0@
            &&& t.refresh_token@ == fields.refresh_token->0@
            &&& fields.auth_method matches Some(s) ==> t.auth_method@ == s@
            &&& fields.auth_method is None ==> t.auth_method@ == "IdC"@
            &&& fields.region matches Some(s) ==> t.region@ == s@
            &&& fields.region is None ==> t.region@ == "us-east-1"@
            &&& fields.expires_at matches Some(s) ==> (t.expires_at matches Some(x) && x@ == s@)
            &&& fields.expires_at is None ==> t.expires_at is None
            &&& fields.client_id_hash matches Some(s) ==> (t.client_id_hash matches Some(x) && x@
                == s@)
            &&& fields.client_id_hash is None ==> t.client_id_hash is None
            &&& fields.start_url matches Some(s) ==> (t.start_url matches Some(x) && x@ == s@)
            &&& fields.start_url is None ==> t.start_url is None
            &&& fields.profile_arn matches Some(s) ==> (t.profile_arn matches Some(x) && x@ == s@)
            &&& fields.profile_arn is None ==> t.profile_arn is None
        },
        c matches Err(e) ==> {
            &&& fields.access_token is None ==> e@ == "kiro-auth-token-cli.json 缺少 accessToken"@
            &&& fields.access_token is Some ==> e@
                == "kiro-auth-token-cli.json 缺少 refreshToken"@
        },
{
}

/// The provider of a token, and its name.
pub proof fn law_provider_calls(token: &CliToken, p: Provider, name: String)
    requires
        call_ensures(detect_provider, (token,), p),
        call_ensures(Provider::name, (p,), name),
    ensures
        token.auth_method@ == "IdC"@ ==> {
            &&& p == Provider::Enterprise <==> (token.start_url matches Some(url) && !occurs_in(
                unicode_lowercase(url@),
                "view.awsapps.com"@,
            ))
            &&& p == Provider::Enterprise || p == Provider::BuilderId
        },
        token.auth_method@ != "IdC"@ ==> {
            &&& p == Provider::Github <==> (token.profile_arn matches Some(arn) && occurs_in(
                unicode_lowercase(arn@),
                "github"@,
            ))
            &&& p == Provider::Github || p == Provider::Google
        },
        p == Provider::Enterprise ==> name@ == "Enterprise"@,
        p == Provider::BuilderId ==> name@ == "BuilderId"@,
        p == Provider::Github ==> name@ == "Github"@,
        p == Provider::Google ==> name@ == "Google"@,
{
}

/// The provider, decided on texts that are in lowercase already.
pub proof fn law_choose_provider_call(
    auth_method: &str,
    url: &Option<String>,
    arn: &Option<String>,
    p: Provider,
)
    requires
        call_ensures(choose_provider, (auth_method, url, arn), p),
    ensures
        auth_method@ == "IdC"@ ==> {
            &&& p == Provider::Enterprise <==> (*url matches Some(u) && !occurs_in(
                u@,
                "view.awsapps.com"@,
            ))
            &&& p == Provider::Enterprise || p == Provider::BuilderId
        },
        auth_method@ != "IdC"@ ==> {
            &&& p == Provider::Github <==> (*arn matches Some(a) && occurs_in(a@, "github"@))
            &&& p == Provider::Github || p == Provider::Google
        },
{
}

/// How the account of a token is identified, and where its client registration stands.
pub proof fn law_identity_calls(token: &CliToken, id: String, file: Option<String>)
    requires
        call_ensures(import_user_id, (token,), id),
        call_ensures(registration_name, (token,), file),
    ensures
        token.client_id_hash matches Some(hash) ==> id@ == hash@,
        token.client_id_hash is None ==> {
            &&& id@.len() == if token.refresh_token@.len() < 20 {
                token.refresh_token@.len() as int
            } else {
                20int
            }
            &&& forall|i: int| 0 <= i < id@.len() ==> #[trigger] id@[i] == token.refresh_token@[i]
        },
        file is Some <==> token.auth_method@ == "IdC"@ && token.client_id_hash is Some,
        file matches Some(name) ==> name@ == token.client_id_hash->0@ + ".json"@,
{
}

/// A client registration holds exactly the string members of its document.
pub proof fn law_parse_registration_call(
    content: Option<&String>,
    reg: ClientRegistration,
    s: Seq<char>,
)
    requires
        call_ensures(parse_registration, (content,), reg),
    ensures
        (reg.client_id matches Some(id) && id@ == s) <==> (content matches Some(text)
            && json_parse(text@) matches Ok(members) && members.contains_pair(
            "clientId"@,
            JsonMember::Text(s),
        )),
        (reg.client_secret matches Some(x) && x@ == s) <==> (content matches Some(text)
            && json_parse(text@) matches Ok(members) && members.contains_pair(
            "clientSecret"@,
            JsonMember::Text(s),
        )),
{
    assert((reg.client_id matches Some(id) && id@ == s) <==> reg@.client_id == Some(s));
    assert((reg.client_secret matches Some(x) && x@ == s) <==> reg@.client_secret == Some(s));
}

// ---------------------------------------------------------------------------
// Imports
// ---------------------------------------------------------------------------

/// A plan keeps its token; labels show the start URL or stay.
pub proof fn law_plan_calls(
    token: CliToken,
    plan: ImportPlan,
    fresh: String,
    accounts: &[Account],
    index: usize,
    kept: String,
)
    requires
        call_ensures(plan_import, (token,), plan),
        call_ensures(new_label, (&plan,), fresh),
        call_ensures(kept_label, (accounts, index), kept),
    ensures
        plan.token@ == token@,
        token.client_id_hash matches Some(hash) ==> plan.user_id@ == hash@,
        token.start_url matches Some(url) ==> fresh@ == "从 kiro-cli 导入 ("@ + url@ + ")"@,
        token.start_url is None ==> fresh@ == "从 kiro-cli 导入 ("@ + "BuilderId"@ + ")"@,
        index < accounts@.len() ==> kept@ == accounts@[index as int].label@,
        index >= accounts@.len() ==> kept@ == "从 kiro-cli 导入"@,
{
    assert(plan@.token == token@);
}

/// Filling an account writes each field of the token under its own name.
pub proof fn law_fill_call(
    base: Account,
    label: String,
    plan: &ImportPlan,
    reg: ClientRegistration,
    r: Account,
)
    requires
        call_ensures(fill_account, (base, label, plan, reg), r),
    ensures
        r.label@ == label@,
        r.access_token matches Some(s) && s@ == plan.token.access_token@,
        r.refresh_token matches Some(s) && s@ == plan.token.refresh_token@,
        r@.expires_at == plan.token@.expires_at,
        r.user_id matches Some(s) && s@ == plan.user_id@,
        r.oidc_region matches Some(s) && s@ == plan.token.region@,
        r.region matches Some(s) && s@ == plan.token.region@,
        r.auth_method matches Some(s) && s@ == plan.token.auth_method@,
        r@.client_id_hash == plan.token@.client_id_hash,
        r@.start_url == plan.token@.start_url,
        r@.client_id == reg@.client_id,
        r@.client_secret == reg@.client_secret,
        r@.profile_arn == if plan.token.auth_method@ == "IdC"@ {
            base@.profile_arn
        } else {
            plan.token@.profile_arn
        },
        r.provider matches Some(s) && s@ == plan.provider.name_text(),
        r.id@ == base.id@,
        r@.email == base@.email,
        r.status@ == base.status@,
        r@.machine_id == base@.machine_id,
        r@.usage_data == base@.usage_data,
{
    assert(r@.access_token is Some);
    assert(r@.refresh_token is Some);
    assert(r@.user_id is Some);
    assert(r@.oidc_region is Some);
    assert(r@.region is Some);
    assert(r@.auth_method is Some);
    assert(r@.provider is Some);
}

/// How an account is started and which quota is asked for.
pub proof fn law_seed_and_query_calls(
    plan: &ImportPlan,
    label: String,
    seed: AccountSeed,
    account: &Account,
    provider: Provider,
    query: UsageQuery,
)
    requires
        call_ensures(account_seed, (plan, label), seed),
        call_ensures(usage_query, (account, provider), query),
    ensures
        plan.provider == Provider::Enterprise || plan.provider == Provider::BuilderId ==> (
        seed matches AccountSeed::Enterprise { user_id, label: l } && user_id@ == plan.user_id@
            && l@ == label@),
        plan.provider == Provider::Github || plan.provider == Provider::Google ==> (
        seed matches AccountSeed::Social { email, label: l } && email@.len() == 0 && l@ == label@),
        provider == Provider::Enterprise <==> query is Probe,
        query matches UsageQuery::Probe { access_token, machine_id } ==> {
            &&& account.access_token matches Some(t) ==> access_token@ == t@
            &&& account.access_token is None ==> access_token@.len() == 0
            &&& machine_id matches Some(m) ==> (account.machine_id matches Some(x) && x@ == m@)
            &&& machine_id is None ==> account.machine_id is None
        },
        query matches UsageQuery::Direct { provider: name, access_token } ==> {
            &&& account.access_token matches Some(t) ==> access_token@ == t@
            &&& account.access_token is None ==> access_token@.len() == 0
            &&& name@ == provider.name_text()
        },
{
}

/// Recording the outcome of asking for a quota: a report of either kind is written with
/// what it names and gives its standing; without one the account becomes invalid.
pub proof fn law_record_usage_call(
    account: &mut Account,
    outcome: UsageOutcome,
    r: Option<Standing>,
)
    requires
        call_ensures(record_usage, (account, outcome), r),
    ensures
        outcome is Failed ==> {
            &&& r is None
            &&& final(account)@ == (AccountView { status: "invalid"@, ..old(account)@ })
        },
        outcome matches UsageOutcome::Reported { report } ==> {
            &&& r matches Some(s) && s.is_banned == report.is_banned && s.is_auth_error
                == report.is_auth_error
            &&& final(account)@.usage_data == Some(report.usage_data@)
            &&& report.email matches Some(e) ==> final(account)@.email == Some(e@)
            &&& report.email is None ==> final(account)@.email == old(account)@.email
            &&& report.user_id matches Some(u) ==> final(account)@.user_id == Some(u@)
            &&& report.user_id is None ==> final(account)@.user_id == old(account)@.user_id
            &&& final(account)@.region == old(account)@.region
        },
        outcome matches UsageOutcome::Probed { detected_region, report } ==> {
            &&& r matches Some(s) && s.is_banned == report.is_banned && s.is_auth_error
                == report.is_auth_error
            &&& final(account)@.usage_data == Some(report.usage_data@)
            &&& report.email matches Some(e) ==> final(account)@.email == Some(e@)
            &&& report.email is None ==> final(account)@.email == old(account)@.email
            &&& report.user_id matches Some(u) ==> final(account)@.user_id == Some(u@)
            &&& report.user_id is None ==> final(account)@.user_id == old(account)@.user_id
            &&& detected_region@.len() > 0 ==> final(account)@.region == Some(detected_region@)
            &&& detected_region@.len() == 0 ==> final(account)@.region == old(account)@.region
        },
        outcome !is Failed ==> final(account)@ == (AccountView {
            email: final(account)@.email,
            user_id: final(account)@.user_id,
            region: final(account)@.region,
            usage_data: final(account)@.usage_data,
            ..old(account)@
        }),
{
}

/// Storing an import that takes the place of an account: that place holds the imported
/// account with the id and the machine id that stood there, and every other stays.
pub proof fn law_store_again_call(
    accounts: &mut Vec<Account>,
    i: usize,
    account: Account,
    r: KiroCliImportResult,
    j: int,
)
    requires
        i < old(accounts)@.len(),
        call_ensures(store_import, (accounts, Some(i), account), r),
    ensures
        r.success && !r.is_new && r.error is None,
        final(accounts)@.len() == old(accounts)@.len(),
        final(accounts)@[i as int]@ == (AccountView {
            id: old(accounts)@[i as int]@.id,
            machine_id: old(accounts)@[i as int]@.machine_id,
            ..account@
        }),
        r.account matches Some(saved) && saved@ == final(accounts)@[i as int]@,
        0 <= j < old(accounts)@.len() && j != i ==> final(accounts)@[j]@ == old(accounts)@[j]@,
{
    let before = account_views(old(accounts)@);
    let after = account_views(final(accounts)@);
    assert(after.len() == final(accounts)@.len());
    assert(after[i as int] == final(accounts)@[i as int]@);
    assert(before[i as int] == old(accounts)@[i as int]@);
    if 0 <= j < old(accounts)@.len() {
        assert(after[j] == final(accounts)@[j]@);
        assert(before[j] == old(accounts)@[j]@);
    }
}

/// Storing an import as a new account: it stands behind all others, which stay, with the
/// machine id that it has or else with a random one.
pub proof fn law_store_new_call(
    accounts: &mut Vec<Account>,
    account: Account,
    r: KiroCliImportResult,
    j: int,
)
    requires
        call_ensures(store_import, (accounts, None, account), r),
    ensures
        r.success && r.is_new && r.error is None,
        final(accounts)@.len() == old(accounts)@.len() + 1,
        ({
            let saved = final(accounts)@[old(accounts)@.len() as int]@;
            &&& r.account matches Some(s) && s@ == saved
            &&& account@.machine_id is Some ==> saved == account@
            &&& account@.machine_id is None ==> {
                &&& saved.machine_id matches Some(m) && is_new_machine_id(m) && m.len() == 36
                &&& saved == AccountView { machine_id: saved.machine_id, ..account@ }
            }
        }),
        0 <= j < old(accounts)@.len() ==> final(accounts)@[j]@ == old(accounts)@[j]@,
{
    let before = account_views(old(accounts)@);
    let after = account_views(final(accounts)@);
    let n = old(accounts)@.len() as int;
    assert(after.len() == final(accounts)@.len());
    assert(after[n] == final(accounts)@[n]@);
    if 0 <= j < n {
        assert(after[j] == final(accounts)@[j]@);
        assert(before[j] == old(accounts)@[j]@);
    }
}

/// Storing an import as a new account with a machine id at hand: that one is taken exactly
/// when the account has none.
pub proof fn law_store_with_call(
    accounts: &mut Vec<Account>,
    account: Account,
    machine_id: String,
    r: KiroCliImportResult,
    j: int,
)
    requires
        call_ensures(store_import_with, (accounts, None, account, machine_id), r),
    ensures
        r.success && r.is_new && r.error is None,
        final(accounts)@.len() == old(accounts)@.len() + 1,
        r.account matches Some(s) && s@ == final(accounts)@[old(accounts)@.len() as int]@,
        final(accounts)@[old(accounts)@.len() as int]@ == (AccountView {
            machine_id: if account@.machine_id is Some {
                account@.machine_id
            } else {
                Some(machine_id@)
            },
            ..account@
        }),
        0 <= j < old(accounts)@.len() ==> final(accounts)@[j]@ == old(accounts)@[j]@,
{
    let before = account_views(old(accounts)@);
    let after = account_views(final(accounts)@);
    let n = old(accounts)@.len() as int;
    assert(after.len() == final(accounts)@.len());
    assert(after[n] == final(accounts)@[n]@);
    if 0 <= j < n {
        assert(after[j] == final(accounts)@[j]@);
        assert(before[j] == old(accounts)@[j]@);
    }
}

/// A whole import, from the text of the token file to the account that is stored: whatever
/// the store, the registration file and the quota report hold, the account has the tokens
/// of the file, and the email of the report where it names one.
pub proof fn law_import_run(
    text: String,
    members: Map<Seq<char>, JsonMember>,
    access: Seq<char>,
    refresh: Seq<char>,
    content: Option<String>,
    existing: Option<usize>,
    label: String,
    base: Account,
    outcome: UsageOutcome,
    status: String,
    r1: (ImportState, ImportAction),
    r2: (ImportState, ImportAction),
    r3: (ImportState, ImportAction),
    r4: (ImportState, ImportAction),
    r5: (ImportState, ImportAction),
    r6: (ImportState, ImportAction),
    r7: (ImportState, ImportAction),
)
    requires
        json_parse(text@) == Ok::<Map<Seq<char>, JsonMember>, Seq<char>>(members),
        members.contains_pair("accessToken"@, JsonMember::Text(access)),
        members.contains_pair("refreshToken"@, JsonMember::Text(refresh)),
        call_ensures(
            import_step,
            (
                ImportState::Reading,
                ImportEvent::TokenRead { read: FileRead::Content { text } },
            ),
            r1,
        ),
        if r1.0 is Registering {
            call_ensures(import_step, (r1.0, ImportEvent::RegistrationRead { content }), r2)
        } else {
            r2 == r1
        },
        call_ensures(import_step, (r2.0, ImportEvent::Searched { existing }), r3),
        if r3.0 is Naming {
            call_ensures(import_step, (r3.0, ImportEvent::Named { label }), r4)
        } else {
            r4 == r3
        },
        call_ensures(import_step, (r4.0, ImportEvent::Started { account: base }), r5),
        call_ensures(import_step, (r5.0, ImportEvent::Answered { outcome }), r6),
        if r6.0 is Rating {
            call_ensures(import_step, (r6.0, ImportEvent::Rated { status }), r7)
        } else {
            r7 == r6
        },
    ensures
        r7.0 matches ImportState::Storing { account, existing: place } && {
            &&& place == existing
            &&& account@.access_token == Some(access)
            &&& account@.refresh_token == Some(refresh)
            &&& account@.id == base@.id
            &&& account@.machine_id == base@.machine_id
            &&& existing is Some ==> account@.label == label@
            &&& outcome is Failed ==> account@.status == "invalid"@ && account@.email == base@.email
                && account@.usage_data == base@.usage_data
            &&& outcome !is Failed ==> account@.status == status@
            &&& outcome matches UsageOutcome::Reported { report } ==> {
                &&& account@.usage_data == Some(report.usage_data@)
                &&& report.email matches Some(e) ==> account@.email == Some(e@)
                &&& report.email is None ==> account@.email == base@.email
                &&& report.user_id matches Some(u) ==> account@.user_id == Some(u@)
            }
            &&& outcome matches UsageOutcome::Probed { detected_region, report } ==> {
                &&& account@.usage_data == Some(report.usage_data@)
                &&& report.email matches Some(e) ==> account@.email == Some(e@)
                &&& report.email is None ==> account@.email == base@.email
                &&& report.user_id matches Some(u) ==> account@.user_id == Some(u@)
                &&& detected_region@.len() > 0 ==> account@.region == Some(detected_region@)
            }
        },
        r7.1 is Store,
{
    law_token_holds_its_members(text@, members, access, refresh, access);
}

// ---------------------------------------------------------------------------
// Switches
// ---------------------------------------------------------------------------

/// Which login an account has, and under which keys what belongs to a login is written.
pub proof fn law_login_calls(
    account: &Account,
    login: Result<Login, String>,
    kind: Login,
    token: String,
    device: String,
    payload: KiroCliSwitchPayload,
)
    requires
        call_ensures(login_kind, (account,), login),
        call_ensures(payload_under, (kind, token, device), payload),
    ensures
        login == Ok::<Login, String>(Login::IdC) <==> (account.provider matches Some(p) && p@
            == "BuilderId"@),
        login == Ok::<Login, String>(Login::Social) <==> (account.provider matches Some(p) && (p@
            == "Google"@ || p@ == "Github"@)),
        account.provider is None ==> (login matches Err(e) && e@ == "账号缺少 provider 字段"@),
        login matches Err(e) ==> (account.provider matches Some(p) ==> e@
            == "不支持的 provider: "@ + p@),
        kind == Login::IdC ==> payload.token_key@ == "kirocli:odic:token"@
            && payload.device_reg_key@ == "kirocli:odic:device-registration"@,
        kind == Login::Social ==> payload.token_key@ == "kirocli:social:token"@
            && payload.device_reg_key@ == "kirocli:social:device-registration"@,
        payload.token_value@ == token@,
        payload.device_reg_value@ == device@,
{
    crate::laws_switch::law_login_of_account(account@);
}

/// Renewing writes the new tokens and their expiry and keeps the rest.
pub proof fn law_renew_call(account: Account, tokens: RefreshedTokens, now: Timestamp, r: Account)
    requires
        call_ensures(renew_account, (account, tokens, now), r),
    ensures
        r@.access_token == Some(tokens.access_token@),
        tokens.refresh_token matches Some(s) ==> r@.refresh_token == Some(s@),
        tokens.refresh_token is None ==> r@.refresh_token is None,
        r@.expires_at == Some(rfc3339_text(now.seconds + tokens.expires_in, now.nanos as int)),
        r@ == (AccountView {
            access_token: r@.access_token,
            refresh_token: r@.refresh_token,
            expires_at: r@.expires_at,
            ..account@
        }),
{
}

/// Recording a quota report: the first account with the id gets it and nothing else of it
/// changes; every other account stays, and without such an account the whole store does.
pub proof fn law_record_report_call(
    accounts: &mut Vec<Account>,
    id: &str,
    usage_data: String,
    found: Option<usize>,
    j: int,
)
    requires
        call_ensures(record_report, (accounts, id, usage_data), found),
    ensures
        found is Some <==> exists|k: int|
            0 <= k < old(accounts)@.len() && (#[trigger] old(accounts)@[k]).id@ == id@,
        final(accounts)@.len() == old(accounts)@.len(),
        found matches Some(i) ==> {
            &&& i < old(accounts)@.len()
            &&& old(accounts)@[i as int].id@ == id@
            &&& forall|k: int| 0 <= k < i ==> (#[trigger] old(accounts)@[k]).id@ != id@
            &&& final(accounts)@[i as int]@ == (AccountView {
                usage_data: Some(usage_data@),
                ..old(accounts)@[i as int]@
            })
        },
        0 <= j < old(accounts)@.len() && (found matches Some(i) ==> i != j)
            ==> final(accounts)@[j]@ == old(accounts)@[j]@,
{
    let before = account_views(old(accounts)@);
    let after = account_views(final(accounts)@);
    law_search_by_id(before, id@, found);
    assert(after.len() == final(accounts)@.len());
    assert forall|k: int| 0 <= k < old(accounts)@.len() implies before[k].id == (
    #[trigger] old(accounts)@[k]).id@ by {}
    if found is Some {
        let i = found->0 as int;
        assert(before[i] == old(accounts)@[i]@);
        assert(after[i] == final(accounts)@[i]@);
    }
    if 0 <= j < old(accounts)@.len() {
        assert(before[j] == old(accounts)@[j]@);
        assert(after[j] == final(accounts)@[j]@);
    }
}

/// What is written for an account reads back whole: its tokens, its client id and secret,
/// its region and its profile ARN.
pub proof fn law_payload_call(
    account: &Account,
    now: Timestamp,
    r: Option<Result<KiroCliSwitchPayload, String>>,
)
    requires
        call_ensures(build_switch_payload_at, (account, now), r),
    ensures
        r matches Some(Ok(payload)) ==> {
            &&& json_parse(payload.token_value@) matches Ok(token) && {
                &&& account.access_token matches Some(s) ==> token.contains_pair(
                    "access_token"@,
                    JsonMember::Text(s@),
                )
                &&& account.refresh_token matches Some(s) ==> token.contains_pair(
                    "refresh_token"@,
                    JsonMember::Text(s@),
                )
                &&& account.region matches Some(s) ==> token.contains_pair(
                    "region"@,
                    JsonMember::Text(s@),
                )
                &&& account.profile_arn matches Some(s) ==> token.contains_pair(
                    "profile_arn"@,
                    JsonMember::Text(s@),
                )
                &&& token.contains_pair(
                    "expires_at"@,
                    JsonMember::Text(rfc3339_text(now.seconds + 3600, now.nanos as int)),
                )
            }
            &&& json_parse(payload.device_reg_value@) matches Ok(device) && {
                &&& account.client_id matches Some(s) ==> device.contains_pair(
                    "client_id"@,
                    JsonMember::Text(s@),
                )
                &&& account.client_secret matches Some(s) ==> device.contains_pair(
                    "client_secret"@,
                    JsonMember::Text(s@),
                )
                &&& account.region matches Some(s) ==> device.contains_pair(
                    "region"@,
                    JsonMember::Text(s@),
                )
            }
            &&& account.provider matches Some(p) && (p@ == "BuilderId"@ ==> payload.token_key@
                == "kirocli:odic:token"@ && payload.device_reg_key@
                == "kirocli:odic:device-registration"@) && (p@ != "BuilderId"@
                ==> payload.token_key@ == "kirocli:social:token"@ && payload.device_reg_key@
                == "kirocli:social:device-registration"@)
        },
{
    law_payload_is_answered(account@, now, r);
    if r is Some && r->0 is Ok {
        let payload = r->0->Ok_0;
        let login = if account@.provider == Some("BuilderId"@) {
            Login::IdC
        } else {
            Login::Social
        };
        law_token_document(account@, login, now, payload@);
        law_device_document(account@, login, now, payload@, "region"@);
    }
}

/// The same of a payload that is made by the clock: it is refused for a provider without a
/// login, and otherwise made for one hour after a reading of the clock.
pub proof fn law_payload_by_the_clock_call(
    account: &Account,
    r: Option<Result<KiroCliSwitchPayload, String>>,
)
    requires
        call_ensures(build_switch_payload, (account,), r),
    ensures
        account.provider is None ==> (r matches Some(Err(e)) && e@ == "账号缺少 provider 字段"@),
        account.provider matches Some(p) ==> (p@ != "BuilderId"@ && p@ != "Google"@ && p@
            != "Github"@ ==> (r matches Some(Err(e)) && e@ == "不支持的 provider: "@ + p@)),
        r matches Some(Err(e)) ==> (account.provider matches Some(p) ==> p@ != "BuilderId"@ && p@
            != "Google"@ && p@ != "Github"@),
        r matches Some(Ok(payload)) ==> exists|now: Timestamp| #[trigger]
            is_clock_reading(now) && 0 <= now.seconds && (json_parse(
                payload.token_value@,
            ) matches Ok(token) && token.contains_pair(
                "expires_at"@,
                JsonMember::Text(rfc3339_text(now.seconds + 3600, now.nanos as int)),
            ) && (account.access_token matches Some(s) ==> token.contains_pair(
                "access_token"@,
                JsonMember::Text(s@),
            )) && (account.refresh_token matches Some(s) ==> token.contains_pair(
                "refresh_token"@,
                JsonMember::Text(s@),
            ))),
        r is None ==> exists|now: Timestamp| #[trigger]
            is_clock_reading(now) && now.seconds + 3600 > 8210266876799,
{
    let now = choose|now: Timestamp|
        {
            &&& #[trigger] is_clock_reading(now)
            &&& now.wf()
            &&& now.seconds >= 0
            &&& crate::switch::payload_answer(account@, now, r)
        };
    law_payload_is_answered(account@, now, r);
    if r is Some && r->0 is Ok {
        let login = if account@.provider == Some("BuilderId"@) {
            Login::IdC
        } else {
            Login::Social
        };
        law_token_document(account@, login, now, (r->0->Ok_0)@);
    }
}

/// A whole switch without a renewal, from the account that was selected to what is written:
/// the account that is written is the one that was selected.
pub proof fn law_switch_run(
    account_id: String,
    selected: Account,
    r1: (SwitchState, SwitchAction),
    r2: (SwitchState, SwitchAction),
    r3: (SwitchState, SwitchAction),
)
    requires
        selected@.provider is Some,
        selected@.access_token is Some,
        call_ensures(
            switch_step,
            (
                SwitchState::Selecting { account_id },
                SwitchEvent::Selected { account: Some(selected) },
            ),
            r1,
        ),
        if r1.0 is Refreshing {
            call_ensures(switch_step, (r1.0, SwitchEvent::Refreshed { tokens: None }), r2)
        } else {
            r2 == r1
        },
        call_ensures(switch_step, (r2.0, SwitchEvent::Answered { report: None }), r3),
    ensures
        selected@.refresh_token is Some <==> r1.0 is Refreshing,
        r2.1 matches SwitchAction::Ask { provider, access_token } && Some(provider@)
            == selected@.provider && Some(access_token@) == selected@.access_token,
        r3.0 matches SwitchState::Ready { account } && account@ == selected@,
        r3.1 is Write,
{
}

/// A whole switch with a renewal, a quota report and a record of it: the quota is asked for
/// with the new access token, a banned account that is still listed is refused, and any
/// other is written with the new tokens.
pub proof fn law_switch_run_with_renewal(
    account_id: String,
    selected: Account,
    tokens: RefreshedTokens,
    now: Timestamp,
    report: QuotaReport,
    listed: bool,
    r1: (SwitchState, SwitchAction),
    r2: (SwitchState, SwitchAction),
    r3: (SwitchState, SwitchAction),
    r4: (SwitchState, SwitchAction),
    r5: (SwitchState, SwitchAction),
)
    requires
        selected@.provider is Some,
        selected@.refresh_token is Some,
        call_ensures(
            switch_step,
            (
                SwitchState::Selecting { account_id },
                SwitchEvent::Selected { account: Some(selected) },
            ),
            r1,
        ),
        call_ensures(switch_step, (r1.0, SwitchEvent::Refreshed { tokens: Some(tokens) }), r2),
        call_ensures(switch_step, (r2.0, SwitchEvent::Stored { now }), r3),
        call_ensures(switch_step, (r3.0, SwitchEvent::Answered { report: Some(report) }), r4),
        call_ensures(switch_step, (r4.0, SwitchEvent::Recorded { listed }), r5),
    ensures
        r1.1 matches SwitchAction::Refresh { account } && account@ == selected@,
        r2.1 is StoreTokens,
        r3.1 matches SwitchAction::Ask { provider, access_token } && Some(provider@)
            == selected@.provider && access_token@ == tokens.access_token@,
        r4.1 matches SwitchAction::Record { usage_data, standing } && usage_data@
            == report.usage_data@ && standing.is_banned == report.standing.is_banned
            && standing.is_auth_error == report.standing.is_auth_error,
        report.standing.is_banned && listed ==> {
            &&& r5.0 is Failed
            &&& r5.1 matches SwitchAction::Fail { message } && message@
                == "账号已被封禁，无法切换到 CLI"@
        },
        !(report.standing.is_banned && listed) ==> {
            &&& r5.1 is Write
            &&& r5.0 matches SwitchState::Ready { account } && {
                &&& account@.access_token == Some(tokens.access_token@)
                &&& tokens.refresh_token matches Some(s) ==> account@.refresh_token == Some(s@)
                &&& tokens.refresh_token is None ==> account@.refresh_token is None
                &&& account@.expires_at == Some(
                    rfc3339_text(now.seconds + tokens.expires_in, now.nanos as int),
                )
                &&& account@ == AccountView {
                    access_token: account@.access_token,
                    refresh_token: account@.refresh_token,
                    expires_at: account@.expires_at,
                    ..selected@
                }
            }
        },
{
}

} // verus!

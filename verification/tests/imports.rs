use kiro_cli::account::{find_existing_account, Account};
use kiro_cli::import::{
    account_seed, fill_account, kept_label, new_label, plan_import, record_usage, store_import, store_import_with,
    usage_query, AccountSeed, Standing, UsageOutcome, UsageQuery, UsageReport,
};
use kiro_cli::import_run::{import_step, ImportAction, ImportEvent, ImportState};
use kiro_cli::token::{
    choose_provider, complete_token, detect_provider, import_user_id, parse_cli_token, parse_registration,
    read_cli_token, registration_name, ClientRegistration, CliToken, FileRead, Provider, TokenFields,
};

fn some(s: &str) -> Option<String> {
    Some(s.to_string())
}

fn blank(id: &str) -> Account {
    Account {
        id: id.to_string(),
        email: None,
        label: String::new(),
        status: "active".to_string(),
        access_token: None,
        refresh_token: None,
        expires_at: None,
        provider: None,
        user_id: None,
        oidc_region: None,
        region: None,
        auth_method: None,
        client_id_hash: None,
        start_url: None,
        client_id: None,
        client_secret: None,
        profile_arn: None,
        machine_id: None,
        usage_data: None,
    }
}

fn token() -> CliToken {
    CliToken {
        access_token: "at".to_string(),
        refresh_token: "rt".to_string(),
        expires_at: some("2026-01-01T00:00:00Z"),
        auth_method: "IdC".to_string(),
        region: "eu-west-1".to_string(),
        client_id_hash: some("h4sh"),
        start_url: some("https://acme.awsapps.com/start"),
        profile_arn: some("arn:x"),
    }
}

fn report() -> UsageReport {
    UsageReport {
        usage_data: "{}".to_string(),
        email: some("a@b.c"),
        user_id: some("api-user"),
        is_banned: false,
        is_auth_error: true,
    }
}

const FULL: &str = r#"{"accessToken":"at","refreshToken":"rt","expiresAt":"2026-01-01T00:00:00Z",
    "authMethod":"IdC","region":"eu-west-1","clientIdHash":"h4sh",
    "startUrl":"https://acme.awsapps.com/start","profileArn":"arn:x"}"#;

#[test]
fn token_file_is_read_whole() {
    assert_eq!(parse_cli_token(FULL), Ok(token()));
}

#[test]
fn token_file_defaults() {
    let t = parse_cli_token(r#"{"accessToken":"a","refreshToken":"r","authMethod":3,"region":null}"#).unwrap();
    assert_eq!(t.auth_method, "IdC");
    assert_eq!(t.region, "us-east-1");
    assert_eq!(t.expires_at, None);
    assert_eq!(t.client_id_hash, None);
    assert_eq!(t.start_url, None);
    assert_eq!(t.profile_arn, None);
}

#[test]
fn token_file_without_tokens() {
    let e = parse_cli_token(r#"{"refreshToken":"r"}"#).unwrap_err();
    assert_eq!(e, "kiro-auth-token-cli.json 缺少 accessToken");
    let e = parse_cli_token(r#"{"accessToken":1,"refreshToken":"r"}"#).unwrap_err();
    assert_eq!(e, "kiro-auth-token-cli.json 缺少 accessToken");
    let e = parse_cli_token(r#"{"accessToken":"a"}"#).unwrap_err();
    assert_eq!(e, "kiro-auth-token-cli.json 缺少 refreshToken");
    // A document that is no object has no members.
    let e = parse_cli_token(r#"["accessToken"]"#).unwrap_err();
    assert_eq!(e, "kiro-auth-token-cli.json 缺少 accessToken");
}

#[test]
fn token_file_that_is_not_json() {
    let reason = serde_json::from_str::<serde_json::Value>("{oops").unwrap_err().to_string();
    let e = parse_cli_token("{oops").unwrap_err();
    assert_eq!(e, format!("解析 kiro-auth-token-cli.json 失败: {reason}"));
}

#[test]
fn token_file_that_cannot_be_read() {
    let e = read_cli_token(FileRead::Missing { path: "/h/x.json".to_string() }).unwrap_err();
    assert_eq!(e, "未找到 kiro-cli token 文件: /h/x.json");
    let e = read_cli_token(FileRead::Unreadable { reason: "denied".to_string() }).unwrap_err();
    assert_eq!(e, "读取 kiro-auth-token-cli.json 失败: denied");
    assert_eq!(read_cli_token(FileRead::Content { text: FULL.to_string() }), Ok(token()));
}

#[test]
fn fields_make_a_token() {
    let fields = |access: Option<String>, refresh: Option<String>| TokenFields {
        access_token: access,
        refresh_token: refresh,
        expires_at: None,
        auth_method: some("social"),
        region: None,
        client_id_hash: None,
        start_url: None,
        profile_arn: some("arn"),
    };
    let t = complete_token(fields(some("a"), some("r"))).unwrap();
    assert_eq!((t.auth_method.as_str(), t.region.as_str()), ("social", "us-east-1"));
    assert_eq!(t.profile_arn, some("arn"));
    assert!(complete_token(fields(None, None)).unwrap_err().contains("accessToken"));
    assert!(complete_token(fields(some("a"), None)).unwrap_err().contains("refreshToken"));
}

#[test]
fn providers() {
    let p = |m: &str, u: Option<&str>, a: Option<&str>| {
        choose_provider(m, &u.map(str::to_string), &a.map(str::to_string))
    };
    assert_eq!(p("IdC", None, Some("github")), Provider::BuilderId);
    assert_eq!(p("IdC", Some("https://view.awsapps.com/start"), None), Provider::BuilderId);
    assert_eq!(p("IdC", Some("https://acme.awsapps.com/start"), None), Provider::Enterprise);
    assert_eq!(p("IdC", Some(""), None), Provider::Enterprise);
    assert_eq!(p("social", Some("https://acme"), None), Provider::Google);
    assert_eq!(p("social", None, Some("arn:github:x")), Provider::Github);
    assert_eq!(p("social", None, Some("arn:google")), Provider::Google);
    assert_eq!(p("idc", None, None), Provider::Google);
    assert_eq!(Provider::Enterprise.name(), "Enterprise");
    assert_eq!(Provider::BuilderId.name(), "BuilderId");
    assert_eq!(Provider::Github.name(), "Github");
    assert_eq!(Provider::Google.name(), "Google");
}

#[test]
fn provider_ignores_case() {
    let mut t = token();
    t.start_url = some("HTTPS://VIEW.AWSAPPS.COM/start");
    assert_eq!(detect_provider(&t), Provider::BuilderId);
    t.start_url = some("https://acme.example/start");
    assert_eq!(detect_provider(&t), Provider::Enterprise);
    t.auth_method = "social".to_string();
    t.profile_arn = some("arn:aws:GitHub");
    assert_eq!(detect_provider(&t), Provider::Github);
}

#[test]
fn user_id_is_the_hash_or_the_start_of_the_refresh_token() {
    let mut t = token();
    assert_eq!(import_user_id(&t), "h4sh");
    t.client_id_hash = None;
    assert_eq!(import_user_id(&t), "rt");
    t.refresh_token = "账号abcdefghijklmnopqrstuvwxyz".to_string();
    assert_eq!(import_user_id(&t), "账号abcdefghijklmnopqr");
    assert_eq!(import_user_id(&t).chars().count(), 20);
}

#[test]
fn registration() {
    let mut t = token();
    assert_eq!(registration_name(&t), some("h4sh.json"));
    t.client_id_hash = None;
    assert_eq!(registration_name(&t), None);
    t.client_id_hash = some("h");
    t.auth_method = "social".to_string();
    assert_eq!(registration_name(&t), None);

    let read = parse_registration(Some(&r#"{"clientId":"cid","clientSecret":"sec"}"#.to_string()));
    assert_eq!(read, ClientRegistration { client_id: some("cid"), client_secret: some("sec") });
    let read = parse_registration(Some(&r#"{"clientId":"cid"}"#.to_string()));
    assert_eq!(read, ClientRegistration { client_id: some("cid"), client_secret: None });
    let none = ClientRegistration { client_id: None, client_secret: None };
    assert_eq!(parse_registration(Some(&"nope".to_string())), none);
    assert_eq!(parse_registration(None), none);
}

#[test]
fn plan_and_label() {
    let plan = plan_import(token());
    assert_eq!(plan.provider, Provider::Enterprise);
    assert_eq!(plan.user_id, "h4sh");
    assert_eq!(plan.registration, some("h4sh.json"));
    assert_eq!(new_label(&plan), "从 kiro-cli 导入 (https://acme.awsapps.com/start)");
    let mut t = token();
    t.start_url = None;
    let plan = plan_import(t);
    assert_eq!(plan.provider, Provider::BuilderId);
    assert_eq!(new_label(&plan), "从 kiro-cli 导入 (BuilderId)");

    let mut a = blank("1");
    a.label = "mine".to_string();
    assert_eq!(kept_label(&[blank("0"), a], 1), "mine");
    assert_eq!(kept_label(&[], 0), "从 kiro-cli 导入");
}

#[test]
fn seeds() {
    let label = || "l".to_string();
    let seed = account_seed(&plan_import(token()), label());
    assert_eq!(seed, AccountSeed::Enterprise { user_id: "h4sh".to_string(), label: label() });
    let mut t = token();
    t.start_url = None;
    let seed = account_seed(&plan_import(t), label());
    assert_eq!(seed, AccountSeed::Enterprise { user_id: "h4sh".to_string(), label: label() });
    let mut t = token();
    t.auth_method = "social".to_string();
    let seed = account_seed(&plan_import(t), label());
    assert_eq!(seed, AccountSeed::Social { email: String::new(), label: label() });
}

#[test]
fn filling_an_account() {
    let mut base = blank("id");
    base.label = "l".to_string();
    base.profile_arn = some("kept");
    base.machine_id = some("m");
    let reg = ClientRegistration { client_id: some("cid"), client_secret: some("sec") };
    let a = fill_account(base.clone(), "new label".to_string(), &plan_import(token()), reg);
    let mut want = base.clone();
    want.label = "new label".to_string();
    want.access_token = some("at");
    want.refresh_token = some("rt");
    want.expires_at = some("2026-01-01T00:00:00Z");
    want.provider = some("Enterprise");
    want.user_id = some("h4sh");
    want.oidc_region = some("eu-west-1");
    want.region = some("eu-west-1");
    want.auth_method = some("IdC");
    want.client_id_hash = some("h4sh");
    want.start_url = some("https://acme.awsapps.com/start");
    want.client_id = some("cid");
    want.client_secret = some("sec");
    assert_eq!(a, want);

    let mut t = token();
    t.auth_method = "social".to_string();
    let a = fill_account(base, "x".to_string(), &plan_import(t), ClientRegistration { client_id: None, client_secret: None });
    assert_eq!(a.profile_arn, some("arn:x"));
    assert_eq!(a.provider, some("Google"));
    assert_eq!(a.client_id, None);
}

#[test]
fn quota_questions() {
    let mut a = blank("id");
    let q = usage_query(&a, Provider::Enterprise);
    assert_eq!(q, UsageQuery::Probe { access_token: String::new(), machine_id: None });
    a.access_token = some("at");
    a.machine_id = some("m");
    let q = usage_query(&a, Provider::Enterprise);
    assert_eq!(q, UsageQuery::Probe { access_token: "at".to_string(), machine_id: some("m") });
    let q = usage_query(&a, Provider::Github);
    assert_eq!(q, UsageQuery::Direct { provider: "Github".to_string(), access_token: "at".to_string() });
}

#[test]
fn quota_answers() {
    let mut base = blank("id");
    base.region = some("r");
    base.user_id = some("u");
    let mut a = base.clone();
    assert_eq!(record_usage(&mut a, UsageOutcome::Failed), None);
    assert_eq!(a, Account { status: "invalid".to_string(), ..base.clone() });

    let mut a = base.clone();
    let outcome = UsageOutcome::Probed { detected_region: "eu".to_string(), report: report() };
    let standing = record_usage(&mut a, outcome);
    assert_eq!(standing, Some(Standing { is_banned: false, is_auth_error: true }));
    let want = Account {
        region: some("eu"),
        email: some("a@b.c"),
        user_id: some("api-user"),
        usage_data: some("{}"),
        ..base.clone()
    };
    assert_eq!(a, want);

    let mut a = base.clone();
    let quiet = UsageReport { email: None, user_id: None, ..report() };
    record_usage(&mut a, UsageOutcome::Probed { detected_region: String::new(), report: quiet });
    assert_eq!(a, Account { usage_data: some("{}"), ..base.clone() });

    let mut a = base.clone();
    let standing = record_usage(&mut a, UsageOutcome::Reported { report: report() });
    assert_eq!(standing, Some(Standing { is_banned: false, is_auth_error: true }));
    assert_eq!(a.region, base.region);
    assert_eq!(a.user_id, some("api-user"));
}

fn is_uuid_v4(s: &str) -> bool {
    s.len() == 36
        && s.chars().enumerate().all(|(i, c)| match i {
            8 | 13 | 18 | 23 => c == '-',
            14 => c == '4',
            19 => "89ab".contains(c),
            _ => c.is_ascii_digit() || ('a'..='f').contains(&c),
        })
}

#[test]
fn storing_a_new_account() {
    let mut store = vec![blank("0")];
    let r = store_import(&mut store, None, blank("1"));
    assert!(r.success && r.is_new);
    assert_eq!(r.error, None);
    let saved = r.account.unwrap();
    assert!(is_uuid_v4(saved.machine_id.as_ref().unwrap()));
    assert_eq!(saved.id, "1");
    assert_eq!(store, vec![blank("0"), saved.clone()]);
    let other = store_import(&mut store, None, blank("2")).account.unwrap();
    assert_ne!(other.machine_id, saved.machine_id);

    let mut with_machine = blank("3");
    with_machine.machine_id = some("m");
    let r = store_import(&mut store, None, with_machine.clone());
    assert_eq!(r.account, Some(with_machine));
    let r = store_import_with(&mut store, None, blank("4"), "fresh".to_string());
    assert_eq!(r.account.unwrap().machine_id, some("fresh"));
    assert_eq!(store.len(), 5);
}

#[test]
fn storing_an_existing_account() {
    let mut there = blank("old-id");
    there.machine_id = some("old-machine");
    there.email = some("old@b.c");
    let mut store = vec![blank("0"), there, blank("2")];
    let mut again = blank("new-id");
    again.machine_id = some("new-machine");
    again.label = "kept".to_string();
    let r = store_import(&mut store, Some(1), again);
    assert!(r.success && !r.is_new);
    let mut want = blank("old-id");
    want.machine_id = some("old-machine");
    want.label = "kept".to_string();
    assert_eq!(r.account, Some(want.clone()));
    assert_eq!(store, vec![blank("0"), want, blank("2")]);

    // An existing account without a machine id stays without one.
    let mut store = vec![blank("x")];
    let r = store_import(&mut store, Some(0), blank("y"));
    assert_eq!(r.account, Some(blank("x")));
}

#[test]
fn finding_an_existing_account() {
    let mut by_user = blank("1");
    by_user.user_id = some("u");
    let mut by_hash = blank("2");
    by_hash.client_id_hash = some("u");
    let accounts = vec![blank("0"), by_hash.clone(), by_user];
    assert_eq!(find_existing_account(&accounts, Some(&"u".to_string()), None), Some(1));
    assert_eq!(find_existing_account(&accounts, Some(&"v".to_string()), None), None);
    assert_eq!(find_existing_account(&accounts, None, Some(&"a@b.c".to_string())), None);
    assert_eq!(find_existing_account(&[], Some(&"u".to_string()), None), None);
}

/// Runs an import against a store, with the started account `base`.
fn run(store: &mut Vec<Account>, read: FileRead, content: Option<String>, outcome: UsageOutcome) -> Result<bool, String> {
    let mut content = content;
    let mut outcome = Some(outcome);
    let (mut state, mut action) = import_step(ImportState::Reading, ImportEvent::TokenRead { read });
    loop {
        let event = match action {
            ImportAction::Fail { message } => {
                assert_eq!(state, ImportState::Failed);
                return Err(message);
            }
            ImportAction::ReadRegistration { name } => {
                assert_eq!(name, "h4sh.json");
                ImportEvent::RegistrationRead { content: content.take() }
            }
            ImportAction::Search { user_id } => {
                ImportEvent::Searched { existing: find_existing_account(store, Some(&user_id), None) }
            }
            ImportAction::ReadLabel { index } => ImportEvent::Named { label: kept_label(store, index) },
            ImportAction::Start { seed } => {
                let mut account = blank("fresh-id");
                match seed {
                    AccountSeed::Enterprise { user_id, label } => {
                        account.user_id = Some(user_id);
                        account.label = label;
                    }
                    AccountSeed::Social { email, label } => {
                        account.email = Some(email);
                        account.label = label;
                    }
                }
                ImportEvent::Started { account }
            }
            ImportAction::Ask { query } => {
                assert!(matches!(query, UsageQuery::Probe { .. }));
                ImportEvent::Answered { outcome: outcome.take().unwrap() }
            }
            ImportAction::Rate { account, standing } => {
                let status = if standing.is_auth_error { "expired".to_string() } else { account.status };
                ImportEvent::Rated { status }
            }
            ImportAction::Store => match state {
                ImportState::Storing { account, existing } => {
                    return Ok(store_import(store, existing, account).is_new);
                }
                _ => panic!("nothing to store"),
            },
        };
        let next = import_step(state, event);
        state = next.0;
        action = next.1;
    }
}

#[test]
fn importing_twice_makes_one_account() {
    let mut store = vec![blank("other")];
    let content = || FileRead::Content { text: FULL.to_string() };
    let reg = some(r#"{"clientId":"cid","clientSecret":"sec"}"#);
    let outcome = UsageOutcome::Probed { detected_region: "eu".to_string(), report: report() };
    assert_eq!(run(&mut store, content(), reg, outcome), Ok(true));
    assert_eq!(store.len(), 2);
    let first = store[1].clone();
    assert_eq!(first.label, "从 kiro-cli 导入 (https://acme.awsapps.com/start)");
    assert_eq!(first.client_id, some("cid"));
    assert_eq!(first.user_id, some("api-user"));
    assert_eq!(first.region, some("eu"));
    assert_eq!(first.oidc_region, some("eu-west-1"));
    assert_eq!(first.status, "expired");
    assert!(first.machine_id.is_some());

    assert_eq!(run(&mut store, content(), None, UsageOutcome::Failed), Ok(false));
    assert_eq!(store.len(), 2);
    assert_eq!(store[0], blank("other"));
    assert_eq!(store[1].id, first.id);
    assert_eq!(store[1].machine_id, first.machine_id);
    assert_eq!(store[1].label, first.label);
    assert_eq!(store[1].client_id, None);
    assert_eq!(store[1].status, "invalid");
}

#[test]
fn failed_import_leaves_the_store() {
    let mut store = vec![blank("other")];
    let read = FileRead::Missing { path: "p".to_string() };
    let e = run(&mut store, read, None, UsageOutcome::Failed).unwrap_err();
    assert_eq!(e, "未找到 kiro-cli token 文件: p");
    assert_eq!(store, vec![blank("other")]);
}

#[test]
fn token_without_registration_goes_straight_to_the_search() {
    let text = r#"{"accessToken":"a","refreshToken":"refresh","authMethod":"social"}"#.to_string();
    let (state, action) = import_step(ImportState::Reading, ImportEvent::TokenRead { read: FileRead::Content { text } });
    assert!(matches!(state, ImportState::Searching { .. }));
    assert_eq!(action, ImportAction::Search { user_id: "refresh".to_string() });
}

use kiro_cli::account::{find_account, Account};
use kiro_cli::clock::{current_time, expiry_text, reaches, Timestamp, FIRST_SECOND, LAST_SECOND};
use kiro_cli::import::Standing;
use kiro_cli::switch::{
    build_switch_payload, build_switch_payload_at, login_kind, payload_under, record_report, renew_account,
    select_account, KiroCliSwitchPayload, Login, RefreshedTokens,
};
use kiro_cli::switch_run::{switch_step, QuotaReport, SwitchAction, SwitchEvent, SwitchState};

fn some(s: &str) -> Option<String> {
    Some(s.to_string())
}

fn account(provider: Option<&str>) -> Account {
    Account {
        id: "id".to_string(),
        email: None,
        label: "l".to_string(),
        status: "active".to_string(),
        access_token: some("at"),
        refresh_token: some("rt"),
        expires_at: some("old"),
        provider: provider.map(str::to_string),
        user_id: None,
        oidc_region: None,
        region: None,
        auth_method: None,
        client_id_hash: None,
        start_url: None,
        client_id: None,
        client_secret: None,
        profile_arn: None,
        machine_id: None,
        usage_data: None,
    }
}

/// 2024-01-01T00:00:00Z
const NEW_YEAR: Timestamp = Timestamp { seconds: 1704067200, nanos: 0 };

fn payload(a: &Account) -> Result<KiroCliSwitchPayload, String> {
    build_switch_payload_at(a, NEW_YEAR).expect("an hour later can be held")
}

#[test]
fn payload_at_the_end_of_time() {
    let late = Timestamp { seconds: LAST_SECOND - 3599, nanos: 0 };
    assert_eq!(build_switch_payload_at(&account(Some("Google")), late), None);
    let e = build_switch_payload_at(&account(Some("Enterprise")), late).unwrap().unwrap_err();
    assert_eq!(e, "不支持的 provider: Enterprise");
    let last = Timestamp { seconds: LAST_SECOND - 3600, nanos: 0 };
    assert!(build_switch_payload_at(&account(Some("Google")), last).unwrap().is_ok());
}

#[test]
fn an_account_that_lacks_everything_but_its_provider() {
    let mut a = account(Some("Google"));
    a.access_token = None;
    a.refresh_token = None;
    let p = payload(&a).unwrap();
    assert!(p.token_value.contains(r#""access_token":null"#) && p.token_value.contains(r#""refresh_token":null"#));
}

#[test]
fn clock_range_is_that_of_chrono() {
    assert_eq!(FIRST_SECOND, chrono::DateTime::<chrono::Utc>::MIN_UTC.timestamp());
    assert_eq!(LAST_SECOND, chrono::DateTime::<chrono::Utc>::MAX_UTC.timestamp());
    let last = Timestamp { seconds: LAST_SECOND, nanos: 999_999_999 };
    assert!(!reaches(last, 1));
    assert!(reaches(last, 0));
    assert!(reaches(last, FIRST_SECOND - LAST_SECOND));
    assert!(!reaches(NEW_YEAR, i64::MAX));
    assert!(!reaches(NEW_YEAR, i64::MIN));
    let top = Timestamp { seconds: LAST_SECOND - 3600, nanos: 0 };
    assert_eq!(expiry_text(top, 3600), "+262142-12-31T23:59:59+00:00");
    let bottom = Timestamp { seconds: FIRST_SECOND + 1, nanos: 5 };
    assert!(expiry_text(bottom, -1).starts_with("-262143-01-01T00:00:00.000000005"));
}

#[test]
fn expiry_texts() {
    assert_eq!(expiry_text(NEW_YEAR, 3600), "2024-01-01T01:00:00+00:00");
    let odd = Timestamp { seconds: 1704067200, nanos: 250_000_000 };
    assert_eq!(expiry_text(odd, -1), "2023-12-31T23:59:59.250+00:00");
    let now = current_time();
    assert!(now.seconds > 1_704_067_200 && now.nanos < 1_000_000_000);
}

#[test]
fn logins() {
    assert_eq!(login_kind(&account(Some("BuilderId"))), Ok(Login::IdC));
    assert_eq!(login_kind(&account(Some("Google"))), Ok(Login::Social));
    assert_eq!(login_kind(&account(Some("Github"))), Ok(Login::Social));
    assert_eq!(login_kind(&account(Some("Enterprise"))), Err("不支持的 provider: Enterprise".to_string()));
    assert_eq!(login_kind(&account(Some("google"))), Err("不支持的 provider: google".to_string()));
    assert_eq!(login_kind(&account(None)), Err("账号缺少 provider 字段".to_string()));
}

#[test]
fn builder_id_payload() {
    let p = payload(&account(Some("BuilderId"))).unwrap();
    assert_eq!(p.token_key, "kirocli:odic:token");
    assert_eq!(p.device_reg_key, "kirocli:odic:device-registration");
    assert_eq!(
        p.token_value,
        concat_parts(&[
            r#"{"access_token":"at","expires_at":"2024-01-01T01:00:00+00:00","oauth_flow":"Pkce","#,
            r#""profile_arn":"arn:aws:codewhisperer:us-east-1:638616132270:profile/AAAACCCCXXXX","#,
            r#""refresh_token":"rt","region":"us-east-1","#,
            r#""scopes":["codewhisperer:completions","codewhisperer:analysis","codewhisperer:conversations"]}"#,
        ])
    );
    assert_eq!(p.device_reg_value, r#"{"client_id":"","client_secret":"","region":"us-east-1"}"#);
}

fn concat_parts(parts: &[&str]) -> String {
    parts.concat()
}

#[test]
fn social_payload() {
    let mut a = account(Some("Github"));
    a.refresh_token = None;
    a.region = some("eu-west-1");
    a.client_id = some("c\"id");
    a.client_secret = some("sec\n");
    let p = payload(&a).unwrap();
    assert_eq!(p.token_key, "kirocli:social:token");
    assert_eq!(p.device_reg_key, "kirocli:social:device-registration");
    assert_eq!(
        p.token_value,
        concat_parts(&[
            r#"{"access_token":"at","expires_at":"2024-01-01T01:00:00+00:00","#,
            r#""profile_arn":"arn:aws:codewhisperer:us-east-1:699475941385:profile/EHGA3GRVQMUK","#,
            r#""refresh_token":null,"region":"eu-west-1","start_url":"https://view.awsapps.com/start"}"#,
        ])
    );
    assert_eq!(p.device_reg_value, r#"{"client_id":"c\"id","client_secret":"sec\n","region":"eu-west-1"}"#);
    a.profile_arn = some("own");
    let p = payload(&a).unwrap();
    assert!(p.token_value.contains(r#""profile_arn":"own""#));
}

#[test]
fn payload_reads_back() {
    let mut a = account(Some("BuilderId"));
    a.access_token = some("quote \" backslash \\ newline \n control \u{1} 中文 \u{1F600}");
    let p = payload(&a).unwrap();
    let doc: serde_json::Value = serde_json::from_str(&p.token_value).unwrap();
    assert_eq!(doc["access_token"].as_str().map(str::to_string), a.access_token);
    assert_eq!(doc["scopes"].as_array().unwrap().len(), 3);
    let device: serde_json::Value = serde_json::from_str(&p.device_reg_value).unwrap();
    assert_eq!(device["client_id"].as_str(), Some(""));
}

#[test]
fn payload_does_not_hold_the_expiry_of_the_account() {
    let mut a = account(Some("Google"));
    let p = payload(&a).unwrap();
    a.expires_at = None;
    assert_eq!(payload(&a), Ok(p));
}

#[test]
fn payload_errors() {
    let e = payload(&account(Some("Enterprise"))).unwrap_err();
    assert_eq!(e, "不支持的 provider: Enterprise");
    let e = build_switch_payload(&account(None)).unwrap().unwrap_err();
    assert_eq!(e, "账号缺少 provider 字段");
}

#[test]
fn payload_of_now_expires_in_an_hour() {
    let before = current_time();
    let p = build_switch_payload(&account(Some("Google"))).unwrap().unwrap();
    let after = current_time();
    let doc: serde_json::Value = serde_json::from_str(&p.token_value).unwrap();
    let expires = chrono::DateTime::parse_from_rfc3339(doc["expires_at"].as_str().unwrap()).unwrap().timestamp();
    assert!(before.seconds + 3600 <= expires && expires <= after.seconds + 3600);
}

#[test]
fn keys_of_a_payload() {
    let p = payload_under(Login::IdC, "t".to_string(), "d".to_string());
    assert_eq!((p.token_value.as_str(), p.device_reg_value.as_str()), ("t", "d"));
    let q = payload_under(Login::Social, "t".to_string(), "d".to_string());
    assert_ne!(p.token_key, q.token_key);
    assert_ne!(p.device_reg_key, q.device_reg_key);
}

fn tokens() -> RefreshedTokens {
    RefreshedTokens { access_token: "new-at".to_string(), refresh_token: None, expires_in: 60 }
}

#[test]
fn renewal() {
    let a = renew_account(account(Some("Google")), tokens(), NEW_YEAR);
    let want = Account {
        access_token: some("new-at"),
        refresh_token: None,
        expires_at: some("2024-01-01T00:01:00+00:00"),
        ..account(Some("Google"))
    };
    assert_eq!(a, want);
}

#[test]
fn accounts_by_id() {
    let mut store = vec![account(None), account(Some("Google"))];
    store[0].id = "other".to_string();
    assert_eq!(find_account(&store, "id"), Some(1));
    assert_eq!(find_account(&store, "x"), None);
    assert_eq!(select_account(&store, "id"), Some(account(Some("Google"))));
    assert_eq!(select_account(&store, "x"), None);

    let before = store.clone();
    assert_eq!(record_report(&mut store, "x", "{}".to_string()), None);
    assert_eq!(store, before);
    assert_eq!(record_report(&mut store, "id", "{}".to_string()), Some(1));
    assert_eq!(store[0], before[0]);
    assert_eq!(store[1], Account { usage_data: some("{}"), ..before[1].clone() });
}

fn quota(is_banned: bool) -> Option<QuotaReport> {
    Some(QuotaReport { usage_data: "{}".to_string(), standing: Standing { is_banned, is_auth_error: false } })
}

fn selected(a: Option<Account>) -> (SwitchState, SwitchAction) {
    switch_step(SwitchState::Selecting { account_id: "id".to_string() }, SwitchEvent::Selected { account: a })
}

fn failure(step: (SwitchState, SwitchAction)) -> String {
    assert_eq!(step.0, SwitchState::Failed);
    match step.1 {
        SwitchAction::Fail { message } => message,
        _ => panic!("a failed switch reports a message"),
    }
}

#[test]
fn switch_with_renewal() {
    let (state, action) = selected(Some(account(Some("Google"))));
    assert_eq!(action, SwitchAction::Refresh { account: account(Some("Google")) });
    let (state, action) = switch_step(state, SwitchEvent::Refreshed { tokens: Some(tokens()) });
    assert_eq!(action, SwitchAction::StoreTokens);
    let (state, action) = switch_step(state, SwitchEvent::Stored { now: NEW_YEAR });
    let ask = SwitchAction::Ask { provider: "Google".to_string(), access_token: "new-at".to_string() };
    assert_eq!(action, ask);
    let (state, action) = switch_step(state, SwitchEvent::Answered { report: quota(false) });
    let standing = Standing { is_banned: false, is_auth_error: false };
    assert_eq!(action, SwitchAction::Record { usage_data: "{}".to_string(), standing });
    let (state, action) = switch_step(state, SwitchEvent::Recorded { listed: true });
    assert_eq!(action, SwitchAction::Write);
    match state {
        SwitchState::Ready { account: a } => {
            assert_eq!(a, renew_account(account(Some("Google")), tokens(), NEW_YEAR));
            let p = payload(&a).unwrap();
            let doc: serde_json::Value = serde_json::from_str(&p.token_value).unwrap();
            assert_eq!(doc["access_token"].as_str(), Some("new-at"));
        }
        _ => panic!("the switch is ready"),
    }
}

#[test]
fn failures_of_services_do_not_stop_a_switch() {
    let (state, _) = selected(Some(account(Some("Google"))));
    let (state, action) = switch_step(state, SwitchEvent::Refreshed { tokens: None });
    assert_eq!(action, SwitchAction::Ask { provider: "Google".to_string(), access_token: "at".to_string() });
    let (state, action) = switch_step(state, SwitchEvent::Answered { report: None });
    assert_eq!(action, SwitchAction::Write);
    assert_eq!(state, SwitchState::Ready { account: account(Some("Google")) });
}

#[test]
fn banned_account_is_refused() {
    let asking = || SwitchState::Asking { account: account(Some("Google")) };
    let (state, _) = switch_step(asking(), SwitchEvent::Answered { report: quota(true) });
    let e = failure(switch_step(state, SwitchEvent::Recorded { listed: true }));
    assert_eq!(e, "账号已被封禁，无法切换到 CLI");
    // An account that is no longer listed is not held back.
    let (state, _) = switch_step(asking(), SwitchEvent::Answered { report: quota(true) });
    let (state, _) = switch_step(state, SwitchEvent::Recorded { listed: false });
    assert_eq!(state, SwitchState::Ready { account: account(Some("Google")) });
}

#[test]
fn accounts_that_cannot_be_switched_to() {
    assert_eq!(failure(selected(None)), "账号不存在: id");
    let mut a = account(None);
    a.refresh_token = None;
    assert_eq!(failure(selected(Some(a))), "账号缺少 provider 字段");
    let mut a = account(Some("Google"));
    a.refresh_token = None;
    a.access_token = None;
    assert_eq!(failure(selected(Some(a))), "账号缺少 access_token");
}

#[test]
fn enterprise_account_is_refused_at_the_end() {
    let mut a = account(Some("Enterprise"));
    a.refresh_token = None;
    let (state, _) = selected(Some(a));
    let (state, action) = switch_step(state, SwitchEvent::Answered { report: None });
    assert_eq!(action, SwitchAction::Write);
    match state {
        SwitchState::Ready { account: a } => assert_eq!(payload(&a), Err("不支持的 provider: Enterprise".to_string())),
        _ => panic!("the switch is ready"),
    }
}

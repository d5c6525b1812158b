use std::sync::{Mutex, PoisonError};

use kiro_cli::paths::{
    choose_existing, database_candidates, expand_home_dir, home_dir, registration_file, token_file, FileLocation,
    Platform, UserDirs,
};
use kiro_cli::store::{lock_account_store, lock_outcome};
use kiro_cli::text::{contains_text, first_chars, joined, text_eq};

fn some(s: &str) -> Option<String> {
    Some(s.to_string())
}

fn dirs(home: Option<&str>, profile: Option<&str>) -> UserDirs {
    UserDirs {
        home: home.map(str::to_string),
        user_profile: profile.map(str::to_string),
        local_app_data: None,
        xdg_data_home: None,
    }
}

fn place(base: &str, parts: &[&str]) -> FileLocation {
    FileLocation { base: base.to_string(), parts: parts.iter().map(|p| p.to_string()).collect() }
}

const NO_HOME: &str = "无法获取用户主目录";

#[test]
fn poisoned_lock_is_an_error() {
    let mutex = Mutex::new(());
    let err = lock_outcome(Err(PoisonError::new(mutex.lock().unwrap()))).expect_err("poisoned mutex should return error");
    assert!(err.contains("store lock"));
}

#[test]
fn lock_gives_the_guard() {
    let mutex = Mutex::new(5);
    *lock_account_store(&mutex).unwrap() += 1;
    assert_eq!(*mutex.lock().unwrap(), 6);
    assert_eq!(lock_outcome::<u8>(Ok(3)), Ok(3));
    let err = lock_outcome::<u8>(Err(PoisonError::new(3))).unwrap_err();
    assert_eq!(err, "Failed to acquire store lock");
}

#[test]
fn home_directories() {
    assert_eq!(home_dir(&dirs(Some("/h"), Some("/p"))), Ok("/h".to_string()));
    assert_eq!(home_dir(&dirs(None, Some("/p"))), Ok("/p".to_string()));
    assert_eq!(home_dir(&dirs(None, None)), Err(NO_HOME.to_string()));
}

#[test]
fn home_expansion() {
    let d = dirs(Some("/h"), None);
    assert_eq!(expand_home_dir("~/x~/y", &d), Ok("/h/x~/y".to_string()));
    assert_eq!(expand_home_dir("~", &d), Ok("/h".to_string()));
    assert_eq!(expand_home_dir("a/~", &d), Ok("a/~".to_string()));
    assert_eq!(expand_home_dir("", &d), Ok(String::new()));
    assert_eq!(expand_home_dir("~账", &d), Ok("/h账".to_string()));
    assert_eq!(expand_home_dir("~/x", &dirs(None, None)), Err(NO_HOME.to_string()));
    assert_eq!(expand_home_dir("/x", &dirs(None, None)), Ok("/x".to_string()));
    let once = expand_home_dir("~/x", &d).unwrap();
    assert_eq!(expand_home_dir(&once, &d), Ok(once.clone()));
}

#[test]
fn database_places() {
    let mut d = dirs(Some("/h"), None);
    let shared = || place("/h", &[".local", "share", "kiro-cli", "data.sqlite3"]);
    assert_eq!(database_candidates(Platform::Other, &d), Ok(vec![shared()]));
    assert_eq!(database_candidates(Platform::Windows, &d), Ok(vec![]));
    d.xdg_data_home = some("/xdg");
    d.local_app_data = some("/app");
    assert_eq!(
        database_candidates(Platform::Other, &d),
        Ok(vec![place("/xdg", &["kiro-cli", "data.sqlite3"]), shared()])
    );
    assert_eq!(
        database_candidates(Platform::Windows, &d),
        Ok(vec![place("/app", &["Kiro-Cli", "data.sqlite3"])])
    );
    assert_eq!(
        database_candidates(Platform::MacOs, &d),
        Ok(vec![place("/h", &["Library", "Application Support", "kiro-cli", "data.sqlite3"])])
    );
    d.home = None;
    assert_eq!(database_candidates(Platform::Windows, &d), Err(NO_HOME.to_string()));
}

#[test]
fn first_existing_place() {
    let paths = vec!["a".to_string(), "b".to_string(), "c".to_string()];
    assert_eq!(choose_existing(&paths, &[false, true, true]), "b");
    assert_eq!(choose_existing(&paths, &[true, true, true]), "a");
    assert_eq!(choose_existing(&paths, &[false, false, false]), "");
    assert_eq!(choose_existing(&[], &[]), "");
}

#[test]
fn cache_files() {
    let d = dirs(Some("/h"), None);
    let name = "kiro-auth-token-cli.json";
    assert_eq!(token_file(&d), Ok(place("/h", &[".aws", "sso", "cache", name])));
    assert_eq!(token_file(&dirs(None, None)), Err(NO_HOME.to_string()));
    assert_eq!(registration_file(&d, "x.json"), place("/h", &[".aws", "sso", "cache", "x.json"]));
    assert_eq!(registration_file(&dirs(None, None), "x.json"), place("", &[".aws", "sso", "cache", "x.json"]));
}

#[test]
fn texts() {
    assert!(text_eq("账号", "账号") && !text_eq("a", "A"));
    assert_eq!(joined("账", "号"), "账号");
    assert_eq!(first_chars("账号ab", 3), "账号a");
    assert_eq!(first_chars("ab", 3), "ab");
    assert_eq!(first_chars("ab", 0), "");
    assert!(contains_text("abc", "") && contains_text("", ""));
    assert!(contains_text("aab", "ab") && contains_text("账号", "号"));
    assert!(!contains_text("ab", "abc") && !contains_text("abc", "ca"));
}

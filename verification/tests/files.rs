use sekai_client::account::{
    account_kind, AccountKind, AccountType, SekaiAccount, SekaiAccountCP, SekaiAccountNuverse,
};
use sekai_client::account_files::{
    is_account_file, parse_account_file, parse_account_value, parse_accounts, AccountEntry,
    ParsedAccounts,
};
use sekai_client::client::SekaiClient;
use sekai_client::config::ServerRegion;
use sekai_client::error::AppError;
use sekai_client::recovery::{
    next_recovery_delay, release_recovery, try_claim_recovery, INITIAL_RECOVERY_DELAY,
    MAX_RECOVERY_DELAY,
};
use sekai_client::reload::should_wait_for_complete_parse;
use sekai_client::watcher::{
    is_account_change_event, SettleEvent, SettleWindow, WatchAction, WatchEvent, WatchState,
    POLL_INTERVAL, SETTLE_DURATION,
};
use base64::Engine as _;
use flate2::{write::GzEncoder, Compression};
use std::io::Write;

fn account(user_id: &str) -> AccountType {
    AccountType::CP(SekaiAccountCP {
        user_id: user_id.to_string(),
        device_id: String::new(),
        credential: String::new(),
        proxy_roles: vec![],
    })
}

fn ids(parsed: &ParsedAccounts) -> Vec<&str> {
    parsed.accounts.iter().map(|a| a.user_id()).collect()
}

fn blob(data: &[u8]) -> String {
    let mut encoder = GzEncoder::new(Vec::new(), Compression::default());
    encoder.write_all(data).unwrap();
    base64::engine::general_purpose::STANDARD.encode(encoder.finish().unwrap())
}

#[test]
fn decode_custom_music_score_blob_text_decodes_base64_gzip_json() {
    let mut encoder = GzEncoder::new(Vec::new(), Compression::default());
    encoder
        .write_all(br#"{"MusicId":121,"NoteList":[{"id":1}]}"#)
        .unwrap();
    let compressed = encoder.finish().unwrap();
    let blob = base64::engine::general_purpose::STANDARD.encode(compressed);

    let decoded = SekaiClient::decode_custom_music_score_blob_text(&blob).unwrap();

    assert_eq!(decoded["MusicId"], 121);
    assert_eq!(decoded["NoteList"].as_array().unwrap().len(), 1);
}

#[test]
fn music_scores_may_have_space_around_them() {
    let text = format!("\n {}\t", blob(b"[1,2]"));
    let decoded = SekaiClient::decode_custom_music_score_blob_text(&text).unwrap();
    assert_eq!(decoded.as_array().unwrap().len(), 2);
}

#[test]
fn each_layer_of_a_music_score_can_be_broken() {
    let error = SekaiClient::decode_custom_music_score_blob_text("!").unwrap_err();
    match error {
        AppError::ParseError(words) => assert!(words.starts_with("base64 decode failed: ")),
        other => panic!("{:?}", other),
    }
    let error = SekaiClient::decode_custom_music_score_blob_text("AAAA").unwrap_err();
    match error {
        AppError::ParseError(words) => assert!(words.starts_with("gzip decompress failed: ")),
        other => panic!("{:?}", other),
    }
    let error = SekaiClient::decode_custom_music_score_blob_text(&blob(b"{")).unwrap_err();
    match error {
        AppError::ParseError(words) => {
            assert!(!words.starts_with("base64 decode failed: "));
            assert!(!words.starts_with("gzip decompress failed: "));
        }
        other => panic!("{:?}", other),
    }
}

#[test]
fn incomplete_parse_never_replaces_session_pool() {
    assert!(should_wait_for_complete_parse(false));
    assert!(!should_wait_for_complete_parse(true));
}

#[test]
fn recovery_backoff_caps_at_maximum_delay() {
    assert_eq!(
        next_recovery_delay(INITIAL_RECOVERY_DELAY),
        INITIAL_RECOVERY_DELAY * 2
    );
    assert_eq!(next_recovery_delay(MAX_RECOVERY_DELAY), MAX_RECOVERY_DELAY);
}

#[test]
fn recovery_flag_guard_resets_flag_when_dropped() {
    let mut flag = true;

    release_recovery(&mut flag);

    assert!(!flag);
}

#[test]
fn recovery_claim_allows_only_one_worker() {
    let mut flag = false;

    assert!(try_claim_recovery(&mut flag));
    assert!(!try_claim_recovery(&mut flag));
}

#[test]
fn recovery_delays_are_five_seconds_to_five_minutes() {
    let mut delay = INITIAL_RECOVERY_DELAY;
    let mut seconds = Vec::new();
    for _ in 0..8 {
        seconds.push(delay / 1_000_000_000);
        delay = next_recovery_delay(delay);
    }
    assert_eq!(seconds, [5, 10, 20, 40, 80, 160, 300, 300]);
    assert_eq!(next_recovery_delay(u128::MAX), MAX_RECOVERY_DELAY);
    assert_eq!(next_recovery_delay(0), 0);
}

#[test]
fn only_json_files_keep_accounts() {
    assert!(is_account_file(Some("json")));
    assert!(!is_account_file(Some("JSON")));
    assert!(!is_account_file(Some("json5")));
    assert!(!is_account_file(None));
}

#[test]
fn account_files_hold_one_account_or_an_array() {
    let file = parse_account_file(br#" {"userId": 1, "a": [ true ]} "#).unwrap();
    assert_eq!(file.documents, [r#"{"userId":1,"a":[true]}"#]);
    assert!(file.complete);

    let file = parse_account_file(br#"[{"b":"x"}, 3, null]"#).unwrap();
    assert_eq!(file.documents, [r#"{"b":"x"}"#, "3", "null"]);
    assert!(file.complete);

    let file = parse_account_file(b"[]").unwrap();
    assert!(file.documents.is_empty());
    assert!(file.complete);

    for other in ["3", "null", "\"text\"", "false"] {
        let file = parse_account_file(other.as_bytes()).unwrap();
        assert!(file.documents.is_empty());
        assert!(!file.complete);
    }

    match parse_account_file(b"{").unwrap_err() {
        AppError::ParseError(words) => assert!(words.starts_with("JSON parse error: ")),
        other => panic!("{:?}", other),
    }
}

#[test]
fn the_token_tells_the_user() {
    let jp = ServerRegion::Jp;
    let read = parse_account_value(jp, Ok(account("1")), Some("2".to_string())).unwrap();
    assert_eq!(read.user_id(), "2");
    let read = parse_account_value(jp, Ok(account("1")), None).unwrap();
    assert_eq!(read.user_id(), "1");
    let read = parse_account_value(jp, Ok(account("")), None).unwrap();
    assert_eq!(read.user_id(), "");
    assert!(parse_account_value(jp, Err("no".to_string()), Some("2".to_string())).is_none());
}

#[test]
fn the_account_directory_is_put_together() {
    let parsed = parse_accounts(Ok(Some(vec![
        AccountEntry::Parsed {
            accounts: vec![Some(account("1")), Some(account("2"))],
            complete: true,
        },
        AccountEntry::Ignored,
        AccountEntry::Parsed {
            accounts: vec![Some(account("3"))],
            complete: true,
        },
    ])))
    .unwrap();
    assert_eq!(ids(&parsed), ["1", "2", "3"]);
    assert!(parsed.complete);
}

#[test]
fn one_failure_makes_the_account_directory_incomplete() {
    let parsed = parse_accounts(Ok(Some(vec![
        AccountEntry::Failed,
        AccountEntry::Parsed {
            accounts: vec![Some(account("1"))],
            complete: true,
        },
    ])))
    .unwrap();
    assert_eq!(ids(&parsed), ["1"]);
    assert!(!parsed.complete);

    let parsed = parse_accounts(Ok(Some(vec![AccountEntry::Parsed {
        accounts: vec![None, Some(account("1"))],
        complete: true,
    }])))
    .unwrap();
    assert_eq!(ids(&parsed), ["1"]);
    assert!(!parsed.complete);

    let parsed = parse_accounts(Ok(Some(vec![AccountEntry::Parsed {
        accounts: vec![],
        complete: false,
    }])))
    .unwrap();
    assert!(!parsed.complete);
}

#[test]
fn a_missing_account_directory_is_empty() {
    let parsed = parse_accounts(Ok(None)).unwrap();
    assert!(parsed.accounts.is_empty());
    assert!(parsed.complete);
    assert_eq!(
        parse_accounts(Err("denied".to_string())).unwrap_err(),
        AppError::ParseError("Failed to read account dir: denied".to_string())
    );
}

#[test]
fn only_changes_count() {
    assert!(is_account_change_event(WatchEvent::Created));
    assert!(is_account_change_event(WatchEvent::Modified));
    assert!(is_account_change_event(WatchEvent::Removed));
    assert!(!is_account_change_event(WatchEvent::Accessed));
    assert!(!is_account_change_event(WatchEvent::Other));
    assert!(!is_account_change_event(WatchEvent::Failed));
}

#[test]
fn changes_settle_after_the_last_change() {
    let second: u128 = 1_000_000_000;
    let window = SettleWindow::open(10 * second);
    assert_eq!(window.remaining(10 * second), 6 * second);
    assert_eq!(window.remaining(15 * second), second);
    assert_eq!(window.remaining(16 * second), 0);
    assert_eq!(window.remaining(99 * second), 0);

    let accessed = SettleEvent::Watched(WatchEvent::Accessed);
    assert_eq!(window.observe(accessed, 15 * second), Some(window));
    let modified = SettleEvent::Watched(WatchEvent::Modified);
    let later = window.observe(modified, 15 * second).unwrap();
    assert_eq!(later.remaining(16 * second), 5 * second);
    assert_eq!(later.observe(SettleEvent::TimedOut, 21 * second), None);
    assert_eq!(later.observe(SettleEvent::Disconnected, 16 * second), None);
    assert!(SettleWindow::open(0).remaining(POLL_INTERVAL) > 0);
    assert_eq!(SettleWindow::open(0).remaining(SETTLE_DURATION), 0);
}

#[test]
fn accounts_are_of_the_kind_of_their_region() {
    let nuverse = AccountType::Nuverse(SekaiAccountNuverse {
        user_id: "5".to_string(),
        device_id: String::new(),
        access_token: String::new(),
        proxy_roles: vec![],
    });
    for (region, kind) in [
        (ServerRegion::Jp, AccountKind::Cp),
        (ServerRegion::En, AccountKind::Cp),
        (ServerRegion::Tw, AccountKind::Nuverse),
        (ServerRegion::Kr, AccountKind::Nuverse),
        (ServerRegion::Cn, AccountKind::Nuverse),
    ] {
        assert_eq!(account_kind(region), kind);
        let cp = parse_account_value(region, Ok(account("1")), None);
        let other = parse_account_value(region, Ok(nuverse.clone()), Some("6".to_string()));
        assert_eq!(cp.is_some(), kind == AccountKind::Cp);
        assert_eq!(other.is_some(), kind == AccountKind::Nuverse);
        if let Some(read) = other {
            assert_eq!(read.kind(), AccountKind::Nuverse);
            assert_eq!(read.user_id(), "6");
        }
    }
}

#[test]
fn a_burst_of_changes_leads_to_one_reload() {
    let second: u128 = 1_000_000_000;
    let changed = SettleEvent::Watched(WatchEvent::Created);
    let failed = SettleEvent::Watched(WatchEvent::Failed);
    let course = [
        (failed, 0, WatchAction::Wait),
        (changed, 10, WatchAction::WaitFor(6 * second)),
        (changed, 15, WatchAction::WaitFor(6 * second)),
        (failed, 18, WatchAction::WaitFor(3 * second)),
        (SettleEvent::Watched(WatchEvent::Removed), 20, WatchAction::WaitFor(6 * second)),
        (SettleEvent::TimedOut, 26, WatchAction::Reload),
        (failed, 27, WatchAction::Wait),
        (changed, 30, WatchAction::WaitFor(6 * second)),
        (failed, 36, WatchAction::Reload),
        (SettleEvent::TimedOut, 40, WatchAction::Wait),
        (changed, 41, WatchAction::WaitFor(6 * second)),
        (SettleEvent::Disconnected, 42, WatchAction::Reload),
        (SettleEvent::Disconnected, 42, WatchAction::Finish),
    ];
    let mut watch = WatchState::Idle;
    for (event, seconds, expected) in course {
        let (next, action) = watch.next(event, seconds * second);
        assert_eq!(action, expected);
        watch = next;
    }
    assert_eq!(watch, WatchState::Idle);
}

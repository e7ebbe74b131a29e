use indexmap::IndexMap;
use sekai_client::account::{AccountType, SekaiAccountCP, SekaiAccountNuverse};
use sekai_client::account_files::ParsedAccounts;
use sekai_client::client::SekaiClient;
use sekai_client::config::{LoginProtocol, ServerConfig, ServerRegion};
use sekai_client::error::AppError;
use sekai_client::game_call::{CallAction, CallEvent, CallPhase, GameCall};
use sekai_client::headers::HeaderMap;
use sekai_client::login::LoginResponse;
use sekai_client::media::{blob_result, image_result, nuverse_image};
use sekai_client::pool_build::{
    kept_sessions, BuildAction, BuildEvent, BuildPhase, PoolBuild,
};
use sekai_client::recovery::{RecoveryAction, INITIAL_RECOVERY_DELAY};
use sekai_client::request::{http_method, BodyKind, HttpMethod, Transport};
use sekai_client::session::{AccountSession, PooledSession, SessionPoolReplacement};
use sekai_client::startup::{InitAction, InitEvent};
use sekai_client::version::{RefreshAction, RefreshEvent, VersionInfo};
use sekai_client::watcher::{WatchAction, WatchState};
use serde_json::Value;
use std::sync::Arc;

type Client = SekaiClient<AccountSession>;

fn config() -> ServerConfig {
    let mut headers = HeaderMap::new();
    headers.insert("User-Agent".to_string(), "agent".to_string());
    headers.insert("X-Request-ID".to_string(), "stale".to_string());
    ServerConfig {
        enabled: true,
        master_dir: String::new(),
        version_path: String::new(),
        account_dir: "accounts".to_string(),
        api_url: "https://game".to_string(),
        nuverse_master_data_url: String::new(),
        nuverse_structure_file_path: String::new(),
        require_cookies: true,
        headers,
        aes_key_hex: String::new(),
        aes_iv_hex: String::new(),
        enable_master_updater: false,
        master_updater_cron: String::new(),
        enable_app_hash_updater: false,
        app_hash_updater_cron: String::new(),
        remote_version_url: String::new(),
        proxy: None,
        login_protocol: LoginProtocol::V2,
    }
}

fn client(region: ServerRegion) -> Client {
    SekaiClient::new(region, config(), None, Some("https://cookies".to_string()))
}

fn cp_account(user_id: &str, roles: &[&str]) -> AccountType {
    AccountType::CP(SekaiAccountCP {
        user_id: user_id.to_string(),
        device_id: String::new(),
        credential: "credential".to_string(),
        proxy_roles: roles.iter().map(|r| r.to_string()).collect(),
    })
}

fn pooled(account: AccountType) -> PooledSession<AccountSession> {
    PooledSession::new(&account.clone(), Arc::new(AccountSession::new(account)))
}

fn login_response(data: &str, asset: &str) -> LoginResponse {
    LoginResponse {
        session_token: String::new(),
        data_version: data.to_string(),
        asset_version: asset.to_string(),
        asset_hash: String::new(),
        suite_master_split_path: vec![],
        cdn_version: 0,
        user_registration: None,
    }
}

fn version(tag: &str) -> VersionInfo {
    VersionInfo {
        app_version: format!("app-{}", tag),
        data_version: format!("data-{}", tag),
        asset_version: format!("asset-{}", tag),
        app_hash: format!("hash-{}", tag),
    }
}

fn header<'a>(client: &'a Client, name: &str) -> Option<&'a str> {
    client.headers.get(name).map(|v| v.as_str())
}

fn is_uuid(id: &str) -> bool {
    id.len() == 36
        && id.chars().enumerate().all(|(i, c)| match i {
            8 | 13 | 18 | 23 => c == '-',
            14 => c == '4',
            _ => c.is_ascii_digit() || ('a'..='f').contains(&c),
        })
}

// Construction

#[test]
fn cookies_are_for_jp_alone() {
    assert_eq!(client(ServerRegion::Jp).cookie_url, Some("https://cookies".to_string()));
    assert_eq!(client(ServerRegion::En).cookie_url, None);
    let without: Client = SekaiClient::new(ServerRegion::Jp, config(), None, Some(String::new()));
    assert_eq!(without.cookie_url, None);
    let mut config = config();
    config.require_cookies = false;
    let unwanted: Client =
        SekaiClient::new(ServerRegion::Jp, config, None, Some("https://cookies".to_string()));
    assert_eq!(unwanted.cookie_url, None);
}

#[test]
fn an_empty_proxy_is_none() {
    let mut client = client(ServerRegion::Jp);
    assert_eq!(client.request_proxy(), None);
    client.proxy = Some(String::new());
    assert_eq!(client.request_proxy(), None);
    client.proxy = Some("p".to_string());
    assert_eq!(client.request_proxy(), Some(&"p".to_string()));
}

// Start-up

#[test]
fn clients_come_up_step_by_step() {
    let mut client = client(ServerRegion::Jp);
    assert!(matches!(client.init(), InitAction::FetchCookies(url) if url == "https://cookies"));
    let next = client.continue_init(InitEvent::CookiesFetched(Ok("c=1".to_string())));
    assert!(matches!(next, InitAction::LoadVersion));
    assert_eq!(header(&client, "Cookie"), Some("c=1"));
    let next = client.continue_init(InitEvent::VersionLoaded(Ok(version("1"))));
    assert!(matches!(next, InitAction::ReloadAccounts));
    assert_eq!(header(&client, "X-App-Hash"), Some("hash-1"));
    let next = client.continue_init(InitEvent::AccountsReloaded(Ok(())));
    assert!(matches!(next, InitAction::Finish(Ok(()))));
}

#[test]
fn start_up_ends_with_the_first_error() {
    let mut client = client(ServerRegion::Tw);
    assert!(matches!(client.init(), InitAction::LoadVersion));
    for event in [
        InitEvent::CookiesFetched(Err(AppError::SessionError)),
        InitEvent::VersionLoaded(Err(AppError::SessionError)),
        InitEvent::AccountsReloaded(Err(AppError::SessionError)),
    ] {
        let next = client.continue_init(event);
        assert!(matches!(next, InitAction::Finish(Err(AppError::SessionError))));
    }
    assert_eq!(client.headers.entries().len(), 2);
}

#[test]
fn cookies_are_refreshed_where_there_are_any() {
    let mut client = client(ServerRegion::Jp);
    assert_eq!(client.refresh_cookies(None), Ok(()));
    assert_eq!(header(&client, "Cookie"), None);
    assert_eq!(
        client.refresh_cookies(Some(Err(AppError::CookieExpired))),
        Err(AppError::CookieExpired)
    );
    assert_eq!(client.refresh_cookies(Some(Ok("c".to_string()))), Ok(()));
    assert_eq!(header(&client, "Cookie"), Some("c"));
}

// Versions

#[test]
fn versions_are_fetched_and_otherwise_loaded() {
    let mut client = client(ServerRegion::Tw);
    match client.refresh_version_from_remote() {
        RefreshAction::Fetch(url) => assert_eq!(
            url,
            "https://raw.githubusercontent.com/Team-Haruki/haruki-sekai-tc-master/main/versions/current_version.json"
        ),
        other => panic!("{:?}", other),
    }
    client.config.remote_version_url = "https://mine".to_string();
    assert!(
        matches!(client.refresh_version_from_remote(), RefreshAction::Fetch(url) if url == "https://mine")
    );
    let next = client.continue_refresh(RefreshEvent::Fetched(Err(AppError::SessionError)));
    assert!(matches!(next, RefreshAction::LoadLocal));
    let next = client.continue_refresh(RefreshEvent::Loaded(Err(AppError::SessionError)));
    assert!(matches!(next, RefreshAction::Finish(Err(AppError::SessionError))));
    let next = client.continue_refresh(RefreshEvent::Loaded(Ok(version("2"))));
    assert!(matches!(next, RefreshAction::Finish(Ok(()))));
    assert_eq!(header(&client, "X-App-Version"), Some("app-2"));
    let next = client.continue_refresh(RefreshEvent::Fetched(Ok(version("3"))));
    assert!(matches!(next, RefreshAction::Finish(Ok(()))));
    assert_eq!(header(&client, "X-App-Version"), Some("app-3"));
    assert_eq!(header(&client, "X-Data-Version"), Some("data-3"));
    assert_eq!(header(&client, "X-Asset-Version"), Some("asset-3"));
    assert_eq!(header(&client, "X-App-Hash"), Some("hash-3"));
    assert_eq!(header(&client, "User-Agent"), Some("agent"));
}

#[test]
fn logins_update_the_versions_they_bring() {
    let mut client = client(ServerRegion::Tw);
    client.update_version_headers(&version("1"));
    client.update_version_headers_from_login(&login_response("d", ""));
    assert_eq!(header(&client, "X-Data-Version"), Some("d"));
    assert_eq!(header(&client, "X-Asset-Version"), Some("asset-1"));
    client.update_version_headers_from_login(&login_response("", "a"));
    assert_eq!(header(&client, "X-Data-Version"), Some("d"));
    assert_eq!(header(&client, "X-Asset-Version"), Some("a"));
    assert_eq!(header(&client, "X-App-Version"), Some("app-1"));
    assert_eq!(header(&client, "X-App-Hash"), Some("hash-1"));
}

// Requests

#[test]
fn requests_are_numbered_anew() {
    let client = client(ServerRegion::Jp);
    let request = client.call_api("77", Some("token"), "put", "/user/{userId}/mysekai/{userId}", None);
    assert_eq!(request.method, HttpMethod::Put);
    assert_eq!(request.url, "https://game/api/user/77/mysekai/77");
    let names: Vec<&str> = request.headers.iter().map(|(n, _)| n.as_str()).collect();
    assert_eq!(
        names,
        ["User-Agent", "X-Session-Token", "X-Request-Id", "X-User-Execute-Location"]
    );
    assert_eq!(request.headers[1].1, "token");
    assert!(is_uuid(&request.headers[2].1));
    assert_eq!(request.headers[3].1, "mysekai");
    let again = client.call_api("77", None, "put", "/mysekai", None);
    assert_eq!(again.headers.len(), 2);
    assert_ne!(again.headers[1].1, request.headers[2].1);
    assert_eq!(
        client.numbered_headers(None, "n"),
        [
            ("User-Agent".to_string(), "agent".to_string()),
            ("X-Request-Id".to_string(), "n".to_string())
        ]
    );
}

#[test]
fn methods_are_known_by_name() {
    assert_eq!(http_method("get"), HttpMethod::Get);
    assert_eq!(http_method("Post"), HttpMethod::Post);
    assert_eq!(http_method("PUT"), HttpMethod::Put);
    assert_eq!(http_method("delete"), HttpMethod::Delete);
    assert_eq!(http_method("pAtCh"), HttpMethod::Patch);
    assert_eq!(http_method("HEAD"), HttpMethod::Get);
    let client = client(ServerRegion::Jp);
    assert_eq!(client.get("1", None, "/a").method, HttpMethod::Get);
    assert_eq!(client.post("1", None, "/a", None).method, HttpMethod::Post);
    assert_eq!(client.post("1", None, "/a", None).url, "https://game/api/a");
}

#[test]
fn requests_carry_their_body() {
    let client = client(ServerRegion::Jp);
    assert_eq!(client.get("1", None, "/a").body, None);
    assert_eq!(client.call_api("1", None, "GET", "/a", None).body, None);
    assert_eq!(client.post("1", None, "/a", Some(vec![7])).body, Some(vec![7]));
    let encrypted = vec![1, 2, 3];
    let request = client.call_api_with_raw_body("1", None, "PATCH", "/a", &encrypted);
    assert_eq!(request.method, HttpMethod::Patch);
    assert_eq!(request.body, Some(encrypted.clone()));
    let request = client.post_empty_body("1", Some("t"), "/a", &encrypted);
    assert_eq!(request.method, HttpMethod::Post);
    assert_eq!(request.body, Some(encrypted));
    assert_eq!(request.headers[1], ("X-Session-Token".to_string(), "t".to_string()));
}

#[test]
fn requests_are_given_up_after_four_attempts() {
    let mut transport = Transport::first();
    for attempt in 1..4 {
        assert_eq!(transport.attempt, attempt);
        let retry = transport.failed(format!("failure {}", attempt)).unwrap();
        assert_eq!(retry.pause_secs, 1);
        transport = retry.next;
    }
    assert_eq!(transport.attempt, 4);
    assert_eq!(
        transport.failed("failure 4".to_string()).unwrap_err(),
        AppError::NetworkError("failure 4".to_string())
    );
}

// Logins

#[test]
fn cp_accounts_log_in_with_put() {
    let client = client(ServerRegion::En);
    let request = client.login(&AccountSession::new(cp_account("9", &[]))).unwrap();
    assert_eq!(request.method, HttpMethod::Put);
    assert_eq!(request.url, "https://game/api/user/9/auth?refreshUpdatedResources=False");
    let last: Vec<&str> = request.headers[2..].iter().map(|(n, _)| n.as_str()).collect();
    assert_eq!(last, ["content-type", "accept"]);
    assert_eq!(request.headers[2].1, "application/octet-stream");
    let body = rmpv::decode::read_value(&mut std::io::Cursor::new(&request.body)).unwrap();
    assert_eq!(body.as_map().unwrap().len(), 1);
}

#[test]
fn other_accounts_log_in_with_post() {
    let mut client = client(ServerRegion::Cn);
    let account = AccountType::Nuverse(SekaiAccountNuverse {
        user_id: "x".to_string(),
        device_id: String::new(),
        access_token: "t".to_string(),
        proxy_roles: vec![],
    });
    let session = AccountSession::new(account);
    let request = client.login(&session).unwrap();
    assert_eq!(request.method, HttpMethod::Post);
    assert_eq!(request.url, "https://game/api/user/auth");
    client.config.login_protocol = LoginProtocol::V1;
    assert_eq!(
        client.login(&session).unwrap_err(),
        AppError::ParseError("Invalid user_id: x".to_string())
    );
}

// Game calls

fn step(client: &mut Client, call: GameCall, event: CallEvent) -> (GameCall, CallAction) {
    assert!(call.is_well_formed());
    assert!(call.is_awaited(&event));
    client.continue_call(call, event)
}

#[test]
fn game_calls_find_their_session_and_body() {
    let mut client = client(ServerRegion::Jp);
    assert!(matches!(client.get_game_api("/a"), Err(AppError::NoClientAvailable)));
    client.replace_sessions(vec![pooled(cp_account("1", &[])), pooled(cp_account("2", &["mysekai"]))]);
    let request = client.get_game_api("/a").ok().unwrap();
    assert_eq!(request.session.user_id(), "1");
    assert_eq!((request.method.as_str(), request.path.as_str()), ("GET", "/a"));
    assert_eq!(request.body, BodyKind::Absent);
    let request = client.get_game_api_with_role("/a", "mysekai").ok().unwrap();
    assert_eq!(request.session.user_id(), "2");
    let request = client.post_game_api_with_role("/a", "mysekai").ok().unwrap();
    assert_eq!(request.method, "POST");
    assert_eq!(request.body, BodyKind::EncryptedEmpty);
    let request = client.post_game_api_with_body_and_role("/a", "default").ok().unwrap();
    assert_eq!(request.body, BodyKind::Data);
    assert!(request.call.require_cookies);
    let request = client
        .call_game_api_with_optional_body_and_role("pOsT", "/a", true, "default")
        .ok()
        .unwrap();
    assert_eq!(request.body, BodyKind::Data);
    let request = client
        .call_game_api_with_optional_body_and_role("PUT", "/a", true, "default")
        .ok()
        .unwrap();
    assert_eq!(request.body, BodyKind::Absent);
    assert!(matches!(
        client.get_game_api_with_role("/a", "x"),
        Err(AppError::NoProxyAccountForRole(role)) if role == "x"
    ));
}

#[test]
fn game_calls_end_with_the_answer() {
    let mut client = client(ServerRegion::Jp);
    let call = GameCall::start(true);
    let (call, action) = step(&mut client, call, CallEvent::Answered(Ok((Value::from("x"), 404))));
    assert!(matches!(action, CallAction::Finish(Ok((Value::String(s), 404))) if s == "x"));
    assert!(!call.is_awaited(&CallEvent::Paused));
}

#[test]
fn game_calls_pass_other_errors_on() {
    let mut client = client(ServerRegion::Jp);
    for error in [
        AppError::UnderMaintenance,
        AppError::NotFound("n".to_string()),
        AppError::Unknown { status: 500, body: "b".to_string() },
    ] {
        let event = CallEvent::Answered(Err(error.clone()));
        let (_, action) = step(&mut client, GameCall::start(true), event);
        assert!(matches!(action, CallAction::Finish(Err(e)) if e == error));
    }
    let event = CallEvent::SendFailed(AppError::SessionError);
    let (_, action) = step(&mut client, GameCall::start(true), event);
    assert!(matches!(action, CallAction::Finish(Err(AppError::SessionError))));
}

#[test]
fn refused_sessions_log_in_again_at_most_four_times() {
    let mut client = client(ServerRegion::Jp);
    let mut call = GameCall::start(true);
    for round in 0..4 {
        let (next, action) =
            step(&mut client, call, CallEvent::Answered(Err(AppError::SessionError)));
        assert!(matches!(action, CallAction::Login));
        let (next, action) =
            step(&mut client, next, CallEvent::LoggedIn(Ok(login_response("d", "a"))));
        assert!(matches!(action, CallAction::Pause(1)));
        let (next, action) = step(&mut client, next, CallEvent::Paused);
        call = next;
        if round < 3 {
            assert!(matches!(action, CallAction::Send));
        } else {
            assert!(matches!(
                action,
                CallAction::Finish(Err(AppError::NetworkError(words)))
                    if words == "Max retry attempts reached"
            ));
        }
    }
    // A login that followed no refresh of the versions does not touch them.
    assert_eq!(header(&client, "X-Data-Version"), None);
}

#[test]
fn refused_sessions_that_cannot_log_in_end_the_call() {
    let mut client = client(ServerRegion::Jp);
    let (call, _) = step(
        &mut client,
        GameCall::start(true),
        CallEvent::Answered(Err(AppError::SessionError)),
    );
    let event = CallEvent::LoggedIn(Err(AppError::UpgradeRequired));
    let (_, action) = step(&mut client, call, event);
    assert!(matches!(action, CallAction::Finish(Err(AppError::SessionError))));
}

#[test]
fn expired_cookies_are_refreshed_where_configured() {
    let mut client = client(ServerRegion::Jp);
    let expired = || CallEvent::Answered(Err(AppError::CookieExpired));
    let (_, action) = step(&mut client, GameCall::start(false), expired());
    assert!(matches!(action, CallAction::Finish(Err(AppError::CookieExpired))));
    let (call, action) = step(&mut client, GameCall::start(true), expired());
    assert!(matches!(action, CallAction::RefreshCookies));
    let failed = CallEvent::CookiesRefreshed(Err(AppError::NotFound("c".to_string())));
    let (_, action) = step(&mut client, call, failed);
    assert!(matches!(action, CallAction::Finish(Err(AppError::NotFound(_)))));
    let (call, action) = step(&mut client, call, CallEvent::CookiesRefreshed(Ok(())));
    assert!(matches!(action, CallAction::Pause(1)));
    assert_eq!(call.retries, 1);
}

#[test]
fn upgrades_are_waited_for_once_a_round() {
    let mut client = client(ServerRegion::Jp);
    let upgrade = || CallEvent::Answered(Err(AppError::UpgradeRequired));
    let (call, action) = step(&mut client, GameCall::start(true), upgrade());
    assert!(matches!(action, CallAction::RefreshVersion));
    let (failing, action) =
        step(&mut client, call, CallEvent::VersionRefreshed(Err(AppError::SessionError)));
    assert!(matches!(action, CallAction::Finish(Err(AppError::SessionError))));
    assert!(!failing.is_awaited(&CallEvent::Paused));
    let (call, action) = step(&mut client, call, CallEvent::VersionRefreshed(Ok(())));
    assert!(matches!(action, CallAction::Login));
    let (_, action) = step(&mut client, call, CallEvent::LoggedIn(Err(AppError::SessionError)));
    assert!(matches!(action, CallAction::Finish(Err(AppError::UpgradeRequired))));
    let (waiting, action) =
        step(&mut client, call, CallEvent::LoggedIn(Err(AppError::UpgradeRequired)));
    assert!(matches!(action, CallAction::Pause(10)));
    let (second, action) = step(&mut client, waiting, CallEvent::Paused);
    assert!(matches!(action, CallAction::RefreshVersion));
    let (last, action) = step(&mut client, second, CallEvent::VersionRefreshed(Ok(())));
    assert!(matches!(action, CallAction::Login));
    let (_, action) = step(&mut client, last, CallEvent::LoggedIn(Err(AppError::UpgradeRequired)));
    assert!(matches!(action, CallAction::Finish(Err(AppError::UpgradeRequired))));
    let (repeat, action) =
        step(&mut client, last, CallEvent::LoggedIn(Ok(login_response("d", "a"))));
    assert!(matches!(action, CallAction::Pause(1)));
    assert_eq!(repeat.retries, 1);
    assert_eq!(header(&client, "X-Data-Version"), Some("d"));
    assert_eq!(header(&client, "X-Asset-Version"), Some("a"));
}

// Building and reloading

fn build_step(client: &mut Client, build: PoolBuild, event: BuildEvent) -> (PoolBuild, BuildAction) {
    assert!(build.is_well_formed(client.region));
    assert!(build.is_awaited(&event));
    client.continue_build(build, event)
}

fn parsed(accounts: Vec<AccountType>, complete: bool) -> Result<ParsedAccounts, AppError> {
    Ok(ParsedAccounts { accounts, complete })
}

#[test]
fn pools_are_built_of_the_accounts_that_log_in() {
    let mut client = client(ServerRegion::Jp);
    let accounts = vec![
        cp_account("", &[]),
        cp_account("1", &["mysekai"]),
        cp_account("2", &[]),
        cp_account("", &[]),
        cp_account("3", &[]),
    ];
    let sessions: Vec<Arc<AccountSession>> =
        accounts.iter().map(|a| Arc::new(AccountSession::new(a.clone()))).collect();
    let (build, action) = client.reload_accounts(parsed(accounts, true)).unwrap();
    assert_eq!(action, BuildAction::Login(1));
    let ok = || BuildEvent::LoggedIn(Ok(login_response("d", "a")));
    let (build, action) = build_step(&mut client, build, ok());
    assert_eq!(action, BuildAction::Login(2));
    let (build, action) =
        build_step(&mut client, build, BuildEvent::LoggedIn(Err(AppError::SessionError)));
    assert_eq!(action, BuildAction::Login(4));
    let (build, action) = build_step(&mut client, build, ok());
    assert_eq!(action, BuildAction::Finish);
    assert_eq!(build.kept, [1, 4]);
    assert_eq!(header(&client, "X-Data-Version"), None);
    assert_eq!(kept_sessions(&build, &sessions).len(), 2);
    assert_eq!(
        client.finish_reload(&build, &sessions),
        SessionPoolReplacement::Replaced { active: 2 }
    );
    assert_eq!(client.session_count(), 2);
    assert_eq!(client.get_session_for_role("mysekai").unwrap().user_id(), "1");
    assert_eq!(client.get_session().unwrap().user_id(), "3");
}

#[test]
fn broken_states_are_told_apart() {
    let mut call = GameCall::start(true);
    call.retries = 4;
    assert!(!call.is_well_formed());
    call.phase = CallPhase::Pausing;
    assert!(call.is_well_formed());
    call.retries = 5;
    assert!(!call.is_well_formed());

    let client = client(ServerRegion::Jp);
    let accounts = || vec![cp_account("1", &[]), cp_account("", &[]), cp_account("3", &[])];
    let build = |index: usize, kept: Vec<usize>, upgrade_refreshed: bool, phase: BuildPhase| {
        PoolBuild { accounts: accounts(), kept, index, upgrade_refreshed, phase }
            .is_well_formed(client.region)
    };
    assert!(build(2, vec![0], false, BuildPhase::FirstLogin));
    assert!(build(3, vec![0, 2], false, BuildPhase::Finished));
    assert!(build(2, vec![], true, BuildPhase::Waiting));
    assert!(!build(4, vec![], false, BuildPhase::Finished));
    assert!(!build(3, vec![], false, BuildPhase::FirstLogin));
    assert!(!build(1, vec![], false, BuildPhase::FirstLogin));
    assert!(!build(2, vec![2], false, BuildPhase::FirstLogin));
    assert!(!build(2, vec![1], false, BuildPhase::FirstLogin));
    assert!(!build(3, vec![2, 0], false, BuildPhase::Finished));
    assert!(!build(3, vec![0, 0], false, BuildPhase::Finished));
    assert!(!build(2, vec![], false, BuildPhase::Waiting));
}

#[test]
fn pools_refresh_the_versions_for_one_account() {
    let mut client = client(ServerRegion::Tw);
    let accounts = vec![cp_account("", &[]), cp_account("2", &[])];
    let (build, action) = client.build_session_pool(accounts);
    assert_eq!(action, BuildAction::Login(0));
    let upgrade = || BuildEvent::LoggedIn(Err(AppError::UpgradeRequired));
    let (build, action) = build_step(&mut client, build, upgrade());
    assert_eq!(action, BuildAction::RefreshVersion);
    let (build, action) = build_step(&mut client, build, BuildEvent::VersionRefreshed(Ok(())));
    assert_eq!(action, BuildAction::Login(0));
    let (build, action) = build_step(&mut client, build, upgrade());
    assert_eq!(action, BuildAction::Pause(10));
    let (build, action) = build_step(&mut client, build, BuildEvent::Paused);
    assert_eq!(action, BuildAction::RefreshVersion);
    let (build, action) = build_step(&mut client, build, BuildEvent::VersionRefreshed(Ok(())));
    assert_eq!(action, BuildAction::Login(0));
    let last = BuildEvent::LoggedIn(Ok(login_response("d", "a")));
    let (build, action) = build_step(&mut client, build, last);
    assert_eq!(action, BuildAction::Login(1));
    assert_eq!(header(&client, "X-Data-Version"), Some("d"));
    // The second account that is told to upgrade is given up.
    let (build, action) = build_step(&mut client, build, upgrade());
    assert_eq!(action, BuildAction::Finish);
    assert_eq!(build.kept, [0]);
}

#[test]
fn accounts_are_given_up_when_the_versions_cannot_be_refreshed() {
    let mut client = client(ServerRegion::Tw);
    let (build, _) = client.build_session_pool(vec![cp_account("1", &[]), cp_account("2", &[])]);
    let upgrade = || BuildEvent::LoggedIn(Err(AppError::UpgradeRequired));
    let (build, _) = build_step(&mut client, build, upgrade());
    let failed = BuildEvent::VersionRefreshed(Err(AppError::SessionError));
    let (build, action) = build_step(&mut client, build, failed);
    assert_eq!(action, BuildAction::Login(1));
    assert!(build.kept.is_empty());
    let (build, action) = build_step(&mut client, build, upgrade());
    assert_eq!(action, BuildAction::Finish);
    assert!(build.kept.is_empty());
    assert!(!build.is_awaited(&BuildEvent::Paused));
}

#[test]
fn reloads_keep_the_sessions_when_something_is_wrong() {
    let mut client = client(ServerRegion::Jp);
    client.replace_sessions(vec![pooled(cp_account("old", &[]))]);
    assert!(client.reload_accounts(Err(AppError::SessionError)).is_none());
    assert!(client.reload_accounts(parsed(vec![], true)).is_none());
    assert!(client.reload_accounts(parsed(vec![cp_account("1", &[])], false)).is_none());

    let accounts = vec![cp_account("1", &[])];
    let sessions = vec![Arc::new(AccountSession::new(cp_account("1", &[])))];
    let (build, _) = client.reload_accounts(parsed(accounts, true)).unwrap();
    let failed = BuildEvent::LoggedIn(Err(AppError::SessionError));
    let (build, action) = build_step(&mut client, build, failed);
    assert_eq!(action, BuildAction::Finish);
    assert_eq!(
        client.finish_reload(&build, &sessions),
        SessionPoolReplacement::EmptyCandidate { active: 1 }
    );
    assert_eq!(client.get_session().unwrap().user_id(), "old");
}

// Recovery and watching

#[test]
fn an_empty_pool_is_recovered_by_one_worker() {
    let mut client = client(ServerRegion::Jp);
    let (recovery, action) = client.start_empty_pool_recovery().unwrap();
    assert_eq!(action, RecoveryAction::Sleep(INITIAL_RECOVERY_DELAY));
    assert!(client.start_empty_pool_recovery().is_none());
    let (recovery, action) = client.continue_recovery(recovery);
    assert_eq!(action, RecoveryAction::Lock);
    let (recovery, action) = client.continue_recovery(recovery);
    assert_eq!(action, RecoveryAction::Reload);
    let (recovery, action) = client.continue_recovery(recovery);
    assert_eq!(action, RecoveryAction::Sleep(2 * INITIAL_RECOVERY_DELAY));
    client.replace_sessions(vec![pooled(cp_account("1", &[]))]);
    let (_, action) = client.continue_recovery(recovery);
    assert_eq!(action, RecoveryAction::Finish);
    client.recovery_started = false;
    assert!(client.start_empty_pool_recovery().is_none());
    assert!(!client.recovery_started);
}

#[test]
fn only_a_directory_that_exists_is_watched() {
    let mut client = client(ServerRegion::Jp);
    assert_eq!(
        client.start_file_watcher(true),
        Some((WatchState::Idle, WatchAction::Wait))
    );
    assert_eq!(client.start_file_watcher(false), None);
    client.config.account_dir = String::new();
    assert_eq!(client.start_file_watcher(true), None);
}

// Images and music scores

#[test]
fn photos_and_thumbnails_lie_beside_the_interface() {
    let mut client = client(ServerRegion::Jp);
    assert!(matches!(client.get_cp_mysekai_image("x"), Err(AppError::NoClientAvailable)));
    client.replace_sessions(vec![pooled(cp_account("1", &["mysekai"]))]);
    let request = client.get_cp_mysekai_image("//a/b").ok().unwrap();
    assert_eq!(request.location, "https://game/image/mysekai-photo/a/b");
    assert_eq!(request.session.user_id(), "1");
    let request = client.get_cp_mysekai_housing_thumbnail("c").ok().unwrap();
    assert_eq!(
        request.location,
        "https://game/image/mysekai-housing-competition/thumbnail/c"
    );
    let request = client.get_nuverse_mysekai_image("5", "6").ok().unwrap();
    assert_eq!(request.location, "/user/5/mysekai/photo/6");
}

#[test]
fn images_come_with_their_type() {
    let png = image_result("u", 200, Some("image/png"), Ok(vec![1, 2]));
    assert_eq!(png, Ok((vec![1, 2], "image/png".to_string())));
    let plain = image_result("u", 200, None, Ok(vec![]));
    assert_eq!(plain, Ok((vec![], "application/octet-stream".to_string())));
    assert_eq!(
        image_result("u", 404, None, Ok(vec![])),
        Err(AppError::Unknown {
            status: 404,
            body: "Failed to fetch image from u".to_string()
        })
    );
    assert_eq!(
        image_result("u", 200, None, Err("cut".to_string())),
        Err(AppError::NetworkError("cut".to_string()))
    );
}

#[test]
fn nuverse_images_are_in_base64() {
    let mut fields: IndexMap<String, Value> = IndexMap::new();
    let missing = Err(AppError::ParseError("missing thumbnail in response".to_string()));
    assert_eq!(nuverse_image(&fields), missing);
    fields.insert("thumbnail".to_string(), Value::from(3));
    assert_eq!(nuverse_image(&fields), missing);
    fields.insert("other".to_string(), Value::from("AAAA"));
    fields.insert("thumbnail".to_string(), Value::from("AQID"));
    assert_eq!(nuverse_image(&fields), Ok(vec![1, 2, 3]));
    fields.insert("thumbnail".to_string(), Value::from("?"));
    match nuverse_image(&fields) {
        Err(AppError::ParseError(words)) => assert!(words.starts_with("failed to decode base64: ")),
        other => panic!("{:?}", other),
    }
}

#[test]
fn music_scores_are_for_jp_alone() {
    let mut elsewhere = client(ServerRegion::En);
    assert!(matches!(
        elsewhere.get_jp_custom_music_score_blob_text("full", "x"),
        Err(AppError::BadRequest(words)) if words == "custom music score blob is only supported for jp"
    ));
    let mut client = client(ServerRegion::Jp);
    assert!(matches!(
        client.get_jp_custom_music_score_blob_text("half", "x"),
        Err(AppError::BadRequest(words)) if words == "custom music score blob kind must be full or preview"
    ));
    assert!(matches!(
        client.get_jp_custom_music_score_blob_text("full", "x"),
        Err(AppError::NoClientAvailable)
    ));
    client.replace_sessions(vec![pooled(cp_account("1", &["mysekai"]))]);
    assert!(matches!(
        client.get_jp_custom_music_score_blob_text("full", "x"),
        Err(AppError::NoClientAvailable)
    ));
    client.replace_sessions(vec![pooled(cp_account("1", &[]))]);
    let request = client.get_jp_custom_music_score_blob_text("preview", "/x/y").ok().unwrap();
    assert_eq!(request.location, "https://game/blob/custom-music-score/preview/x/y");
}

#[test]
fn music_scores_need_status_200() {
    assert_eq!(blob_result(200, Ok("t".to_string())), Ok("t".to_string()));
    assert_eq!(
        blob_result(403, Ok("t".to_string())),
        Err(AppError::Unknown { status: 403, body: "t".to_string() })
    );
    assert_eq!(
        blob_result(200, Err("cut".to_string())),
        Err(AppError::NetworkError("cut".to_string()))
    );
}

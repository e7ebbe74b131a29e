use sekai_client::account::{
    AccountType, SekaiAccountCP, SekaiAccountNuverse, DEFAULT_PROXY_ROLE, MYSEKAI_PROXY_ROLE,
};
use sekai_client::config::{LoginProtocol, ServerRegion};
use sekai_client::error::AppError;
use sekai_client::login::{apply_login, finish_login, LoginResponse, UserRegistration};
use sekai_client::session::{
    replace_session_pool, AccountSession, PooledSession, SessionPool, SessionPoolReplacement,
};
use std::sync::Arc;

fn session(user_id: &str, roles: &[&str]) -> PooledSession<AccountSession> {
    let account = AccountType::CP(SekaiAccountCP {
        user_id: user_id.to_string(),
        device_id: "device".to_string(),
        credential: "credential".to_string(),
        proxy_roles: roles.iter().map(|role| (*role).to_string()).collect(),
    });
    PooledSession::new(&account.clone(), Arc::new(AccountSession::new(account)))
}

fn pool(sessions: Vec<PooledSession<AccountSession>>, index: usize) -> SessionPool<AccountSession> {
    SessionPool {
        sessions,
        session_index: index,
    }
}

fn response(token: &str, user_id: Option<&str>) -> LoginResponse {
    LoginResponse {
        session_token: token.to_string(),
        data_version: String::new(),
        asset_version: String::new(),
        asset_hash: String::new(),
        suite_master_split_path: vec![],
        cdn_version: 0,
        user_registration: user_id.map(|id| UserRegistration {
            user_id: id.to_string(),
        }),
    }
}

#[test]
fn empty_candidate_keeps_active_session_pool() {
    let mut pool = pool(vec![session("old", &[DEFAULT_PROXY_ROLE])], 7);

    let result = replace_session_pool(&mut pool, Vec::new());

    assert_eq!(result, SessionPoolReplacement::EmptyCandidate { active: 1 });
    assert_eq!(pool.sessions[0].session.user_id(), "old");
    assert_eq!(pool.session_index, 7);
}

#[test]
fn replacing_session_pool_resets_round_robin_index() {
    let mut pool = pool(vec![session("old", &[DEFAULT_PROXY_ROLE])], 7);

    let result = replace_session_pool(&mut pool, vec![session("new", &[DEFAULT_PROXY_ROLE])]);

    assert_eq!(result, SessionPoolReplacement::Replaced { active: 1 });
    assert_eq!(pool.sessions[0].session.user_id(), "new");
    assert_eq!(pool.session_index, 0);
}

#[test]
fn partial_success_candidate_replaces_old_session_pool() {
    let mut pool = pool(
        vec![
            session("old-1", &[DEFAULT_PROXY_ROLE]),
            session("old-2", &[DEFAULT_PROXY_ROLE]),
        ],
        7,
    );

    let result = replace_session_pool(&mut pool, vec![session("new", &[DEFAULT_PROXY_ROLE])]);

    assert_eq!(result, SessionPoolReplacement::Replaced { active: 1 });
    assert_eq!(pool.sessions[0].session.user_id(), "new");
    assert_eq!(pool.session_index, 0);
}

#[test]
fn sessions_are_handed_out_in_turn() {
    let mut pool = pool(
        vec![session("a", &[]), session("b", &[]), session("c", &[])],
        0,
    );
    let mut order = Vec::new();
    for _ in 0..5 {
        order.push(pool.get_session().unwrap().user_id().to_string());
    }
    assert_eq!(order, ["a", "b", "c", "a", "b"]);
}

#[test]
fn sessions_are_handed_out_for_their_roles() {
    let mut pool = pool(
        vec![
            session("a", &[]),
            session("m", &[MYSEKAI_PROXY_ROLE]),
            session("both", &["Default", " MySekai"]),
        ],
        0,
    );
    assert_eq!(pool.session_count(), 3);
    let first = pool.get_session_for_role("mysekai").unwrap();
    assert_eq!(first.user_id(), "m");
    assert_eq!(pool.session_index, 1);
    // The shared session is the one in the pool, not a copy of it.
    assert!(Arc::ptr_eq(&first, &pool.sessions[1].session));
    pool.session_index = 2;
    assert_eq!(pool.get_session_for_role("MYSEKAI ").unwrap().user_id(), "both");
    assert_eq!(pool.get_session_for_role("mysekai").unwrap().user_id(), "m");
    assert_eq!(
        pool.get_session_for_role("other").unwrap_err(),
        AppError::NoProxyAccountForRole("other".to_string())
    );
    assert_eq!(pool.session_index, 5);
}

#[test]
fn an_empty_pool_has_no_session_and_no_turn() {
    let mut pool: SessionPool<AccountSession> = SessionPool::new();
    assert_eq!(
        pool.get_session_for_role("default").unwrap_err(),
        AppError::NoClientAvailable
    );
    assert!(pool.get_session().is_none());
    assert_eq!(pool.session_index, 0);
}

#[test]
fn the_count_of_turns_wraps_around() {
    let mut pool = pool(vec![session("a", &[]), session("b", &[])], usize::MAX);
    let at_the_end = pool.get_session().unwrap();
    assert_eq!(at_the_end.user_id(), "b");
    assert_eq!(pool.session_index, 0);
    assert_eq!(pool.get_session().unwrap().user_id(), "a");
}

#[test]
fn logins_take_the_token_over() {
    let account = AccountType::CP(SekaiAccountCP {
        user_id: "1".to_string(),
        device_id: String::new(),
        credential: String::new(),
        proxy_roles: vec![],
    });
    let mut session = AccountSession::new(account);
    assert_eq!(session.get_session_token(), None);
    session.update_session_token(None);
    assert_eq!(session.get_session_token(), None);
    session.update_session_token(Some("header"));
    assert_eq!(session.get_session_token(), Some("header"));
    apply_login(&mut session, ServerRegion::Jp, &response("", Some("9")));
    assert_eq!(session.get_session_token(), Some("header"));
    apply_login(&mut session, ServerRegion::Jp, &response("body", Some("9")));
    assert_eq!(session.get_session_token(), Some("body"));
    assert_eq!(session.user_id(), "1");
}

#[test]
fn logins_take_the_registered_user_over_outside_cp_regions() {
    let account = AccountType::Nuverse(SekaiAccountNuverse {
        user_id: "1".to_string(),
        device_id: String::new(),
        access_token: "t".to_string(),
        proxy_roles: vec!["x".to_string()],
    });
    let mut session = AccountSession::new(account);
    for (given, expected) in [(None, "1"), (Some(""), "1"), (Some("0"), "1"), (Some("22"), "22")] {
        apply_login(&mut session, ServerRegion::Tw, &response("", given));
        assert_eq!(session.user_id(), expected);
    }
    assert!(session.has_proxy_role("X"));
    assert!(session.dump_account(LoginProtocol::V2).is_ok());
    let again = session.clone();
    apply_login(&mut session, ServerRegion::Tw, &response("", Some("22")));
    assert_eq!(session.user_id(), again.user_id());
}

#[test]
fn the_header_of_a_failed_login_counts() {
    let account = AccountType::Nuverse(SekaiAccountNuverse {
        user_id: "1".to_string(),
        device_id: String::new(),
        access_token: "t".to_string(),
        proxy_roles: vec![],
    });
    let mut session = AccountSession::new(account);
    let failed = finish_login(
        &mut session,
        ServerRegion::Tw,
        Some("header"),
        Err(AppError::UpgradeRequired),
    );
    assert_eq!(failed.unwrap_err(), AppError::UpgradeRequired);
    assert_eq!(session.get_session_token(), Some("header"));
    assert_eq!(session.user_id(), "1");
    let done = finish_login(
        &mut session,
        ServerRegion::Tw,
        Some("header-2"),
        Ok(response("body", Some("5"))),
    );
    assert!(done.is_ok());
    assert_eq!(session.get_session_token(), Some("body"));
    assert_eq!(session.user_id(), "5");
}

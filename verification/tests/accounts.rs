use sekai_client::account::{
    null_or_number_to_string, null_to_empty_string, normalize_proxy_role, normalized_proxy_roles,
    serves_role, AccountType, SekaiAccount, SekaiAccountCP, SekaiAccountNuverse, StringOrNumber,
    DEFAULT_PROXY_ROLE, MYSEKAI_PROXY_ROLE,
};
use sekai_client::config::LoginProtocol;
use sekai_client::error::AppError;

/// Decodes a MessagePack map, so that the tests see the form of the body and not
/// its bytes.
fn msgpack_fields(data: &[u8]) -> Vec<(String, rmpv::Value)> {
    let value = rmpv::decode::read_value(&mut std::io::Cursor::new(data)).unwrap();
    value
        .as_map()
        .expect("login body must be a map")
        .iter()
        .map(|(k, v)| (k.as_str().expect("keys must be strings").to_string(), v.clone()))
        .collect()
}

fn msgpack_keys(data: &[u8]) -> Vec<String> {
    msgpack_fields(data).into_iter().map(|(k, _)| k).collect()
}

fn cp(user_id: &str, device_id: &str, roles: &[&str]) -> SekaiAccountCP {
    SekaiAccountCP {
        user_id: user_id.to_string(),
        device_id: device_id.to_string(),
        credential: "cred".to_string(),
        proxy_roles: roles.iter().map(|r| r.to_string()).collect(),
    }
}

fn nuverse(user_id: &str, device_id: &str) -> SekaiAccountNuverse {
    SekaiAccountNuverse {
        user_id: user_id.to_string(),
        device_id: device_id.to_string(),
        access_token: "token".to_string(),
        proxy_roles: vec![],
    }
}

#[test]
fn empty_proxy_roles_default_to_normal_proxying() {
    assert_eq!(
        normalized_proxy_roles(&[]),
        vec![DEFAULT_PROXY_ROLE.to_string()]
    );
}

#[test]
fn proxy_roles_are_trimmed_and_lowercased() {
    let roles = vec![" MySekai ".to_string(), "".to_string()];
    assert_eq!(
        normalized_proxy_roles(&roles),
        vec![MYSEKAI_PROXY_ROLE.to_string()]
    );
}

#[test]
fn account_role_matching_does_not_fallback_for_special_roles() {
    let account = SekaiAccountCP {
        user_id: "1".to_string(),
        device_id: "device".to_string(),
        credential: "credential".to_string(),
        proxy_roles: vec![MYSEKAI_PROXY_ROLE.to_string()],
    };

    assert!(account.has_proxy_role(MYSEKAI_PROXY_ROLE));
    assert!(!account.has_proxy_role(DEFAULT_PROXY_ROLE));
}

#[test]
fn v2_login_body_carries_only_access_token() {
    let cp = SekaiAccountCP {
        user_id: "1".to_string(),
        device_id: "device".to_string(),
        credential: "cred".to_string(),
        proxy_roles: vec![],
    };
    assert_eq!(
        msgpack_keys(&cp.dump(LoginProtocol::V2).unwrap()),
        ["accessToken"]
    );

    let nuverse = SekaiAccountNuverse {
        user_id: "123".to_string(),
        device_id: "device".to_string(),
        access_token: "token".to_string(),
        proxy_roles: vec![],
    };
    assert_eq!(
        msgpack_keys(&nuverse.dump(LoginProtocol::V2).unwrap()),
        ["accessToken"]
    );
}

#[test]
fn v1_login_body_keeps_legacy_fields() {
    let nuverse = SekaiAccountNuverse {
        user_id: "123".to_string(),
        device_id: "device".to_string(),
        access_token: "token".to_string(),
        proxy_roles: vec![],
    };
    let keys = msgpack_keys(&nuverse.dump(LoginProtocol::V1).unwrap());
    assert!(keys.contains(&"accessToken".to_string()));
    assert!(keys.contains(&"userID".to_string()));
    assert!(keys.contains(&"deviceId".to_string()));
}

#[test]
fn v2_does_not_require_a_numeric_user_id() {
    // v1 parses user_id as i64; v2 must not, so accounts whose id is not a
    // plain integer still log in.
    let nuverse = SekaiAccountNuverse {
        user_id: "not-a-number".to_string(),
        device_id: String::new(),
        access_token: "token".to_string(),
        proxy_roles: vec![],
    };
    assert!(nuverse.dump(LoginProtocol::V1).is_err());
    assert!(nuverse.dump(LoginProtocol::V2).is_ok());
}

#[test]
fn v2_body_holds_the_token_of_either_kind() {
    let fields = msgpack_fields(&cp("1", "device", &[]).dump(LoginProtocol::V2).unwrap());
    assert_eq!(fields, [("accessToken".to_string(), rmpv::Value::from("cred"))]);
    let fields = msgpack_fields(&nuverse("123", "").dump(LoginProtocol::V2).unwrap());
    assert_eq!(fields, [("accessToken".to_string(), rmpv::Value::from("token"))]);
}

#[test]
fn v1_nuverse_body_has_the_number_and_falls_back_to_it_for_the_device() {
    let fields = msgpack_fields(&nuverse("-123", "").dump(LoginProtocol::V1).unwrap());
    assert_eq!(
        fields,
        [
            ("deviceId".to_string(), rmpv::Value::from("-123")),
            ("accessToken".to_string(), rmpv::Value::from("token")),
            ("userID".to_string(), rmpv::Value::from(-123)),
        ]
    );
    let fields = msgpack_fields(&nuverse("+7", "phone").dump(LoginProtocol::V1).unwrap());
    assert_eq!(fields[0].1, rmpv::Value::from("phone"));
    assert_eq!(fields[2].1, rmpv::Value::from(7));
}

#[test]
fn v1_cp_body_leaves_an_empty_device_out() {
    let with = msgpack_fields(&cp("1", "device", &[]).dump(LoginProtocol::V1).unwrap());
    assert_eq!(
        with,
        [
            ("deviceId".to_string(), rmpv::Value::from("device")),
            ("credential".to_string(), rmpv::Value::from("cred")),
            ("authTriggerType".to_string(), rmpv::Value::from("normal")),
        ]
    );
    let without = msgpack_keys(&cp("1", "", &[]).dump(LoginProtocol::V1).unwrap());
    assert_eq!(without, ["credential", "authTriggerType"]);
}

#[test]
fn v1_nuverse_body_refuses_numbers_out_of_range() {
    for bad in ["", "9223372036854775808", "1.0", " 1", "+", "-"] {
        let error = nuverse(bad, "d").dump(LoginProtocol::V1).unwrap_err();
        assert_eq!(error, AppError::ParseError(format!("Invalid user_id: {}", bad)));
    }
    assert!(nuverse("9223372036854775807", "d").dump(LoginProtocol::V1).is_ok());
    assert!(nuverse("-9223372036854775808", "d").dump(LoginProtocol::V1).is_ok());
}

#[test]
fn normal_roles_stay_as_they_are() {
    for role in [" MySekai\t", "DEFAULT", "\u{3000}Ä ", ""] {
        let normal = normalize_proxy_role(role);
        assert_eq!(normalize_proxy_role(&normal), normal);
    }
    assert_eq!(normalize_proxy_role(" MySekai\t"), "mysekai");
    assert_eq!(normalize_proxy_role("\u{3000}Ä "), "Ä");
}

#[test]
fn roles_are_matched_whatever_their_case_and_space() {
    let roles = vec!["MySekai".to_string(), "  ".to_string()];
    assert!(serves_role(&roles, " MYSEKAI"));
    assert!(!serves_role(&roles, "default"));
    assert!(!serves_role(&roles, ""));
    assert!(serves_role(&["".to_string()], "Default"));
    assert!(!serves_role(&[], "mysekai"));
}

#[test]
fn accounts_tell_what_they_hold() {
    let mut account = AccountType::Nuverse(nuverse("5", "phone"));
    assert_eq!(account.user_id(), "5");
    assert_eq!(account.device_id(), "phone");
    assert_eq!(account.token(), "token");
    account.set_user_id("6".to_string());
    assert_eq!(account.user_id(), "6");
    assert_eq!(account.device_id(), "phone");

    let mut account = AccountType::CP(cp("1", "pad", &["a"]));
    account.set_user_id("2".to_string());
    assert_eq!(account.user_id(), "2");
    assert_eq!(account.token(), "cred");
    assert_eq!(account.proxy_roles(), ["a".to_string()]);
}

#[test]
fn numbers_and_null_are_read_as_text() {
    assert_eq!(null_or_number_to_string(StringOrNumber::Text("x".to_string())), "x");
    assert_eq!(null_or_number_to_string(StringOrNumber::Number(0)), "0");
    assert_eq!(null_or_number_to_string(StringOrNumber::Number(-40)), "-40");
    assert_eq!(
        null_or_number_to_string(StringOrNumber::Number(i64::MIN)),
        "-9223372036854775808"
    );
    assert_eq!(null_or_number_to_string(StringOrNumber::Null), "");
    assert_eq!(null_to_empty_string(None), "");
    assert_eq!(null_to_empty_string(Some("y".to_string())), "y");
}

#[test]
fn numbers_read_from_files_reach_the_login_body() {
    let user_id = null_or_number_to_string(StringOrNumber::Number(7485));
    let fields = msgpack_fields(&nuverse(&user_id, "d").dump(LoginProtocol::V1).unwrap());
    assert_eq!(fields[2], ("userID".to_string(), rmpv::Value::from(7485)));
}

#[test]
fn one_token_makes_one_v2_body() {
    let a = nuverse("123", "phone").dump(LoginProtocol::V2).unwrap();
    let b = nuverse("not-a-number", "").dump(LoginProtocol::V2).unwrap();
    assert_eq!(a, b);
    let mut c = cp("", "pad", &["mysekai"]);
    c.credential = "token".to_string();
    assert_eq!(c.dump(LoginProtocol::V2).unwrap(), a);
}

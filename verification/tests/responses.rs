use sekai_client::client::SekaiClient;
use sekai_client::decimal::parse_i64;
use sekai_client::error::{AppError, SekaiHttpStatus};
use sekai_client::response::ValueBody;
use sekai_client::text::{contains_text, replace_text, strip_leading_slashes, trim_text};
use serde_json::Value;

const BINARY: Option<&str> = Some("application/octet-stream");

fn value_of(status: SekaiHttpStatus, content_type: Option<&str>, body: &[u8]) -> Result<ValueBody, AppError> {
    SekaiClient::handle_response_value(418, Ok(status), content_type, body)
}

fn unknown(body: &str) -> AppError {
    AppError::Unknown {
        status: 418,
        body: body.to_string(),
    }
}

#[test]
fn encrypted_answers_are_decrypted_by_their_status() {
    for (status, expected) in [
        (SekaiHttpStatus::Success, Ok(())),
        (SekaiHttpStatus::ClientError, Ok(())),
        (SekaiHttpStatus::NotFound, Ok(())),
        (SekaiHttpStatus::Conflict, Ok(())),
        (SekaiHttpStatus::SessionError, Err(AppError::SessionError)),
        (SekaiHttpStatus::GameUpgrade, Err(AppError::UpgradeRequired)),
        (SekaiHttpStatus::UnderMaintenance, Err(AppError::UnderMaintenance)),
        (SekaiHttpStatus::ServerError, Err(unknown("b"))),
    ] {
        assert_eq!(SekaiClient::handle_response(418, Ok(status), BINARY, b"b"), expected);
        assert_eq!(
            SekaiClient::handle_response(418, Ok(status), Some("X/Binary"), b"b"),
            expected
        );
        let any = value_of(status, BINARY, b"b");
        if status == SekaiHttpStatus::ServerError {
            assert!(matches!(any, Ok(ValueBody::Encrypted)));
        } else {
            match expected {
                Ok(()) => assert!(matches!(any, Ok(ValueBody::Encrypted))),
                Err(e) => assert_eq!(any.unwrap_err(), e),
            }
        }
    }
}

#[test]
fn other_answers_are_never_decrypted() {
    let plain = |status, content_type| SekaiClient::handle_response(418, Ok(status), content_type, b"\xff");
    assert_eq!(
        plain(SekaiHttpStatus::UnderMaintenance, None),
        Err(AppError::UnderMaintenance)
    );
    assert_eq!(
        plain(SekaiHttpStatus::SessionError, Some("Text/XML")),
        Err(AppError::CookieExpired)
    );
    assert_eq!(plain(SekaiHttpStatus::SessionError, None), Err(unknown("\u{fffd}")));
    assert_eq!(plain(SekaiHttpStatus::Success, None), Err(unknown("\u{fffd}")));
    assert_eq!(plain(SekaiHttpStatus::ServerError, Some("json")), Err(unknown("\u{fffd}")));
}

#[test]
fn an_unknown_status_is_handed_on() {
    let error = || Err(AppError::Internal("status".to_string()));
    assert_eq!(
        SekaiClient::handle_response(418, error(), BINARY, b""),
        Err(AppError::Internal("status".to_string()))
    );
    assert_eq!(
        SekaiClient::handle_response_value(418, error(), None, b"").unwrap_err(),
        AppError::Internal("status".to_string())
    );
}

#[test]
fn json_answers_are_read_whatever_their_status() {
    for status in [SekaiHttpStatus::Success, SekaiHttpStatus::UnderMaintenance] {
        match value_of(status, Some("application/json"), b" [1, 2]\n").unwrap() {
            ValueBody::Plain(value) => assert_eq!(value.as_array().unwrap().len(), 2),
            other => panic!("{:?}", other),
        }
        match value_of(status, Some("application/json"), b" \n").unwrap() {
            ValueBody::Plain(value) => assert!(value.is_null()),
            other => panic!("{:?}", other),
        }
        assert!(matches!(
            value_of(status, Some("application/json"), b"{"),
            Err(AppError::ParseError(_))
        ));
    }
    // The content type counts as it is written here.
    assert!(value_of(SekaiHttpStatus::Success, Some("JSON"), b"1").is_err());
}

#[test]
fn plain_answers_become_errors() {
    let cases = [
        (SekaiHttpStatus::ClientError, AppError::BadRequest("x".to_string())),
        (SekaiHttpStatus::NotFound, AppError::NotFound("x".to_string())),
        (SekaiHttpStatus::Conflict, AppError::Internal("x".to_string())),
        (SekaiHttpStatus::UnderMaintenance, AppError::UnderMaintenance),
        (SekaiHttpStatus::SessionError, unknown("x")),
        (SekaiHttpStatus::ServerError, unknown("x")),
        (SekaiHttpStatus::GameUpgrade, unknown("x")),
        (SekaiHttpStatus::Success, unknown("x")),
    ];
    for (status, expected) in cases {
        assert_eq!(value_of(status, Some("text/html"), b" x ").unwrap_err(), expected);
    }
    let silent = [
        (
            SekaiHttpStatus::ClientError,
            AppError::BadRequest("Upstream bad request".to_string()),
        ),
        (
            SekaiHttpStatus::NotFound,
            AppError::NotFound("Upstream resource not found".to_string()),
        ),
        (
            SekaiHttpStatus::Conflict,
            AppError::Internal("Upstream conflict".to_string()),
        ),
    ];
    for (status, expected) in silent {
        assert_eq!(value_of(status, None, b"\t").unwrap_err(), expected);
    }
    assert_eq!(
        value_of(SekaiHttpStatus::SessionError, Some("text/xml"), b"x").unwrap_err(),
        AppError::CookieExpired
    );
}

#[test]
fn objects_keep_the_order_of_their_entries() {
    let object = match value_of(SekaiHttpStatus::Success, Some("json"), br#"{"z":1,"a":2}"#).unwrap() {
        ValueBody::Plain(value) => value,
        other => panic!("{:?}", other),
    };
    let (fields, status) = SekaiClient::handle_response_ordered(object, 201).unwrap();
    assert_eq!(status, 201);
    let keys: Vec<&String> = fields.keys().collect();
    assert_eq!(keys, ["z", "a"]);
    assert_eq!(
        SekaiClient::handle_response_ordered(Value::Null, 200).unwrap_err(),
        AppError::CryptoError("Expected object at top level".to_string())
    );
}

#[test]
fn texts_are_searched_and_replaced_from_the_left() {
    assert!(contains_text("abcabd", "abd"));
    assert!(!contains_text("abcab", "abd"));
    assert!(contains_text("", ""));
    assert_eq!(replace_text("aaa", "aa", "b"), "ba");
    assert_eq!(replace_text("x{userId}y{userId}", "{userId}", "{userId}1"), "x{userId}1y{userId}1");
    assert_eq!(replace_text("Ää", "ä", ""), "Ä");
    assert_eq!(strip_leading_slashes("//a/"), "a/");
    assert_eq!(strip_leading_slashes("/"), "");
}

#[test]
fn texts_are_trimmed_like_std_does() {
    for n in 0..0x110000u32 {
        if let Some(c) = char::from_u32(n) {
            let text = c.to_string();
            assert_eq!(trim_text(&text), text.trim(), "{:x}", n);
        }
    }
    assert_eq!(trim_text("\u{3000}\t a b\u{85} "), "a b");
    assert_eq!(trim_text(""), "");
}

#[test]
fn integers_are_read_like_std_does() {
    for text in [
        "", "+", "-", "0", "-0", "+0", "007", "-1", "+1", "--1", "+-1", "1 ", " 1", "1_0", "0x1",
        "9223372036854775807", "9223372036854775808", "-9223372036854775808",
        "-9223372036854775809", "00000000000000000000000000000000000000000000000000000000012",
        "99999999999999999999999999999999999999999999999999999999", "1.5", "\u{661}", "a",
    ] {
        assert_eq!(parse_i64(text), text.parse::<i64>().ok(), "{}", text);
    }
}

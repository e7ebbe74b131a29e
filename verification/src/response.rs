//! Responses of the game server: which of them carry data, and which error the
//! others stand for.

use crate::client::SekaiClient;
use crate::error::{AppError, ErrorView, SekaiHttpStatus};
use crate::json::{
    fields_of, json_fields, json_from_str, json_null, json_text_document, json_view, JsonView,
};
use crate::session::AccountSession;
use crate::text::{
    ascii_lowercase, contains_text, is_ascii_text, lowercase, occurs_in, opt_str,
    patterns_occur_between_two_parts, text_of_bytes, trim_text, trimmed, utf8_lossy,
};
use indexmap::IndexMap;
use serde_json::Value;
use vstd::prelude::*;
use vstd::string::*;
use vstd::utf8::{decode_utf8, valid_utf8};

verus! {

/// The content type of an encrypted body.
pub open spec fn is_binary(content_type: Seq<char>) -> bool {
    occurs_in(content_type, "octet-stream"@) || occurs_in(content_type, "binary"@)
}

/// A header's text; empty where there is none.
pub open spec fn header_text(header: Option<Seq<char>>) -> Seq<char> {
    match header {
        Some(text) => text,
        None => Seq::<char>::empty(),
    }
}

/// What a response stands for that is expected to carry encrypted data: nothing
/// against it, or an error.
pub open spec fn response_verdict(
    status: u16,
    sekai_status: SekaiHttpStatus,
    content_type: Seq<char>,
    body_text: Seq<char>,
) -> Result<(), ErrorView> {
    let unknown = ErrorView::Unknown { status, body: body_text };
    if is_binary(content_type) {
        match sekai_status {
            SekaiHttpStatus::SessionError => Err(ErrorView::SessionError),
            SekaiHttpStatus::GameUpgrade => Err(ErrorView::UpgradeRequired),
            SekaiHttpStatus::UnderMaintenance => Err(ErrorView::UnderMaintenance),
            SekaiHttpStatus::ServerError => Err(unknown),
            _ => Ok(()),
        }
    } else {
        match sekai_status {
            SekaiHttpStatus::UnderMaintenance => Err(ErrorView::UnderMaintenance),
            SekaiHttpStatus::SessionError => if occurs_in(content_type, "xml"@) {
                Err(ErrorView::CookieExpired)
            } else {
                Err(unknown)
            },
            _ => Err(unknown),
        }
    }
}

/// `r` is this result, with its error as an [`ErrorView`].
pub open spec fn is_result<T>(r: Result<T, AppError>, expected: Result<T, ErrorView>) -> bool {
    match expected {
        Ok(value) => r == Ok::<T, AppError>(value),
        Err(e) => r is Err && r->Err_0@ == e,
    }
}

/// What an encrypted body with this status stands for where any document will
/// do: nothing against decrypting it, or an error. Here the body of a server
/// error is decrypted too.
pub open spec fn encrypted_verdict(sekai_status: SekaiHttpStatus) -> Result<(), ErrorView> {
    match sekai_status {
        SekaiHttpStatus::SessionError => Err(ErrorView::SessionError),
        SekaiHttpStatus::GameUpgrade => Err(ErrorView::UpgradeRequired),
        SekaiHttpStatus::UnderMaintenance => Err(ErrorView::UnderMaintenance),
        _ => Ok(()),
    }
}

/// `text`, or `otherwise` where it is empty.
pub open spec fn text_or(text: Seq<char>, otherwise: Seq<char>) -> Seq<char> {
    if text.len() == 0 {
        otherwise
    } else {
        text
    }
}

/// The error that a response stands for which is neither encrypted nor JSON.
pub open spec fn plain_error(
    status: u16,
    sekai_status: SekaiHttpStatus,
    content_type: Seq<char>,
    body_text: Seq<char>,
) -> ErrorView {
    let unknown = ErrorView::Unknown { status, body: body_text };
    match sekai_status {
        SekaiHttpStatus::ClientError => ErrorView::BadRequest(
            text_or(body_text, "Upstream bad request"@),
        ),
        SekaiHttpStatus::NotFound => ErrorView::NotFound(
            text_or(body_text, "Upstream resource not found"@),
        ),
        SekaiHttpStatus::Conflict => ErrorView::Internal(text_or(body_text, "Upstream conflict"@)),
        SekaiHttpStatus::UnderMaintenance => ErrorView::UnderMaintenance,
        SekaiHttpStatus::SessionError => if occurs_in(content_type, "xml"@) {
            ErrorView::CookieExpired
        } else {
            unknown
        },
        _ => unknown,
    }
}

/// A body that was taken for data.
#[derive(Debug)]
pub enum ValueBody {
    /// It is to be decrypted.
    Encrypted,
    /// It is this document.
    Plain(Value),
}

/// A [`ValueBody`] with its document.
pub enum ValueBodyView {
    Encrypted,
    Plain(JsonView),
}

impl View for ValueBody {
    type V = ValueBodyView;

    open spec fn view(&self) -> ValueBodyView {
        match self {
            ValueBody::Encrypted => ValueBodyView::Encrypted,
            ValueBody::Plain(value) => ValueBodyView::Plain(json_view(*value)),
        }
    }
}

/// The document that a JSON body is, given what reading its text yields.
pub open spec fn json_body(body_text: Seq<char>, parsed: Result<JsonView, Seq<char>>) -> Result<
    ValueBodyView,
    ErrorView,
> {
    if body_text.len() == 0 {
        Ok(ValueBodyView::Plain(JsonView::Null))
    } else {
        match parsed {
            Ok(document) => Ok(ValueBodyView::Plain(document)),
            Err(message) => Err(ErrorView::ParseError(message)),
        }
    }
}

/// What a response stands for where any document will do, given the text of its
/// body and what reading it as JSON yields.
pub open spec fn value_verdict(
    status: u16,
    sekai_status: SekaiHttpStatus,
    content_type: Seq<char>,
    body_text: Seq<char>,
    parsed: Result<JsonView, Seq<char>>,
) -> Result<ValueBodyView, ErrorView> {
    if is_binary(content_type) {
        match encrypted_verdict(sekai_status) {
            Ok(_) => Ok(ValueBodyView::Encrypted),
            Err(e) => Err(e),
        }
    } else if occurs_in(content_type, "json"@) {
        json_body(body_text, parsed)
    } else {
        Err(plain_error(status, sekai_status, content_type, body_text))
    }
}

/// `r` is this result, seen through the views of both sides.
pub open spec fn is_value_result(
    r: Result<ValueBody, AppError>,
    expected: Result<ValueBodyView, ErrorView>,
) -> bool {
    match r {
        Ok(body) => expected == Ok::<ValueBodyView, ErrorView>(body@),
        Err(e) => expected == Err::<ValueBodyView, ErrorView>(e@),
    }
}

/// What an encrypted body with this status stands for.
pub fn judge_encrypted(sekai_status: SekaiHttpStatus) -> (r: Result<(), AppError>)
    ensures
        is_result(r, encrypted_verdict(sekai_status)),
{
    match sekai_status {
        SekaiHttpStatus::SessionError => Err(AppError::SessionError),
        SekaiHttpStatus::GameUpgrade => Err(AppError::UpgradeRequired),
        SekaiHttpStatus::UnderMaintenance => Err(AppError::UnderMaintenance),
        _ => Ok(()),
    }
}

/// The document that a JSON body is, given what reading its text yields.
pub fn judge_json(body_text: &str, parsed: Result<Value, String>) -> (r: Result<
    ValueBody,
    AppError,
>)
    ensures
        is_value_result(
            r,
            json_body(
                body_text@,
                match parsed {
                    Ok(value) => Ok(json_view(value)),
                    Err(message) => Err(message@),
                },
            ),
        ),
{
    if body_text.is_empty() {
        Ok(ValueBody::Plain(json_null()))
    } else {
        match parsed {
            Ok(value) => Ok(ValueBody::Plain(value)),
            Err(message) => Err(AppError::ParseError(message)),
        }
    }
}

/// A copy of `text`, or of `otherwise` where it is empty.
fn given_or(text: &str, otherwise: &str) -> (r: String)
    ensures
        r@ == text_or(text@, otherwise@),
{
    if text.is_empty() {
        otherwise.to_owned()
    } else {
        text.to_owned()
    }
}

/// The error that a response stands for which is neither encrypted nor JSON.
pub fn judge_plain(
    status: u16,
    sekai_status: SekaiHttpStatus,
    content_type: &str,
    body_text: &str,
) -> (r: AppError)
    ensures
        r@ == plain_error(status, sekai_status, content_type@, body_text@),
{
    match sekai_status {
        SekaiHttpStatus::ClientError => AppError::BadRequest(
            given_or(body_text, "Upstream bad request"),
        ),
        SekaiHttpStatus::NotFound => AppError::NotFound(
            given_or(body_text, "Upstream resource not found"),
        ),
        SekaiHttpStatus::Conflict => AppError::Internal(given_or(body_text, "Upstream conflict")),
        SekaiHttpStatus::UnderMaintenance => AppError::UnderMaintenance,
        SekaiHttpStatus::SessionError => if contains_text(content_type, "xml") {
            AppError::CookieExpired
        } else {
            AppError::Unknown { status, body: body_text.to_owned() }
        },
        _ => AppError::Unknown { status, body: body_text.to_owned() },
    }
}

/// Whether a body with this content type is encrypted.
pub fn is_binary_type(content_type: &str) -> (r: bool)
    ensures
        r == is_binary(content_type@),
{
    contains_text(content_type, "octet-stream") || contains_text(content_type, "binary")
}

/// What a response stands for that is expected to carry encrypted data.
pub fn judge_response(
    status: u16,
    sekai_status: SekaiHttpStatus,
    content_type: &str,
    body_text: &str,
) -> (r: Result<(), AppError>)
    ensures
        is_result(r, response_verdict(status, sekai_status, content_type@, body_text@)),
{
    if is_binary_type(content_type) {
        match sekai_status {
            SekaiHttpStatus::SessionError => Err(AppError::SessionError),
            SekaiHttpStatus::GameUpgrade => Err(AppError::UpgradeRequired),
            SekaiHttpStatus::UnderMaintenance => Err(AppError::UnderMaintenance),
            SekaiHttpStatus::ServerError => Err(
                AppError::Unknown { status, body: body_text.to_owned() },
            ),
            _ => Ok(()),
        }
    } else {
        match sekai_status {
            SekaiHttpStatus::UnderMaintenance => Err(AppError::UnderMaintenance),
            SekaiHttpStatus::SessionError => if contains_text(content_type, "xml") {
                Err(AppError::CookieExpired)
            } else {
                Err(AppError::Unknown { status, body: body_text.to_owned() })
            },
            _ => Err(AppError::Unknown { status, body: body_text.to_owned() }),
        }
    }
}

impl SekaiClient<AccountSession> {
    /// Decides on a response that is expected to carry encrypted data: `Ok`
    /// where the body is to be decrypted. `sekai_status` is how the status is
    /// understood; an error there is handed on. The content type counts in lower
    /// case.
    pub fn handle_response(
        status: u16,
        sekai_status: Result<SekaiHttpStatus, AppError>,
        content_type: Option<&str>,
        body: &[u8],
    ) -> (r: Result<(), AppError>)
        ensures
            match sekai_status {
                Ok(known) => is_result(
                    r,
                    response_verdict(
                        status,
                        known,
                        lowercase(header_text(opt_str(content_type))),
                        utf8_lossy(body@),
                    ),
                ),
                Err(e) => r == Err::<(), AppError>(e),
            },
            sekai_status is Ok && is_ascii_text(header_text(opt_str(content_type))) ==> lowercase(
                header_text(opt_str(content_type)),
            ) == ascii_lowercase(header_text(opt_str(content_type))),
            sekai_status is Ok && valid_utf8(body@) ==> utf8_lossy(body@) == decode_utf8(body@),
    {
        let known = match sekai_status {
            Ok(known) => known,
            Err(e) => {
                return Err(e);
            },
        };
        let header = match content_type {
            Some(text) => text.to_owned(),
            None => String::new(),
        };
        proof {
            assert(header@ =~= header_text(opt_str(content_type)));
        }
        let lower = header.as_str().to_lowercase();
        let body_text = text_of_bytes(body);
        judge_response(status, known, lower.as_str(), body_text.as_str())
    }

    /// Decides on a response where any document will do: the document itself
    /// where the body is JSON, and otherwise whether it is to be decrypted.
    /// `sekai_status` is how the status is understood; an error there is handed
    /// on.
    pub fn handle_response_value(
        status: u16,
        sekai_status: Result<SekaiHttpStatus, AppError>,
        content_type: Option<&str>,
        body: &[u8],
    ) -> (r: Result<ValueBody, AppError>)
        ensures
            match sekai_status {
                Ok(known) => is_value_result(
                    r,
                    value_verdict(
                        status,
                        known,
                        header_text(opt_str(content_type)),
                        trimmed(utf8_lossy(body@)),
                        json_text_document(trimmed(utf8_lossy(body@))),
                    ),
                ),
                Err(e) => r == Err::<ValueBody, AppError>(e),
            },
            sekai_status is Ok && !is_binary(header_text(opt_str(content_type))) && valid_utf8(
                body@,
            ) ==> utf8_lossy(body@) == decode_utf8(body@),
    {
        let known = match sekai_status {
            Ok(known) => known,
            Err(e) => {
                return Err(e);
            },
        };
        let header = match content_type {
            Some(text) => text.to_owned(),
            None => String::new(),
        };
        proof {
            assert(header@ =~= header_text(opt_str(content_type)));
        }
        let content_type = header.as_str();
        if is_binary_type(content_type) {
            return match judge_encrypted(known) {
                Ok(_) => Ok(ValueBody::Encrypted),
                Err(e) => Err(e),
            };
        }
        let text = text_of_bytes(body);
        let body_text = trim_text(text.as_str());
        if contains_text(content_type, "json") {
            judge_json(body_text, json_from_str(body_text))
        } else {
            Err(judge_plain(status, known, content_type, body_text))
        }
    }

    /// The entries of an object, in their order, with the status that came with
    /// it.
    pub fn handle_response_ordered(value: Value, status: u16) -> (r: Result<
        (IndexMap<String, Value>, u16),
        AppError,
    >)
        ensures
            match json_view(value) {
                JsonView::Object(fields) => r is Ok && fields_of(r->Ok_0.0) == fields && r->Ok_0.1
                    == status,
                _ => r is Err && r->Err_0@ == ErrorView::CryptoError(
                    "Expected object at top level"@,
                ),
            },
    {
        match json_fields(value) {
            Ok(fields) => Ok((fields, status)),
            Err(_) => Err(AppError::CryptoError("Expected object at top level".to_owned())),
        }
    }
}

// ---------------------------------------------------------------------------
// Laws
// ---------------------------------------------------------------------------

/// On an encrypted body the two ways to decide agree, but for a server error:
/// its body is decrypted where any document will do, and is an unknown answer
/// elsewhere.
pub proof fn encrypted_bodies_are_judged_alike(
    status: u16,
    sekai_status: SekaiHttpStatus,
    content_type: Seq<char>,
    body_text: Seq<char>,
    parsed: Result<JsonView, Seq<char>>,
)
    requires
        is_binary(content_type),
    ensures
        sekai_status != SekaiHttpStatus::ServerError ==> {
            let strict = response_verdict(status, sekai_status, content_type, body_text);
            let lenient = value_verdict(status, sekai_status, content_type, body_text, parsed);
            &&& strict is Ok <==> lenient is Ok
            &&& strict is Err ==> lenient == Err::<ValueBodyView, ErrorView>(strict->Err_0)
        },
        sekai_status == SekaiHttpStatus::ServerError ==> {
            &&& response_verdict(status, sekai_status, content_type, body_text) == Err::<
                (),
                ErrorView,
            >(ErrorView::Unknown { status, body: body_text })
            &&& value_verdict(status, sekai_status, content_type, body_text, parsed) == Ok::<
                ValueBodyView,
                ErrorView,
            >(ValueBodyView::Encrypted)
        },
{
}

/// Maintenance is reported as such whatever the body is, but for a JSON body,
/// which is handed on where any document will do.
pub proof fn maintenance_is_reported(
    status: u16,
    content_type: Seq<char>,
    body_text: Seq<char>,
    parsed: Result<JsonView, Seq<char>>,
)
    ensures
        response_verdict(status, SekaiHttpStatus::UnderMaintenance, content_type, body_text)
            == Err::<(), ErrorView>(ErrorView::UnderMaintenance),
        is_binary(content_type) || !occurs_in(content_type, "json"@) ==> value_verdict(
            status,
            SekaiHttpStatus::UnderMaintenance,
            content_type,
            body_text,
            parsed,
        ) == Err::<ValueBodyView, ErrorView>(ErrorView::UnderMaintenance),
{
}

/// A JSON body is handed on whatever the status says.
pub proof fn json_bodies_are_handed_on(
    status: u16,
    sekai_status: SekaiHttpStatus,
    content_type: Seq<char>,
    body_text: Seq<char>,
    document: JsonView,
)
    requires
        occurs_in(content_type, "json"@),
        !is_binary(content_type),
        body_text.len() > 0,
    ensures
        value_verdict(status, sekai_status, content_type, body_text, Ok(document)) == Ok::<
            ValueBodyView,
            ErrorView,
        >(ValueBodyView::Plain(document)),
{
}

/// A body is taken for encrypted exactly where its content type names a stream of
/// octets or binary data somewhere.
pub proof fn encrypted_bodies_are_named_so(a: Seq<char>, b: Seq<char>, content_type: Seq<char>)
    ensures
        is_binary(a + "octet-stream"@ + b),
        is_binary(a + "binary"@ + b),
        is_binary(content_type) ==> (exists|x: Seq<char>, y: Seq<char>|
            content_type == #[trigger] (x + "octet-stream"@ + y)) || (exists|
            x: Seq<char>,
            y: Seq<char>,
        |
            content_type == #[trigger] (x + "binary"@ + y)),
{
    patterns_occur_between_two_parts(a + "octet-stream"@ + b, "octet-stream"@);
    patterns_occur_between_two_parts(a + "binary"@ + b, "binary"@);
    patterns_occur_between_two_parts(content_type, "octet-stream"@);
    patterns_occur_between_two_parts(content_type, "binary"@);
}

/// A response whose content type is not that of an encrypted body never counts
/// as encrypted data, whatever its status is.
pub proof fn only_encrypted_bodies_are_decrypted(
    status: u16,
    sekai_status: SekaiHttpStatus,
    content_type: Seq<char>,
    body_text: Seq<char>,
    parsed: Result<JsonView, Seq<char>>,
)
    ensures
        response_verdict(status, sekai_status, content_type, body_text) is Ok <==> is_binary(
            content_type,
        ) && (sekai_status is Success || sekai_status is ClientError || sekai_status is NotFound
            || sekai_status is Conflict),
        value_verdict(status, sekai_status, content_type, body_text, parsed) == Ok::<
            ValueBodyView,
            ErrorView,
        >(ValueBodyView::Encrypted) <==> is_binary(content_type) && !(sekai_status is SessionError)
            && !(sekai_status is GameUpgrade) && !(sekai_status is UnderMaintenance),
{
}

/// `r`, the answer to a response that has to be encrypted data, is an error that
/// tells what the status stands for.
pub proof fn refused_responses_say_why(
    status: u16,
    sekai_status: SekaiHttpStatus,
    content_type: Seq<char>,
    body_text: Seq<char>,
    r: Result<(), AppError>,
)
    requires
        is_result(r, response_verdict(status, sekai_status, content_type, body_text)),
        r is Err,
    ensures
        sekai_status is UnderMaintenance ==> r->Err_0 is UnderMaintenance,
        is_binary(content_type) && sekai_status is SessionError ==> r->Err_0 is SessionError,
        is_binary(content_type) && sekai_status is GameUpgrade ==> r->Err_0 is UpgradeRequired,
        !is_binary(content_type) && sekai_status is SessionError && occurs_in(content_type, "xml"@)
            ==> r->Err_0 is CookieExpired,
        sekai_status is ServerError || (!is_binary(content_type) && !(
        sekai_status is UnderMaintenance) && !(sekai_status is SessionError && occurs_in(
            content_type,
            "xml"@,
        ))) ==> (r->Err_0 matches AppError::Unknown { status: code, body } && code == status
            && body@ == body_text),
{
}

/// `r`, the answer to a response where any document will do: an encrypted body is
/// refused by its status alone.
pub proof fn encrypted_documents_are_refused_by_status(
    status: u16,
    sekai_status: SekaiHttpStatus,
    content_type: Seq<char>,
    body_text: Seq<char>,
    parsed: Result<JsonView, Seq<char>>,
    r: Result<ValueBody, AppError>,
)
    requires
        is_binary(content_type),
        is_value_result(
            r,
            value_verdict(status, sekai_status, content_type, body_text, parsed),
        ),
    ensures
        sekai_status is SessionError <==> r == Err::<ValueBody, AppError>(AppError::SessionError),
        sekai_status is GameUpgrade <==> r == Err::<ValueBody, AppError>(AppError::UpgradeRequired),
        sekai_status is UnderMaintenance <==> r == Err::<ValueBody, AppError>(
            AppError::UnderMaintenance,
        ),
        r is Ok ==> r->Ok_0 is Encrypted,
{
}

/// A JSON body is handed on as the document that it is, with null for an empty
/// body, and one that cannot be read is an error with the reader's words;
/// whatever the status is.
pub proof fn json_bodies_are_read_whatever_the_status(
    status: u16,
    sekai_status: SekaiHttpStatus,
    content_type: Seq<char>,
    body_text: Seq<char>,
    parsed: Result<JsonView, Seq<char>>,
    r: Result<ValueBody, AppError>,
)
    requires
        !is_binary(content_type),
        occurs_in(content_type, "json"@),
        is_value_result(
            r,
            value_verdict(status, sekai_status, content_type, body_text, parsed),
        ),
    ensures
        r is Ok <==> body_text.len() == 0 || parsed is Ok,
        r is Ok && body_text.len() == 0 ==> (r->Ok_0 matches ValueBody::Plain(value) && json_view(
            value,
        ) == JsonView::Null),
        r is Ok && body_text.len() > 0 ==> (r->Ok_0 matches ValueBody::Plain(value) && json_view(
            value,
        ) == parsed->Ok_0),
        r is Err ==> (r->Err_0 matches AppError::ParseError(words) && words@ == parsed->Err_0),
{
}

/// A body that is neither encrypted nor JSON is always an error: the kind of the
/// status with the words of the body, or, where it has none, with words of its
/// own.
pub proof fn plain_bodies_are_errors(
    status: u16,
    sekai_status: SekaiHttpStatus,
    content_type: Seq<char>,
    body_text: Seq<char>,
    parsed: Result<JsonView, Seq<char>>,
    r: Result<ValueBody, AppError>,
)
    requires
        !is_binary(content_type),
        !occurs_in(content_type, "json"@),
        is_value_result(
            r,
            value_verdict(status, sekai_status, content_type, body_text, parsed),
        ),
    ensures
        r is Err,
        sekai_status is ClientError ==> (r->Err_0 matches AppError::BadRequest(words) && words@
            == if body_text.len() > 0 {
            body_text
        } else {
            "Upstream bad request"@
        }),
        sekai_status is NotFound ==> (r->Err_0 matches AppError::NotFound(words) && words@
            == if body_text.len() > 0 {
            body_text
        } else {
            "Upstream resource not found"@
        }),
        sekai_status is Conflict ==> (r->Err_0 matches AppError::Internal(words) && words@
            == if body_text.len() > 0 {
            body_text
        } else {
            "Upstream conflict"@
        }),
        sekai_status is UnderMaintenance ==> r->Err_0 is UnderMaintenance,
        sekai_status is SessionError && occurs_in(content_type, "xml"@)
            ==> r->Err_0 is CookieExpired,
        sekai_status is Success || sekai_status is GameUpgrade || sekai_status is ServerError || (
        sekai_status is SessionError && !occurs_in(content_type, "xml"@)) ==> (
        r->Err_0 matches AppError::Unknown { status: code, body } && code == status && body@
            == body_text),
{
}

/// A header that is missing counts as an empty one, and any other as it is.
pub proof fn missing_headers_are_empty(text: Seq<char>)
    ensures
        header_text(Some(text)) == text,
        header_text(None).len() == 0,
{
}

/// A result that is expected is a success exactly where that is, and else has the
/// expected error.
pub proof fn results_are_those_expected<T>(r: Result<T, AppError>, expected: Result<T, ErrorView>)
    requires
        is_result(r, expected),
    ensures
        r is Ok <==> expected is Ok,
        r is Ok ==> r->Ok_0 == expected->Ok_0,
        r is Err ==> r->Err_0@ == expected->Err_0,
{
}

/// The error of a plain body follows its status, whatever its content type is but
/// for a refused session.
pub proof fn plain_errors_follow_the_status(
    status: u16,
    content_type: Seq<char>,
    body_text: Seq<char>,
)
    requires
        body_text.len() > 0,
    ensures
        plain_error(status, SekaiHttpStatus::ClientError, content_type, body_text)
            == ErrorView::BadRequest(body_text),
        plain_error(status, SekaiHttpStatus::NotFound, content_type, body_text)
            == ErrorView::NotFound(body_text),
        plain_error(status, SekaiHttpStatus::Conflict, content_type, body_text)
            == ErrorView::Internal(body_text),
        plain_error(status, SekaiHttpStatus::UnderMaintenance, content_type, body_text)
            == ErrorView::UnderMaintenance,
        plain_error(status, SekaiHttpStatus::Success, content_type, body_text) == (
        ErrorView::Unknown { status, body: body_text }),
        plain_error(status, SekaiHttpStatus::GameUpgrade, content_type, body_text) == (
        ErrorView::Unknown { status, body: body_text }),
        plain_error(status, SekaiHttpStatus::ServerError, content_type, body_text) == (
        ErrorView::Unknown { status, body: body_text }),
        plain_error(status, SekaiHttpStatus::SessionError, content_type, body_text)
            == if occurs_in(content_type, "xml"@) {
            ErrorView::CookieExpired
        } else {
            (ErrorView::Unknown { status, body: body_text })
        },
{
}

/// A body is seen as encrypted, or as the document that it is.
pub proof fn bodies_are_seen_as_they_are(value: Value)
    ensures
        ValueBody::Encrypted@ == ValueBodyView::Encrypted,
        ValueBody::Plain(value)@ == ValueBodyView::Plain(json_view(value)),
{
}

} // verus!

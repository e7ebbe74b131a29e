//! Images and music scores, which lie beside the game's interface.

use crate::account::MYSEKAI_PROXY_ROLE;
use crate::client::SekaiClient;
use crate::codec::{base64_decoded, decode_base64, decode_gzip, gunzipped};
use crate::config::ServerRegion;
use crate::error::{AppError, ErrorView};
use crate::game_call::asked_for_session;
use crate::json::{
    field_named, field_value, fields_of, json_document, json_from_slice, json_str, json_view, JsonView,
};
use crate::session::{is_selection, sessions_are_handed_out_by_role, AccountSession};
use crate::text::{
    is_blank, joined, leading_slashes_are_taken_off, lemma_blank_end, lemma_blank_start, opt_str, same_text, strip_leading_slashes,
    trim_text, trimmed, without_leading_slashes,
};
use indexmap::IndexMap;
use serde_json::Value;
use std::sync::Arc;
use vstd::prelude::*;
use vstd::string::*;

verus! {

/// A GET that has found its session.
pub struct MediaRequest<S> {
    pub session: Arc<S>,
    /// Where the thing lies: an address, or a path of the game's interface.
    pub location: String,
}

/// `r` answers the wish for a thing that is fetched with an account for
/// MySekai.
pub open spec fn is_mysekai_request<S>(
    client: SekaiClient<S>,
    location: Seq<char>,
    r: Result<MediaRequest<S>, AppError>,
) -> bool {
    &&& is_selection(
        client.pool.sessions@,
        client.pool.session_index as int,
        "mysekai"@,
        match r {
            Ok(request) => Ok(request.session),
            Err(e) => Err(e),
        },
    )
    &&& r matches Ok(request) ==> request.location@ == location
}

// ---------------------------------------------------------------------------
// Images
// ---------------------------------------------------------------------------

/// The address of a thing under a directory beside the game's interface.
pub open spec fn media_address(
    api_url: Seq<char>,
    directory: Seq<char>,
    path: Seq<char>,
) -> Seq<char> {
    api_url + directory + without_leading_slashes(path)
}

/// The address of a thing under a directory beside the game's interface.
fn media_address_of(api_url: &str, directory: &str, path: &str) -> (r: String)
    ensures
        r@ == media_address(api_url@, directory@, path@),
{
    let mut url = joined(api_url, directory);
    url.append(strip_leading_slashes(path));
    url
}

/// What becomes of the answer to a request for an image: the image with its
/// type, where the status is 200.
pub open spec fn image_verdict(
    url: Seq<char>,
    status: u16,
    content_type: Option<Seq<char>>,
    body: Result<Seq<u8>, Seq<char>>,
) -> Result<(Seq<u8>, Seq<char>), ErrorView> {
    if status != 200 {
        Err(ErrorView::Unknown { status, body: "Failed to fetch image from "@ + url })
    } else {
        match body {
            Ok(bytes) => Ok(
                (
                    bytes,
                    match content_type {
                        Some(t) => t,
                        None => "application/octet-stream"@,
                    },
                ),
            ),
            Err(message) => Err(ErrorView::NetworkError(message)),
        }
    }
}

/// What becomes of the answer to a request for an image. The body may have
/// failed to come, and there are words for why.
pub fn image_result(
    url: &str,
    status: u16,
    content_type: Option<&str>,
    body: Result<Vec<u8>, String>,
) -> (r: Result<(Vec<u8>, String), AppError>)
    ensures
        match image_verdict(
            url@,
            status,
            opt_str(content_type),
            match body {
                Ok(bytes) => Ok(bytes@),
                Err(message) => Err(message@),
            },
        ) {
            Ok((bytes, t)) => r is Ok && r->Ok_0.0@ == bytes && r->Ok_0.1@ == t,
            Err(e) => r is Err && r->Err_0@ == e,
        },
        r is Ok ==> status == 200,
        status != 200 ==> (r matches Err(AppError::Unknown { status: code, body: words }) && code
            == status && words@ == "Failed to fetch image from "@ + url@),
{
    if status != 200 {
        return Err(AppError::Unknown { status, body: joined("Failed to fetch image from ", url) });
    }
    match body {
        Ok(bytes) => {
            let content_type = match content_type {
                Some(t) => t.to_owned(),
                None => "application/octet-stream".to_owned(),
            };
            Ok((bytes, content_type))
        },
        Err(message) => Err(AppError::NetworkError(message)),
    }
}

impl<S> SekaiClient<S> {
    /// Begins to fetch a photo of MySekai in a CP region.
    pub fn get_cp_mysekai_image(&mut self, path: &str) -> (r: Result<MediaRequest<S>, AppError>)
        ensures
            is_mysekai_request(
                *old(self),
                media_address(old(self).config.api_url@, "/image/mysekai-photo/"@, path@),
                r,
            ),
            *final(self) == asked_for_session(*old(self)),
    {
        match self.get_session_for_role(MYSEKAI_PROXY_ROLE) {
            Ok(session) => Ok(
                MediaRequest {
                    session,
                    location: media_address_of(
                        self.config.api_url.as_str(),
                        "/image/mysekai-photo/",
                        path,
                    ),
                },
            ),
            Err(e) => Err(e),
        }
    }

    /// Begins to fetch a thumbnail of MySekai's housing competition in a CP
    /// region.
    pub fn get_cp_mysekai_housing_thumbnail(&mut self, path: &str) -> (r: Result<
        MediaRequest<S>,
        AppError,
    >)
        ensures
            is_mysekai_request(
                *old(self),
                media_address(
                    old(self).config.api_url@,
                    "/image/mysekai-housing-competition/thumbnail/"@,
                    path@,
                ),
                r,
            ),
            *final(self) == asked_for_session(*old(self)),
    {
        match self.get_session_for_role(MYSEKAI_PROXY_ROLE) {
            Ok(session) => Ok(
                MediaRequest {
                    session,
                    location: media_address_of(
                        self.config.api_url.as_str(),
                        "/image/mysekai-housing-competition/thumbnail/",
                        path,
                    ),
                },
            ),
            Err(e) => Err(e),
        }
    }

    /// Begins to fetch a photo of MySekai in another region, from the game's
    /// interface.
    pub fn get_nuverse_mysekai_image(&mut self, user_id: &str, index: &str) -> (r: Result<
        MediaRequest<S>,
        AppError,
    >)
        ensures
            is_mysekai_request(
                *old(self),
                "/user/"@ + user_id@ + "/mysekai/photo/"@ + index@,
                r,
            ),
            *final(self) == asked_for_session(*old(self)),
    {
        match self.get_session_for_role(MYSEKAI_PROXY_ROLE) {
            Ok(session) => {
                let mut location = joined("/user/", user_id);
                location.append("/mysekai/photo/");
                location.append(index);
                Ok(MediaRequest { session, location })
            },
            Err(e) => Err(e),
        }
    }
}

/// Bytes that were decoded, or the error that says what could not be decoded
/// and why.
pub fn decoded_or(what: &str, decoded: Result<Vec<u8>, String>) -> (r: Result<Vec<u8>, AppError>)
    ensures
        match decoded {
            Ok(bytes) => r == Ok::<Vec<u8>, AppError>(bytes),
            Err(message) => r is Err && r->Err_0@ == ErrorView::ParseError(what@ + message@),
        },
{
    match decoded {
        Ok(bytes) => Ok(bytes),
        Err(message) => Err(AppError::ParseError(joined(what, message.as_str()))),
    }
}

/// The image that an answer holds: its entry `thumbnail` is a text, and that is
/// the image in base64.
pub open spec fn thumbnail_verdict(thumbnail: Option<JsonView>) -> Result<Seq<u8>, ErrorView> {
    match thumbnail {
        Some(JsonView::Text(text)) => match base64_decoded(text) {
            Ok(bytes) => Ok(bytes),
            Err(message) => Err(ErrorView::ParseError("failed to decode base64: "@ + message)),
        },
        _ => Err(ErrorView::ParseError("missing thumbnail in response"@)),
    }
}

/// The image that an answer of the game holds.
pub fn nuverse_image(fields: &IndexMap<String, Value>) -> (r: Result<Vec<u8>, AppError>)
    ensures
        match thumbnail_verdict(field_value(fields_of(*fields), "thumbnail"@)) {
            Ok(bytes) => r is Ok && r->Ok_0@ == bytes,
            Err(e) => r is Err && r->Err_0@ == e,
        },
{
    let thumbnail = match field_named(fields, "thumbnail") {
        Some(value) => json_str(value),
        None => None,
    };
    match thumbnail {
        Some(text) => decoded_or("failed to decode base64: ", decode_base64(text)),
        None => Err(AppError::ParseError("missing thumbnail in response".to_owned())),
    }
}

// ---------------------------------------------------------------------------
// Music scores
// ---------------------------------------------------------------------------

/// Why a music score is not fetched, before any session is asked for.
pub open spec fn score_refusal(region: ServerRegion, kind: Seq<char>) -> Option<Seq<char>> {
    if region != ServerRegion::Jp {
        Some("custom music score blob is only supported for jp"@)
    } else if kind != "full"@ && kind != "preview"@ {
        Some("custom music score blob kind must be full or preview"@)
    } else {
        None
    }
}

impl<S> SekaiClient<S> {
    /// Begins to fetch a music score, where the region has them and the kind is
    /// known.
    pub fn get_jp_custom_music_score_blob_text(&mut self, kind: &str, path: &str) -> (r: Result<
        MediaRequest<S>,
        AppError,
    >)
        ensures
            match score_refusal(old(self).region, kind@) {
                Some(message) => {
                    &&& r is Err
                    &&& r->Err_0@ == ErrorView::BadRequest(message)
                    &&& *final(self) == *old(self)
                },
                None => {
                    &&& match r {
                        Ok(request) => {
                            &&& is_selection(
                                old(self).pool.sessions@,
                                old(self).pool.session_index as int,
                                "default"@,
                                Ok(request.session),
                            )
                            &&& request.location@ == media_address(
                                old(self).config.api_url@,
                                "/blob/custom-music-score/"@ + kind@ + "/"@,
                                path@,
                            )
                        },
                        Err(e) => {
                            &&& e@ == ErrorView::NoClientAvailable
                            &&& forall|i: int|
                                0 <= i < old(self).pool.sessions@.len() ==> !(
                                #[trigger] old(self).pool.sessions@[i]).serves("default"@)
                        },
                    }
                    &&& *final(self) == asked_for_session(*old(self))
                },
            },
    {
        if self.region != ServerRegion::Jp {
            return Err(
                AppError::BadRequest(
                    "custom music score blob is only supported for jp".to_owned(),
                ),
            );
        }
        if !same_text(kind, "full") && !same_text(kind, "preview") {
            return Err(
                AppError::BadRequest(
                    "custom music score blob kind must be full or preview".to_owned(),
                ),
            );
        }
        match self.get_session() {
            Some(session) => {
                let mut directory = joined("/blob/custom-music-score/", kind);
                directory.append("/");
                Ok(
                    MediaRequest {
                        session,
                        location: media_address_of(
                            self.config.api_url.as_str(),
                            directory.as_str(),
                            path,
                        ),
                    },
                )
            },
            None => Err(AppError::NoClientAvailable),
        }
    }
}

/// What becomes of the answer to a request for a music score: its text, where
/// the status is 200. The text may have failed to come, and there are words for
/// why.
pub fn blob_result(status: u16, body: Result<String, String>) -> (r: Result<String, AppError>)
    ensures
        match body {
            Ok(text) => if status == 200 {
                r == Ok::<String, AppError>(text)
            } else {
                r == Err::<String, AppError>(AppError::Unknown { status, body: text })
            },
            Err(message) => r == Err::<String, AppError>(AppError::NetworkError(message)),
        },
{
    match body {
        Ok(text) => if status != 200 {
            Err(AppError::Unknown { status, body: text })
        } else {
            Ok(text)
        },
        Err(message) => Err(AppError::NetworkError(message)),
    }
}

/// A document that was read, or the error with the words for why it was not.
pub fn document_or(parsed: Result<Value, String>) -> (r: Result<Value, AppError>)
    ensures
        match parsed {
            Ok(value) => r == Ok::<Value, AppError>(value),
            Err(message) => r == Err::<Value, AppError>(AppError::ParseError(message)),
        },
{
    match parsed {
        Ok(value) => Ok(value),
        Err(message) => Err(AppError::ParseError(message)),
    }
}

/// The document of a music score: a JSON document, compressed with gzip, written
/// in base64, with white space around it. Each layer that is broken has its
/// error.
pub open spec fn score_document(blob_text: Seq<char>) -> Result<JsonView, ErrorView> {
    match base64_decoded(trimmed(blob_text)) {
        Ok(compressed) => match gunzipped(compressed) {
            Ok(data) => match json_document(data) {
                Ok(document) => Ok(document),
                Err(message) => Err(ErrorView::ParseError(message)),
            },
            Err(message) => Err(ErrorView::ParseError("gzip decompress failed: "@ + message)),
        },
        Err(message) => Err(ErrorView::ParseError("base64 decode failed: "@ + message)),
    }
}

impl SekaiClient<AccountSession> {
    /// The document of a music score.
    pub fn decode_custom_music_score_blob_text(blob_text: &str) -> (r: Result<Value, AppError>)
        ensures
            match score_document(blob_text@) {
                Ok(document) => r is Ok && json_view(r->Ok_0) == document,
                Err(e) => r is Err && r->Err_0@ == e,
            },
    {
        let compressed = match decoded_or("base64 decode failed: ", decode_base64(trim_text(blob_text))) {
            Ok(compressed) => compressed,
            Err(e) => {
                return Err(e);
            },
        };
        let decoded = match decoded_or(
            "gzip decompress failed: ",
            decode_gzip(compressed.as_slice()),
        ) {
            Ok(decoded) => decoded,
            Err(e) => {
                return Err(e);
            },
        };
        document_or(json_from_slice(decoded.as_slice()))
    }
}

// ---------------------------------------------------------------------------
// Laws
// ---------------------------------------------------------------------------

/// White space around a music score does not count.
pub proof fn space_around_a_score_does_not_count(
    before: Seq<char>,
    blob_text: Seq<char>,
    after: Seq<char>,
)
    requires
        is_blank(before),
        is_blank(after),
    ensures
        score_document(before + blob_text + after) == score_document(blob_text),
{
    assert(before + blob_text + after =~= before + (blob_text + after));
    lemma_blank_start(before, blob_text + after);
    lemma_blank_end(blob_text, after);
}

/// An image comes of an answer with the status 200 alone; every other status is
/// an error that tells the status and the address, whatever came with it.
pub proof fn images_come_with_status_200_alone(
    url: Seq<char>,
    status: u16,
    content_type: Option<Seq<char>>,
    body: Result<Seq<u8>, Seq<char>>,
)
    ensures
        image_verdict(url, status, content_type, body) is Ok <==> status == 200 && body is Ok,
        status != 200 ==> image_verdict(url, status, content_type, body) == Err::<
            (Seq<u8>, Seq<char>),
            ErrorView,
        >((ErrorView::Unknown { status, body: "Failed to fetch image from "@ + url })),
        status == 200 && body is Err ==> image_verdict(url, status, content_type, body) == Err::<
            (Seq<u8>, Seq<char>),
            ErrorView,
        >(ErrorView::NetworkError(body->Err_0)),
{
}

/// An image is handed on as it came, with the type that the answer names; where it
/// names none, the image is a stream of octets.
pub proof fn images_are_handed_on_as_they_came(
    url: Seq<char>,
    content_type: Seq<char>,
    bytes: Seq<u8>,
)
    ensures
        image_verdict(url, 200, Some(content_type), Ok(bytes)) == Ok::<
            (Seq<u8>, Seq<char>),
            ErrorView,
        >((bytes, content_type)),
        image_verdict(url, 200, None, Ok(bytes)) == Ok::<(Seq<u8>, Seq<char>), ErrorView>(
            (bytes, "application/octet-stream"@),
        ),
{
}

/// Slashes at the start of a path do not count, and a path without them stands
/// behind the directory as it is.
pub proof fn leading_slashes_do_not_count(
    api_url: Seq<char>,
    directory: Seq<char>,
    slashes: Seq<char>,
    path: Seq<char>,
)
    requires
        forall|i: int| 0 <= i < slashes.len() ==> #[trigger] slashes[i] == '/',
        path.len() > 0 ==> path[0] != '/',
    ensures
        media_address(api_url, directory, slashes + path) == api_url + directory + path,
{
    leading_slashes_are_taken_off(slashes, path);
}

/// A thumbnail is a text, and the image is what that text decodes to; anything
/// else in its place counts as missing.
pub proof fn thumbnails_are_texts(thumbnail: JsonView, text: Seq<char>)
    ensures
        base64_decoded(text) is Ok ==> thumbnail_verdict(Some(JsonView::Text(text)))
            == Ok::<Seq<u8>, ErrorView>(base64_decoded(text)->Ok_0),
        base64_decoded(text) is Err ==> thumbnail_verdict(Some(JsonView::Text(text)))
            == Err::<Seq<u8>, ErrorView>(
            ErrorView::ParseError("failed to decode base64: "@ + base64_decoded(text)->Err_0),
        ),
        !(thumbnail is Text) ==> thumbnail_verdict(Some(thumbnail)) == Err::<Seq<u8>, ErrorView>(
            ErrorView::ParseError("missing thumbnail in response"@),
        ),
        thumbnail_verdict(None) == Err::<Seq<u8>, ErrorView>(
            ErrorView::ParseError("missing thumbnail in response"@),
        ),
{
}

/// Music scores are fetched in Jp alone, in full or as a preview.
pub proof fn scores_are_fetched_in_jp_alone(region: ServerRegion, kind: Seq<char>)
    ensures
        score_refusal(region, kind) is None <==> region == ServerRegion::Jp && (kind == "full"@
            || kind == "preview"@),
        region != ServerRegion::Jp ==> score_refusal(region, kind) == Some(
            "custom music score blob is only supported for jp"@,
        ),
        region == ServerRegion::Jp && kind != "full"@ && kind != "preview"@ ==> score_refusal(
            region,
            kind,
        ) == Some("custom music score blob kind must be full or preview"@),
{
}

/// A music score whose layers are all in order yields its document, and the first
/// layer that is not yields its error.
pub proof fn scores_yield_their_document(blob_text: Seq<char>)
    ensures
        ({
            let base64 = base64_decoded(trimmed(blob_text));
            let gzip = gunzipped(base64->Ok_0);
            let json = json_document(gzip->Ok_0);
            &&& score_document(blob_text) is Ok <==> base64 is Ok && gzip is Ok && json is Ok
            &&& score_document(blob_text) is Ok ==> score_document(blob_text)->Ok_0 == json->Ok_0
            &&& base64 is Err ==> score_document(blob_text)->Err_0 == ErrorView::ParseError(
                "base64 decode failed: "@ + base64->Err_0,
            )
            &&& base64 is Ok && gzip is Err ==> score_document(blob_text)->Err_0
                == ErrorView::ParseError("gzip decompress failed: "@ + gzip->Err_0)
            &&& base64 is Ok && gzip is Ok && json is Err ==> score_document(blob_text)->Err_0
                == ErrorView::ParseError(json->Err_0)
        }),
{
}

/// What is fetched for MySekai is fetched with an account that serves its role,
/// from the place that was asked for.
pub proof fn mysekai_is_fetched_with_its_accounts<S>(
    client: SekaiClient<S>,
    location: Seq<char>,
    r: Result<MediaRequest<S>, AppError>,
)
    requires
        is_mysekai_request(client, location, r),
    ensures
        r is Ok <==> exists|i: int|
            0 <= i < client.pool.sessions@.len() && (#[trigger] client.pool.sessions@[i]).serves(
                "mysekai"@,
            ),
        r is Ok ==> r->Ok_0.location@ == location && exists|i: int|
            0 <= i < client.pool.sessions@.len() && (#[trigger] client.pool.sessions@[i]).serves(
                "mysekai"@,
            ) && client.pool.sessions@[i].session == r->Ok_0.session,
        r is Err ==> if client.pool.sessions@.len() == 0 {
            r->Err_0 is NoClientAvailable
        } else {
            r->Err_0 matches AppError::NoProxyAccountForRole(words) && words@ == "mysekai"@
        },
{
    let selected: Result<Arc<S>, AppError> = match r {
        Ok(request) => Ok(request.session),
        Err(e) => Err(e),
    };
    sessions_are_handed_out_by_role(
        client.pool.sessions@,
        client.pool.session_index as int,
        "mysekai"@,
        selected,
    );
}

} // verus!

//! Requests to the game server: method, address, headers, and how often they are
//! sent.

use crate::client::SekaiClient;
use crate::error::{AppError, ErrorView};
use crate::headers::pairs_view;
use crate::text::{
    ascii_lowercase, ascii_uppercase, contains_text, is_ascii_text, joined, lowercase, occurs_at,
    occurs_in, opt_str, patterns_occur_between_two_parts, replace_text, replaced, same_text,
    same_text_ignoring_ascii_case, the_first_occurrence_is_replaced, uppercase,
};
use vstd::prelude::*;
use vstd::string::*;

verus! {

/// How often a request is sent before it is given up.
pub const MAX_ATTEMPTS: u32 = 4;

/// The pause between two attempts, in seconds.
pub const RETRY_PAUSE_SECS: u64 = 1;

/// The seconds after which a request without an answer times out.
pub const REQUEST_TIMEOUT_SECS: u64 = 45;

// ---------------------------------------------------------------------------
// Method
// ---------------------------------------------------------------------------

/// The methods that the game server is asked with.
#[derive(Debug, Clone, Copy, PartialEq, Eq, Structural)]
pub enum HttpMethod {
    Get,
    Post,
    Put,
    Delete,
    Patch,
}

/// The method that has a name in upper case; GET for any other name.
pub open spec fn method_named(upper: Seq<char>) -> HttpMethod {
    if upper == "POST"@ {
        HttpMethod::Post
    } else if upper == "PUT"@ {
        HttpMethod::Put
    } else if upper == "DELETE"@ {
        HttpMethod::Delete
    } else if upper == "PATCH"@ {
        HttpMethod::Patch
    } else {
        HttpMethod::Get
    }
}

/// The method that has this name in upper case; GET for any other name.
pub fn method_from_upper(upper: &str) -> (r: HttpMethod)
    ensures
        r == method_named(upper@),
{
    if same_text(upper, "POST") {
        HttpMethod::Post
    } else if same_text(upper, "PUT") {
        HttpMethod::Put
    } else if same_text(upper, "DELETE") {
        HttpMethod::Delete
    } else if same_text(upper, "PATCH") {
        HttpMethod::Patch
    } else {
        HttpMethod::Get
    }
}

/// The method that has this name, in whatever case; GET for any other name.
pub fn http_method(method: &str) -> (r: HttpMethod)
    ensures
        r == method_named(uppercase(method@)),
        is_ascii_text(method@) ==> r == method_named(ascii_uppercase(method@)),
{
    method_from_upper(method.to_uppercase().as_str())
}

/// What goes into the body of a request to the game.
#[derive(Debug, Clone, Copy, PartialEq, Eq, Structural)]
pub enum BodyKind {
    /// The data that was given, packed.
    Data,
    /// An encrypted body without content.
    EncryptedEmpty,
    /// No body.
    Absent,
}

/// The body of a request to the game: POST sends the data, or an encrypted empty
/// body where there is none; any other method sends no body, whatever was given.
pub open spec fn game_body(method: Seq<char>, has_data: bool) -> BodyKind {
    if ascii_lowercase(method) == ascii_lowercase("POST"@) {
        if has_data {
            BodyKind::Data
        } else {
            BodyKind::EncryptedEmpty
        }
    } else {
        BodyKind::Absent
    }
}

/// The body of a request to the game.
pub fn game_body_kind(method: &str, has_data: bool) -> (r: BodyKind)
    ensures
        r == game_body(method@, has_data),
{
    if same_text_ignoring_ascii_case(method, "POST") {
        if has_data {
            BodyKind::Data
        } else {
            BodyKind::EncryptedEmpty
        }
    } else {
        BodyKind::Absent
    }
}

// ---------------------------------------------------------------------------
// Address
// ---------------------------------------------------------------------------

/// The address of a path of the game's interface, with the user's number put
/// wherever the placeholder stands.
pub open spec fn api_address(api_url: Seq<char>, path: Seq<char>, user_id: Seq<char>) -> Seq<char> {
    replaced(api_url + "/api"@ + path, "{userId}"@, user_id)
}

/// The address of a path of the game's interface.
pub fn api_address_of(api_url: &str, path: &str, user_id: &str) -> (r: String)
    ensures
        r@ == api_address(api_url@, path@, user_id@),
{
    let mut url = joined(api_url, "/api");
    url.append(path);
    proof {
        reveal_strlit("{userId}");
    }
    replace_text(url.as_str(), "{userId}", user_id)
}

/// Without an occurrence of the pattern there is nothing to replace.
proof fn lemma_nothing_to_replace(s: Seq<char>, pattern: Seq<char>, with: Seq<char>)
    requires
        pattern.len() > 0,
        !occurs_in(s, pattern),
    ensures
        replaced(s, pattern, with) == s,
    decreases s.len(),
{
    if s.len() > 0 {
        assert(!occurs_at(s, pattern, 0));
        let rest = s.drop_first();
        assert(!occurs_in(rest, pattern)) by {
            if occurs_in(rest, pattern) {
                let i = choose|i: int| occurs_at(rest, pattern, i);
                assert(s.subrange(i + 1, i + 1 + pattern.len()) =~= rest.subrange(
                    i,
                    i + pattern.len(),
                ));
                assert(occurs_at(s, pattern, i + 1));
            }
        }
        lemma_nothing_to_replace(rest, pattern, with);
        assert(seq![s[0]] + rest =~= s);
    }
}

/// An address without the placeholder is the same for every user.
pub proof fn addresses_without_placeholder_ignore_the_user(
    api_url: Seq<char>,
    path: Seq<char>,
    user_id: Seq<char>,
)
    requires
        !occurs_in(api_url + "/api"@ + path, "{userId}"@),
    ensures
        api_address(api_url, path, user_id) == api_url + "/api"@ + path,
{
    reveal_strlit("{userId}");
    lemma_nothing_to_replace(api_url + "/api"@ + path, "{userId}"@, user_id);
}

// ---------------------------------------------------------------------------
// Headers
// ---------------------------------------------------------------------------

/// The text of a version 4 UUID: lower-case hexadecimal digits in groups, the
/// version and the variant in their places.
pub open spec fn is_request_id(id: Seq<char>) -> bool {
    &&& id.len() == 36
    &&& forall|i: int|
        0 <= i < 36 ==> if i == 8 || i == 13 || i == 18 || i == 23 {
            #[trigger] id[i] == '-'
        } else {
            '0' <= id[i] <= '9' || 'a' <= id[i] <= 'f'
        }
    &&& id[14] == '4'
    &&& id[19] == '8' || id[19] == '9' || id[19] == 'a' || id[19] == 'b'
}

/// `uuid::Uuid::new_v4`, as text. Which UUID it is depends on chance; of every
/// one holds what [`is_request_id`] says.
#[verifier::external_body]
fn new_request_id() -> (r: String)
    ensures
        is_request_id(r@),
{
    uuid::Uuid::new_v4().to_string()
}

/// The header goes with requests as it is: its name is not that of the request's
/// number, which each request has anew.
pub open spec fn is_carried(pair: (Seq<char>, Seq<char>)) -> bool {
    lowercase(pair.0) != "x-request-id"@
}

/// The lower case of names that are ASCII is their ASCII lower case.
pub open spec fn ascii_names_are_plain(pairs: Seq<(Seq<char>, Seq<char>)>) -> bool {
    forall|i: int|
        0 <= i < pairs.len() && is_ascii_text((#[trigger] pairs[i]).0) ==> lowercase(pairs[i].0)
            == ascii_lowercase(pairs[i].0)
}

/// The headers that go with requests as they are.
pub open spec fn carried(pairs: Seq<(Seq<char>, Seq<char>)>) -> Seq<(Seq<char>, Seq<char>)> {
    pairs.filter(|pair: (Seq<char>, Seq<char>)| is_carried(pair))
}

/// The headers of a request: those that go with every request, the token of the
/// session where it has one, and the request's own number.
pub open spec fn request_headers(
    pairs: Seq<(Seq<char>, Seq<char>)>,
    session_token: Option<Seq<char>>,
    request_id: Seq<char>,
) -> Seq<(Seq<char>, Seq<char>)> {
    carried(pairs) + match session_token {
        Some(token) => seq![("X-Session-Token"@, token)],
        None => Seq::<(Seq<char>, Seq<char>)>::empty(),
    } + seq![("X-Request-Id"@, request_id)]
}

/// The header by which a request for MySekai is told apart.
pub open spec fn location_headers(path: Seq<char>) -> Seq<(Seq<char>, Seq<char>)> {
    if occurs_in(path, "/mysekai/"@) {
        seq![("X-User-Execute-Location"@, "mysekai"@)]
    } else {
        Seq::<(Seq<char>, Seq<char>)>::empty()
    }
}

/// One more header adds itself where it is carried.
proof fn lemma_one_more_carried(
    pairs: Seq<(Seq<char>, Seq<char>)>,
    pair: (Seq<char>, Seq<char>),
)
    ensures
        carried(pairs.push(pair)) == if is_carried(pair) {
            carried(pairs).push(pair)
        } else {
            carried(pairs)
        },
{
    reveal(Seq::filter);
    assert(pairs.push(pair).drop_last() =~= pairs);
}

/// What is carried is one of the headers, and does not number the request.
proof fn lemma_carried(pairs: Seq<(Seq<char>, Seq<char>)>, i: int)
    requires
        0 <= i < carried(pairs).len(),
    ensures
        is_carried(carried(pairs)[i]),
        pairs.contains(carried(pairs)[i]),
    decreases pairs.len(),
{
    reveal(Seq::filter);
    if pairs.len() > 0 {
        let front = pairs.drop_last();
        assert(front.push(pairs.last()) =~= pairs);
        lemma_one_more_carried(front, pairs.last());
        if i < carried(front).len() {
            lemma_carried(front, i);
            let k = front.index_of(carried(front)[i]);
            assert(pairs[k] == carried(pairs)[i]);
        } else {
            assert(pairs[pairs.len() - 1] == carried(pairs)[i]);
        }
    }
}

/// Adds a header to a list.
fn push_header(headers: &mut Vec<(String, String)>, name: &str, value: &str)
    ensures
        pairs_view(final(headers)@) == pairs_view(old(headers)@).push((name@, value@)),
{
    let ghost before = headers@;
    headers.push((name.to_owned(), value.to_owned()));
    proof {
        assert(pairs_view(headers@) =~= pairs_view(before).push((name@, value@)));
    }
}

/// A request that is ready to be sent, but for the parameters of its query.
#[derive(Debug)]
pub struct ApiRequest {
    pub method: HttpMethod,
    pub url: String,
    pub headers: Vec<(String, String)>,
    /// The encrypted body, where there is one.
    pub body: Option<Vec<u8>>,
}

/// The bytes of a body, where there is one.
pub open spec fn body_bytes(body: Option<Vec<u8>>) -> Option<Seq<u8>> {
    match body {
        Some(bytes) => Some(bytes@),
        None => None,
    }
}

/// `r` is one attempt at a call of the game's interface, with a number of its
/// own.
pub open spec fn is_attempt<S>(
    client: SekaiClient<S>,
    user_id: Seq<char>,
    session_token: Option<Seq<char>>,
    path: Seq<char>,
    body: Option<Seq<u8>>,
    r: ApiRequest,
) -> bool {
    &&& r.url@ == api_address(client.config.api_url@, path, user_id)
    &&& body_bytes(r.body) == body
    &&& ascii_names_are_plain(client.headers.pairs())
    &&& exists|request_id: Seq<char>| #[trigger]
        is_request_id(request_id) && pairs_view(r.headers@) == request_headers(
            client.headers.pairs(),
            session_token,
            request_id,
        ) + location_headers(path)
}

impl<S> SekaiClient<S> {
    /// The headers of a request that has this number.
    pub fn numbered_headers(&self, session_token: Option<&str>, request_id: &str) -> (r: Vec<
        (String, String),
    >)
        ensures
            pairs_view(r@) == request_headers(
                self.headers.pairs(),
                opt_str(session_token),
                request_id@,
            ),
            ascii_names_are_plain(self.headers.pairs()),
            forall|i: int|
                0 <= i < self.headers.pairs().len() && lowercase(
                    (#[trigger] self.headers.pairs()[i]).0,
                ) != "x-request-id"@ ==> pairs_view(r@).contains(self.headers.pairs()[i]),
    {
        let entries = self.headers.entries();
        let ghost pairs = self.headers.pairs();
        let mut headers: Vec<(String, String)> = Vec::new();
        proof {
            reveal(Seq::filter);
            assert(pairs.take(0) =~= Seq::<(Seq<char>, Seq<char>)>::empty());
            assert(carried(pairs.take(0)) =~= Seq::<(Seq<char>, Seq<char>)>::empty());
            assert(pairs_view(headers@) =~= carried(pairs.take(0)));
        }
        let mut i: usize = 0;
        while i < entries.len()
            invariant
                i <= entries@.len(),
                pairs == pairs_view(entries@),
                pairs_view(headers@) == carried(pairs.take(i as int)),
                ascii_names_are_plain(pairs.take(i as int)),
            decreases entries@.len() - i,
        {
            let name = entries[i].0.as_str();
            let value = entries[i].1.as_str();
            proof {
                assert(pairs[i as int] == (name@, value@));
                assert(pairs.take(i + 1) =~= pairs.take(i as int).push((name@, value@)));
                lemma_one_more_carried(pairs.take(i as int), (name@, value@));
            }
            let lower = name.to_lowercase();
            proof {
                assert forall|j: int|
                    0 <= j < i + 1 && is_ascii_text((#[trigger] pairs.take(i + 1)[j]).0) implies
                    lowercase(pairs.take(i + 1)[j].0) == ascii_lowercase(pairs.take(i + 1)[j].0) by {
                    if j < i {
                        assert(pairs.take(i as int)[j] == pairs.take(i + 1)[j]);
                    }
                }
            }
            if !same_text(lower.as_str(), "x-request-id") {
                push_header(&mut headers, name, value);
            }
            i += 1;
        }
        proof {
            assert(pairs.take(pairs.len() as int) =~= pairs);
        }
        if let Some(token) = session_token {
            push_header(&mut headers, "X-Session-Token", token);
        }
        push_header(&mut headers, "X-Request-Id", request_id);
        proof {
            assert(pairs_view(headers@) =~= request_headers(
                pairs,
                opt_str(session_token),
                request_id@,
            ));
            assert forall|i: int|
                0 <= i < pairs.len() && lowercase((#[trigger] pairs[i]).0)
                    != "x-request-id"@ implies pairs_view(headers@).contains(pairs[i]) by {
                requests_leave_no_header_out(pairs, opt_str(session_token), request_id@, i);
            }
        }
        headers
    }

    /// The headers of a new request.
    pub fn prepare_request(&self, session_token: Option<&str>) -> (r: Vec<(String, String)>)
        ensures
            exists|request_id: Seq<char>| #[trigger]
                is_request_id(request_id) && pairs_view(r@) == request_headers(
                    self.headers.pairs(),
                    opt_str(session_token),
                    request_id,
                ),
            ascii_names_are_plain(self.headers.pairs()),
    {
        let request_id = new_request_id();
        self.numbered_headers(session_token, request_id.as_str())
    }

    /// One attempt at a call of the game's interface, with the packed data for
    /// its body where there are any.
    pub fn call_api(
        &self,
        user_id: &str,
        session_token: Option<&str>,
        method: &str,
        path: &str,
        packed: Option<Vec<u8>>,
    ) -> (r: ApiRequest)
        ensures
            r.method == method_named(uppercase(method@)),
            is_ascii_text(method@) ==> r.method == method_named(ascii_uppercase(method@)),
            is_attempt(
                *self,
                user_id@,
                opt_str(session_token),
                path@,
                body_bytes(packed),
                r,
            ),
    {
        let method = http_method(method);
        let url = api_address_of(self.config.api_url.as_str(), path, user_id);
        let mut headers = self.prepare_request(session_token);
        let ghost prepared = pairs_view(headers@);
        if contains_text(path, "/mysekai/") {
            push_header(&mut headers, "X-User-Execute-Location", "mysekai");
        }
        proof {
            assert(pairs_view(headers@) =~= prepared + location_headers(path@));
        }
        ApiRequest { method, url, headers, body: packed }
    }

    /// One attempt at a call of the game's interface, with a body that is
    /// already encrypted and is used again for the next attempt.
    pub fn call_api_with_raw_body(
        &self,
        user_id: &str,
        session_token: Option<&str>,
        method: &str,
        path: &str,
        body: &Vec<u8>,
    ) -> (r: ApiRequest)
        ensures
            r.method == method_named(uppercase(method@)),
            is_ascii_text(method@) ==> r.method == method_named(ascii_uppercase(method@)),
            is_attempt(*self, user_id@, opt_str(session_token), path@, Some(body@), r),
    {
        let copy: Vec<u8> = body.clone();
        proof {
            assert(copy@ =~= body@);
        }
        self.call_api(user_id, session_token, method, path, Some(copy))
    }

    /// One attempt at a GET of the game's interface.
    pub fn get(&self, user_id: &str, session_token: Option<&str>, path: &str) -> (r: ApiRequest)
        ensures
            r.method == HttpMethod::Get,
            is_attempt(*self, user_id@, opt_str(session_token), path@, None, r),
    {
        proof {
            lemma_method_names();
        }
        self.call_api(user_id, session_token, "GET", path, None)
    }

    /// One attempt at a POST to the game's interface, with the packed data for
    /// its body where there are any.
    pub fn post(
        &self,
        user_id: &str,
        session_token: Option<&str>,
        path: &str,
        packed: Option<Vec<u8>>,
    ) -> (r: ApiRequest)
        ensures
            r.method == HttpMethod::Post,
            is_attempt(
                *self,
                user_id@,
                opt_str(session_token),
                path@,
                body_bytes(packed),
                r,
            ),
    {
        proof {
            lemma_method_names();
        }
        self.call_api(user_id, session_token, "POST", path, packed)
    }

    /// One attempt at a POST to the game's interface, with the encryption of an
    /// empty body.
    pub fn post_empty_body(
        &self,
        user_id: &str,
        session_token: Option<&str>,
        path: &str,
        encrypted: &Vec<u8>,
    ) -> (r: ApiRequest)
        ensures
            r.method == HttpMethod::Post,
            is_attempt(*self, user_id@, opt_str(session_token), path@, Some(encrypted@), r),
    {
        proof {
            lemma_method_names();
        }
        self.call_api_with_raw_body(user_id, session_token, "POST", path, encrypted)
    }
}

/// GET and POST are written in upper case.
proof fn lemma_method_names()
    ensures
        is_ascii_text("GET"@),
        is_ascii_text("POST"@),
        method_named(ascii_uppercase("GET"@)) == HttpMethod::Get,
        method_named(ascii_uppercase("POST"@)) == HttpMethod::Post,
{
    reveal_strlit("GET");
    reveal_strlit("POST");
    reveal_strlit("PUT");
    reveal_strlit("DELETE");
    reveal_strlit("PATCH");
    assert(ascii_uppercase("GET"@) =~= "GET"@);
    assert(ascii_uppercase("POST"@) =~= "POST"@);
    assert("GET"@[0] == 'G' && "POST"@[0] == 'P' && "PUT"@[0] == 'P' && "DELETE"@[0] == 'D'
        && "PATCH"@[0] == 'P');
}

/// The header that says whose session it is and the one that numbers the request
/// come after those that go with every request, none of which numbers it.
pub proof fn requests_carry_one_number_of_their_own(
    pairs: Seq<(Seq<char>, Seq<char>)>,
    session_token: Option<Seq<char>>,
    request_id: Seq<char>,
)
    ensures
        request_headers(pairs, session_token, request_id).last() == ("X-Request-Id"@, request_id),
        forall|i: int|
            0 <= i < carried(pairs).len() ==> {
                &&& lowercase((#[trigger] request_headers(pairs, session_token, request_id)[i]).0)
                    != "x-request-id"@
                &&& pairs.contains(request_headers(pairs, session_token, request_id)[i])
            },
        request_headers(pairs, session_token, request_id).len() == carried(pairs).len() + 1 + (
        if session_token is Some {
            1int
        } else {
            0
        }),
{
    assert forall|i: int| 0 <= i < carried(pairs).len() implies {
        &&& lowercase((#[trigger] request_headers(pairs, session_token, request_id)[i]).0)
            != "x-request-id"@
        &&& pairs.contains(request_headers(pairs, session_token, request_id)[i])
    } by {
        assert(request_headers(pairs, session_token, request_id)[i] == carried(pairs)[i]);
        lemma_carried(pairs, i);
    }
}

// ---------------------------------------------------------------------------
// Attempts
// ---------------------------------------------------------------------------

/// How far a request has got: the number of the attempt that is being made.
#[derive(Debug, Clone, Copy, PartialEq, Eq, Structural)]
pub struct Transport {
    pub attempt: u32,
}

/// How a request goes on after an attempt that failed.
#[derive(Debug, Clone, Copy, PartialEq, Eq, Structural)]
pub struct Retry {
    /// The pause before the next attempt, in seconds.
    pub pause_secs: u64,
    /// The next attempt.
    pub next: Transport,
}

/// The attempt that follows, after a pause, on one which failed; or the error
/// where none follows.
pub open spec fn after_failure(transport: Transport, message: Seq<char>) -> Result<
    Retry,
    ErrorView,
> {
    if transport.attempt < MAX_ATTEMPTS {
        Ok(
            Retry {
                pause_secs: RETRY_PAUSE_SECS,
                next: Transport { attempt: (transport.attempt + 1) as u32 },
            },
        )
    } else {
        Err(ErrorView::NetworkError(message))
    }
}

impl Transport {
    /// The first attempt.
    pub fn first() -> (r: Transport)
        ensures
            r == (Transport { attempt: 1 }),
    {
        Transport { attempt: 1 }
    }

    /// The pause and the attempt that follow where this one failed with these
    /// words; or the error with which the request is given up.
    pub fn failed(self, message: String) -> (r: Result<Retry, AppError>)
        ensures
            match after_failure(self, message@) {
                Ok(retry) => r == Ok::<Retry, AppError>(retry),
                Err(e) => r is Err && r->Err_0@ == e,
            },
    {
        if self.attempt < MAX_ATTEMPTS {
            Ok(
                Retry {
                    pause_secs: RETRY_PAUSE_SECS,
                    next: Transport { attempt: self.attempt + 1 },
                },
            )
        } else {
            Err(AppError::NetworkError(message))
        }
    }
}

/// Where a request stands after these failures in a row.
pub open spec fn after_failures(messages: Seq<Seq<char>>) -> Result<Transport, ErrorView>
    decreases messages.len(),
{
    if messages.len() == 0 {
        Ok(Transport { attempt: 1 })
    } else {
        match after_failures(messages.drop_last()) {
            Ok(transport) => match after_failure(transport, messages.last()) {
                Ok(retry) => Ok(retry.next),
                Err(e) => Err(e),
            },
            Err(e) => Err(e),
        }
    }
}

/// A request is sent at most four times: after fewer failures it is sent again,
/// and after the fourth it is given up with the words of that failure.
pub proof fn requests_are_sent_at_most_four_times(messages: Seq<Seq<char>>)
    ensures
        messages.len() < MAX_ATTEMPTS ==> after_failures(messages) == Ok::<Transport, ErrorView>(
            Transport { attempt: (messages.len() + 1) as u32 },
        ),
        messages.len() >= MAX_ATTEMPTS ==> after_failures(messages) == Err::<Transport, ErrorView>(
            ErrorView::NetworkError(messages[MAX_ATTEMPTS - 1]),
        ),
    decreases messages.len(),
{
    if messages.len() > 0 {
        requests_are_sent_at_most_four_times(messages.drop_last());
    }
}

/// Between two attempts there is always a pause of one second, and after the
/// last one there is none: the error comes at once.
pub proof fn attempts_are_one_second_apart(transport: Transport, message: Seq<char>)
    ensures
        transport.attempt < MAX_ATTEMPTS ==> after_failure(transport, message) is Ok
            && after_failure(transport, message)->Ok_0.pause_secs == 1,
        transport.attempt >= MAX_ATTEMPTS ==> after_failure(transport, message) is Err,
{
}

// ---------------------------------------------------------------------------
// Laws
// ---------------------------------------------------------------------------

/// Requests are sent with these methods, by their names in upper case, and with
/// GET under any other name.
pub proof fn methods_have_their_names(upper: Seq<char>)
    ensures
        method_named(upper) is Post <==> upper == "POST"@,
        method_named(upper) is Put <==> upper == "PUT"@,
        method_named(upper) is Delete <==> upper == "DELETE"@,
        method_named(upper) is Patch <==> upper == "PATCH"@,
        method_named(upper) is Get <==> upper != "POST"@ && upper != "PUT"@ && upper != "DELETE"@
            && upper != "PATCH"@,
{
    reveal_strlit("POST");
    reveal_strlit("PUT");
    reveal_strlit("DELETE");
    reveal_strlit("PATCH");
    assert("POST"@.len() == 4 && "PUT"@.len() == 3 && "DELETE"@.len() == 6 && "PATCH"@.len() == 5);
}

/// A POST, in whatever case it is written, sends the data that are given, and an
/// encrypted empty body where none are; no other method sends a body.
pub proof fn only_posts_have_a_body(method: Seq<char>, has_data: bool)
    ensures
        game_body(method, has_data) is Absent <==> !(method.len() == 4 && (method[0] == 'P'
            || method[0] == 'p') && (method[1] == 'O' || method[1] == 'o') && (method[2] == 'S'
            || method[2] == 's') && (method[3] == 'T' || method[3] == 't')),
        game_body(method, has_data) is Data ==> has_data,
        game_body(method, has_data) is EncryptedEmpty ==> !has_data,
{
    reveal_strlit("POST");
    let post = ascii_lowercase("POST"@);
    assert(post =~= seq!['p', 'o', 's', 't']);
    let lower = ascii_lowercase(method);
    if lower == post {
        assert(lower[0] == 'p' && lower[1] == 'o' && lower[2] == 's' && lower[3] == 't');
    }
    if method.len() == 4 && (method[0] == 'P' || method[0] == 'p') && (method[1] == 'O'
        || method[1] == 'o') && (method[2] == 'S' || method[2] == 's') && (method[3] == 'T'
        || method[3] == 't') {
        assert(lower =~= post);
    }
}

/// The address of a path is the server's address, `/api` and the path, with the
/// user's number put for each placeholder: up to the first placeholder it stays,
/// and behind it the same holds again.
pub proof fn addresses_name_the_user(
    api_url: Seq<char>,
    before: Seq<char>,
    after: Seq<char>,
    user_id: Seq<char>,
)
    requires
        ({
            let whole = api_url + "/api"@ + (before + "{userId}"@ + after);
            forall|i: int|
                0 <= i < (api_url + "/api"@ + before).len() ==> #[trigger] whole.subrange(
                    i,
                    i + "{userId}"@.len(),
                ) != "{userId}"@
        }),
    ensures
        api_address(api_url, before + "{userId}"@ + after, user_id) == api_url + "/api"@ + before
            + user_id + replaced(after, "{userId}"@, user_id),
{
    reveal_strlit("{userId}");
    let front = api_url + "/api"@ + before;
    let whole = api_url + "/api"@ + (before + "{userId}"@ + after);
    assert(whole =~= front + "{userId}"@ + after);
    the_first_occurrence_is_replaced(front, "{userId}"@, after, user_id);
}

/// Every header of the client goes with a request, with its value and in its
/// place, but for those that number a request; nothing else goes with it.
pub proof fn all_other_headers_are_carried(
    a: Seq<(Seq<char>, Seq<char>)>,
    b: Seq<(Seq<char>, Seq<char>)>,
    pair: (Seq<char>, Seq<char>),
)
    ensures
        carried(Seq::<(Seq<char>, Seq<char>)>::empty()).len() == 0,
        carried(seq![pair]) == if lowercase(pair.0) == "x-request-id"@ {
            Seq::<(Seq<char>, Seq<char>)>::empty()
        } else {
            seq![pair]
        },
        carried(a + b) == carried(a) + carried(b),
    decreases b.len(),
{
    reveal(Seq::filter);
    let none = Seq::<(Seq<char>, Seq<char>)>::empty();
    assert(carried(none) =~= none);
    lemma_one_more_carried(none, pair);
    assert(none.push(pair) =~= seq![pair]);
    if b.len() == 0 {
        assert(a + b =~= a);
        assert(b =~= none);
        assert(carried(a) + carried(b) =~= carried(a));
    } else {
        let front = b.drop_last();
        all_other_headers_are_carried(a, front, pair);
        lemma_one_more_carried(a + front, b.last());
        lemma_one_more_carried(front, b.last());
        assert((a + front).push(b.last()) =~= a + b);
        assert(front.push(b.last()) =~= b);
        assert(carried(a + b) =~= carried(a) + carried(b));
    }
}

/// A request carries every header of the client that does not number a request.
pub proof fn requests_leave_no_header_out(
    pairs: Seq<(Seq<char>, Seq<char>)>,
    session_token: Option<Seq<char>>,
    request_id: Seq<char>,
    i: int,
)
    requires
        0 <= i < pairs.len(),
        lowercase(pairs[i].0) != "x-request-id"@,
    ensures
        request_headers(pairs, session_token, request_id).contains(pairs[i]),
{
    let before = pairs.take(i);
    let here = seq![pairs[i]];
    let after = pairs.skip(i + 1);
    assert(pairs =~= before + here + after);
    all_other_headers_are_carried(before, here, pairs[i]);
    all_other_headers_are_carried(before + here, after, pairs[i]);
    let k = carried(before).len() as int;
    assert(carried(pairs)[k] == pairs[i]);
    assert(request_headers(pairs, session_token, request_id)[k] == pairs[i]);
}

/// Behind the client's headers a request carries the token of its session, where
/// there is one, and then its number; nothing else.
pub proof fn requests_carry_token_and_number(
    pairs: Seq<(Seq<char>, Seq<char>)>,
    token: Seq<char>,
    request_id: Seq<char>,
)
    ensures
        request_headers(pairs, Some(token), request_id) == carried(pairs).push(
            ("X-Session-Token"@, token),
        ).push(("X-Request-Id"@, request_id)),
        request_headers(pairs, None, request_id) == carried(pairs).push(
            ("X-Request-Id"@, request_id),
        ),
{
    assert(request_headers(pairs, Some(token), request_id) =~= carried(pairs).push(
        ("X-Session-Token"@, token),
    ).push(("X-Request-Id"@, request_id)));
    assert(request_headers(pairs, None, request_id) =~= carried(pairs).push(
        ("X-Request-Id"@, request_id),
    ));
}

/// A request says that it is for MySekai exactly where its path has a part
/// `/mysekai/`.
pub proof fn mysekai_requests_say_so(before: Seq<char>, after: Seq<char>, path: Seq<char>)
    ensures
        location_headers(before + "/mysekai/"@ + after) == seq![
            ("X-User-Execute-Location"@, "mysekai"@),
        ],
        (forall|a: Seq<char>, b: Seq<char>| path != #[trigger] (a + "/mysekai/"@ + b))
            ==> location_headers(path).len() == 0,
{
    patterns_occur_between_two_parts(before + "/mysekai/"@ + after, "/mysekai/"@);
    patterns_occur_between_two_parts(path, "/mysekai/"@);
}

/// An attempt goes to the address of its path with the headers of a request and
/// those of its path, and sends its body as it is.
pub proof fn attempts_are_what_was_asked_for<S>(
    client: SekaiClient<S>,
    user_id: Seq<char>,
    session_token: Option<Seq<char>>,
    path: Seq<char>,
    body: Option<Seq<u8>>,
    r: ApiRequest,
    i: int,
)
    requires
        is_attempt(client, user_id, session_token, path, body, r),
    ensures
        r.url@ == replaced(client.config.api_url@ + "/api"@ + path, "{userId}"@, user_id),
        body is None <==> r.body is None,
        r.body is Some ==> r.body->Some_0@ == body->Some_0,
        0 <= i < client.headers.pairs().len() && lowercase(client.headers.pairs()[i].0)
            != "x-request-id"@ ==> pairs_view(r.headers@).contains(client.headers.pairs()[i]),
        session_token is Some ==> pairs_view(r.headers@).contains(
            ("X-Session-Token"@, session_token->Some_0),
        ),
        exists|request_id: Seq<char>|
            request_id.len() == 36 && #[trigger] pairs_view(r.headers@).contains(
                ("X-Request-Id"@, request_id),
            ),
        (exists|a: Seq<char>, b: Seq<char>| path == #[trigger] (a + "/mysekai/"@ + b))
            ==> pairs_view(r.headers@).contains(("X-User-Execute-Location"@, "mysekai"@)),
{
    let pairs = client.headers.pairs();
    let request_id = choose|request_id: Seq<char>| #[trigger]
        is_request_id(request_id) && pairs_view(r.headers@) == request_headers(
            pairs,
            session_token,
            request_id,
        ) + location_headers(path);
    let prepared = request_headers(pairs, session_token, request_id);
    let all = pairs_view(r.headers@);
    if 0 <= i < pairs.len() && lowercase(pairs[i].0) != "x-request-id"@ {
        requests_leave_no_header_out(pairs, session_token, request_id, i);
        let k = choose|k: int| 0 <= k < prepared.len() && prepared[k] == pairs[i];
        assert(all[k] == pairs[i]);
    }
    if let Some(token) = session_token {
        requests_carry_token_and_number(pairs, token, request_id);
        assert(all[prepared.len() - 2] == ("X-Session-Token"@, token));
    }
    assert(all[prepared.len() - 1] == ("X-Request-Id"@, request_id));
    assert(all.contains(("X-Request-Id"@, request_id)));
    if exists|a: Seq<char>, b: Seq<char>| path == #[trigger] (a + "/mysekai/"@ + b) {
        let (a, b) = choose|a: Seq<char>, b: Seq<char>| path == #[trigger] (a + "/mysekai/"@ + b);
        mysekai_requests_say_so(a, b, path);
        assert(all[prepared.len() as int] == ("X-User-Execute-Location"@, "mysekai"@));
    }
}

/// A request that fails is sent again until it was sent four times, and then
/// given up with the words of its last failure.
pub proof fn four_attempts_are_made(transport: Transport, message: Seq<char>)
    ensures
        transport.attempt < 4 ==> after_failure(transport, message) == Ok::<Retry, ErrorView>(
            (Retry {
                pause_secs: 1,
                next: (Transport { attempt: (transport.attempt + 1) as u32 }),
            }),
        ),
        transport.attempt >= 4 ==> after_failure(transport, message) == Err::<Retry, ErrorView>(
            ErrorView::NetworkError(message),
        ),
        MAX_ATTEMPTS == 4,
        RETRY_PAUSE_SECS == 1,
        REQUEST_TIMEOUT_SECS == 45,
{
}

} // verus!

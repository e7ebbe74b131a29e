//! Logging an account in.

use crate::account::{is_login_body, AccountView};
use crate::client::SekaiClient;
use crate::config::{is_cp_region, ServerRegion};
use crate::error::AppError;
use crate::headers::pairs_view;
use crate::request::{ascii_names_are_plain, is_request_id, request_headers, HttpMethod};
use crate::session::{AccountSession, SessionView};
use crate::text::{joined, same_text};
use vstd::prelude::*;
use vstd::string::*;

verus! {

/// The user whom the game server has registered for an account.
#[derive(Debug, Clone)]
pub struct UserRegistration {
    pub user_id: String,
}

/// What the game server answers to a login. What it leaves out is empty.
#[derive(Debug, Clone)]
pub struct LoginResponse {
    pub session_token: String,
    pub data_version: String,
    pub asset_version: String,
    pub asset_hash: String,
    pub suite_master_split_path: Vec<String>,
    pub cdn_version: i32,
    pub user_registration: Option<UserRegistration>,
}

/// The user's number that a login response brings, where it brings one.
pub open spec fn registered_user(response: LoginResponse) -> Option<Seq<char>> {
    match response.user_registration {
        Some(registration) => if registration.user_id@.len() > 0 && registration.user_id@ != "0"@ {
            Some(registration.user_id@)
        } else {
            None
        },
        None => None,
    }
}

/// A session after a login: it takes over the token where one came, and, outside
/// the CP regions, the user's number where one came.
pub open spec fn logged_in(
    session: SessionView,
    region: ServerRegion,
    response: LoginResponse,
) -> SessionView {
    SessionView {
        account: AccountView {
            user_id: match registered_user(response) {
                Some(user_id) => if is_cp_region(region) {
                    session.account.user_id
                } else {
                    user_id
                },
                None => session.account.user_id,
            },
            ..session.account
        },
        session_token: if response.session_token@.len() > 0 {
            Some(response.session_token@)
        } else {
            session.session_token
        },
    }
}

/// Takes over into a session what a login response brings.
pub fn apply_login(session: &mut AccountSession, region: ServerRegion, response: &LoginResponse)
    ensures
        final(session)@ == logged_in(old(session)@, region, *response),
{
    if !response.session_token.as_str().is_empty() {
        session.set_session_token(Some(response.session_token.clone()));
    }
    if !region.is_cp_server() {
        if let Some(registration) = &response.user_registration {
            if !registration.user_id.as_str().is_empty() && !same_text(
                registration.user_id.as_str(),
                "0",
            ) {
                session.set_user_id(registration.user_id.clone());
            }
        }
    }
}

/// Ends a login: takes over the token that the answer carries in its header
/// `x-session-token`, and then what the answer brings, where it could be read.
pub fn finish_login(
    session: &mut AccountSession,
    region: ServerRegion,
    header: Option<&str>,
    answered: Result<LoginResponse, AppError>,
) -> (r: Result<LoginResponse, AppError>)
    ensures
        r == answered,
        ({
            let answered_session = SessionView {
                session_token: match header {
                    Some(token) => Some(token@),
                    None => old(session)@.session_token,
                },
                ..old(session)@
            };
            final(session)@ == match answered {
                Ok(response) => logged_in(answered_session, region, response),
                Err(_) => answered_session,
            }
        }),
{
    session.update_session_token(header);
    if let Ok(response) = &answered {
        apply_login(session, region, response);
    }
    answered
}

/// The method and the address with which an account logs in.
pub open spec fn login_address(
    region: ServerRegion,
    api_url: Seq<char>,
    user_id: Seq<char>,
) -> (HttpMethod, Seq<char>) {
    if is_cp_region(region) {
        (
            HttpMethod::Put,
            api_url + "/api/user/"@ + user_id + "/auth?refreshUpdatedResources=False"@,
        )
    } else {
        (HttpMethod::Post, api_url + "/api/user/auth"@)
    }
}

/// The headers that a login adds: both bodies are encrypted.
pub open spec fn login_headers() -> Seq<(Seq<char>, Seq<char>)> {
    seq![
        ("content-type"@, "application/octet-stream"@),
        ("accept"@, "application/octet-stream"@),
    ]
}

/// A login that is ready to be sent, but for the encryption of its body.
#[derive(Debug)]
pub struct LoginRequest {
    pub method: HttpMethod,
    pub url: String,
    pub headers: Vec<(String, String)>,
    pub body: Vec<u8>,
}

impl<S> SekaiClient<S> {
    /// The request with which a session logs in, with the body in the form that
    /// the server is configured for; or the error where the account has no such
    /// body.
    pub fn login(&self, session: &AccountSession) -> (r: Result<LoginRequest, AppError>)
        ensures
            is_login_body(
                session@.account,
                self.config.login_protocol,
                match r {
                    Ok(request) => Ok(request.body),
                    Err(e) => Err(e),
                },
            ),
            r is Ok ==> {
                let address = login_address(
                    self.region,
                    self.config.api_url@,
                    session@.account.user_id,
                );
                &&& r->Ok_0.method == address.0
                &&& r->Ok_0.url@ == address.1
                &&& exists|request_id: Seq<char>| #[trigger]
                    is_request_id(request_id) && pairs_view(r->Ok_0.headers@) == request_headers(
                        self.headers.pairs(),
                        session@.session_token,
                        request_id,
                    ) + login_headers()
                &&& ascii_names_are_plain(self.headers.pairs())
            },
            r is Ok && (self.region == ServerRegion::Jp || self.region == ServerRegion::En) ==> {
                &&& r->Ok_0.method is Put
                &&& r->Ok_0.url@ == self.config.api_url@ + "/api/user/"@ + session@.account.user_id
                    + "/auth?refreshUpdatedResources=False"@
            },
            r is Ok && (self.region == ServerRegion::Tw || self.region == ServerRegion::Kr
                || self.region == ServerRegion::Cn) ==> {
                &&& r->Ok_0.method is Post
                &&& r->Ok_0.url@ == self.config.api_url@ + "/api/user/auth"@
            },
    {
        let body = match session.dump_account(self.config.login_protocol) {
            Ok(body) => body,
            Err(e) => {
                return Err(e);
            },
        };
        let api_url = self.config.api_url.as_str();
        let (method, url) = if self.region.is_cp_server() {
            let mut url = joined(api_url, "/api/user/");
            url.append(session.user_id());
            url.append("/auth?refreshUpdatedResources=False");
            (HttpMethod::Put, url)
        } else {
            (HttpMethod::Post, joined(api_url, "/api/user/auth"))
        };
        let mut headers = self.prepare_request(session.get_session_token());
        let ghost prepared = pairs_view(headers@);
        headers.push(("content-type".to_owned(), "application/octet-stream".to_owned()));
        headers.push(("accept".to_owned(), "application/octet-stream".to_owned()));
        proof {
            assert(pairs_view(headers@) =~= prepared + login_headers());
        }
        Ok(LoginRequest { method, url, headers, body })
    }
}

// ---------------------------------------------------------------------------
// Laws
// ---------------------------------------------------------------------------

/// A login changes neither the device, nor the account's own token, nor its
/// roles; in a CP region it does not change the user's number either.
pub proof fn logins_keep_the_account(
    session: SessionView,
    region: ServerRegion,
    response: LoginResponse,
)
    ensures
        logged_in(session, region, response).account == (AccountView {
            user_id: logged_in(session, region, response).account.user_id,
            ..session.account
        }),
        is_cp_region(region) ==> logged_in(session, region, response).account == session.account,
{
}

/// A login never takes a session's token or user's number away, and to take the
/// same response over once more changes nothing.
pub proof fn logins_only_add(session: SessionView, region: ServerRegion, response: LoginResponse)
    ensures
        session.session_token is Some ==> logged_in(
            session,
            region,
            response,
        ).session_token is Some,
        session.account.user_id.len() > 0 ==> logged_in(
            session,
            region,
            response,
        ).account.user_id.len() > 0,
        logged_in(logged_in(session, region, response), region, response) == logged_in(
            session,
            region,
            response,
        ),
{
}

/// An account of Jp or En logs in with a PUT to the address of its user, and an
/// account of Tw, Kr or Cn with a POST to one address for all.
pub proof fn regions_log_in_at_their_address(
    region: ServerRegion,
    api_url: Seq<char>,
    user_id: Seq<char>,
)
    ensures
        region == ServerRegion::Jp || region == ServerRegion::En ==> {
            &&& login_address(region, api_url, user_id).0 is Put
            &&& login_address(region, api_url, user_id).1 == api_url + "/api/user/"@ + user_id
                + "/auth?refreshUpdatedResources=False"@
        },
        region == ServerRegion::Tw || region == ServerRegion::Kr || region == ServerRegion::Cn ==> {
            &&& login_address(region, api_url, user_id).0 is Post
            &&& login_address(region, api_url, user_id).1 == api_url + "/api/user/auth"@
        },
{
}

/// A login says, behind the headers of a request, that both bodies are encrypted.
pub proof fn logins_say_that_bodies_are_encrypted()
    ensures
        login_headers().len() == 2,
        login_headers()[0] == ("content-type"@, "application/octet-stream"@),
        login_headers()[1] == ("accept"@, "application/octet-stream"@),
{
}

/// A login that brings a token gives the session that token, and one that brings
/// none leaves the session's own.
pub proof fn logins_bring_the_token(
    session: SessionView,
    region: ServerRegion,
    response: LoginResponse,
)
    ensures
        response.session_token@.len() > 0 ==> logged_in(session, region, response).session_token
            == Some(response.session_token@),
        response.session_token@.len() == 0 ==> logged_in(session, region, response).session_token
            == session.session_token,
{
}

/// In Tw, Kr and Cn a login gives the account the user's number that was
/// registered, unless that is empty or `0`; in Jp and En it never does.
pub proof fn logins_bring_the_registered_user(
    session: SessionView,
    region: ServerRegion,
    response: LoginResponse,
)
    ensures
        (region == ServerRegion::Tw || region == ServerRegion::Kr || region == ServerRegion::Cn)
            && response.user_registration is Some
            && response.user_registration->Some_0.user_id@.len() > 0
            && response.user_registration->Some_0.user_id@ != "0"@ ==> logged_in(
            session,
            region,
            response,
        ).account.user_id == response.user_registration->Some_0.user_id@,
        region == ServerRegion::Jp || region == ServerRegion::En
            || response.user_registration is None
            || response.user_registration->Some_0.user_id@.len() == 0
            || response.user_registration->Some_0.user_id@ == "0"@ ==> logged_in(
            session,
            region,
            response,
        ).account.user_id == session.account.user_id,
        logged_in(session, region, response).account.kind == session.account.kind,
        logged_in(session, region, response).account.device_id == session.account.device_id,
        logged_in(session, region, response).account.token == session.account.token,
        logged_in(session, region, response).account.proxy_roles == session.account.proxy_roles,
{
}

} // verus!

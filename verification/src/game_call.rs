//! A call of the game: it is sent, and what the game server objects to is put
//! right and the call repeated, a few times.

use crate::account::DEFAULT_PROXY_ROLE;
use crate::client::SekaiClient;
use crate::error::{AppError, ErrorView};
use crate::json::{json_view, JsonView};
use crate::login::LoginResponse;
use crate::request::{game_body, game_body_kind, BodyKind};
use crate::session::{is_selection, next_index, sessions_are_handed_out_by_role, SessionPool};
use crate::text::ascii_lowercase;
use crate::version::with_login_version;
use serde_json::Value;
use std::sync::Arc;
use vstd::prelude::*;

verus! {

/// How often a call is sent before it is given up.
pub const MAX_CALLS: u32 = 4;

/// The pause before a call is repeated, in seconds.
pub const REPEAT_PAUSE_SECS: u64 = 1;

/// How long a new version of the game is waited for, in seconds.
pub const UPGRADE_PAUSE_SECS: u64 = 10;

/// What a call is waiting for.
#[derive(Debug, Clone, Copy, PartialEq, Eq, Structural)]
pub enum CallPhase {
    /// The answer of the game server.
    Sending,
    /// A login, since the session was not accepted.
    Relogin,
    /// Fresh cookies.
    CookieRefresh,
    /// The current versions, since the game server wants newer ones.
    FirstRefresh,
    /// A login with those versions.
    FirstLogin,
    /// The end of the time that a new version is waited for.
    Waiting,
    /// The versions after that time.
    SecondRefresh,
    /// A login with those versions.
    SecondLogin,
    /// The end of the pause before the call is repeated.
    Pausing,
    /// Nothing more.
    Finished,
}

/// How far a call has got.
#[derive(Debug, Clone, Copy, PartialEq, Eq, Structural)]
pub struct GameCall {
    /// The cookies of the server can be refreshed.
    pub require_cookies: bool,
    /// How often the call was put right.
    pub retries: u32,
    pub phase: CallPhase,
}

/// What has come.
#[derive(Debug)]
pub enum CallEvent {
    /// The call could not be sent.
    SendFailed(AppError),
    /// The call was answered: with a document and its status, or with what the
    /// answer stands for.
    Answered(Result<(Value, u16), AppError>),
    /// The login has come to an end.
    LoggedIn(Result<LoginResponse, AppError>),
    /// The refresh of the cookies has come to an end.
    CookiesRefreshed(Result<(), AppError>),
    /// The refresh of the versions has come to an end.
    VersionRefreshed(Result<(), AppError>),
    /// The pause is over.
    Paused,
}

/// What has to be done next.
#[derive(Debug)]
pub enum CallAction {
    Send,
    Login,
    RefreshCookies,
    RefreshVersion,
    /// Wait for so many seconds.
    Pause(u64),
    /// Nothing: the call has come to this end.
    Finish(Result<(Value, u16), AppError>),
}

/// A [`CallAction`] with its document and its error.
pub enum CallActionView {
    Send,
    Login,
    RefreshCookies,
    RefreshVersion,
    Pause(u64),
    Finish(Result<(JsonView, u16), ErrorView>),
}

impl View for CallAction {
    type V = CallActionView;

    open spec fn view(&self) -> CallActionView {
        match self {
            CallAction::Send => CallActionView::Send,
            CallAction::Login => CallActionView::Login,
            CallAction::RefreshCookies => CallActionView::RefreshCookies,
            CallAction::RefreshVersion => CallActionView::RefreshVersion,
            CallAction::Pause(secs) => CallActionView::Pause(*secs),
            CallAction::Finish(result) => CallActionView::Finish(
                match result {
                    Ok((value, status)) => Ok((json_view(*value), *status)),
                    Err(e) => Err(e@),
                },
            ),
        }
    }
}

impl GameCall {
    /// A call that still waits for something other than a pause has been put
    /// right less often than it may be.
    pub open spec fn well_formed(self) -> bool {
        &&& self.retries <= MAX_CALLS
        &&& !(self.phase is Pausing) && !(self.phase is Finished) ==> self.retries < MAX_CALLS
    }

    /// This is what the call waits for.
    pub open spec fn awaits(self, event: CallEvent) -> bool {
        match self.phase {
            CallPhase::Sending => event is SendFailed || event is Answered,
            CallPhase::Relogin => event is LoggedIn,
            CallPhase::CookieRefresh => event is CookiesRefreshed,
            CallPhase::FirstRefresh => event is VersionRefreshed,
            CallPhase::FirstLogin => event is LoggedIn,
            CallPhase::Waiting => event is Paused,
            CallPhase::SecondRefresh => event is VersionRefreshed,
            CallPhase::SecondLogin => event is LoggedIn,
            CallPhase::Pausing => event is Paused,
            CallPhase::Finished => false,
        }
    }

    /// The call in another phase.
    pub open spec fn at(self, phase: CallPhase) -> GameCall {
        GameCall { phase, ..self }
    }

    /// The call has come to an end.
    pub open spec fn finish(self, result: Result<(JsonView, u16), ErrorView>) -> (
        GameCall,
        CallActionView,
    ) {
        (self.at(CallPhase::Finished), CallActionView::Finish(result))
    }

    /// The call was put right and is repeated after a pause.
    pub open spec fn repeat(self) -> (GameCall, CallActionView) {
        (
            GameCall { retries: (self.retries + 1) as u32, phase: CallPhase::Pausing, ..self },
            CallActionView::Pause(REPEAT_PAUSE_SECS),
        )
    }

    /// What an answer leads to that stands for an error.
    pub open spec fn after_refusal(self, e: ErrorView) -> (GameCall, CallActionView) {
        match e {
            ErrorView::SessionError => (self.at(CallPhase::Relogin), CallActionView::Login),
            ErrorView::CookieExpired => if self.require_cookies {
                (self.at(CallPhase::CookieRefresh), CallActionView::RefreshCookies)
            } else {
                self.finish(Err(e))
            },
            ErrorView::UpgradeRequired => (
                self.at(CallPhase::FirstRefresh),
                CallActionView::RefreshVersion,
            ),
            _ => self.finish(Err(e)),
        }
    }

    /// What an awaited event leads to.
    pub open spec fn after(self, event: CallEvent) -> (GameCall, CallActionView) {
        match event {
            CallEvent::SendFailed(e) => self.finish(Err(e@)),
            CallEvent::Answered(Ok((value, status))) => self.finish(
                Ok((json_view(value), status)),
            ),
            CallEvent::Answered(Err(e)) => self.after_refusal(e@),
            CallEvent::LoggedIn(Ok(_)) => self.repeat(),
            CallEvent::LoggedIn(Err(e)) => if self.phase is Relogin {
                self.finish(Err(ErrorView::SessionError))
            } else if self.phase is FirstLogin && e@ is UpgradeRequired {
                (self.at(CallPhase::Waiting), CallActionView::Pause(UPGRADE_PAUSE_SECS))
            } else {
                self.finish(Err(ErrorView::UpgradeRequired))
            },
            CallEvent::CookiesRefreshed(Ok(_)) => self.repeat(),
            CallEvent::CookiesRefreshed(Err(e)) => self.finish(Err(e@)),
            CallEvent::VersionRefreshed(Ok(_)) => (
                self.at(
                    if self.phase is FirstRefresh {
                        CallPhase::FirstLogin
                    } else {
                        CallPhase::SecondLogin
                    },
                ),
                CallActionView::Login,
            ),
            CallEvent::VersionRefreshed(Err(e)) => self.finish(Err(e@)),
            CallEvent::Paused => if self.phase is Waiting {
                (self.at(CallPhase::SecondRefresh), CallActionView::RefreshVersion)
            } else if self.retries < MAX_CALLS {
                (self.at(CallPhase::Sending), CallActionView::Send)
            } else {
                self.finish(Err(ErrorView::NetworkError("Max retry attempts reached"@)))
            },
        }
    }

    /// The response whose versions are taken over: that of a login which
    /// followed a refresh of the versions.
    pub open spec fn upgrade_login(self, event: CallEvent) -> Option<LoginResponse> {
        match event {
            CallEvent::LoggedIn(Ok(response)) => if self.phase is FirstLogin
                || self.phase is SecondLogin {
                Some(response)
            } else {
                None
            },
            _ => None,
        }
    }

    /// A call that is sent for the first time.
    pub fn start(require_cookies: bool) -> (r: GameCall)
        ensures
            r == (GameCall { require_cookies, retries: 0, phase: CallPhase::Sending }),
            r.well_formed(),
    {
        GameCall { require_cookies, retries: 0, phase: CallPhase::Sending }
    }

    /// Whether a call that still waits for something other than a pause has been
    /// put right less often than it may be.
    pub fn is_well_formed(&self) -> (r: bool)
        ensures
            r == self.well_formed(),
    {
        if self.phase == CallPhase::Pausing || self.phase == CallPhase::Finished {
            self.retries <= MAX_CALLS
        } else {
            self.retries < MAX_CALLS
        }
    }

    /// Whether this is what the call waits for.
    pub fn is_awaited(&self, event: &CallEvent) -> (r: bool)
        ensures
            r == self.awaits(*event),
    {
        match (self.phase, event) {
            (CallPhase::Sending, CallEvent::SendFailed(_)) => true,
            (CallPhase::Sending, CallEvent::Answered(_)) => true,
            (CallPhase::Relogin, CallEvent::LoggedIn(_)) => true,
            (CallPhase::CookieRefresh, CallEvent::CookiesRefreshed(_)) => true,
            (CallPhase::FirstRefresh, CallEvent::VersionRefreshed(_)) => true,
            (CallPhase::FirstLogin, CallEvent::LoggedIn(_)) => true,
            (CallPhase::Waiting, CallEvent::Paused) => true,
            (CallPhase::SecondRefresh, CallEvent::VersionRefreshed(_)) => true,
            (CallPhase::SecondLogin, CallEvent::LoggedIn(_)) => true,
            (CallPhase::Pausing, CallEvent::Paused) => true,
            _ => false,
        }
    }

    /// The call in another phase, with what has to be done there.
    fn enter(self, phase: CallPhase, action: CallAction) -> (r: (GameCall, CallAction))
        ensures
            r.0 == self.at(phase),
            r.1 == action,
    {
        (GameCall { phase, ..self }, action)
    }

    /// The call at its end.
    fn end(self, result: Result<(Value, u16), AppError>) -> (r: (GameCall, CallAction))
        ensures
            r.0 == self.at(CallPhase::Finished),
            r.1 == CallAction::Finish(result),
    {
        self.enter(CallPhase::Finished, CallAction::Finish(result))
    }

    /// The call in the pause before it is repeated.
    fn again(self) -> (r: (GameCall, CallAction))
        requires
            self.retries < MAX_CALLS,
        ensures
            (r.0, r.1@) == self.repeat(),
    {
        (
            GameCall { retries: self.retries + 1, phase: CallPhase::Pausing, ..self },
            CallAction::Pause(REPEAT_PAUSE_SECS),
        )
    }

    /// What an answer leads to that stands for an error.
    fn refused(self, e: AppError) -> (r: (GameCall, CallAction))
        ensures
            (r.0, r.1@) == self.after_refusal(e@),
    {
        match e {
            AppError::SessionError => self.enter(CallPhase::Relogin, CallAction::Login),
            AppError::CookieExpired => if self.require_cookies {
                self.enter(CallPhase::CookieRefresh, CallAction::RefreshCookies)
            } else {
                self.end(Err(AppError::CookieExpired))
            },
            AppError::UpgradeRequired => self.enter(
                CallPhase::FirstRefresh,
                CallAction::RefreshVersion,
            ),
            other => self.end(Err(other)),
        }
    }
}

/// A call of the game that has found its session.
pub struct GameRequest<S> {
    pub session: Arc<S>,
    pub method: String,
    pub path: String,
    pub body: BodyKind,
    pub call: GameCall,
}

/// `r` answers the wish to call the game: the next session for the role makes
/// the call, with the body that the method sends; or there is no such session.
pub open spec fn is_game_request<S>(
    client: SekaiClient<S>,
    method: Seq<char>,
    path: Seq<char>,
    has_data: bool,
    role: Seq<char>,
    r: Result<GameRequest<S>, AppError>,
) -> bool {
    &&& is_selection(
        client.pool.sessions@,
        client.pool.session_index as int,
        role,
        match r {
            Ok(request) => Ok(request.session),
            Err(e) => Err(e),
        },
    )
    &&& r matches Ok(request) ==> {
        &&& request.method@ == method
        &&& request.path@ == path
        &&& request.body == game_body(method, has_data)
        &&& request.call == (GameCall {
            require_cookies: client.config.require_cookies,
            retries: 0,
            phase: CallPhase::Sending,
        })
    }
}

/// The client once a session was asked for.
pub open spec fn asked_for_session<S>(client: SekaiClient<S>) -> SekaiClient<S> {
    SekaiClient {
        pool: SessionPool { session_index: next_index(client.pool), ..client.pool },
        ..client
    }
}

impl<S> SekaiClient<S> {
    /// Begins a call of the game, with data for its body or without.
    pub fn call_game_api_with_optional_body_and_role(
        &mut self,
        method: &str,
        path: &str,
        has_data: bool,
        role: &str,
    ) -> (r: Result<GameRequest<S>, AppError>)
        ensures
            is_game_request(*old(self), method@, path@, has_data, role@, r),
            *final(self) == asked_for_session(*old(self)),
    {
        match self.get_session_for_role(role) {
            Ok(session) => Ok(
                GameRequest {
                    session,
                    method: method.to_owned(),
                    path: path.to_owned(),
                    body: game_body_kind(method, has_data),
                    call: GameCall::start(self.config.require_cookies),
                },
            ),
            Err(e) => Err(e),
        }
    }

    /// Begins a GET with an account for ordinary requests.
    pub fn get_game_api(&mut self, path: &str) -> (r: Result<GameRequest<S>, AppError>)
        ensures
            is_game_request(*old(self), "GET"@, path@, false, "default"@, r),
            *final(self) == asked_for_session(*old(self)),
    {
        self.call_game_api_with_optional_body_and_role("GET", path, false, DEFAULT_PROXY_ROLE)
    }

    /// Begins a GET with an account that serves a role.
    pub fn get_game_api_with_role(&mut self, path: &str, role: &str) -> (r: Result<
        GameRequest<S>,
        AppError,
    >)
        ensures
            is_game_request(*old(self), "GET"@, path@, false, role@, r),
            *final(self) == asked_for_session(*old(self)),
    {
        self.call_game_api_with_optional_body_and_role("GET", path, false, role)
    }

    /// Begins a POST without data, with an account that serves a role.
    pub fn post_game_api_with_role(&mut self, path: &str, role: &str) -> (r: Result<
        GameRequest<S>,
        AppError,
    >)
        ensures
            is_game_request(*old(self), "POST"@, path@, false, role@, r),
            *final(self) == asked_for_session(*old(self)),
    {
        self.call_game_api_with_optional_body_and_role("POST", path, false, role)
    }

    /// Begins a POST with data, with an account that serves a role.
    pub fn post_game_api_with_body_and_role(&mut self, path: &str, role: &str) -> (r: Result<
        GameRequest<S>,
        AppError,
    >)
        ensures
            is_game_request(*old(self), "POST"@, path@, true, role@, r),
            *final(self) == asked_for_session(*old(self)),
    {
        self.call_game_api_with_optional_body_and_role("POST", path, true, role)
    }

    /// Takes a call further: what the awaited event leads to, and what has to be
    /// done next. The versions that a login after a refresh brings are put into
    /// the headers.
    pub fn continue_call(&mut self, call: GameCall, event: CallEvent) -> (r: (GameCall, CallAction))
        requires
            call.well_formed(),
            call.awaits(event),
        ensures
            (r.0, r.1@) == call.after(event),
            r.0.well_formed(),
            final(self).headers@ == match call.upgrade_login(event) {
                Some(response) => with_login_version(old(self).headers@, response),
                None => old(self).headers@,
            },
            *final(self) == (SekaiClient { headers: final(self).headers, ..*old(self) }),
    {
        match event {
            CallEvent::SendFailed(e) => call.end(Err(e)),
            CallEvent::Answered(Ok(answer)) => call.end(Ok(answer)),
            CallEvent::Answered(Err(e)) => call.refused(e),
            CallEvent::LoggedIn(Ok(response)) => {
                if call.phase == CallPhase::FirstLogin || call.phase == CallPhase::SecondLogin {
                    self.update_version_headers_from_login(&response);
                }
                call.again()
            },
            CallEvent::LoggedIn(Err(e)) => if call.phase == CallPhase::Relogin {
                call.end(Err(AppError::SessionError))
            } else if call.phase == CallPhase::FirstLogin && matches!(e, AppError::UpgradeRequired) {
                call.enter(CallPhase::Waiting, CallAction::Pause(UPGRADE_PAUSE_SECS))
            } else {
                call.end(Err(AppError::UpgradeRequired))
            },
            CallEvent::CookiesRefreshed(Ok(_)) => call.again(),
            CallEvent::CookiesRefreshed(Err(e)) => call.end(Err(e)),
            CallEvent::VersionRefreshed(Ok(_)) => if call.phase == CallPhase::FirstRefresh {
                call.enter(CallPhase::FirstLogin, CallAction::Login)
            } else {
                call.enter(CallPhase::SecondLogin, CallAction::Login)
            },
            CallEvent::VersionRefreshed(Err(e)) => call.end(Err(e)),
            CallEvent::Paused => if call.phase == CallPhase::Waiting {
                call.enter(CallPhase::SecondRefresh, CallAction::RefreshVersion)
            } else if call.retries < MAX_CALLS {
                call.enter(CallPhase::Sending, CallAction::Send)
            } else {
                call.end(Err(AppError::NetworkError("Max retry attempts reached".to_owned())))
            },
        }
    }
}

// ---------------------------------------------------------------------------
// Laws
// ---------------------------------------------------------------------------

/// Each of the events is what the call waits for when it comes.
pub open spec fn is_course(call: GameCall, events: Seq<CallEvent>) -> bool
    decreases events.len(),
{
    events.len() == 0 || (call.awaits(events[0]) && is_course(
        call.after(events[0]).0,
        events.drop_first(),
    ))
}

/// How often the call is sent in the course of the events.
pub open spec fn sends(call: GameCall, events: Seq<CallEvent>) -> nat
    decreases events.len(),
{
    if events.len() == 0 {
        0
    } else {
        (if call.after(events[0]).1 is Send {
            1nat
        } else {
            0
        }) + sends(call.after(events[0]).0, events.drop_first())
    }
}

/// The call after the events.
pub open spec fn after_course(call: GameCall, events: Seq<CallEvent>) -> GameCall
    decreases events.len(),
{
    if events.len() == 0 {
        call
    } else {
        after_course(call.after(events[0]).0, events.drop_first())
    }
}

/// How often the call can still be sent.
spec fn sends_left(call: GameCall) -> int {
    if call.phase is Finished {
        0
    } else if call.phase is Pausing {
        MAX_CALLS - call.retries
    } else {
        MAX_CALLS - 1 - call.retries
    }
}

/// How many events can still come.
spec fn events_left(call: GameCall) -> int {
    let rounds = 7 * sends_left(call);
    match call.phase {
        CallPhase::Sending => rounds + 7,
        CallPhase::Relogin => rounds + 6,
        CallPhase::CookieRefresh => rounds + 6,
        CallPhase::FirstRefresh => rounds + 6,
        CallPhase::FirstLogin => rounds + 5,
        CallPhase::Waiting => rounds + 4,
        CallPhase::SecondRefresh => rounds + 3,
        CallPhase::SecondLogin => rounds + 2,
        CallPhase::Pausing => rounds + 1,
        CallPhase::Finished => 0,
    }
}

/// What the course of a call uses up.
proof fn lemma_course(call: GameCall, events: Seq<CallEvent>)
    requires
        call.well_formed(),
        is_course(call, events),
    ensures
        after_course(call, events).well_formed(),
        sends(call, events) + sends_left(after_course(call, events)) <= sends_left(call),
        events.len() + events_left(after_course(call, events)) <= events_left(call),
        0 <= sends_left(after_course(call, events)),
        0 <= events_left(after_course(call, events)),
    decreases events.len(),
{
    if events.len() > 0 {
        lemma_course(call.after(events[0]).0, events.drop_first());
    }
}

/// A call is sent at most four times, whatever comes.
pub proof fn calls_are_sent_at_most_four_times(require_cookies: bool, events: Seq<CallEvent>)
    requires
        is_course(
            GameCall { require_cookies, retries: 0, phase: CallPhase::Sending },
            events,
        ),
    ensures
        1 + sends(GameCall { require_cookies, retries: 0, phase: CallPhase::Sending }, events)
            <= MAX_CALLS,
{
    lemma_course(GameCall { require_cookies, retries: 0, phase: CallPhase::Sending }, events);
}

/// Every call comes to an end: it never waits for a twenty-ninth event.
pub proof fn calls_come_to_an_end(require_cookies: bool, events: Seq<CallEvent>)
    requires
        is_course(
            GameCall { require_cookies, retries: 0, phase: CallPhase::Sending },
            events,
        ),
    ensures
        events.len() <= 28,
        events.len() == 28 ==> after_course(
            GameCall { require_cookies, retries: 0, phase: CallPhase::Sending },
            events,
        ).phase is Finished,
{
    lemma_course(GameCall { require_cookies, retries: 0, phase: CallPhase::Sending }, events);
}

/// A call succeeds exactly with an answer that is a document, and with that
/// document and its status.
pub proof fn calls_succeed_with_the_answer_alone(call: GameCall, event: CallEvent)
    requires
        call.awaits(event),
    ensures
        forall|document: JsonView, status: u16|
            call.after(event).1 == CallActionView::Finish(Ok((document, status))) <==> (event
                matches CallEvent::Answered(Ok((value, s))) && json_view(value) == document && s
                == status),
{
}

/// An answer that stands for anything but a refused session, expired cookies or
/// a missing upgrade ends the call at once, with that error: maintenance is
/// never waited out.
pub proof fn other_refusals_are_passed_on(call: GameCall, e: AppError)
    requires
        call.phase is Sending,
        !(e is SessionError),
        !(e is CookieExpired),
        !(e is UpgradeRequired),
    ensures
        call.after(CallEvent::Answered(Err(e))) == call.finish(Err(e@)),
{
}

/// Expired cookies end the call where the server is not configured for cookies,
/// and are refreshed where it is.
pub proof fn cookies_are_refreshed_where_configured(call: GameCall)
    requires
        call.phase is Sending,
    ensures
        call.after(CallEvent::Answered(Err(AppError::CookieExpired))) == if call.require_cookies {
            (call.at(CallPhase::CookieRefresh), CallActionView::RefreshCookies)
        } else {
            call.finish(Err(ErrorView::CookieExpired))
        },
{
}

/// What puts a call right repeats it: a login that succeeds, in whichever phase,
/// and cookies that come, are followed by a pause of one second and then by
/// sending the call again, until that has happened four times. They never end
/// the call themselves.
pub proof fn what_is_put_right_is_repeated(call: GameCall, response: LoginResponse)
    requires
        call.well_formed(),
        call.phase is Relogin || call.phase is FirstLogin || call.phase is SecondLogin
            || call.phase is CookieRefresh,
    ensures
        ({
            let event = if call.phase is CookieRefresh {
                CallEvent::CookiesRefreshed(Ok(()))
            } else {
                CallEvent::LoggedIn(Ok(response))
            };
            let (pausing, pause) = call.after(event);
            let (next, action) = pausing.after(CallEvent::Paused);
            &&& call.awaits(event)
            &&& pause == CallActionView::Pause(1)
            &&& pausing.phase is Pausing
            &&& pausing.retries == call.retries + 1
            &&& pausing.require_cookies == call.require_cookies
            &&& pausing.awaits(CallEvent::Paused)
            &&& next.retries == call.retries + 1
            &&& next.require_cookies == call.require_cookies
            &&& call.retries + 1 < 4 ==> action is Send && next.phase is Sending
            &&& call.retries + 1 >= 4 ==> action == CallActionView::Finish(
                Err(ErrorView::NetworkError("Max retry attempts reached"@)),
            ) && next.phase is Finished
        }),
{
}

/// A refused session asks for a login, and a login that then fails, however it
/// fails, ends the call with the refusal.
pub proof fn refused_sessions_log_in_again(call: GameCall, e: AppError)
    requires
        call.phase is Sending,
    ensures
        ({
            let (relogin, action) = call.after(CallEvent::Answered(Err(AppError::SessionError)));
            &&& action is Login
            &&& relogin.phase is Relogin
            &&& relogin.retries == call.retries
            &&& relogin.require_cookies == call.require_cookies
            &&& relogin.after(CallEvent::LoggedIn(Err(e))).1 == CallActionView::Finish(
                Err(ErrorView::SessionError),
            )
        }),
{
}

/// Expired cookies are fetched again where the server is configured for cookies,
/// and end the call where it is not; where they cannot be fetched the call ends
/// with that error.
pub proof fn expired_cookies_are_fetched_again(call: GameCall, e: AppError)
    requires
        call.phase is Sending,
    ensures
        ({
            let (next, action) = call.after(CallEvent::Answered(Err(AppError::CookieExpired)));
            &&& call.require_cookies ==> {
                &&& action is RefreshCookies
                &&& next.phase is CookieRefresh
                &&& next.retries == call.retries
                &&& next.require_cookies == call.require_cookies
                &&& next.after(CallEvent::CookiesRefreshed(Err(e))).1 == CallActionView::Finish(
                    Err(e@),
                )
            }
            &&& !call.require_cookies ==> action == CallActionView::Finish(
                Err(ErrorView::CookieExpired),
            )
        }),
{
}

/// An outdated version is put right by fresh versions and a login. Where even
/// that login is told to upgrade, a new version is waited for once, for ten
/// seconds; a login that fails otherwise, or again, ends the call with the
/// upgrade, and versions that cannot be had end it with their error.
pub proof fn upgrades_are_waited_for_once(call: GameCall, e: AppError)
    requires
        call.phase is Sending,
    ensures
        ({
            let (refresh, first) = call.after(CallEvent::Answered(Err(AppError::UpgradeRequired)));
            let (login, second) = refresh.after(CallEvent::VersionRefreshed(Ok(())));
            let (waiting, third) = login.after(
                CallEvent::LoggedIn(Err(AppError::UpgradeRequired)),
            );
            let (again, fourth) = waiting.after(CallEvent::Paused);
            let (last, fifth) = again.after(CallEvent::VersionRefreshed(Ok(())));
            let failed = CallEvent::VersionRefreshed(Err(e));
            let upgrade = CallActionView::Finish(Err(ErrorView::UpgradeRequired));
            &&& first is RefreshVersion && refresh.phase is FirstRefresh
            &&& second is Login && login.phase is FirstLogin
            &&& third == CallActionView::Pause(10) && waiting.phase is Waiting
            &&& fourth is RefreshVersion && again.phase is SecondRefresh
            &&& fifth is Login && last.phase is SecondLogin
            &&& last.retries == call.retries && last.require_cookies == call.require_cookies
            &&& refresh.after(failed).1 == CallActionView::Finish(Err(e@))
            &&& again.after(failed).1 == CallActionView::Finish(Err(e@))
            &&& !(e is UpgradeRequired) ==> login.after(CallEvent::LoggedIn(Err(e))).1 == upgrade
            &&& last.after(CallEvent::LoggedIn(Err(e))).1 == upgrade
        }),
{
}

/// A call ends for one of these reasons and for no other: it was answered, with a
/// document or with an error that nothing can put right; it could not be sent;
/// what was to put it right failed; or it was put right four times.
pub proof fn calls_end_for_a_reason(call: GameCall, event: CallEvent)
    requires
        call.well_formed(),
        call.awaits(event),
    ensures
        call.after(event).1 is Finish <==> match event {
            CallEvent::SendFailed(_) => true,
            CallEvent::Answered(Ok(_)) => true,
            CallEvent::Answered(Err(e)) => !(e is SessionError) && !(e is UpgradeRequired) && !(
            e is CookieExpired && call.require_cookies),
            CallEvent::LoggedIn(Ok(_)) => false,
            CallEvent::LoggedIn(Err(e)) => !(call.phase is FirstLogin && e is UpgradeRequired),
            CallEvent::CookiesRefreshed(result) => result is Err,
            CallEvent::VersionRefreshed(result) => result is Err,
            CallEvent::Paused => call.phase is Pausing && call.retries >= 4,
        },
        call.after(event).1 is Finish <==> call.after(event).0.phase is Finished,
{
}

/// A call that could not be sent, and one that was refused for good, end with the
/// error that came.
pub proof fn final_errors_are_those_that_came(call: GameCall, e: AppError)
    requires
        call.phase is Sending,
    ensures
        call.after(CallEvent::SendFailed(e)).1 == CallActionView::Finish(Err(e@)),
        !(e is SessionError) && !(e is UpgradeRequired) && !(e is CookieExpired) ==> call.after(
            CallEvent::Answered(Err(e)),
        ).1 == CallActionView::Finish(Err(e@)),
{
}

/// A call ends with an upgrade only after a login that failed, or where the error
/// of a step was an upgrade itself.
pub proof fn upgrades_end_calls_after_failed_logins(call: GameCall, event: CallEvent)
    requires
        call.well_formed(),
        call.awaits(event),
        call.after(event).1 == CallActionView::Finish(Err(ErrorView::UpgradeRequired)),
    ensures
        match event {
            CallEvent::LoggedIn(result) => result is Err && !(call.phase is Relogin),
            CallEvent::SendFailed(e) => e is UpgradeRequired,
            CallEvent::CookiesRefreshed(Err(e)) => e is UpgradeRequired,
            CallEvent::VersionRefreshed(Err(e)) => e is UpgradeRequired,
            _ => false,
        },
{
}

/// After each step a call waits for what it asked for, and for nothing else; one
/// that has ended waits for nothing.
pub proof fn calls_wait_for_what_they_ask_for(call: GameCall, event: CallEvent, other: CallEvent)
    requires
        call.well_formed(),
        call.awaits(event),
    ensures
        ({
            let (next, action) = call.after(event);
            &&& next.well_formed()
            &&& next.awaits(other) <==> match action {
                CallActionView::Send => other is SendFailed || other is Answered,
                CallActionView::Login => other is LoggedIn,
                CallActionView::RefreshCookies => other is CookiesRefreshed,
                CallActionView::RefreshVersion => other is VersionRefreshed,
                CallActionView::Pause(_) => other is Paused,
                CallActionView::Finish(_) => false,
            }
        }),
{
}

/// A call is put right only by a login or by cookies that come: no other step
/// counts as a retry, and none changes what the call was begun with.
pub proof fn only_remedies_count(call: GameCall, event: CallEvent)
    requires
        call.well_formed(),
        call.awaits(event),
    ensures
        call.after(event).0.require_cookies == call.require_cookies,
        call.after(event).0.retries == call.retries + match event {
            CallEvent::LoggedIn(Ok(_)) => 1int,
            CallEvent::CookiesRefreshed(Ok(_)) => 1,
            _ => 0,
        },
{
}

/// The versions of a login are taken over exactly where the login followed a
/// refresh of the versions.
pub proof fn versions_are_taken_over_after_a_refresh(
    call: GameCall,
    response: LoginResponse,
    e: AppError,
)
    ensures
        call.phase is FirstLogin || call.phase is SecondLogin ==> call.upgrade_login(
            CallEvent::LoggedIn(Ok(response)),
        ) == Some(response),
        !(call.phase is FirstLogin) && !(call.phase is SecondLogin) ==> call.upgrade_login(
            CallEvent::LoggedIn(Ok(response)),
        ) is None,
        call.upgrade_login(CallEvent::LoggedIn(Err(e))) is None,
        call.upgrade_login(CallEvent::Paused) is None,
        call.upgrade_login(CallEvent::Answered(Err(e))) is None,
        call.upgrade_login(CallEvent::SendFailed(e)) is None,
        call.upgrade_login(CallEvent::VersionRefreshed(Ok(()))) is None,
        call.upgrade_login(CallEvent::CookiesRefreshed(Ok(()))) is None,
{
}

/// An action is seen with its pause, or with its document, status and error.
pub proof fn call_actions_are_seen_as_they_are(
    value: Value,
    status: u16,
    secs: u64,
    e: AppError,
)
    ensures
        CallAction::Send@ == CallActionView::Send,
        CallAction::Login@ == CallActionView::Login,
        CallAction::RefreshCookies@ == CallActionView::RefreshCookies,
        CallAction::RefreshVersion@ == CallActionView::RefreshVersion,
        CallAction::Pause(secs)@ == CallActionView::Pause(secs),
        CallAction::Finish(Ok((value, status)))@ == CallActionView::Finish(
            Ok((json_view(value), status)),
        ),
        CallAction::Finish(Err(e))@ == CallActionView::Finish(Err(e@)),
{
}

/// A call of the game begins with a session for its role, unsent and never put
/// right, with its own method and path, and with the body that a POST sends.
pub proof fn game_requests_begin_fresh<S>(
    client: SekaiClient<S>,
    method: Seq<char>,
    path: Seq<char>,
    has_data: bool,
    role: Seq<char>,
    r: Result<GameRequest<S>, AppError>,
)
    requires
        is_game_request(client, method, path, has_data, role, r),
    ensures
        r is Ok <==> exists|i: int|
            0 <= i < client.pool.sessions@.len() && (#[trigger] client.pool.sessions@[i]).serves(
                role,
            ),
        r is Ok ==> {
            let request = r->Ok_0;
            &&& exists|i: int|
                0 <= i < client.pool.sessions@.len() && (
                #[trigger] client.pool.sessions@[i]).serves(role) && client.pool.sessions@[i].session
                    == request.session
            &&& request.method@ == method
            &&& request.path@ == path
            &&& request.call.retries == 0
            &&& request.call.phase is Sending
            &&& request.call.require_cookies == client.config.require_cookies
            &&& request.body is Data ==> has_data
            &&& request.body is EncryptedEmpty ==> !has_data
            &&& request.body is Absent <==> ascii_lowercase(method) != ascii_lowercase("POST"@)
        },
        r is Err ==> if client.pool.sessions@.len() == 0 {
            r->Err_0 is NoClientAvailable
        } else {
            r->Err_0 matches AppError::NoProxyAccountForRole(words) && words@ == role
        },
{
    let selected: Result<Arc<S>, AppError> = match r {
        Ok(request) => Ok(request.session),
        Err(e) => Err(e),
    };
    sessions_are_handed_out_by_role(
        client.pool.sessions@,
        client.pool.session_index as int,
        role,
        selected,
    );
}

/// To ask for a session moves the turn on and changes nothing else.
pub proof fn asking_for_a_session_moves_the_turn_alone<S>(client: SekaiClient<S>)
    ensures
        asked_for_session(client).pool.sessions == client.pool.sessions,
        asked_for_session(client).pool.session_index == next_index(client.pool),
        asked_for_session(client).region == client.region,
        asked_for_session(client).config == client.config,
        asked_for_session(client).proxy == client.proxy,
        asked_for_session(client).cookie_url == client.cookie_url,
        asked_for_session(client).headers == client.headers,
        asked_for_session(client).recovery_started == client.recovery_started,
{
}

/// A call is in order where it was put right at most four times, and less often
/// where it waits for anything but a pause before it is sent again.
pub proof fn calls_in_order_are_these(call: GameCall)
    ensures
        call.phase is Pausing || call.phase is Finished ==> call.well_formed() == (call.retries
            <= 4),
        !(call.phase is Pausing) && !(call.phase is Finished) ==> call.well_formed() == (
        call.retries < 4),
{
}

/// What each phase of a call waits for.
pub proof fn phases_wait_for_their_events(call: GameCall, event: CallEvent)
    ensures
        event is SendFailed || event is Answered ==> call.awaits(event) == (call.phase is Sending),
        event is LoggedIn ==> call.awaits(event) == (call.phase is Relogin
            || call.phase is FirstLogin || call.phase is SecondLogin),
        event is CookiesRefreshed ==> call.awaits(event) == (call.phase is CookieRefresh),
        event is VersionRefreshed ==> call.awaits(event) == (call.phase is FirstRefresh
            || call.phase is SecondRefresh),
        event is Paused ==> call.awaits(event) == (call.phase is Waiting || call.phase is Pausing),
{
}

} // verus!

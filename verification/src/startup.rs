//! Bringing a client up: its cookies, the versions of the game, its sessions.

use crate::client::SekaiClient;
use crate::error::{AppError, ErrorView};
use crate::version::{version_updates_touch_four_headers, with_version, VersionInfo};
use vstd::prelude::*;

verus! {

/// What has to be done next to bring a client up.
#[derive(Debug)]
pub enum InitAction {
    /// Fetch cookies from this address.
    FetchCookies(String),
    /// Load the versions from disk.
    LoadVersion,
    ReloadAccounts,
    /// Nothing: the client is up, or could not be brought up.
    Finish(Result<(), AppError>),
}

/// An [`InitAction`] with its words as characters.
pub enum InitActionView {
    FetchCookies(Seq<char>),
    LoadVersion,
    ReloadAccounts,
    Finish(Result<(), ErrorView>),
}

impl View for InitAction {
    type V = InitActionView;

    open spec fn view(&self) -> InitActionView {
        match self {
            InitAction::FetchCookies(url) => InitActionView::FetchCookies(url@),
            InitAction::LoadVersion => InitActionView::LoadVersion,
            InitAction::ReloadAccounts => InitActionView::ReloadAccounts,
            InitAction::Finish(result) => InitActionView::Finish(
                match result {
                    Ok(_) => Ok(()),
                    Err(e) => Err(e@),
                },
            ),
        }
    }
}

/// What came of the last action.
#[derive(Debug)]
pub enum InitEvent {
    CookiesFetched(Result<String, AppError>),
    VersionLoaded(Result<VersionInfo, AppError>),
    AccountsReloaded(Result<(), AppError>),
}

/// How it goes on after an event: each step follows the one before, and an error
/// ends it.
pub open spec fn init_goes_on(event: InitEvent) -> InitActionView {
    match event {
        InitEvent::CookiesFetched(Ok(_)) => InitActionView::LoadVersion,
        InitEvent::CookiesFetched(Err(e)) => InitActionView::Finish(Err(e@)),
        InitEvent::VersionLoaded(Ok(_)) => InitActionView::ReloadAccounts,
        InitEvent::VersionLoaded(Err(e)) => InitActionView::Finish(Err(e@)),
        InitEvent::AccountsReloaded(Ok(_)) => InitActionView::Finish(Ok(())),
        InitEvent::AccountsReloaded(Err(e)) => InitActionView::Finish(Err(e@)),
    }
}

/// The headers after an event: cookies and versions that came are put in.
pub open spec fn init_headers(
    headers: Map<Seq<char>, Seq<char>>,
    event: InitEvent,
) -> Map<Seq<char>, Seq<char>> {
    match event {
        InitEvent::CookiesFetched(Ok(cookie)) => headers.insert("Cookie"@, cookie@),
        InitEvent::VersionLoaded(Ok(version)) => with_version(headers, version),
        _ => headers,
    }
}

impl<S> SekaiClient<S> {
    /// Takes over what came of fetching cookies, where there was anywhere to
    /// fetch them.
    pub fn refresh_cookies(&mut self, fetched: Option<Result<String, AppError>>) -> (r: Result<
        (),
        AppError,
    >)
        ensures
            match fetched {
                Some(Ok(cookie)) => {
                    &&& r is Ok
                    &&& final(self).headers@ == old(self).headers@.insert("Cookie"@, cookie@)
                    &&& *final(self) == (SekaiClient { headers: final(self).headers, ..*old(self) })
                },
                Some(Err(e)) => r == Err::<(), AppError>(e) && *final(self) == *old(self),
                None => r is Ok && *final(self) == *old(self),
            },
    {
        match fetched {
            Some(Ok(cookie)) => {
                self.headers.insert("Cookie".to_owned(), cookie);
                Ok(())
            },
            Some(Err(e)) => Err(e),
            None => Ok(()),
        }
    }

    /// How bringing the client up begins: with its cookies, where it fetches
    /// any, or with the versions.
    pub fn init(&self) -> (r: InitAction)
        ensures
            r@ == match self.cookie_url {
                Some(url) => InitActionView::FetchCookies(url@),
                None => InitActionView::LoadVersion,
            },
    {
        match &self.cookie_url {
            Some(url) => InitAction::FetchCookies(url.clone()),
            None => InitAction::LoadVersion,
        }
    }

    /// How it goes on; cookies and versions that came are put into the headers.
    pub fn continue_init(&mut self, event: InitEvent) -> (r: InitAction)
        ensures
            r@ == init_goes_on(event),
            final(self).headers@ == init_headers(old(self).headers@, event),
            *final(self) == (SekaiClient { headers: final(self).headers, ..*old(self) }),
    {
        match event {
            InitEvent::CookiesFetched(fetched) => match self.refresh_cookies(Some(fetched)) {
                Ok(_) => InitAction::LoadVersion,
                Err(e) => InitAction::Finish(Err(e)),
            },
            InitEvent::VersionLoaded(loaded) => match self.refresh_version(loaded) {
                Ok(_) => InitAction::ReloadAccounts,
                Err(e) => InitAction::Finish(Err(e)),
            },
            InitEvent::AccountsReloaded(result) => InitAction::Finish(result),
        }
    }
}

/// A client that has come up sends the cookies that were fetched and the
/// versions that were loaded.
pub proof fn clients_come_up_with_cookies_and_versions(
    headers: Map<Seq<char>, Seq<char>>,
    cookie: String,
    version: VersionInfo,
)
    ensures
        ({
            let fetched = init_headers(headers, InitEvent::CookiesFetched(Ok(cookie)));
            let loaded = init_headers(fetched, InitEvent::VersionLoaded(Ok(version)));
            &&& loaded.contains_key("Cookie"@) && loaded["Cookie"@] == cookie@
            &&& loaded["X-App-Version"@] == version.app_version@
            &&& loaded["X-Data-Version"@] == version.data_version@
            &&& loaded["X-Asset-Version"@] == version.asset_version@
            &&& loaded["X-App-Hash"@] == version.app_hash@
        }),
{
    let fetched = init_headers(headers, InitEvent::CookiesFetched(Ok(cookie)));
    version_updates_touch_four_headers(fetched, version, "Cookie"@);
    reveal_strlit("Cookie");
    reveal_strlit("X-App-Version");
    reveal_strlit("X-Data-Version");
    reveal_strlit("X-Asset-Version");
    reveal_strlit("X-App-Hash");
    assert("Cookie"@.len() == 6 && "X-App-Version"@.len() == 13 && "X-Data-Version"@.len() == 14
        && "X-Asset-Version"@.len() == 15 && "X-App-Hash"@.len() == 10);
}

// ---------------------------------------------------------------------------
// Laws
// ---------------------------------------------------------------------------

/// A client comes up step by step, cookies first, then versions, then accounts;
/// the first step that fails ends it with its error.
pub proof fn start_up_goes_step_by_step(cookie: String, version: VersionInfo, e: AppError)
    ensures
        init_goes_on(InitEvent::CookiesFetched(Ok(cookie))) is LoadVersion,
        init_goes_on(InitEvent::VersionLoaded(Ok(version))) is ReloadAccounts,
        init_goes_on(InitEvent::AccountsReloaded(Ok(()))) == InitActionView::Finish(Ok(())),
        init_goes_on(InitEvent::CookiesFetched(Err(e))) == InitActionView::Finish(Err(e@)),
        init_goes_on(InitEvent::VersionLoaded(Err(e))) == InitActionView::Finish(Err(e@)),
        init_goes_on(InitEvent::AccountsReloaded(Err(e))) == InitActionView::Finish(Err(e@)),
{
}

/// A step that fails, and the reload of the accounts, leave the headers as they
/// are; cookies that came touch no other header.
pub proof fn failed_steps_leave_the_headers(
    headers: Map<Seq<char>, Seq<char>>,
    cookie: String,
    name: Seq<char>,
    e: AppError,
)
    ensures
        init_headers(headers, InitEvent::CookiesFetched(Err(e))) == headers,
        init_headers(headers, InitEvent::VersionLoaded(Err(e))) == headers,
        init_headers(headers, InitEvent::AccountsReloaded(Err(e))) == headers,
        init_headers(headers, InitEvent::AccountsReloaded(Ok(()))) == headers,
        name != "Cookie"@ ==> {
            let after = init_headers(headers, InitEvent::CookiesFetched(Ok(cookie)));
            &&& after.contains_key(name) == headers.contains_key(name)
            &&& after[name] == headers[name]
        },
{
}

/// An action is seen with its address or its result.
pub proof fn init_actions_are_seen_as_they_are(url: String, e: AppError)
    ensures
        InitAction::FetchCookies(url)@ == InitActionView::FetchCookies(url@),
        InitAction::LoadVersion@ == InitActionView::LoadVersion,
        InitAction::ReloadAccounts@ == InitActionView::ReloadAccounts,
        InitAction::Finish(Ok(()))@ == InitActionView::Finish(Ok(())),
        InitAction::Finish(Err(e))@ == InitActionView::Finish(Err(e@)),
{
}

} // verus!

//! The versions of the game that requests carry, and how they are refreshed.

use crate::client::SekaiClient;
use crate::config::ServerRegion;
use crate::error::{AppError, ErrorView};
use crate::login::LoginResponse;
use vstd::prelude::*;
use vstd::string::*;

verus! {

/// The versions of the game.
#[derive(Debug, Clone)]
pub struct VersionInfo {
    pub app_version: String,
    pub data_version: String,
    pub asset_version: String,
    pub app_hash: String,
}

/// The headers with the versions of the game put in.
pub open spec fn with_version(
    headers: Map<Seq<char>, Seq<char>>,
    version: VersionInfo,
) -> Map<Seq<char>, Seq<char>> {
    headers.insert("X-App-Version"@, version.app_version@).insert(
        "X-Data-Version"@,
        version.data_version@,
    ).insert("X-Asset-Version"@, version.asset_version@).insert("X-App-Hash"@, version.app_hash@)
}

/// The headers with a value put in, where there is one.
pub open spec fn with_given(
    headers: Map<Seq<char>, Seq<char>>,
    name: Seq<char>,
    value: Seq<char>,
) -> Map<Seq<char>, Seq<char>> {
    if value.len() > 0 {
        headers.insert(name, value)
    } else {
        headers
    }
}

/// The headers with the versions put in that a login response brings.
pub open spec fn with_login_version(
    headers: Map<Seq<char>, Seq<char>>,
    response: LoginResponse,
) -> Map<Seq<char>, Seq<char>> {
    with_given(
        with_given(headers, "X-Data-Version"@, response.data_version@),
        "X-Asset-Version"@,
        response.asset_version@,
    )
}

/// Where the versions of a region are published.
pub open spec fn published_versions(region: ServerRegion) -> Seq<char> {
    match region {
        ServerRegion::Jp =>
            "https://raw.githubusercontent.com/Team-Haruki/haruki-sekai-master/main/versions/current_version.json"@,
        ServerRegion::En =>
            "https://raw.githubusercontent.com/Team-Haruki/haruki-sekai-en-master/main/versions/current_version.json"@,
        ServerRegion::Tw =>
            "https://raw.githubusercontent.com/Team-Haruki/haruki-sekai-tc-master/main/versions/current_version.json"@,
        ServerRegion::Kr =>
            "https://raw.githubusercontent.com/Team-Haruki/haruki-sekai-kr-master/main/versions/current_version.json"@,
        ServerRegion::Cn =>
            "https://raw.githubusercontent.com/Team-Haruki/haruki-sekai-sc-master/main/versions/current_version.json"@,
    }
}

/// Where the versions of a region are published.
pub fn default_remote_version_url(region: ServerRegion) -> (r: &'static str)
    ensures
        r@ == published_versions(region),
{
    match region {
        ServerRegion::Jp =>
            "https://raw.githubusercontent.com/Team-Haruki/haruki-sekai-master/main/versions/current_version.json",
        ServerRegion::En =>
            "https://raw.githubusercontent.com/Team-Haruki/haruki-sekai-en-master/main/versions/current_version.json",
        ServerRegion::Tw =>
            "https://raw.githubusercontent.com/Team-Haruki/haruki-sekai-tc-master/main/versions/current_version.json",
        ServerRegion::Kr =>
            "https://raw.githubusercontent.com/Team-Haruki/haruki-sekai-kr-master/main/versions/current_version.json",
        ServerRegion::Cn =>
            "https://raw.githubusercontent.com/Team-Haruki/haruki-sekai-sc-master/main/versions/current_version.json",
    }
}

/// What has to be done next to refresh the versions.
#[derive(Debug)]
pub enum RefreshAction {
    /// Fetch them from this address, and keep them on disk.
    Fetch(String),
    /// Load them from disk.
    LoadLocal,
    /// Nothing: the refresh has come to this end.
    Finish(Result<(), AppError>),
}

/// A [`RefreshAction`] with its words as characters.
pub enum RefreshActionView {
    Fetch(Seq<char>),
    LoadLocal,
    Finish(Result<(), ErrorView>),
}

impl View for RefreshAction {
    type V = RefreshActionView;

    open spec fn view(&self) -> RefreshActionView {
        match self {
            RefreshAction::Fetch(url) => RefreshActionView::Fetch(url@),
            RefreshAction::LoadLocal => RefreshActionView::LoadLocal,
            RefreshAction::Finish(result) => RefreshActionView::Finish(
                match result {
                    Ok(_) => Ok(()),
                    Err(e) => Err(e@),
                },
            ),
        }
    }
}

/// What came of the last action.
#[derive(Debug)]
pub enum RefreshEvent {
    /// The versions were fetched, or could not be.
    Fetched(Result<VersionInfo, AppError>),
    /// The versions were loaded, or could not be.
    Loaded(Result<VersionInfo, AppError>),
}

/// The versions that an event brings.
pub open spec fn brought_version(event: RefreshEvent) -> Option<VersionInfo> {
    match event {
        RefreshEvent::Fetched(Ok(version)) => Some(version),
        RefreshEvent::Loaded(Ok(version)) => Some(version),
        _ => None,
    }
}

/// How a refresh goes on after an event: versions that came end it; what cannot
/// be fetched is loaded; what cannot be loaded fails.
pub open spec fn refresh_goes_on(event: RefreshEvent) -> RefreshActionView {
    match event {
        RefreshEvent::Fetched(Ok(_)) => RefreshActionView::Finish(Ok(())),
        RefreshEvent::Fetched(Err(_)) => RefreshActionView::LoadLocal,
        RefreshEvent::Loaded(Ok(_)) => RefreshActionView::Finish(Ok(())),
        RefreshEvent::Loaded(Err(e)) => RefreshActionView::Finish(Err(e@)),
    }
}

impl<S> SekaiClient<S> {
    /// Puts the versions of the game into the headers.
    pub fn update_version_headers(&mut self, version: &VersionInfo)
        ensures
            final(self).headers@ == with_version(old(self).headers@, *version),
            *final(self) == (SekaiClient { headers: final(self).headers, ..*old(self) }),
    {
        self.headers.insert("X-App-Version".to_owned(), version.app_version.clone());
        self.headers.insert("X-Data-Version".to_owned(), version.data_version.clone());
        self.headers.insert("X-Asset-Version".to_owned(), version.asset_version.clone());
        self.headers.insert("X-App-Hash".to_owned(), version.app_hash.clone());
    }

    /// Puts the versions into the headers that a login response brings.
    pub fn update_version_headers_from_login(&mut self, response: &LoginResponse)
        ensures
            final(self).headers@ == with_login_version(old(self).headers@, *response),
            *final(self) == (SekaiClient { headers: final(self).headers, ..*old(self) }),
    {
        if !response.data_version.as_str().is_empty() {
            self.headers.insert("X-Data-Version".to_owned(), response.data_version.clone());
        }
        if !response.asset_version.as_str().is_empty() {
            self.headers.insert("X-Asset-Version".to_owned(), response.asset_version.clone());
        }
    }

    /// Takes over the versions that were loaded from disk, where they could be.
    pub fn refresh_version(&mut self, loaded: Result<VersionInfo, AppError>) -> (r: Result<
        (),
        AppError,
    >)
        ensures
            match loaded {
                Ok(version) => {
                    &&& r is Ok
                    &&& final(self).headers@ == with_version(old(self).headers@, version)
                    &&& *final(self) == (SekaiClient { headers: final(self).headers, ..*old(self) })
                },
                Err(e) => r == Err::<(), AppError>(e) && *final(self) == *old(self),
            },
    {
        match loaded {
            Ok(version) => {
                self.update_version_headers(&version);
                Ok(())
            },
            Err(e) => Err(e),
        }
    }

    /// Where the versions are fetched: at the configured address, or where they
    /// are published.
    pub open spec fn version_address(self) -> Seq<char> {
        if self.config.remote_version_url@.len() > 0 {
            self.config.remote_version_url@
        } else {
            published_versions(self.region)
        }
    }

    /// How a refresh of the versions begins: with fetching them, or with loading
    /// them where there is no address.
    pub fn refresh_version_from_remote(&self) -> (r: RefreshAction)
        ensures
            r@ == if self.version_address().len() == 0 {
                RefreshActionView::LoadLocal
            } else {
                RefreshActionView::Fetch(self.version_address())
            },
    {
        let url = if !self.config.remote_version_url.as_str().is_empty() {
            self.config.remote_version_url.clone()
        } else {
            default_remote_version_url(self.region).to_owned()
        };
        if url.as_str().is_empty() {
            RefreshAction::LoadLocal
        } else {
            RefreshAction::Fetch(url)
        }
    }

    /// How a refresh goes on; versions that came are put into the headers.
    pub fn continue_refresh(&mut self, event: RefreshEvent) -> (r: RefreshAction)
        ensures
            r@ == refresh_goes_on(event),
            final(self).headers@ == match brought_version(event) {
                Some(version) => with_version(old(self).headers@, version),
                None => old(self).headers@,
            },
            *final(self) == (SekaiClient { headers: final(self).headers, ..*old(self) }),
    {
        match event {
            RefreshEvent::Fetched(Ok(version)) => {
                self.update_version_headers(&version);
                RefreshAction::Finish(Ok(()))
            },
            RefreshEvent::Fetched(Err(_)) => RefreshAction::LoadLocal,
            RefreshEvent::Loaded(loaded) => RefreshAction::Finish(self.refresh_version(loaded)),
        }
    }
}

// ---------------------------------------------------------------------------
// Laws
// ---------------------------------------------------------------------------

/// The names of the version headers differ.
proof fn lemma_version_names_differ()
    ensures
        "X-App-Version"@ != "X-Data-Version"@,
        "X-App-Version"@ != "X-Asset-Version"@,
        "X-App-Version"@ != "X-App-Hash"@,
        "X-Data-Version"@ != "X-Asset-Version"@,
        "X-Data-Version"@ != "X-App-Hash"@,
        "X-Asset-Version"@ != "X-App-Hash"@,
{
    reveal_strlit("X-App-Version");
    reveal_strlit("X-Data-Version");
    reveal_strlit("X-Asset-Version");
    reveal_strlit("X-App-Hash");
    assert("X-App-Version"@.len() == 13 && "X-Data-Version"@.len() == 14
        && "X-Asset-Version"@.len() == 15 && "X-App-Hash"@.len() == 10);
}

/// After an update the headers carry all four versions, and every other header
/// is as it was.
pub proof fn version_updates_touch_four_headers(
    headers: Map<Seq<char>, Seq<char>>,
    version: VersionInfo,
    name: Seq<char>,
)
    ensures
        with_version(headers, version)["X-App-Version"@] == version.app_version@,
        with_version(headers, version)["X-Data-Version"@] == version.data_version@,
        with_version(headers, version)["X-Asset-Version"@] == version.asset_version@,
        with_version(headers, version)["X-App-Hash"@] == version.app_hash@,
        name != "X-App-Version"@ && name != "X-Data-Version"@ && name != "X-Asset-Version"@ && name
            != "X-App-Hash"@ ==> {
            &&& with_version(headers, version).contains_key(name) == headers.contains_key(name)
            &&& headers.contains_key(name) ==> with_version(headers, version)[name]
                == headers[name]
        },
{
    lemma_version_names_differ();
}

/// A login response updates the data and asset versions that it brings, and
/// every other header, the app's version and hash among them, is as it was.
pub proof fn logins_keep_the_app_version(
    headers: Map<Seq<char>, Seq<char>>,
    response: LoginResponse,
    name: Seq<char>,
)
    ensures
        response.data_version@.len() > 0 ==> with_login_version(
            headers,
            response,
        )["X-Data-Version"@] == response.data_version@,
        response.asset_version@.len() > 0 ==> with_login_version(
            headers,
            response,
        )["X-Asset-Version"@] == response.asset_version@,
        name != "X-Data-Version"@ && name != "X-Asset-Version"@ ==> {
            &&& with_login_version(headers, response).contains_key(name) == headers.contains_key(
                name,
            )
            &&& headers.contains_key(name) ==> with_login_version(headers, response)[name]
                == headers[name]
        },
        "X-App-Version"@ != "X-Data-Version"@ && "X-App-Version"@ != "X-Asset-Version"@,
        "X-App-Hash"@ != "X-Data-Version"@ && "X-App-Hash"@ != "X-Asset-Version"@,
{
    lemma_version_names_differ();
}

/// A version that a login leaves out stays as it was in the headers.
pub proof fn logins_leave_what_they_do_not_bring(
    headers: Map<Seq<char>, Seq<char>>,
    response: LoginResponse,
)
    ensures
        response.data_version@.len() == 0 ==> {
            &&& with_login_version(headers, response).contains_key("X-Data-Version"@)
                == headers.contains_key("X-Data-Version"@)
            &&& with_login_version(headers, response)["X-Data-Version"@]
                == headers["X-Data-Version"@]
        },
        response.asset_version@.len() == 0 ==> {
            &&& with_login_version(headers, response).contains_key("X-Asset-Version"@)
                == headers.contains_key("X-Asset-Version"@)
            &&& with_login_version(headers, response)["X-Asset-Version"@]
                == headers["X-Asset-Version"@]
        },
        response.data_version@.len() > 0 ==> with_login_version(headers, response).contains_key(
            "X-Data-Version"@,
        ),
        response.asset_version@.len() > 0 ==> with_login_version(headers, response).contains_key(
            "X-Asset-Version"@,
        ),
{
    lemma_version_names_differ();
}

/// After an update none of the four versions is missing in the headers.
pub proof fn version_updates_leave_none_out(
    headers: Map<Seq<char>, Seq<char>>,
    version: VersionInfo,
)
    ensures
        with_version(headers, version).contains_key("X-App-Version"@),
        with_version(headers, version).contains_key("X-Data-Version"@),
        with_version(headers, version).contains_key("X-Asset-Version"@),
        with_version(headers, version).contains_key("X-App-Hash"@),
{
}

/// The versions of each region are published in a repository of its own.
pub proof fn versions_are_published_for_each_region()
    ensures
        published_versions(ServerRegion::Jp)
            == "https://raw.githubusercontent.com/Team-Haruki/haruki-sekai-master/main/versions/current_version.json"@,
        published_versions(ServerRegion::En)
            == "https://raw.githubusercontent.com/Team-Haruki/haruki-sekai-en-master/main/versions/current_version.json"@,
        published_versions(ServerRegion::Tw)
            == "https://raw.githubusercontent.com/Team-Haruki/haruki-sekai-tc-master/main/versions/current_version.json"@,
        published_versions(ServerRegion::Kr)
            == "https://raw.githubusercontent.com/Team-Haruki/haruki-sekai-kr-master/main/versions/current_version.json"@,
        published_versions(ServerRegion::Cn)
            == "https://raw.githubusercontent.com/Team-Haruki/haruki-sekai-sc-master/main/versions/current_version.json"@,
{
}

/// The versions are fetched where the configuration says, and where it says
/// nothing where they are published.
pub proof fn configured_addresses_come_first<S>(client: SekaiClient<S>)
    ensures
        client.config.remote_version_url@.len() > 0 ==> client.version_address()
            == client.config.remote_version_url@,
        client.config.remote_version_url@.len() == 0 ==> client.version_address()
            == published_versions(client.region),
{
}

/// A refresh succeeds with the first versions that come, and those are taken
/// over. Where fetching fails the versions on disk are loaded, and only where
/// those cannot be loaded does the refresh fail, with that error.
pub proof fn refreshes_fall_back_to_the_disk(version: VersionInfo, e: AppError)
    ensures
        refresh_goes_on(RefreshEvent::Fetched(Ok(version))) == RefreshActionView::Finish(Ok(())),
        refresh_goes_on(RefreshEvent::Loaded(Ok(version))) == RefreshActionView::Finish(Ok(())),
        refresh_goes_on(RefreshEvent::Fetched(Err(e))) is LoadLocal,
        refresh_goes_on(RefreshEvent::Loaded(Err(e))) == RefreshActionView::Finish(Err(e@)),
        brought_version(RefreshEvent::Fetched(Ok(version))) == Some(version),
        brought_version(RefreshEvent::Loaded(Ok(version))) == Some(version),
        brought_version(RefreshEvent::Fetched(Err(e))) is None,
        brought_version(RefreshEvent::Loaded(Err(e))) is None,
{
}

/// An action is seen with its address or its result.
pub proof fn refresh_actions_are_seen_as_they_are(url: String, e: AppError)
    ensures
        RefreshAction::Fetch(url)@ == RefreshActionView::Fetch(url@),
        RefreshAction::LoadLocal@ == RefreshActionView::LoadLocal,
        RefreshAction::Finish(Ok(()))@ == RefreshActionView::Finish(Ok(())),
        RefreshAction::Finish(Err(e))@ == RefreshActionView::Finish(Err(e@)),
{
}

} // verus!

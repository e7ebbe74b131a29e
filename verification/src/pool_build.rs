//! Building a pool of sessions: the accounts log in one after the other, and
//! where the game server wants newer versions they are refreshed on the way.

use crate::account::{AccountType, SekaiAccount};
use crate::client::SekaiClient;
use crate::config::{is_cp_region, ServerRegion};
use crate::error::AppError;
use crate::game_call::UPGRADE_PAUSE_SECS;
use crate::login::LoginResponse;
use crate::session::{share, PooledSession};
use crate::text::texts;
use crate::version::with_login_version;
use std::sync::Arc;
use vstd::prelude::*;

verus! {

/// What the account whose turn it is waits for.
#[derive(Debug, Clone, Copy, PartialEq, Eq, Structural)]
pub enum BuildPhase {
    /// Its login.
    FirstLogin,
    /// The current versions, since the game server wants newer ones.
    FirstRefresh,
    /// A login with those versions.
    SecondLogin,
    /// The end of the time that a new version is waited for.
    Waiting,
    /// The versions after that time.
    SecondRefresh,
    /// A login with those versions.
    LastLogin,
    /// There is no account left.
    Finished,
}

/// How far the building of a pool has got.
#[derive(Debug)]
pub struct PoolBuild {
    /// The accounts that log in.
    pub accounts: Vec<AccountType>,
    /// The positions of those whose sessions go into the pool.
    pub kept: Vec<usize>,
    /// The position of the account whose turn it is.
    pub index: usize,
    /// The versions were refreshed for one of the accounts.
    pub upgrade_refreshed: bool,
    pub phase: BuildPhase,
}

/// What a [`PoolBuild`] holds beside the accounts.
pub struct BuildView {
    pub kept: Seq<usize>,
    pub index: usize,
    pub upgrade_refreshed: bool,
    pub phase: BuildPhase,
}

impl View for PoolBuild {
    type V = BuildView;

    open spec fn view(&self) -> BuildView {
        BuildView {
            kept: self.kept@,
            index: self.index,
            upgrade_refreshed: self.upgrade_refreshed,
            phase: self.phase,
        }
    }
}

/// What has come.
#[derive(Debug)]
pub enum BuildEvent {
    /// The login has come to an end.
    LoggedIn(Result<LoginResponse, AppError>),
    /// The refresh of the versions has come to an end.
    VersionRefreshed(Result<(), AppError>),
    /// The pause is over.
    Paused,
}

/// What has to be done next.
#[derive(Debug, Clone, Copy, PartialEq, Eq, Structural)]
pub enum BuildAction {
    /// Log in the account at this position.
    Login(usize),
    RefreshVersion,
    /// Wait for so many seconds.
    Pause(u64),
    /// Nothing: the sessions of the kept accounts make the pool.
    Finish,
}

/// The account can log in: in a CP region it needs its user's number for that.
pub open spec fn can_log_in(region: ServerRegion, account: AccountType) -> bool {
    !is_cp_region(region) || account.details().user_id.len() > 0
}

/// The position of the first account from `from` on that can log in; past the
/// last one where there is none.
pub open spec fn next_candidate(
    region: ServerRegion,
    accounts: Seq<AccountType>,
    from: int,
) -> int
    decreases accounts.len() - from,
{
    if from < 0 || from >= accounts.len() || can_log_in(region, accounts[from]) {
        from
    } else {
        next_candidate(region, accounts, from + 1)
    }
}

impl BuildView {
    /// This is what is waited for.
    pub open spec fn awaits(self, event: BuildEvent) -> bool {
        match self.phase {
            BuildPhase::FirstLogin => event is LoggedIn,
            BuildPhase::FirstRefresh => event is VersionRefreshed,
            BuildPhase::SecondLogin => event is LoggedIn,
            BuildPhase::Waiting => event is Paused,
            BuildPhase::SecondRefresh => event is VersionRefreshed,
            BuildPhase::LastLogin => event is LoggedIn,
            BuildPhase::Finished => false,
        }
    }

    /// The account whose turn it is in another phase.
    pub open spec fn at(self, phase: BuildPhase) -> BuildView {
        BuildView { phase, ..self }
    }

    /// The turn goes to the first account from `from` on that can log in.
    pub open spec fn turn_to(
        self,
        region: ServerRegion,
        accounts: Seq<AccountType>,
        from: int,
    ) -> (BuildView, BuildAction) {
        let index = next_candidate(region, accounts, from) as usize;
        if index < accounts.len() {
            (
                BuildView { index, phase: BuildPhase::FirstLogin, ..self },
                BuildAction::Login(index),
            )
        } else {
            (BuildView { index, phase: BuildPhase::Finished, ..self }, BuildAction::Finish)
        }
    }

    /// The account whose turn it is is given up.
    pub open spec fn give_up(self, region: ServerRegion, accounts: Seq<AccountType>) -> (
        BuildView,
        BuildAction,
    ) {
        self.turn_to(region, accounts, self.index + 1)
    }

    /// The session of the account whose turn it is is kept.
    pub open spec fn keep(self, region: ServerRegion, accounts: Seq<AccountType>) -> (
        BuildView,
        BuildAction,
    ) {
        BuildView { kept: self.kept.push(self.index), ..self }.turn_to(
            region,
            accounts,
            self.index + 1,
        )
    }

    /// What an awaited event leads to.
    pub open spec fn after(
        self,
        region: ServerRegion,
        accounts: Seq<AccountType>,
        event: BuildEvent,
    ) -> (BuildView, BuildAction) {
        match event {
            BuildEvent::LoggedIn(Ok(_)) => self.keep(region, accounts),
            BuildEvent::LoggedIn(Err(e)) => if self.phase is FirstLogin && e is UpgradeRequired
                && !self.upgrade_refreshed {
                (
                    BuildView { upgrade_refreshed: true, ..self.at(BuildPhase::FirstRefresh) },
                    BuildAction::RefreshVersion,
                )
            } else if self.phase is SecondLogin && e is UpgradeRequired {
                (self.at(BuildPhase::Waiting), BuildAction::Pause(UPGRADE_PAUSE_SECS))
            } else {
                self.give_up(region, accounts)
            },
            BuildEvent::VersionRefreshed(Ok(_)) => (
                self.at(
                    if self.phase is FirstRefresh {
                        BuildPhase::SecondLogin
                    } else {
                        BuildPhase::LastLogin
                    },
                ),
                BuildAction::Login(self.index),
            ),
            BuildEvent::VersionRefreshed(Err(_)) => self.give_up(region, accounts),
            BuildEvent::Paused => (
                self.at(BuildPhase::SecondRefresh),
                BuildAction::RefreshVersion,
            ),
        }
    }

    /// The response whose versions are taken over: that of a login which
    /// followed a refresh of the versions.
    pub open spec fn upgrade_login(self, event: BuildEvent) -> Option<LoginResponse> {
        match event {
            BuildEvent::LoggedIn(Ok(response)) => if self.phase is FirstLogin {
                None
            } else {
                Some(response)
            },
            _ => None,
        }
    }

    /// The building of a pool before anything has come.
    pub open spec fn fresh() -> BuildView {
        BuildView {
            kept: Seq::empty(),
            index: 0,
            upgrade_refreshed: false,
            phase: BuildPhase::Finished,
        }
    }

    /// How the building of a pool begins.
    pub open spec fn begin(region: ServerRegion, accounts: Seq<AccountType>) -> (
        BuildView,
        BuildAction,
    ) {
        BuildView::fresh().turn_to(region, accounts, 0)
    }

    /// The kept accounts stand in their order before the one whose turn it is,
    /// and all of them can log in.
    pub open spec fn well_formed(self, region: ServerRegion, accounts: Seq<AccountType>) -> bool {
        &&& self.index <= accounts.len()
        &&& !(self.phase is Finished) ==> self.index < accounts.len() && can_log_in(
            region,
            accounts[self.index as int],
        )
        &&& forall|k: int|
            0 <= k < self.kept.len() ==> (#[trigger] self.kept[k]) < self.index && can_log_in(
                region,
                accounts[self.kept[k] as int],
            )
        &&& forall|j: int, k: int|
            0 <= j < k < self.kept.len() ==> (#[trigger] self.kept[j]) < (#[trigger] self.kept[k])
        &&& !(self.phase is FirstLogin) && !(self.phase is Finished) ==> self.upgrade_refreshed
    }
}

/// The next candidate is one, and none before it is.
proof fn lemma_next_candidate(region: ServerRegion, accounts: Seq<AccountType>, from: int)
    requires
        0 <= from <= accounts.len(),
    ensures
        from <= next_candidate(region, accounts, from) <= accounts.len(),
        next_candidate(region, accounts, from) < accounts.len() ==> can_log_in(
            region,
            accounts[next_candidate(region, accounts, from)],
        ),
        forall|i: int|
            from <= i < next_candidate(region, accounts, from) ==> !can_log_in(
                region,
                #[trigger] accounts[i],
            ),
    decreases accounts.len() - from,
{
    if from < accounts.len() && !can_log_in(region, accounts[from]) {
        lemma_next_candidate(region, accounts, from + 1);
    }
}

/// Whether an account can log in.
fn may_log_in(region: ServerRegion, account: &AccountType) -> (r: bool)
    ensures
        r == can_log_in(region, *account),
{
    !region.is_cp_server() || !account.user_id().is_empty()
}

/// The position of the first account from `from` on that can log in.
fn find_candidate(region: ServerRegion, accounts: &Vec<AccountType>, from: usize) -> (r: usize)
    requires
        from <= accounts@.len(),
    ensures
        r == next_candidate(region, accounts@, from as int),
        r <= accounts@.len(),
{
    let mut i: usize = from;
    while i < accounts.len() && !may_log_in(region, &accounts[i])
        invariant
            i <= accounts@.len(),
            next_candidate(region, accounts@, i as int) == next_candidate(
                region,
                accounts@,
                from as int,
            ),
        decreases accounts@.len() - i,
    {
        i += 1;
    }
    i
}

impl PoolBuild {
    /// Whether this is what is waited for.
    pub fn is_awaited(&self, event: &BuildEvent) -> (r: bool)
        ensures
            r == self@.awaits(*event),
    {
        match (self.phase, event) {
            (BuildPhase::FirstLogin, BuildEvent::LoggedIn(_)) => true,
            (BuildPhase::FirstRefresh, BuildEvent::VersionRefreshed(_)) => true,
            (BuildPhase::SecondLogin, BuildEvent::LoggedIn(_)) => true,
            (BuildPhase::Waiting, BuildEvent::Paused) => true,
            (BuildPhase::SecondRefresh, BuildEvent::VersionRefreshed(_)) => true,
            (BuildPhase::LastLogin, BuildEvent::LoggedIn(_)) => true,
            _ => false,
        }
    }

    /// Whether the kept accounts stand in their order before the one whose turn it
    /// is, and all of them can log in.
    pub fn is_well_formed(&self, region: ServerRegion) -> (r: bool)
        ensures
            r == self@.well_formed(region, self.accounts@),
    {
        let count: usize = self.accounts.len();
        if self.index > count {
            return false;
        }
        if self.phase != BuildPhase::Finished && (self.index == count || !may_log_in(
            region,
            &self.accounts[self.index],
        )) {
            return false;
        }
        if self.phase != BuildPhase::FirstLogin && self.phase != BuildPhase::Finished
            && !self.upgrade_refreshed {
            return false;
        }
        let mut i: usize = 0;
        while i < self.kept.len()
            invariant
                i <= self.kept@.len(),
                count == self.accounts@.len(),
                self.index <= count,
                forall|k: int|
                    0 <= k < i ==> (#[trigger] self.kept@[k]) < self.index && can_log_in(
                        region,
                        self.accounts@[self.kept@[k] as int],
                    ),
                forall|j: int, k: int|
                    0 <= j < k < i ==> (#[trigger] self.kept@[j]) < (#[trigger] self.kept@[k]),
            decreases self.kept@.len() - i,
        {
            let position: usize = self.kept[i];
            proof {
                assert(self@.kept[i as int] == position);
            }
            if position >= self.index || !may_log_in(region, &self.accounts[position]) {
                return false;
            }
            if i > 0 && self.kept[i - 1] >= position {
                proof {
                    assert(self@.kept[i - 1] >= self@.kept[i as int]);
                }
                return false;
            }
            i += 1;
        }
        true
    }

    /// Gives the turn to the first account from `from` on that can log in.
    fn advance(&mut self, region: ServerRegion, from: usize) -> (r: BuildAction)
        requires
            from <= old(self).accounts@.len(),
        ensures
            (final(self)@, r) == old(self)@.turn_to(region, old(self).accounts@, from as int),
            final(self).accounts == old(self).accounts,
    {
        self.index = find_candidate(region, &self.accounts, from);
        if self.index < self.accounts.len() {
            self.phase = BuildPhase::FirstLogin;
            BuildAction::Login(self.index)
        } else {
            self.phase = BuildPhase::Finished;
            BuildAction::Finish
        }
    }
}

/// The sessions of the kept accounts, in their order, each with the roles of its
/// account.
pub fn kept_sessions<S>(build: &PoolBuild, sessions: &Vec<Arc<S>>) -> (r: Vec<PooledSession<S>>)
    requires
        sessions@.len() == build.accounts@.len(),
        forall|k: int|
            0 <= k < build.kept@.len() ==> (#[trigger] build.kept@[k]) < build.accounts@.len(),
    ensures
        r@.len() == build.kept@.len(),
        forall|k: int|
            0 <= k < r@.len() ==> {
                &&& (#[trigger] r@[k]).session == sessions@[build.kept@[k] as int]
                &&& texts(r@[k].proxy_roles@)
                    == build.accounts@[build.kept@[k] as int].details().proxy_roles
            },
{
    let mut pool: Vec<PooledSession<S>> = Vec::new();
    let mut i: usize = 0;
    while i < build.kept.len()
        invariant
            i <= build.kept@.len(),
            sessions@.len() == build.accounts@.len(),
            forall|k: int|
                0 <= k < build.kept@.len() ==> (#[trigger] build.kept@[k]) < build.accounts@.len(),
            pool@.len() == i,
            forall|k: int|
                0 <= k < i ==> {
                    &&& (#[trigger] pool@[k]).session == sessions@[build.kept@[k] as int]
                    &&& texts(pool@[k].proxy_roles@)
                        == build.accounts@[build.kept@[k] as int].details().proxy_roles
                },
        decreases build.kept@.len() - i,
    {
        let index: usize = build.kept[i];
        pool.push(PooledSession::new(&build.accounts[index], share(&sessions[index])));
        i += 1;
    }
    pool
}

impl<S> SekaiClient<S> {
    /// How the building of a pool from accounts begins.
    pub fn build_session_pool(&self, accounts: Vec<AccountType>) -> (r: (PoolBuild, BuildAction))
        ensures
            (r.0@, r.1) == BuildView::begin(self.region, accounts@),
            r.0.accounts == accounts,
            r.0@.well_formed(self.region, accounts@),
    {
        let mut build = PoolBuild {
            accounts,
            kept: Vec::new(),
            index: 0,
            upgrade_refreshed: false,
            phase: BuildPhase::Finished,
        };
        proof {
            assert(build@ == BuildView::fresh());
            assert(accounts@.len() == accounts.len());
            lemma_next_candidate(self.region, accounts@, 0);
        }
        let action = build.advance(self.region, 0);
        (build, action)
    }

    /// Takes the building of a pool further: what the awaited event leads to,
    /// and what has to be done next. The versions that a login after a refresh
    /// brings are put into the headers.
    pub fn continue_build(&mut self, build: PoolBuild, event: BuildEvent) -> (r: (
        PoolBuild,
        BuildAction,
    ))
        requires
            build@.well_formed(old(self).region, build.accounts@),
            build@.awaits(event),
        ensures
            (r.0@, r.1) == build@.after(old(self).region, build.accounts@, event),
            r.0.accounts == build.accounts,
            r.0@.well_formed(old(self).region, build.accounts@),
            final(self).headers@ == match build@.upgrade_login(event) {
                Some(response) => with_login_version(old(self).headers@, response),
                None => old(self).headers@,
            },
            *final(self) == (SekaiClient { headers: final(self).headers, ..*old(self) }),
    {
        let mut build = build;
        proof {
            assert(build.accounts@.len() == build.accounts.len());
            lemma_build_step(self.region, build.accounts@, build@, event);
        }
        let action = match event {
            BuildEvent::LoggedIn(Ok(response)) => {
                if build.phase != BuildPhase::FirstLogin {
                    self.update_version_headers_from_login(&response);
                }
                let index: usize = build.index;
                build.kept.push(index);
                build.advance(self.region, index + 1)
            },
            BuildEvent::LoggedIn(Err(e)) => if build.phase == BuildPhase::FirstLogin && matches!(
                e,
                AppError::UpgradeRequired
            ) && !build.upgrade_refreshed {
                build.upgrade_refreshed = true;
                build.phase = BuildPhase::FirstRefresh;
                BuildAction::RefreshVersion
            } else if build.phase == BuildPhase::SecondLogin && matches!(
                e,
                AppError::UpgradeRequired
            ) {
                build.phase = BuildPhase::Waiting;
                BuildAction::Pause(UPGRADE_PAUSE_SECS)
            } else {
                let index: usize = build.index;
                build.advance(self.region, index + 1)
            },
            BuildEvent::VersionRefreshed(Ok(_)) => {
                build.phase = if build.phase == BuildPhase::FirstRefresh {
                    BuildPhase::SecondLogin
                } else {
                    BuildPhase::LastLogin
                };
                BuildAction::Login(build.index)
            },
            BuildEvent::VersionRefreshed(Err(_)) => {
                let index: usize = build.index;
                build.advance(self.region, index + 1)
            },
            BuildEvent::Paused => {
                build.phase = BuildPhase::SecondRefresh;
                BuildAction::RefreshVersion
            },
        };
        (build, action)
    }
}

// ---------------------------------------------------------------------------
// Laws
// ---------------------------------------------------------------------------

/// Each of the events is what is waited for when it comes.
pub open spec fn is_build_course(
    region: ServerRegion,
    accounts: Seq<AccountType>,
    build: BuildView,
    events: Seq<BuildEvent>,
) -> bool
    decreases events.len(),
{
    events.len() == 0 || (build.awaits(events[0]) && is_build_course(
        region,
        accounts,
        build.after(region, accounts, events[0]).0,
        events.drop_first(),
    ))
}

/// How far the building has got after the events.
pub open spec fn after_build_course(
    region: ServerRegion,
    accounts: Seq<AccountType>,
    build: BuildView,
    events: Seq<BuildEvent>,
) -> BuildView
    decreases events.len(),
{
    if events.len() == 0 {
        build
    } else {
        after_build_course(
            region,
            accounts,
            build.after(region, accounts, events[0]).0,
            events.drop_first(),
        )
    }
}

/// How often the versions are refreshed in the course of the events.
pub open spec fn build_refreshes(
    region: ServerRegion,
    accounts: Seq<AccountType>,
    build: BuildView,
    events: Seq<BuildEvent>,
) -> nat
    decreases events.len(),
{
    if events.len() == 0 {
        0
    } else {
        (if build.after(region, accounts, events[0]).1 is RefreshVersion {
            1nat
        } else {
            0
        }) + build_refreshes(
            region,
            accounts,
            build.after(region, accounts, events[0]).0,
            events.drop_first(),
        )
    }
}

/// How many logins are asked for in the course of the events.
pub open spec fn build_logins(
    region: ServerRegion,
    accounts: Seq<AccountType>,
    build: BuildView,
    events: Seq<BuildEvent>,
) -> nat
    decreases events.len(),
{
    if events.len() == 0 {
        0
    } else {
        (if build.after(region, accounts, events[0]).1 is Login {
            1nat
        } else {
            0
        }) + build_logins(
            region,
            accounts,
            build.after(region, accounts, events[0]).0,
            events.drop_first(),
        )
    }
}

/// How many logins can still be asked for.
spec fn logins_left(accounts: Seq<AccountType>, build: BuildView) -> int {
    if build.phase is Finished {
        0
    } else {
        accounts.len() - build.index - 1 + if !build.upgrade_refreshed {
            2int
        } else {
            match build.phase {
                BuildPhase::FirstRefresh => 2,
                BuildPhase::SecondLogin => 1,
                BuildPhase::Waiting => 1,
                BuildPhase::SecondRefresh => 1,
                _ => 0,
            }
        }
    }
}

/// How often the versions can still be refreshed.
spec fn refreshes_left(build: BuildView) -> int {
    if !build.upgrade_refreshed {
        2
    } else {
        match build.phase {
            BuildPhase::FirstRefresh => 1,
            BuildPhase::SecondLogin => 1,
            BuildPhase::Waiting => 1,
            _ => 0,
        }
    }
}

/// How many events can still come.
spec fn build_events_left(accounts: Seq<AccountType>, build: BuildView) -> int {
    let others = accounts.len() - build.index - 1 + if build.upgrade_refreshed {
        0int
    } else {
        5
    };
    match build.phase {
        BuildPhase::FirstLogin => others + 1,
        BuildPhase::FirstRefresh => others + 5,
        BuildPhase::SecondLogin => others + 4,
        BuildPhase::Waiting => others + 3,
        BuildPhase::SecondRefresh => others + 2,
        BuildPhase::LastLogin => others + 1,
        BuildPhase::Finished => 0,
    }
}

/// What one event uses up.
proof fn lemma_build_step(
    region: ServerRegion,
    accounts: Seq<AccountType>,
    build: BuildView,
    event: BuildEvent,
)
    requires
        accounts.len() <= usize::MAX,
        build.well_formed(region, accounts),
        build.awaits(event),
    ensures
        ({
            let (next, action) = build.after(region, accounts, event);
            &&& next.well_formed(region, accounts)
            &&& (if action is RefreshVersion { 1int } else { 0 }) + refreshes_left(next)
                <= refreshes_left(build)
            &&& (if action is Login { 1int } else { 0 }) + logins_left(accounts, next)
                <= logins_left(accounts, build)
            &&& 1 + build_events_left(accounts, next) <= build_events_left(accounts, build)
        }),
{
    lemma_next_candidate(region, accounts, build.index + 1);
}

/// What the course of the events uses up.
proof fn lemma_build_course(
    region: ServerRegion,
    accounts: Seq<AccountType>,
    build: BuildView,
    events: Seq<BuildEvent>,
)
    requires
        accounts.len() <= usize::MAX,
        build.well_formed(region, accounts),
        is_build_course(region, accounts, build, events),
    ensures
        after_build_course(region, accounts, build, events).well_formed(region, accounts),
        build_refreshes(region, accounts, build, events) <= refreshes_left(build),
        build_logins(region, accounts, build, events) <= logins_left(accounts, build),
        events.len() + build_events_left(
            accounts,
            after_build_course(region, accounts, build, events),
        ) <= build_events_left(accounts, build),
    decreases events.len(),
{
    if events.len() > 0 {
        lemma_build_step(region, accounts, build, events[0]);
        lemma_build_course(
            region,
            accounts,
            build.after(region, accounts, events[0]).0,
            events.drop_first(),
        );
    }
}

/// The building of a pool is well formed when it begins.
proof fn lemma_build_begins(region: ServerRegion, accounts: Seq<AccountType>)
    requires
        accounts.len() <= usize::MAX,
    ensures
        BuildView::begin(region, accounts).0.well_formed(region, accounts),
        !BuildView::begin(region, accounts).0.upgrade_refreshed,
        build_events_left(accounts, BuildView::begin(region, accounts).0) <= accounts.len() + 5,
{
    lemma_next_candidate(region, accounts, 0);
}

/// Whatever comes, the pool is built of accounts that can log in, each at most
/// once and in the order in which they are given.
pub proof fn pools_keep_the_order_of_the_accounts(
    region: ServerRegion,
    accounts: Seq<AccountType>,
    events: Seq<BuildEvent>,
)
    requires
        accounts.len() <= usize::MAX,
        is_build_course(region, accounts, BuildView::begin(region, accounts).0, events),
    ensures
        ({
            let kept = after_build_course(
                region,
                accounts,
                BuildView::begin(region, accounts).0,
                events,
            ).kept;
            &&& forall|k: int|
                0 <= k < kept.len() ==> (#[trigger] kept[k]) < accounts.len() && can_log_in(
                    region,
                    accounts[kept[k] as int],
                )
            &&& forall|j: int, k: int|
                0 <= j < k < kept.len() ==> (#[trigger] kept[j]) < (#[trigger] kept[k])
        }),
{
    lemma_build_begins(region, accounts);
    lemma_build_course(region, accounts, BuildView::begin(region, accounts).0, events);
}

/// However many accounts are told to upgrade, the versions are refreshed at most
/// twice while a pool is built.
pub proof fn pools_refresh_the_versions_at_most_twice(
    region: ServerRegion,
    accounts: Seq<AccountType>,
    events: Seq<BuildEvent>,
)
    requires
        accounts.len() <= usize::MAX,
        is_build_course(region, accounts, BuildView::begin(region, accounts).0, events),
    ensures
        build_refreshes(region, accounts, BuildView::begin(region, accounts).0, events) <= 2,
{
    lemma_build_begins(region, accounts);
    lemma_build_course(region, accounts, BuildView::begin(region, accounts).0, events);
}

/// While a pool is built, at most two more logins are asked for than there are
/// accounts.
pub proof fn pools_ask_for_two_more_logins_than_accounts_at_most(
    region: ServerRegion,
    accounts: Seq<AccountType>,
    events: Seq<BuildEvent>,
)
    requires
        accounts.len() <= usize::MAX,
        is_build_course(region, accounts, BuildView::begin(region, accounts).0, events),
    ensures
        (if BuildView::begin(region, accounts).1 is Login {
            1nat
        } else {
            0
        }) + build_logins(region, accounts, BuildView::begin(region, accounts).0, events)
            <= accounts.len() + 2,
{
    lemma_build_begins(region, accounts);
    lemma_next_candidate(region, accounts, 0);
    lemma_build_course(region, accounts, BuildView::begin(region, accounts).0, events);
}

/// The building of a pool comes to an end: beside one login for each account,
/// at most five events come.
pub proof fn pools_get_built(
    region: ServerRegion,
    accounts: Seq<AccountType>,
    events: Seq<BuildEvent>,
)
    requires
        accounts.len() <= usize::MAX,
        is_build_course(region, accounts, BuildView::begin(region, accounts).0, events),
    ensures
        events.len() <= accounts.len() + 5,
{
    lemma_build_begins(region, accounts);
    lemma_build_course(region, accounts, BuildView::begin(region, accounts).0, events);
    let last = after_build_course(region, accounts, BuildView::begin(region, accounts).0, events);
    assert(build_events_left(accounts, last) >= 0);
}

/// An account whose login succeeds, at whatever attempt, is kept; one whose last
/// attempt fails is not, and either way the next account has its turn.
pub proof fn accounts_are_kept_when_they_log_in(
    region: ServerRegion,
    accounts: Seq<AccountType>,
    build: BuildView,
    event: BuildEvent,
)
    requires
        accounts.len() <= usize::MAX,
        build.well_formed(region, accounts),
        build.awaits(event),
    ensures
        ({
            let next = build.after(region, accounts, event).0;
            &&& next.kept == if event matches BuildEvent::LoggedIn(Ok(_)) {
                build.kept.push(build.index)
            } else {
                build.kept
            }
            &&& next.kept.len() > build.kept.len() ==> next.index > build.index
            &&& next.index >= build.index
        }),
{
    lemma_next_candidate(region, accounts, build.index + 1);
}

/// In Jp and En an account needs its user's number to log in; in Tw, Kr and Cn
/// every account can.
pub proof fn cp_accounts_need_their_number(region: ServerRegion, account: AccountType)
    ensures
        region == ServerRegion::Jp || region == ServerRegion::En ==> can_log_in(region, account)
            == (account.details().user_id.len() > 0),
        region == ServerRegion::Tw || region == ServerRegion::Kr || region == ServerRegion::Cn
            ==> can_log_in(region, account),
{
}

/// The turn went on from the account at `index`: to the next one that can log in,
/// which is asked to, or to the end where there is none.
pub open spec fn turn_went_on(
    region: ServerRegion,
    accounts: Seq<AccountType>,
    index: int,
    next: BuildView,
    action: BuildAction,
) -> bool {
    &&& index < next.index <= accounts.len()
    &&& forall|i: int|
        index < i < next.index ==> !can_log_in(region, #[trigger] accounts[i])
    &&& if next.index < accounts.len() {
        &&& can_log_in(region, accounts[next.index as int])
        &&& next.phase is FirstLogin
        &&& action == BuildAction::Login(next.index)
    } else {
        next.phase is Finished && action is Finish
    }
}

/// A pool is begun with the first account that can log in; where there is none
/// it is finished at once, and empty.
pub proof fn pools_begin_with_the_first_account(region: ServerRegion, accounts: Seq<AccountType>)
    requires
        accounts.len() <= usize::MAX,
    ensures
        ({
            let (build, action) = BuildView::begin(region, accounts);
            &&& turn_went_on(region, accounts, -1, build, action)
            &&& build.kept.len() == 0
            &&& !build.upgrade_refreshed
        }),
{
    lemma_next_candidate(region, accounts, 0);
}

/// An account that has logged in is kept, and one that is given up is not; either
/// way the turn goes on to the next account that can log in, whatever the error
/// was. An account is given up where its login fails, or the versions for it
/// cannot be had; but for two cases, in which it is told to upgrade: the first
/// time in a build the versions are refreshed for it, and where that was not
/// enough a new version is waited for.
pub proof fn turns_go_on_whatever_fails(
    region: ServerRegion,
    accounts: Seq<AccountType>,
    build: BuildView,
    event: BuildEvent,
)
    requires
        accounts.len() <= usize::MAX,
        build.well_formed(region, accounts),
        build.awaits(event),
    ensures
        ({
            let (next, action) = build.after(region, accounts, event);
            let told_to_upgrade = event matches BuildEvent::LoggedIn(Err(e))
                && e is UpgradeRequired && ((build.phase is FirstLogin && !build.upgrade_refreshed)
                || build.phase is SecondLogin);
            &&& event matches BuildEvent::LoggedIn(Ok(_)) ==> turn_went_on(
                region,
                accounts,
                build.index as int,
                next,
                action,
            ) && next.kept == build.kept.push(build.index)
            &&& (event matches BuildEvent::LoggedIn(Err(_))) && !told_to_upgrade ==> turn_went_on(
                region,
                accounts,
                build.index as int,
                next,
                action,
            ) && next.kept == build.kept
            &&& event matches BuildEvent::VersionRefreshed(Err(_)) ==> turn_went_on(
                region,
                accounts,
                build.index as int,
                next,
                action,
            ) && next.kept == build.kept
            &&& told_to_upgrade ==> next.index == build.index && next.kept == build.kept
            &&& next.upgrade_refreshed == (build.upgrade_refreshed || told_to_upgrade)
        }),
{
    lemma_next_candidate(region, accounts, build.index + 1);
}

/// For an account that is told to upgrade the versions are refreshed and it logs
/// in again; told once more, ten seconds pass, and the same is tried a last time.
pub proof fn one_account_waits_for_an_upgrade(
    region: ServerRegion,
    accounts: Seq<AccountType>,
    build: BuildView,
)
    requires
        build.phase is FirstLogin,
        !build.upgrade_refreshed,
    ensures
        ({
            let upgrade = BuildEvent::LoggedIn(Err(AppError::UpgradeRequired));
            let refreshed = BuildEvent::VersionRefreshed(Ok(()));
            let (a, first) = build.after(region, accounts, upgrade);
            let (b, second) = a.after(region, accounts, refreshed);
            let (c, third) = b.after(region, accounts, upgrade);
            let (d, fourth) = c.after(region, accounts, BuildEvent::Paused);
            let (e, fifth) = d.after(region, accounts, refreshed);
            &&& first is RefreshVersion && a.phase is FirstRefresh && a.upgrade_refreshed
            &&& second == BuildAction::Login(build.index) && b.phase is SecondLogin
            &&& third == BuildAction::Pause(10) && c.phase is Waiting
            &&& fourth is RefreshVersion && d.phase is SecondRefresh
            &&& fifth == BuildAction::Login(build.index) && e.phase is LastLogin
            &&& e.index == build.index && e.kept == build.kept
        }),
{
}

/// What has to be done in the course of the events.
pub open spec fn build_actions(
    region: ServerRegion,
    accounts: Seq<AccountType>,
    build: BuildView,
    events: Seq<BuildEvent>,
) -> Seq<BuildAction>
    decreases events.len(),
{
    if events.len() == 0 {
        Seq::empty()
    } else {
        seq![build.after(region, accounts, events[0]).1] + build_actions(
            region,
            accounts,
            build.after(region, accounts, events[0]).0,
            events.drop_first(),
        )
    }
}

/// Whoever comes after the account whose turn it is, and can log in, is asked to
/// before the building is finished.
proof fn lemma_later_accounts_are_asked(
    region: ServerRegion,
    accounts: Seq<AccountType>,
    build: BuildView,
    events: Seq<BuildEvent>,
    i: int,
)
    requires
        accounts.len() <= usize::MAX,
        build.well_formed(region, accounts),
        is_build_course(region, accounts, build, events),
        after_build_course(region, accounts, build, events).phase is Finished,
        !(build.phase is Finished),
        build.index < i < accounts.len(),
        can_log_in(region, accounts[i]),
    ensures
        build_actions(region, accounts, build, events).contains(BuildAction::Login(i as usize)),
    decreases events.len(),
{
    let event = events[0];
    let (next, action) = build.after(region, accounts, event);
    let rest = build_actions(region, accounts, next, events.drop_first());
    let all = build_actions(region, accounts, build, events);
    lemma_build_step(region, accounts, build, event);
    lemma_next_candidate(region, accounts, build.index + 1);
    if next.index == i && next.phase is FirstLogin {
        assert(all[0] == BuildAction::Login(i as usize));
    } else {
        assert(!(next.phase is Finished));
        lemma_later_accounts_are_asked(region, accounts, next, events.drop_first(), i);
        let k = choose|k: int| 0 <= k < rest.len() && rest[k] == BuildAction::Login(i as usize);
        assert(all[k + 1] == rest[k]);
    }
}

/// When the building of a pool is finished, every account that can log in has
/// been asked to, whatever errors the others met on the way.
pub proof fn every_account_has_its_turn(
    region: ServerRegion,
    accounts: Seq<AccountType>,
    events: Seq<BuildEvent>,
    i: int,
)
    requires
        accounts.len() <= usize::MAX,
        is_build_course(region, accounts, BuildView::begin(region, accounts).0, events),
        after_build_course(
            region,
            accounts,
            BuildView::begin(region, accounts).0,
            events,
        ).phase is Finished,
        0 <= i < accounts.len(),
        can_log_in(region, accounts[i]),
    ensures
        BuildView::begin(region, accounts).1 == BuildAction::Login(i as usize) || build_actions(
            region,
            accounts,
            BuildView::begin(region, accounts).0,
            events,
        ).contains(BuildAction::Login(i as usize)),
{
    lemma_build_begins(region, accounts);
    lemma_next_candidate(region, accounts, 0);
    let build = BuildView::begin(region, accounts).0;
    if build.index != i {
        lemma_later_accounts_are_asked(region, accounts, build, events, i);
    }
}

/// After each step the build waits for what it asked for, and for nothing else;
/// one that is finished waits for nothing.
pub proof fn builds_wait_for_what_they_ask_for(
    region: ServerRegion,
    accounts: Seq<AccountType>,
    build: BuildView,
    event: BuildEvent,
    other: BuildEvent,
)
    requires
        accounts.len() <= usize::MAX,
        build.well_formed(region, accounts),
        build.awaits(event),
    ensures
        ({
            let (next, action) = build.after(region, accounts, event);
            next.awaits(other) <==> match action {
                BuildAction::Login(_) => other is LoggedIn,
                BuildAction::RefreshVersion => other is VersionRefreshed,
                BuildAction::Pause(_) => other is Paused,
                BuildAction::Finish => false,
            }
        }),
{
    lemma_next_candidate(region, accounts, build.index + 1);
}

/// The versions of a login are taken over exactly where it was not the account's
/// first.
pub proof fn later_logins_bring_the_versions(
    build: BuildView,
    response: LoginResponse,
    e: AppError,
)
    ensures
        build.phase is FirstLogin ==> build.upgrade_login(
            BuildEvent::LoggedIn(Ok(response)),
        ) is None,
        build.phase is SecondLogin || build.phase is LastLogin ==> build.upgrade_login(
            BuildEvent::LoggedIn(Ok(response)),
        ) == Some(response),
        build.upgrade_login(BuildEvent::LoggedIn(Err(e))) is None,
        build.upgrade_login(BuildEvent::VersionRefreshed(Ok(()))) is None,
        build.upgrade_login(BuildEvent::VersionRefreshed(Err(e))) is None,
        build.upgrade_login(BuildEvent::Paused) is None,
{
}

/// A build is seen with what it holds.
pub proof fn builds_are_seen_as_they_are(build: PoolBuild)
    ensures
        build@.kept == build.kept@,
        build@.index == build.index,
        build@.upgrade_refreshed == build.upgrade_refreshed,
        build@.phase == build.phase,
{
}

/// What each phase of a build waits for.
pub proof fn build_phases_wait_for_their_events(build: BuildView, event: BuildEvent)
    ensures
        event is LoggedIn ==> build.awaits(event) == (build.phase is FirstLogin
            || build.phase is SecondLogin || build.phase is LastLogin),
        event is VersionRefreshed ==> build.awaits(event) == (build.phase is FirstRefresh
            || build.phase is SecondRefresh),
        event is Paused ==> build.awaits(event) == (build.phase is Waiting),
{
}

/// A build is in order where the kept accounts stand in their order before the
/// one whose turn it is, where that one exists unless the build is finished, and
/// where all of these can log in.
pub proof fn builds_in_order_are_these(
    region: ServerRegion,
    accounts: Seq<AccountType>,
    build: BuildView,
    j: int,
    k: int,
)
    requires
        build.well_formed(region, accounts),
    ensures
        build.index <= accounts.len(),
        0 <= k < build.kept.len() ==> build.kept[k] < build.index && can_log_in(
            region,
            accounts[build.kept[k] as int],
        ),
        0 <= j < k < build.kept.len() ==> build.kept[j] < build.kept[k],
        !(build.phase is Finished) ==> build.index < accounts.len() && can_log_in(
            region,
            accounts[build.index as int],
        ),
{
}

/// A build that has kept nothing is in order, whatever account that can log in
/// has its turn.
pub proof fn first_turns_are_in_order(
    region: ServerRegion,
    accounts: Seq<AccountType>,
    build: BuildView,
)
    requires
        build.kept.len() == 0,
        build.index < accounts.len(),
        can_log_in(region, accounts[build.index as int]),
    ensures
        build.phase is FirstLogin || build.upgrade_refreshed ==> build.well_formed(
            region,
            accounts,
        ),
{
}

} // verus!

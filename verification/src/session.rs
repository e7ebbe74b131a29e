//! Sessions: what a logged-in account carries, and the pool that hands sessions
//! out in turn.

use crate::account::{
    is_login_body, normal_role, served_roles, serves, serves_role, AccountType, AccountView,
    SekaiAccount, DEFAULT_PROXY_ROLE,
};
use crate::config::LoginProtocol;
use crate::error::{AppError, ErrorView};
use crate::text::{opt_str, opt_text, texts};
use std::sync::Arc;
use vstd::prelude::*;

verus! {

// ---------------------------------------------------------------------------
// One session
// ---------------------------------------------------------------------------

/// An account and the token of its session with the game server.
#[derive(Debug, Clone)]
pub struct AccountSession {
    pub account: AccountType,
    pub session_token: Option<String>,
}

/// What a session holds.
pub struct SessionView {
    pub account: AccountView,
    pub session_token: Option<Seq<char>>,
}

impl View for AccountSession {
    type V = SessionView;

    open spec fn view(&self) -> SessionView {
        SessionView {
            account: self.account.details(),
            session_token: opt_text(self.session_token),
        }
    }
}

impl AccountSession {
    /// The session of an account that has not logged in yet.
    pub fn new(account: AccountType) -> (r: AccountSession)
        ensures
            r@ == (SessionView { account: account.details(), session_token: None }),
    {
        AccountSession { account, session_token: None }
    }

    /// The user's number, as text.
    pub fn user_id(&self) -> (r: &str)
        ensures
            r@ == self@.account.user_id,
    {
        self.account.user_id()
    }

    /// Gives the account another user's number.
    pub fn set_user_id(&mut self, user_id: String)
        ensures
            final(self)@ == (SessionView {
                account: AccountView { user_id: user_id@, ..old(self)@.account },
                ..old(self)@
            }),
    {
        self.account.set_user_id(user_id);
    }

    /// The token of the session.
    pub fn get_session_token(&self) -> (r: Option<&str>)
        ensures
            opt_str(r) == self@.session_token,
    {
        match &self.session_token {
            Some(token) => Some(token.as_str()),
            None => None,
        }
    }

    /// Gives the session another token.
    pub fn set_session_token(&mut self, token: Option<String>)
        ensures
            final(self)@ == (SessionView { session_token: opt_text(token), ..old(self)@ }),
    {
        self.session_token = token;
    }

    /// Takes over the token that a response carries in its header
    /// `x-session-token`, where it carries one.
    pub fn update_session_token(&mut self, header: Option<&str>)
        ensures
            match header {
                Some(token) => final(self)@ == (SessionView {
                    session_token: Some(token@),
                    ..old(self)@
                }),
                None => *final(self) == *old(self),
            },
    {
        if let Some(token) = header {
            self.set_session_token(Some(token.to_owned()));
        }
    }

    /// Whether the account serves a role.
    pub fn has_proxy_role(&self, role: &str) -> (r: bool)
        ensures
            r == serves(self@.account.proxy_roles, role@),
    {
        self.account.has_proxy_role(role)
    }

    /// The body with which the account logs in.
    pub fn dump_account(&self, protocol: LoginProtocol) -> (r: Result<Vec<u8>, AppError>)
        ensures
            is_login_body(self@.account, protocol, r),
    {
        self.account.dump(protocol)
    }
}

// ---------------------------------------------------------------------------
// The pool
// ---------------------------------------------------------------------------

/// A session in the pool, with the roles of its account. Those do not change
/// while the session lives; the session itself is shared with the requests that
/// use it.
pub struct PooledSession<S> {
    pub proxy_roles: Vec<String>,
    pub session: Arc<S>,
}

impl<S> PooledSession<S> {
    /// A session of this account.
    pub fn new(account: &AccountType, session: Arc<S>) -> (r: PooledSession<S>)
        ensures
            texts(r.proxy_roles@) == account.details().proxy_roles,
            r.session == session,
    {
        let roles = account.proxy_roles();
        let mut proxy_roles: Vec<String> = Vec::new();
        let mut i: usize = 0;
        while i < roles.len()
            invariant
                i <= roles@.len(),
                proxy_roles@ == roles@.take(i as int),
            decreases roles@.len() - i,
        {
            proxy_roles.push(roles[i].clone());
            proof {
                assert(proxy_roles@ =~= roles@.take(i + 1));
            }
            i += 1;
        }
        proof {
            assert(roles@.take(roles@.len() as int) =~= roles@);
        }
        PooledSession { proxy_roles, session }
    }

    /// The account serves `role`.
    pub open spec fn serves(self, role: Seq<char>) -> bool {
        serves(texts(self.proxy_roles@), role)
    }
}

/// The sessions that are in use, and whose turn it is.
pub struct SessionPool<S> {
    pub sessions: Vec<PooledSession<S>>,
    /// Counts the requests for a session; it wraps around.
    pub session_index: usize,
}

/// What became of a candidate for the pool's sessions.
#[derive(Debug, Clone, Copy, PartialEq, Eq, Structural)]
pub enum SessionPoolReplacement {
    /// There was no session in it, so the pool stayed as it was.
    EmptyCandidate { active: usize },
    /// Its sessions are now the pool's.
    Replaced { active: usize },
}

/// Puts new sessions in the place of the pool's, and begins with the first of
/// them. Where there are none, the pool stays as it is.
pub fn replace_session_pool<S>(
    pool: &mut SessionPool<S>,
    new_sessions: Vec<PooledSession<S>>,
) -> (r: SessionPoolReplacement)
    ensures
        new_sessions@.len() == 0 ==> {
            &&& r == SessionPoolReplacement::EmptyCandidate {
                active: old(pool).sessions@.len() as usize,
            }
            &&& *final(pool) == *old(pool)
        },
        new_sessions@.len() > 0 ==> {
            &&& r == SessionPoolReplacement::Replaced { active: new_sessions@.len() as usize }
            &&& final(pool).sessions == new_sessions
            &&& final(pool).session_index == 0
        },
        old(pool).sessions@.len() > 0 ==> final(pool).sessions@.len() > 0,
{
    if new_sessions.len() == 0 {
        return SessionPoolReplacement::EmptyCandidate { active: pool.sessions.len() };
    }
    pool.sessions = new_sessions;
    pool.session_index = 0;
    SessionPoolReplacement::Replaced { active: pool.sessions.len() }
}

/// The position that comes `offset` after `start`, around a pool of `len`.
pub open spec fn turn(start: int, offset: int, len: int) -> int {
    (start + offset) % len
}

/// Of the sessions from `start` on, around the pool, the one at `offset` is the
/// first whose account serves `role`.
pub open spec fn is_first_in_turn<S>(
    sessions: Seq<PooledSession<S>>,
    start: int,
    role: Seq<char>,
    offset: int,
) -> bool {
    &&& 0 <= offset < sessions.len()
    &&& sessions[turn(start, offset, sessions.len() as int)].serves(role)
    &&& forall|k: int|
        0 <= k < offset ==> !(#[trigger] sessions[turn(
            start,
            k,
            sessions.len() as int,
        )]).serves(role)
}

/// `r` answers the request for a session whose account serves `role`.
pub open spec fn is_selection<S>(
    sessions: Seq<PooledSession<S>>,
    start: int,
    role: Seq<char>,
    r: Result<Arc<S>, AppError>,
) -> bool {
    match r {
        Ok(session) => exists|offset: int|
            #![trigger turn(start, offset, sessions.len() as int)]
            is_first_in_turn(sessions, start, role, offset) && session == sessions[turn(
                start,
                offset,
                sessions.len() as int,
            )].session,
        Err(e) => {
            &&& forall|i: int| 0 <= i < sessions.len() ==> !(#[trigger] sessions[i]).serves(role)
            &&& e@ == if sessions.len() == 0 {
                ErrorView::NoClientAvailable
            } else {
                ErrorView::NoProxyAccountForRole(role)
            }
        },
    }
}

/// `Arc::clone`: another handle to the same value.
#[verifier::external_body]
pub(crate) fn share<S>(session: &Arc<S>) -> (r: Arc<S>)
    ensures
        r == *session,
{
    Arc::clone(session)
}

impl<S> SessionPool<S> {
    /// A pool without sessions.
    pub fn new() -> (r: SessionPool<S>)
        ensures
            r.sessions@.len() == 0,
            r.session_index == 0,
    {
        SessionPool { sessions: Vec::new(), session_index: 0 }
    }

    /// The number of sessions.
    pub fn session_count(&self) -> (r: usize)
        ensures
            r == self.sessions@.len(),
    {
        self.sessions.len()
    }

    /// A session for ordinary requests.
    pub fn get_session(&mut self) -> (r: Option<Arc<S>>)
        ensures
            match r {
                Some(session) => is_selection(
                    old(self).sessions@,
                    old(self).session_index as int,
                    "default"@,
                    Ok(session),
                ),
                None => forall|i: int|
                    0 <= i < old(self).sessions@.len() ==> !(
                    #[trigger] old(self).sessions@[i]).serves("default"@),
            },
            final(self).sessions == old(self).sessions,
            final(self).session_index == next_index(*old(self)),
    {
        match self.get_session_for_role(DEFAULT_PROXY_ROLE) {
            Ok(session) => Some(session),
            Err(_) => None,
        }
    }

    /// The next session, in turn, whose account serves a role.
    pub fn get_session_for_role(&mut self, role: &str) -> (r: Result<Arc<S>, AppError>)
        ensures
            is_selection(old(self).sessions@, old(self).session_index as int, role@, r),
            final(self).sessions == old(self).sessions,
            final(self).session_index == next_index(*old(self)),
    {
        let count: usize = self.sessions.len();
        if count == 0 {
            return Err(AppError::NoClientAvailable);
        }
        let start: usize = self.session_index;
        self.session_index = start.wrapping_add(1);
        let mut position: usize = start % count;
        let mut offset: usize = 0;
        while offset < count
            invariant
                count == self.sessions@.len(),
                count > 0,
                offset <= count,
                position == turn(start as int, offset as int, count as int),
                self.sessions == old(self).sessions,
                self.session_index == next_index(*old(self)),
                start == old(self).session_index,
                forall|k: int|
                    0 <= k < offset ==> !(#[trigger] self.sessions@[turn(
                        start as int,
                        k,
                        count as int,
                    )]).serves(role@),
            decreases count - offset,
        {
            if serves_role(self.sessions[position].proxy_roles.as_slice(), role) {
                let session = share(&self.sessions[position].session);
                proof {
                    assert(is_first_in_turn(
                        self.sessions@,
                        start as int,
                        role@,
                        offset as int,
                    ));
                }
                return Ok(session);
            }
            proof {
                lemma_next_turn(start as int, offset as int, count as int);
            }
            position = if position + 1 == count {
                0
            } else {
                position + 1
            };
            offset += 1;
        }
        proof {
            assert forall|i: int| 0 <= i < count implies !(#[trigger] self.sessions@[i]).serves(
                role@,
            ) by {
                lemma_every_position_has_a_turn(start as int, i, count as int);
            }
        }
        Err(AppError::NoProxyAccountForRole(role.to_owned()))
    }
}

/// The counter after a request for a session: one more, around the end of the
/// machine's integers. It does not count where the pool is empty.
pub open spec fn next_index<S>(pool: SessionPool<S>) -> usize {
    if pool.sessions@.len() == 0 {
        pool.session_index
    } else if pool.session_index == usize::MAX {
        0
    } else {
        (pool.session_index + 1) as usize
    }
}

/// One further around the pool.
proof fn lemma_next_turn(start: int, offset: int, len: int)
    requires
        0 <= start,
        0 <= offset,
        0 < len,
    ensures
        turn(start, offset + 1, len) == if turn(start, offset, len) + 1 == len {
            0
        } else {
            turn(start, offset, len) + 1
        },
{
    let n = start + offset;
    let q = n / len;
    let t = n % len;
    vstd::arithmetic::div_mod::lemma_fundamental_div_mod(n, len);
    assert(n == len * q + t);
    if t + 1 == len {
        assert(n + 1 == len * (q + 1) + 0) by (nonlinear_arith)
            requires
                n == len * q + t,
                t + 1 == len,
        ;
        vstd::arithmetic::div_mod::lemma_fundamental_div_mod_converse(n + 1, len, q + 1, 0);
    } else {
        vstd::arithmetic::div_mod::lemma_fundamental_div_mod_converse(n + 1, len, q, t + 1);
    }
}

/// Every position comes up within one round.
proof fn lemma_every_position_has_a_turn(start: int, position: int, len: int)
    requires
        0 <= start,
        0 <= position < len,
    ensures
        exists|offset: int| 0 <= offset < len && #[trigger] turn(start, offset, len) == position,
{
    let s = start % len;
    let q = start / len;
    vstd::arithmetic::div_mod::lemma_fundamental_div_mod(start, len);
    let offset = if position >= s {
        position - s
    } else {
        position - s + len
    };
    if position >= s {
        assert(start + offset == len * q + position);
        vstd::arithmetic::div_mod::lemma_fundamental_div_mod_converse(
            start + offset,
            len,
            q,
            position,
        );
    } else {
        assert(start + offset == len * (q + 1) + position) by (nonlinear_arith)
            requires
                start == len * q + s,
                offset == position - s + len,
        ;
        vstd::arithmetic::div_mod::lemma_fundamental_div_mod_converse(
            start + offset,
            len,
            q + 1,
            position,
        );
    }
    assert(turn(start, offset, len) == position);
}

// ---------------------------------------------------------------------------
// Laws
// ---------------------------------------------------------------------------

/// A request for a session succeeds exactly where some account in the pool
/// serves the role, whoever's turn it is; and the session that is handed out
/// belongs to such an account.
pub proof fn sessions_are_handed_out_by_role<S>(
    sessions: Seq<PooledSession<S>>,
    start: int,
    role: Seq<char>,
    r: Result<Arc<S>, AppError>,
)
    requires
        0 <= start,
        is_selection(sessions, start, role, r),
    ensures
        r is Ok <==> exists|i: int| 0 <= i < sessions.len() && (#[trigger] sessions[i]).serves(role),
        r is Ok ==> exists|i: int|
            0 <= i < sessions.len() && (#[trigger] sessions[i]).serves(role) && sessions[i].session
                == r->Ok_0,
{
    if r is Ok {
        let offset = choose|offset: int|
            #![trigger turn(start, offset, sessions.len() as int)]
            is_first_in_turn(sessions, start, role, offset) && r->Ok_0 == sessions[turn(
                start,
                offset,
                sessions.len() as int,
            )].session;
        let i = turn(start, offset, sessions.len() as int);
        assert(0 <= i < sessions.len());
        assert(sessions[i].serves(role));
    }
}

/// Where every account serves the role, the sessions come in turn: the request
/// that the counter numbers `n` gets the session at `n`, around the pool.
pub proof fn sessions_come_in_turn<S>(
    sessions: Seq<PooledSession<S>>,
    n: int,
    role: Seq<char>,
    r: Result<Arc<S>, AppError>,
)
    requires
        0 <= n,
        sessions.len() > 0,
        forall|i: int| 0 <= i < sessions.len() ==> (#[trigger] sessions[i]).serves(role),
        is_selection(sessions, n, role, r),
    ensures
        r is Ok,
        r->Ok_0 == sessions[n % (sessions.len() as int)].session,
{
    let len = sessions.len() as int;
    assert(sessions[0].serves(role));
    let offset = choose|offset: int|
        #![trigger turn(n, offset, sessions.len() as int)]
        is_first_in_turn(sessions, n, role, offset) && r->Ok_0 == sessions[turn(
            n,
            offset,
            sessions.len() as int,
        )].session;
    if offset > 0 {
        let first = turn(n, 0, len);
        assert(0 <= first < len);
        assert(sessions[first].serves(role));
        assert(false);
    }
}

/// As many requests in a row as the pool has sessions take different places in
/// it, so that each place is taken once.
pub proof fn no_session_comes_twice_in_a_round(start: int, i: int, j: int, len: int)
    requires
        0 <= start,
        0 <= i < j < len,
    ensures
        turn(start + i, 0, len) != turn(start + j, 0, len),
{
    let a = start + i;
    let b = start + j;
    vstd::arithmetic::div_mod::lemma_fundamental_div_mod(a, len);
    vstd::arithmetic::div_mod::lemma_fundamental_div_mod(b, len);
    if a % len == b % len {
        assert(b - a == len * (b / len - a / len)) by (nonlinear_arith)
            requires
                a == len * (a / len) + a % len,
                b == len * (b / len) + b % len,
                a % len == b % len,
        ;
        let d = b / len - a / len;
        assert(0 < len * d < len);
        assert(false) by (nonlinear_arith)
            requires
                0 < len,
                0 < len * d < len,
        ;
    }
}

/// After the sessions were replaced, the search begins with the first of the
/// new ones: the request gets the earliest that serves the role.
pub proof fn a_replaced_pool_starts_from_its_first_session<S>(
    sessions: Seq<PooledSession<S>>,
    role: Seq<char>,
    r: Result<Arc<S>, AppError>,
    earliest: int,
)
    requires
        0 <= earliest < sessions.len(),
        sessions[earliest].serves(role),
        forall|i: int| 0 <= i < earliest ==> !(#[trigger] sessions[i]).serves(role),
        is_selection(sessions, 0, role, r),
    ensures
        r is Ok,
        r->Ok_0 == sessions[earliest].session,
{
    let len = sessions.len() as int;
    let offset = choose|offset: int|
        #![trigger turn(0, offset, sessions.len() as int)]
        is_first_in_turn(sessions, 0, role, offset) && r->Ok_0 == sessions[turn(
            0,
            offset,
            sessions.len() as int,
        )].session;
    assert(turn(0, offset, len) == offset) by {
        vstd::arithmetic::div_mod::lemma_small_mod(offset as nat, len as nat);
    }
    assert(turn(0, earliest, len) == earliest) by {
        vstd::arithmetic::div_mod::lemma_small_mod(earliest as nat, len as nat);
    }
    assert(offset >= earliest);
}

/// The session that is handed out is the first, from the one whose turn it is on
/// and around the pool, whose account serves the role; none that comes before it
/// does.
pub proof fn the_next_session_in_turn_is_handed_out<S>(
    sessions: Seq<PooledSession<S>>,
    start: int,
    role: Seq<char>,
    session: Arc<S>,
)
    requires
        0 <= start,
        is_selection(sessions, start, role, Ok(session)),
    ensures
        exists|steps: int|
            0 <= steps < sessions.len() && (#[trigger] sessions[(start + steps)
                % (sessions.len() as int)]).serves(role) && sessions[(start + steps) % (
            sessions.len() as int)].session == session && forall|k: int|
                0 <= k < steps ==> !(#[trigger] sessions[(start + k)
                    % (sessions.len() as int)]).serves(role),
{
    let len = sessions.len() as int;
    let offset = choose|offset: int|
        #![trigger turn(start, offset, sessions.len() as int)]
        is_first_in_turn(sessions, start, role, offset) && session == sessions[turn(
            start,
            offset,
            sessions.len() as int,
        )].session;
    assert(sessions[(start + offset) % len].serves(role));
    assert forall|k: int| 0 <= k < offset implies !(#[trigger] sessions[(start + k)
        % len]).serves(role) by {
        assert(turn(start, k, len) == (start + k) % len);
    }
}

/// Where no session is handed out, the error says whether the pool is empty or
/// no account in it serves the role.
pub proof fn refused_roles_are_named<S>(
    sessions: Seq<PooledSession<S>>,
    start: int,
    role: Seq<char>,
    e: AppError,
)
    requires
        is_selection(sessions, start, role, Err(e)),
    ensures
        sessions.len() == 0 ==> e is NoClientAvailable,
        sessions.len() > 0 ==> (e matches AppError::NoProxyAccountForRole(words) && words@ == role),
        forall|i: int| 0 <= i < sessions.len() ==> !(#[trigger] sessions[i]).serves(role),
{
}

/// Each request for a session moves the turn on by one, around the end of the
/// machine's integers; in an empty pool there is no turn to move.
pub proof fn each_request_moves_the_turn_on<S>(pool: SessionPool<S>)
    ensures
        pool.sessions@.len() == 0 ==> next_index(pool) == pool.session_index,
        pool.sessions@.len() > 0 ==> next_index(pool) as int == (pool.session_index + 1) % (
        usize::MAX + 1),
{
    if pool.session_index < usize::MAX {
        vstd::arithmetic::div_mod::lemma_small_mod(
            (pool.session_index + 1) as nat,
            (usize::MAX + 1) as nat,
        );
    } else {
        vstd::arithmetic::div_mod::lemma_mod_self_0(usize::MAX + 1);
    }
}

/// A session in the pool serves what its account's roles serve, and a session
/// is seen as its account and its token.
pub proof fn sessions_are_those_of_their_accounts<S>(
    pooled: PooledSession<S>,
    session: AccountSession,
    role: Seq<char>,
)
    ensures
        pooled.serves(role) == served_roles(texts(pooled.proxy_roles@)).contains(
            normal_role(role),
        ),
        session@.account == session.account.details(),
        session@.session_token == match session.session_token {
            Some(token) => Some(token@),
            None => None,
        },
{
}

} // verus!

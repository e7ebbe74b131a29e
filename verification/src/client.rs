//! The client of one region's game servers.

use crate::config::{ServerConfig, ServerRegion};
use crate::error::AppError;
use crate::headers::HeaderMap;
use crate::session::{
    is_selection, next_index, replace_session_pool, PooledSession, SessionPool,
    SessionPoolReplacement,
};
use crate::text::opt_text;
use std::sync::Arc;
use vstd::prelude::*;

verus! {

/// The state of a client: what it is configured with, the headers of its
/// requests, and its sessions.
pub struct SekaiClient<S> {
    pub region: ServerRegion,
    pub config: ServerConfig,
    /// The proxy for all requests; an empty one is none.
    pub proxy: Option<String>,
    /// Where cookies are fetched, for a region that wants them.
    pub cookie_url: Option<String>,
    /// The headers that go with every request.
    pub headers: HeaderMap,
    /// The sessions in use.
    pub pool: SessionPool<S>,
    /// Somebody is at work to fill the empty pool again.
    pub recovery_started: bool,
}

/// A text that is not empty.
pub open spec fn filled(text: Option<Seq<char>>) -> Option<Seq<char>> {
    match text {
        Some(t) => if t.len() > 0 {
            Some(t)
        } else {
            None
        },
        None => None,
    }
}

impl<S> SekaiClient<S> {
    /// A client without sessions. It fetches cookies where the region is Jp, its
    /// configuration wants them, and there is somewhere to fetch them.
    pub fn new(
        region: ServerRegion,
        config: ServerConfig,
        proxy: Option<String>,
        jp_cookie_url: Option<String>,
    ) -> (r: SekaiClient<S>)
        ensures
            r.region == region,
            r.config == config,
            r.proxy == proxy,
            opt_text(r.cookie_url) == if region == ServerRegion::Jp && config.require_cookies {
                filled(opt_text(jp_cookie_url))
            } else {
                None
            },
            r.headers.pairs() == config.headers.pairs(),
            r.pool.sessions@.len() == 0,
            r.pool.session_index == 0,
            !r.recovery_started,
    {
        let headers = config.headers.clone();
        let wants_cookies: bool = region == ServerRegion::Jp && config.require_cookies;
        let cookie_url = match jp_cookie_url {
            Some(url) => if wants_cookies && !url.as_str().is_empty() {
                Some(url)
            } else {
                None
            },
            None => None,
        };
        SekaiClient {
            region,
            config,
            proxy,
            cookie_url,
            headers,
            pool: SessionPool::new(),
            recovery_started: false,
        }
    }

    /// The proxy for requests, where there is one.
    pub fn request_proxy(&self) -> (r: Option<&String>)
        ensures
            match r {
                Some(proxy) => filled(opt_text(self.proxy)) == Some(proxy@),
                None => filled(opt_text(self.proxy)) is None,
            },
    {
        match &self.proxy {
            Some(proxy) => if proxy.as_str().is_empty() {
                None
            } else {
                Some(proxy)
            },
            None => None,
        }
    }

    /// The number of sessions.
    pub fn session_count(&self) -> (r: usize)
        ensures
            r == self.pool.sessions@.len(),
    {
        self.pool.session_count()
    }

    /// A session for ordinary requests.
    pub fn get_session(&mut self) -> (r: Option<Arc<S>>)
        ensures
            match r {
                Some(session) => is_selection(
                    old(self).pool.sessions@,
                    old(self).pool.session_index as int,
                    "default"@,
                    Ok(session),
                ),
                None => forall|i: int|
                    0 <= i < old(self).pool.sessions@.len() ==> !(
                    #[trigger] old(self).pool.sessions@[i]).serves("default"@),
            },
            *final(self) == (SekaiClient {
                pool: SessionPool {
                    session_index: next_index(old(self).pool),
                    ..old(self).pool
                },
                ..*old(self)
            }),
    {
        self.pool.get_session()
    }

    /// The next session, in turn, whose account serves a role.
    pub fn get_session_for_role(&mut self, role: &str) -> (r: Result<Arc<S>, AppError>)
        ensures
            is_selection(
                old(self).pool.sessions@,
                old(self).pool.session_index as int,
                role@,
                r,
            ),
            *final(self) == (SekaiClient {
                pool: SessionPool {
                    session_index: next_index(old(self).pool),
                    ..old(self).pool
                },
                ..*old(self)
            }),
    {
        self.pool.get_session_for_role(role)
    }

    /// Puts new sessions in the place of the ones in use, where there are any.
    pub fn replace_sessions(&mut self, new_sessions: Vec<PooledSession<S>>) -> (r:
        SessionPoolReplacement)
        ensures
            new_sessions@.len() == 0 ==> {
                &&& r == SessionPoolReplacement::EmptyCandidate {
                    active: old(self).pool.sessions@.len() as usize,
                }
                &&& *final(self) == *old(self)
            },
            new_sessions@.len() > 0 ==> {
                &&& r == SessionPoolReplacement::Replaced { active: new_sessions@.len() as usize }
                &&& *final(self) == (SekaiClient {
                    pool: SessionPool { sessions: new_sessions, session_index: 0 },
                    ..*old(self)
                })
            },
    {
        replace_session_pool(&mut self.pool, new_sessions)
    }
}

// ---------------------------------------------------------------------------
// Laws
// ---------------------------------------------------------------------------

/// A text that is given counts as it is, unless it is empty.
pub proof fn empty_texts_do_not_count(text: Seq<char>)
    ensures
        text.len() > 0 ==> filled(Some(text)) == Some(text),
        text.len() == 0 ==> filled(Some(text)) is None,
        filled(None) is None,
{
}

} // verus!

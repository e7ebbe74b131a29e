//! Reloading the accounts: new sessions are built from the account files and
//! take the place of the old ones, unless something is wrong with them.

use crate::account::{AccountType, SekaiAccount};
use crate::account_files::ParsedAccounts;
use crate::client::SekaiClient;
use crate::error::AppError;
use crate::pool_build::{kept_sessions, BuildAction, BuildView, PoolBuild};
use crate::session::SessionPoolReplacement;
use crate::text::texts;
use std::sync::Arc;
use vstd::prelude::*;

verus! {

/// Whether new sessions have to wait until every account file can be read.
pub fn should_wait_for_complete_parse(parse_complete: bool) -> (r: bool)
    ensures
        r == !parse_complete,
{
    !parse_complete
}

/// The accounts from which new sessions are built: all that were read, where
/// there are any and none was left out.
pub open spec fn reloaded_accounts(parsed: Result<ParsedAccounts, AppError>) -> Option<
    Seq<AccountType>,
> {
    match parsed {
        Ok(parsed) => if parsed.accounts@.len() > 0 && parsed.complete {
            Some(parsed.accounts@)
        } else {
            None
        },
        Err(_) => None,
    }
}

impl<S> SekaiClient<S> {
    /// How a reload begins: with building a pool from the accounts that were
    /// read. Where they could not be, where there are none, or where some were
    /// left out, the sessions stay as they are.
    pub fn reload_accounts(&self, parsed: Result<ParsedAccounts, AppError>) -> (r: Option<
        (PoolBuild, BuildAction),
    >)
        ensures
            match reloaded_accounts(parsed) {
                Some(accounts) => {
                    &&& r matches Some((build, action))
                    &&& (build@, action) == BuildView::begin(self.region, accounts)
                    &&& build.accounts@ == accounts
                    &&& build@.well_formed(self.region, accounts)
                },
                None => r is None,
            },
    {
        match parsed {
            Ok(parsed) => if parsed.accounts.len() == 0 || should_wait_for_complete_parse(
                parsed.complete,
            ) {
                None
            } else {
                Some(self.build_session_pool(parsed.accounts))
            },
            Err(_) => None,
        }
    }

    /// How a reload ends: the sessions of the accounts that were kept take the
    /// place of the old ones, and the first of them is the next to be handed
    /// out. Where none was kept, everything stays as it is.
    pub fn finish_reload(&mut self, build: &PoolBuild, sessions: &Vec<Arc<S>>) -> (r:
        SessionPoolReplacement)
        requires
            build@.well_formed(old(self).region, build.accounts@),
            sessions@.len() == build.accounts@.len(),
        ensures
            build.kept@.len() == 0 ==> {
                &&& r == SessionPoolReplacement::EmptyCandidate {
                    active: old(self).pool.sessions@.len() as usize,
                }
                &&& *final(self) == *old(self)
            },
            build.kept@.len() > 0 ==> {
                &&& r == SessionPoolReplacement::Replaced { active: build.kept@.len() as usize }
                &&& final(self).pool.session_index == 0
                &&& final(self).pool.sessions@.len() == build.kept@.len()
                &&& forall|k: int|
                    0 <= k < build.kept@.len() ==> {
                        let pooled = #[trigger] final(self).pool.sessions@[k];
                        &&& pooled.session == sessions@[build.kept@[k] as int]
                        &&& texts(pooled.proxy_roles@)
                            == build.accounts@[build.kept@[k] as int].details().proxy_roles
                    }
                &&& *final(self) == (SekaiClient { pool: final(self).pool, ..*old(self) })
            },
            old(self).pool.sessions@.len() > 0 ==> final(self).pool.sessions@.len() > 0,
    {
        proof {
            assert forall|k: int| 0 <= k < build.kept@.len() implies (#[trigger] build.kept@[k])
                < build.accounts@.len() by {
                assert(build@.kept[k] < build@.index);
            }
        }
        let new_sessions = kept_sessions(build, sessions);
        self.replace_sessions(new_sessions)
    }
}

/// Accounts of which some were left out never lead to new sessions.
pub proof fn incomplete_accounts_are_not_taken_over(parsed: ParsedAccounts)
    requires
        !parsed.complete,
    ensures
        reloaded_accounts(Ok(parsed)) is None,
{
}

/// The accounts that were read are taken over, all of them, exactly where there
/// are any and none was left out.
pub proof fn complete_accounts_are_taken_over(parsed: ParsedAccounts, e: AppError)
    ensures
        parsed.complete && parsed.accounts@.len() > 0 ==> reloaded_accounts(Ok(parsed)) == Some(
            parsed.accounts@,
        ),
        !parsed.complete || parsed.accounts@.len() == 0 ==> reloaded_accounts(Ok(parsed)) is None,
        reloaded_accounts(Err(e)) is None,
{
}

} // verus!

//! The life of the shared connection pool: opened once, lent out while it
//! is open, closed once under a deadline.

use vstd::prelude::*;
use crate::configs::shutdown::{bounded_wait, wait_end, Ended, Wait};

verus! {

/// How many connections the pool holds where nothing else is configured.
pub const DEFAULT_MAX_CONNECTIONS: u32 = 100;

/// How many seconds the pool is given to close.
pub const CLOSE_DEADLINE_SECS: u32 = 15;

/// Where the pool stands.
#[derive(Clone, Copy, Debug, PartialEq, Eq, Structural)]
pub enum PoolState {
    /// Nobody has asked for the pool yet.
    Uninitialized,
    /// The pool lends out connections.
    Open,
    /// A close is under way.
    Closing,
    /// Every connection is closed, or the close was given up.
    Closed,
}

/// Why no connection can be had.
#[derive(Clone, Copy, Debug, PartialEq, Eq, Structural)]
pub enum PoolError {
    /// The pool was never opened.
    NotInitialized,
    /// The pool is closing or closed.
    Closed,
}

/// What a caller of `close` finds.
#[derive(Clone, Copy, Debug, PartialEq, Eq, Structural)]
pub enum CloseTicket {
    /// This call began the close; the caller drives it.
    Started,
    /// A close is already under way; the caller waits for that one.
    InProgress,
    /// There is nothing left to close.
    Done,
}

/// The handle of the shared pool.
#[derive(Clone, Copy, Debug, PartialEq, Eq, Structural)]
pub struct Database {
    pub state: PoolState,
    pub max_connections: u32,
    /// How many times a pool was actually created.
    pub created: u32,
}

impl Database {
    /// The pool was created at most once, and exactly once if it was ever
    /// opened.
    pub open spec fn wf(&self) -> bool {
        if self.state == PoolState::Uninitialized {
            self.created == 0
        } else {
            self.created == 1
        }
    }

    /// Decides whether the handle is one that the functions of this module
    /// can have made.
    pub fn is_wf(&self) -> (r: bool)
        ensures
            r == self.wf(),
    {
        match self.state {
            PoolState::Uninitialized => self.created == 0,
            _ => self.created == 1,
        }
    }

    /// The handle before its first use.
    pub fn new() -> (db: Database)
        ensures
            db.state == PoolState::Uninitialized,
            db.created == 0,
            db.wf(),
    {
        Database { state: PoolState::Uninitialized, max_connections: 0, created: 0 }
    }

    /// Opens the pool on first use, with `max_connections` or the default
    /// where none is configured. Every later call finds the pool that the
    /// first one made and changes nothing. Returns whether this call made
    /// the pool.
    pub fn init(&mut self, max_connections: Option<u32>) -> (made: bool)
        requires
            old(self).wf(),
        ensures
            final(self).wf(),
            made <==> old(self).state == PoolState::Uninitialized,
            made ==> final(self).state == PoolState::Open && final(self).max_connections == (
            match max_connections {
                Some(max) => max,
                None => DEFAULT_MAX_CONNECTIONS,
            }),
            !made ==> *final(self) == *old(self),
    {
        match self.state {
            PoolState::Uninitialized => {
                self.state = PoolState::Open;
                self.max_connections = match max_connections {
                    Some(max) => max,
                    None => DEFAULT_MAX_CONNECTIONS,
                };
                self.created = 1;
                true
            },
            _ => false,
        }
    }

    /// Whether a connection can be lent out: only while the pool is open.
    pub fn get_pool(&self) -> (r: Result<u32, PoolError>)
        ensures
            self.state == PoolState::Open ==> r == Ok::<u32, PoolError>(self.max_connections),
            self.state == PoolState::Uninitialized ==> r == Err::<u32, PoolError>(
                PoolError::NotInitialized,
            ),
            self.state == PoolState::Closing || self.state == PoolState::Closed ==> r == Err::<
                u32,
                PoolError,
            >(PoolError::Closed),
    {
        match self.state {
            PoolState::Open => Ok(self.max_connections),
            PoolState::Uninitialized => Err(PoolError::NotInitialized),
            _ => Err(PoolError::Closed),
        }
    }

    /// Asks for the pool to be closed. The first caller on an open pool
    /// begins the close. A caller that comes while a close is under way
    /// joins it, and one that comes later, or to a pool that was never
    /// opened, finds nothing to do: the pool is closed once.
    pub fn close(&mut self) -> (ticket: CloseTicket)
        requires
            old(self).wf(),
        ensures
            final(self).wf(),
            final(self).max_connections == old(self).max_connections,
            final(self).created == old(self).created,
            old(self).state == PoolState::Open ==> ticket == CloseTicket::Started && final(self).state == PoolState::Closing,
            old(self).state == PoolState::Closing ==> ticket == CloseTicket::InProgress && final(self).state == PoolState::Closing,
            old(self).state == PoolState::Closed || old(self).state == PoolState::Uninitialized
                ==> ticket == CloseTicket::Done && final(self).state == old(self).state,
    {
        match self.state {
            PoolState::Open => {
                self.state = PoolState::Closing;
                CloseTicket::Started
            },
            PoolState::Closing => CloseTicket::InProgress,
            _ => CloseTicket::Done,
        }
    }

    /// The close that was under way is over, because every connection is
    /// closed or because its deadline came. In any other state nothing
    /// changes.
    pub fn closed(&mut self)
        requires
            old(self).wf(),
        ensures
            final(self).wf(),
            final(self).max_connections == old(self).max_connections,
            final(self).created == old(self).created,
            old(self).state == PoolState::Closing ==> final(self).state == PoolState::Closed,
            old(self).state != PoolState::Closing ==> final(self).state == old(self).state,
    {
        match self.state {
            PoolState::Closing => {
                self.state = PoolState::Closed;
            },
            _ => {},
        }
    }

    /// Closes the pool and waits for it, at most [`CLOSE_DEADLINE_SECS`]:
    /// `close_secs` is the time that the pool needs to close, if it ever
    /// does. A caller who began or joined a close waits for it under the
    /// deadline; where there was nothing to close, nobody waits. After the
    /// wait the pool lends out nothing.
    pub fn disconnect(&mut self, close_secs: Option<u64>) -> (r: Ended)
        requires
            old(self).wf(),
        ensures
            final(self).wf(),
            final(self).created == old(self).created,
            final(self).max_connections == old(self).max_connections,
            r.after_secs <= CLOSE_DEADLINE_SECS,
            old(self).state == PoolState::Open || old(self).state == PoolState::Closing ==> r
                == wait_end(close_secs, CLOSE_DEADLINE_SECS) && final(self).state
                == PoolState::Closed,
            old(self).state == PoolState::Closed || old(self).state == PoolState::Uninitialized
                ==> r == (Ended { how: Wait::Completed, after_secs: 0 }) && final(self).state
                == old(self).state,
    {
        match self.close() {
            CloseTicket::Done => Ended { how: Wait::Completed, after_secs: 0 },
            _ => {
                let ended = bounded_wait(close_secs, CLOSE_DEADLINE_SECS);
                self.closed();
                ended
            },
        }
    }
}

} // verus!

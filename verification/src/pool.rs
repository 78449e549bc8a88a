//! The bounded connection pool: it owns up to `max_connections` live
//! connections to the store, hands one out on demand and takes it back when
//! the operation is done.

use vstd::prelude::*;
use crate::errors::DataError;

verus! {

/// A connection checked out of the pool. The holder uses it for exactly one
/// operation and must hand it back through `Pool::release`; ownership makes
/// a double release impossible.
pub struct Connection {
    /// Whether the connection passed its liveness check on checkout.
    pub live: bool,
}

/// A bounded pool of store connections. `idle` counts the connections that
/// sit ready for reuse, `in_use` the ones checked out right now; together
/// they never exceed `max_connections`.
pub struct Pool {
    pub max_connections: u32,
    pub test_on_checkout: bool,
    pub idle: u32,
    pub in_use: u32,
}

impl Pool {
    /// The counts stay within the configured bound.
    pub open spec fn wf(&self) -> bool {
        self.idle + self.in_use <= self.max_connections
    }

    /// The configuration is untouched.
    pub open spec fn same_config(p0: Pool, p1: Pool) -> bool {
        &&& p1.max_connections == p0.max_connections
        &&& p1.test_on_checkout == p0.test_on_checkout
    }

    /// How a pool looks after one operation acquired a connection and
    /// released it again: nothing stays checked out, and at most one fresh
    /// connection was created and joined the idle set.
    pub open spec fn round_trip(p0: Pool, p1: Pool) -> bool {
        &&& Pool::same_config(p0, p1)
        &&& p1.in_use == p0.in_use
        &&& p1.idle == if p0.idle > 0 { p0.idle as int } else { p0.idle + 1 }
    }

    /// A fresh pool: configured, with no connection opened yet.
    pub fn new(max_connections: u32, test_on_checkout: bool) -> (p: Pool)
        ensures
            p.wf(),
            p.max_connections == max_connections,
            p.test_on_checkout == test_on_checkout,
            p.idle == 0,
            p.in_use == 0,
    {
        Pool { max_connections, test_on_checkout, idle: 0, in_use: 0 }
    }

    /// Check a connection out: reuse an idle one, or open a fresh one while
    /// the pool is below its maximum; when every connection is checked out,
    /// the bounded wait ends in `PoolExhausted` and the pool is unchanged.
    pub fn acquire(&mut self) -> (r: Result<Connection, DataError>)
        requires
            old(self).wf(),
        ensures
            final(self).wf(),
            Pool::same_config(*old(self), *final(self)),
            old(self).in_use < old(self).max_connections ==> {
                &&& r matches Ok(c) && c.live
                &&& final(self).in_use == old(self).in_use + 1
                &&& final(self).idle == if old(self).idle > 0 {
                    old(self).idle - 1
                } else {
                    old(self).idle as int
                }
            },
            old(self).in_use == old(self).max_connections ==> {
                &&& r == Err::<Connection, DataError>(DataError::PoolExhausted)
                &&& *final(self) == *old(self)
            },
    {
        if self.idle > 0 {
            self.idle = self.idle - 1;
            self.in_use = self.in_use + 1;
            Ok(Connection { live: true })
        } else if self.in_use < self.max_connections {
            self.in_use = self.in_use + 1;
            Ok(Connection { live: true })
        } else {
            Err(DataError::PoolExhausted)
        }
    }

    /// Return a checked-out connection to the idle set for reuse.
    pub fn release(&mut self, c: Connection)
        requires
            old(self).wf(),
            old(self).in_use >= 1,
        ensures
            final(self).wf(),
            Pool::same_config(*old(self), *final(self)),
            final(self).in_use == old(self).in_use - 1,
            final(self).idle == old(self).idle + 1,
    {
        let _ = c;
        self.idle = self.idle + 1;
        self.in_use = self.in_use - 1;
    }
}

} // verus!

//! Named, fixed-capacity connection pools: a registry maps pool names to
//! pools, each pool lends its connections out one at a time through a scoped
//! guard and takes them back on release.
//!
//! The element type `C` is the connection handle; the registry never looks
//! inside one, it only moves them. Establishing a live connection is I/O and
//! happens outside this crate; callers hand the established handles in.
use vstd::prelude::*;
use vstd::pervasive::unreached;

use crate::status::{Status, StatusCodeConst};

verus! {

/// Errors of the pool and command layer.
#[derive(Debug, Clone)]
pub enum DbError {
    /// No pool is registered under the requested name.
    PoolNotFound,
    /// The pool has no connection available right now; callers fail fast
    /// rather than wait.
    PoolExhausted,
    /// Establishing the pool's connections failed; nothing was registered.
    ConnectionError,
    /// Executing a command failed; carries the command text.
    QueryError(String),
}

/// The human text of each error; a query failure carries its composed
/// message.
pub open spec fn db_error_text(e: DbError) -> Seq<char> {
    match e {
        DbError::PoolNotFound => "Pool not found"@,
        DbError::PoolExhausted => "Pool exhausted"@,
        DbError::ConnectionError => "Connection error"@,
        DbError::QueryError(m) => m@,
    }
}

/// The query-failure error for a command: its message names the command
/// text and the transport's detail, as the executor reports it.
pub fn query_error(cmd_text: &str, detail: &str) -> (e: DbError)
    ensures
        e matches DbError::QueryError(m) && m@ == "Failed to execute query '"@ + cmd_text@ + "': "@
            + detail@,
{
    let mut m = "Failed to execute query '".to_owned();
    m.append(cmd_text);
    m.append("': ");
    m.append(detail);
    DbError::QueryError(m)
}

impl DbError {
    /// Renders the error's human text.
    pub fn message(&self) -> (r: String)
        ensures
            r@ == db_error_text(*self),
    {
        match self {
            DbError::PoolNotFound => "Pool not found".to_owned(),
            DbError::PoolExhausted => "Pool exhausted".to_owned(),
            DbError::ConnectionError => "Connection error".to_owned(),
            DbError::QueryError(m) => m.clone(),
        }
    }

    /// The classified rejection for this error: a missing or exhausted pool
    /// and a failed establishment are fatal for the request (500-class); a
    /// query failure is reported against the request (400).
    pub fn to_status(&self) -> (r: Status)
        ensures
            !(*self is QueryError) ==> r.status == 500 && r.code@ == StatusCodeConst::SERVER_ERROR@
                && r.message@ == db_error_text(*self),
            *self is QueryError ==> r.status == 400 && r.code@ == StatusCodeConst::ERROR@
                && r.message@ == db_error_text(*self),
    {
        let text = self.message();
        match self {
            DbError::QueryError(_) => Status::bad_request(text.as_str()),
            _ => Status::server_error(text.as_str()),
        }
    }
}

/// The mathematical state of one pool: the connections resident in it, its
/// declared capacity, and how many connections are currently out on loan.
#[verifier::ext_equal]
pub struct PoolModel<C> {
    pub available: Seq<C>,
    pub capacity: nat,
    pub issued: nat,
}

/// A pool model is well formed when resident plus issued connections equal
/// the declared capacity, so no connection is duplicated or lost.
pub open spec fn model_wf<C>(p: PoolModel<C>) -> bool {
    p.available.len() + p.issued == p.capacity
}

/// What acquiring does to a pool: the last resident connection goes out on
/// loan; an empty pool is left unchanged and grants nothing.
pub open spec fn acquire_model<C>(p: PoolModel<C>) -> (Option<C>, PoolModel<C>) {
    if p.available.len() == 0 {
        (None, p)
    } else {
        (
            Some(p.available.last()),
            PoolModel {
                available: p.available.drop_last(),
                capacity: p.capacity,
                issued: p.issued + 1,
            },
        )
    }
}

/// What releasing a connection does to a pool: an outstanding loan comes
/// back; a pool with no loan outstanding drops the stray connection so the
/// capacity bound is kept.
pub open spec fn release_model<C>(p: PoolModel<C>, c: C) -> PoolModel<C> {
    if p.issued == 0 {
        p
    } else {
        PoolModel {
            available: p.available.push(c),
            capacity: p.capacity,
            issued: (p.issued - 1) as nat,
        }
    }
}

/// No more guards can be live for a pool than its capacity, and acquiring
/// grants a connection exactly when some loan is still free.
pub proof fn lemma_acquire_iff_capacity_free<C>(p: PoolModel<C>)
    requires
        model_wf(p),
    ensures
        p.issued <= p.capacity,
        acquire_model(p).0 is Some <==> p.issued < p.capacity,
        p.issued == p.capacity ==> acquire_model(p).0 is None,
{
}

/// Releasing a connection and then acquiring hands the very same connection
/// back and restores the pool's state: the round trip is the identity.
pub proof fn lemma_release_then_acquire<C>(p: PoolModel<C>, c: C)
    requires
        p.issued > 0,
    ensures
        acquire_model(release_model(p, c)).0 == Some(c),
        acquire_model(release_model(p, c)).1 =~= p,
{
    assert(p.available.push(c).drop_last() =~= p.available);
}

/// One registered pool: its name, the resident connections, the declared
/// capacity, and the count of connections out on loan.
struct PoolEntry<C> {
    name: String,
    available: Vec<C>,
    capacity: usize,
    issued: usize,
}

impl<C> PoolEntry<C> {
    spec fn model(self) -> PoolModel<C> {
        PoolModel {
            available: self.available@,
            capacity: self.capacity as nat,
            issued: self.issued as nat,
        }
    }
}

/// The registry of named pools.
pub struct DbManager<C> {
    pools: Vec<PoolEntry<C>>,
}

/// A scoped handle to one acquired connection. It holds the connection until
/// the connection is taken back, which happens at most once.
pub struct PooledClient<C> {
    pub name: String,
    pub client: Option<C>,
}

impl<C> PooledClient<C> {
    /// Borrows the held connection for the caller's use.
    pub fn client(&mut self) -> (r: &mut C)
        requires
            old(self).client is Some,
        ensures
            *r == old(self).client->Some_0,
            final(self).client == Some(*final(r)),
            final(self).name == old(self).name,
    {
        match &mut self.client {
            Some(c) => c,
            None => unreached(),
        }
    }

    /// Takes the held connection out; afterwards the guard holds none, so a
    /// connection can be surrendered at most once.
    pub fn take_client(&mut self) -> (r: Option<C>)
        ensures
            r == old(self).client,
            final(self).client is None,
            final(self).name == old(self).name,
    {
        self.client.take()
    }
}

impl<C> DbManager<C> {
    /// How many pools are registered.
    pub closed spec fn pool_count(self) -> nat {
        self.pools@.len()
    }

    /// Registered pool names are unique and every pool's resident plus
    /// issued connections equal its capacity.
    pub closed spec fn wf(self) -> bool {
        (forall|i: int, j: int|
            0 <= i < j < self.pools@.len() ==> (#[trigger] self.pools@[i]).name@ != (
            #[trigger] self.pools@[j]).name@) && (forall|i: int|
            0 <= i < self.pools@.len() ==> model_wf(#[trigger] self.pools@[i].model()))
    }

    /// Whether a pool is registered under this name.
    pub closed spec fn has_pool(self, name: Seq<char>) -> bool {
        exists|i: int| 0 <= i < self.pools@.len() && (#[trigger] self.pools@[i]).name@ == name
    }

    spec fn idx_of(self, name: Seq<char>) -> int {
        choose|i: int| 0 <= i < self.pools@.len() && (#[trigger] self.pools@[i]).name@ == name
    }

    /// The model of the pool registered under this name.
    pub closed spec fn pool_model(self, name: Seq<char>) -> PoolModel<C> {
        self.pools@[self.idx_of(name)].model()
    }

    /// Both states register the same pools, with the same state, for every
    /// name but the given one.
    pub open spec fn unchanged_except(pre: Self, post: Self, name: Seq<char>) -> bool {
        forall|n: Seq<char>|
            n != name ==> (pre.has_pool(n) == #[trigger] post.has_pool(n) && (pre.has_pool(n)
                ==> pre.pool_model(n) =~= post.pool_model(n)))
    }

    /// Every pool registered in a well-formed registry satisfies the pool
    /// invariant, so no pool can ever have more guards live than its
    /// capacity.
    pub proof fn lemma_pool_model_wf(self, name: Seq<char>)
        requires
            self.wf(),
            self.has_pool(name),
        ensures
            model_wf(self.pool_model(name)),
            self.pool_model(name).issued <= self.pool_model(name).capacity,
    {
        let i = self.idx_of(name);
        assert(0 <= i < self.pools@.len() && self.pools@[i].name@ == name);
        assert(model_wf(self.pools@[i].model()));
    }

    proof fn lemma_at_index(self, i: int)
        requires
            self.wf(),
            0 <= i < self.pools@.len(),
        ensures
            self.has_pool(self.pools@[i].name@),
            self.idx_of(self.pools@[i].name@) == i,
    {
        let name = self.pools@[i].name@;
        assert(self.has_pool(name));
        let j = self.idx_of(name);
        if j < i {
            assert(self.pools@[j].name@ != self.pools@[i].name@);
        } else if j > i {
            assert(self.pools@[i].name@ != self.pools@[j].name@);
        }
    }

    proof fn lemma_update_entry(pre: Self, post: Self, i: int)
        requires
            pre.wf(),
            0 <= i < pre.pools@.len(),
            post.pools@ =~= pre.pools@.update(i, post.pools@[i]),
            post.pools@[i].name@ == pre.pools@[i].name@,
            model_wf(post.pools@[i].model()),
        ensures
            post.wf(),
            post.has_pool(pre.pools@[i].name@),
            post.pool_model(pre.pools@[i].name@) == post.pools@[i].model(),
            Self::unchanged_except(pre, post, pre.pools@[i].name@),
    {
        let name = pre.pools@[i].name@;
        assert forall|a: int, b: int| 0 <= a < b < post.pools@.len() implies (
        #[trigger] post.pools@[a]).name@ != (#[trigger] post.pools@[b]).name@ by {
            assert(post.pools@[a].name@ == pre.pools@[a].name@);
            assert(post.pools@[b].name@ == pre.pools@[b].name@);
        }
        assert forall|a: int| 0 <= a < post.pools@.len() implies model_wf(
            #[trigger] post.pools@[a].model(),
        ) by {
            if a != i {
                assert(post.pools@[a] == pre.pools@[a]);
            }
        }
        post.lemma_at_index(i);
        assert forall|n: Seq<char>| n != name implies (pre.has_pool(n) == #[trigger] post.has_pool(
            n,
        ) && (pre.has_pool(n) ==> pre.pool_model(n) =~= post.pool_model(n))) by {
            if pre.has_pool(n) {
                let j = pre.idx_of(n);
                assert(0 <= j < pre.pools@.len() && pre.pools@[j].name@ == n);
                assert(j != i);
                assert(post.pools@[j] == pre.pools@[j]);
                pre.lemma_at_index(j);
                post.lemma_at_index(j);
            } else if post.has_pool(n) {
                let j = post.idx_of(n);
                assert(0 <= j < post.pools@.len() && post.pools@[j].name@ == n);
                assert(j != i);
                assert(post.pools@[j] == pre.pools@[j]);
                assert(pre.has_pool(n));
            }
        }
    }

    proof fn lemma_push_entry(pre: Self, post: Self)
        requires
            pre.wf(),
            post.pools@.len() == pre.pools@.len() + 1,
            post.pools@ =~= pre.pools@.push(post.pools@.last()),
            !pre.has_pool(post.pools@.last().name@),
            model_wf(post.pools@.last().model()),
        ensures
            post.wf(),
            post.has_pool(post.pools@.last().name@),
            post.pool_model(post.pools@.last().name@) == post.pools@.last().model(),
            Self::unchanged_except(pre, post, post.pools@.last().name@),
    {
        let name = post.pools@.last().name@;
        let k = pre.pools@.len() as int;
        assert forall|a: int, b: int| 0 <= a < b < post.pools@.len() implies (
        #[trigger] post.pools@[a]).name@ != (#[trigger] post.pools@[b]).name@ by {
            if b < k {
                assert(post.pools@[a] == pre.pools@[a]);
                assert(post.pools@[b] == pre.pools@[b]);
            } else {
                assert(post.pools@[a] == pre.pools@[a]);
                assert(post.pools@[b].name@ == name);
            }
        }
        assert forall|a: int| 0 <= a < post.pools@.len() implies model_wf(
            #[trigger] post.pools@[a].model(),
        ) by {
            if a < k {
                assert(post.pools@[a] == pre.pools@[a]);
            }
        }
        post.lemma_at_index(k);
        assert forall|n: Seq<char>| n != name implies (pre.has_pool(n) == #[trigger] post.has_pool(
            n,
        ) && (pre.has_pool(n) ==> pre.pool_model(n) =~= post.pool_model(n))) by {
            if pre.has_pool(n) {
                let j = pre.idx_of(n);
                assert(0 <= j < pre.pools@.len() && pre.pools@[j].name@ == n);
                assert(post.pools@[j] == pre.pools@[j]);
                pre.lemma_at_index(j);
                post.lemma_at_index(j);
            } else if post.has_pool(n) {
                let j = post.idx_of(n);
                assert(0 <= j < post.pools@.len() && post.pools@[j].name@ == n);
                assert(j != k);
                assert(post.pools@[j] == pre.pools@[j]);
                assert(pre.has_pool(n));
            }
        }
    }

    /// A fresh registry with no pools.
    pub fn new() -> (r: Self)
        ensures
            r.wf(),
            forall|n: Seq<char>| !r.has_pool(n),
            r.pool_count() == 0,
    {
        DbManager { pools: Vec::new() }
    }

    fn find_pool_index(&self, name: &String) -> (r: Option<usize>)
        ensures
            match r {
                Some(i) => i < self.pools@.len() && self.pools@[i as int].name@ == name@,
                None => !self.has_pool(name@),
            },
    {
        let mut i: usize = 0;
        while i < self.pools.len()
            invariant
                i <= self.pools@.len(),
                forall|j: int| 0 <= j < i ==> (#[trigger] self.pools@[j]).name@ != name@,
            decreases self.pools@.len() - i,
        {
            if self.pools[i].name == *name {
                return Some(i);
            }
            i = i + 1;
        }
        None
    }

    /// Whether a pool is registered under this name, so that callers can
    /// skip establishing connections for a name that is already served.
    pub fn contains_pool(&self, pool_name: &str) -> (r: bool)
        ensures
            r == self.has_pool(pool_name@),
    {
        let name = pool_name.to_owned();
        match self.find_pool_index(&name) {
            Some(_) => true,
            None => false,
        }
    }

    /// Registers a pool of the given capacity under a name, taking the
    /// already-established connections. If the name is already registered
    /// this is a no-op that succeeds; nothing is inspected or replaced.
    /// Handing in fewer connections than the requested capacity means some
    /// connection attempt failed: the whole initialization is abandoned and
    /// nothing is registered.
    pub fn init_pool(&mut self, pool_name: &str, connections: Vec<C>, pool_size: usize) -> (r:
        Result<(), DbError>)
        requires
            old(self).wf(),
            !old(self).has_pool(pool_name@) ==> connections@.len() <= pool_size,
        ensures
            final(self).wf(),
            old(self).has_pool(pool_name@) ==> r is Ok && *final(self) == *old(self),
            !old(self).has_pool(pool_name@) && connections@.len() < pool_size ==> (r matches Err(
                e,
            ) && e is ConnectionError) && *final(self) == *old(self),
            !old(self).has_pool(pool_name@) && connections@.len() == pool_size ==> r is Ok
                && final(self).has_pool(pool_name@) && final(self).pool_model(pool_name@) =~= (
            PoolModel { available: connections@, capacity: pool_size as nat, issued: 0 })
                && Self::unchanged_except(*old(self), *final(self), pool_name@),
            final(self).has_pool(pool_name@) == (old(self).has_pool(pool_name@) || connections@.len()
                == pool_size),
    {
        let name = pool_name.to_owned();
        match self.find_pool_index(&name) {
            Some(i) => {
                proof {
                    old(self).lemma_at_index(i as int);
                }
                Ok(())
            },
            None => {
                if connections.len() < pool_size {
                    return Err(DbError::ConnectionError);
                }
                let ghost pre = *self;
                let entry = PoolEntry {
                    name,
                    available: connections,
                    capacity: pool_size,
                    issued: 0,
                };
                self.pools.push(entry);
                proof {
                    Self::lemma_push_entry(pre, *self);
                }
                Ok(())
            },
        }
    }

    /// Acquires a connection from the named pool, wrapped in a guard that
    /// remembers its origin. Fails fast with `PoolNotFound` for an unknown
    /// name and `PoolExhausted` when every connection is out on loan.
    pub fn get_client(&mut self, pool_name: &str) -> (r: Result<PooledClient<C>, DbError>)
        requires
            old(self).wf(),
        ensures
            final(self).wf(),
            !old(self).has_pool(pool_name@) ==> (r matches Err(e) && e is PoolNotFound)
                && *final(self) == *old(self),
            old(self).has_pool(pool_name@) && acquire_model(old(self).pool_model(pool_name@)).0
                is None ==> (r matches Err(e) && e is PoolExhausted) && *final(self) == *old(self),
            old(self).has_pool(pool_name@) && acquire_model(old(self).pool_model(pool_name@)).0
                is Some ==> (r matches Ok(g) && g.name@ == pool_name@ && g.client == acquire_model(
                old(self).pool_model(pool_name@),
            ).0) && final(self).has_pool(pool_name@) && final(self).pool_model(pool_name@)
                =~= acquire_model(old(self).pool_model(pool_name@)).1 && Self::unchanged_except(
                *old(self),
                *final(self),
                pool_name@,
            ),
    {
        let name = pool_name.to_owned();
        let i = match self.find_pool_index(&name) {
            Some(i) => i,
            None => {
                return Err(DbError::PoolNotFound);
            },
        };
        proof {
            old(self).lemma_at_index(i as int);
        }
        if self.pools[i].available.len() == 0 {
            return Err(DbError::PoolExhausted);
        }
        let ghost pre = *self;
        proof {
            assert(model_wf(pre.pools@[i as int].model()));
        }
        let entry = &mut self.pools[i];
        let conn = match entry.available.pop() {
            Some(c) => c,
            None => unreached(),
        };
        entry.issued = entry.issued + 1;
        proof {
            Self::lemma_update_entry(pre, *self, i as int);
        }
        Ok(PooledClient { name, client: Some(conn) })
    }

    /// Takes the guard's connection back into its origin pool. The guard is
    /// emptied in every case, so the return happens at most once; a guard
    /// that no longer holds a connection is a no-op. If the origin pool is
    /// gone the connection is dropped and `PoolNotFound` reported; a
    /// connection beyond the pool's outstanding loans is dropped so the
    /// capacity bound is kept.
    pub fn return_client(&mut self, guard: &mut PooledClient<C>) -> (r: Result<(), DbError>)
        requires
            old(self).wf(),
        ensures
            final(self).wf(),
            final(guard).client is None,
            final(guard).name == old(guard).name,
            old(guard).client is None ==> r is Ok && *final(self) == *old(self),
            old(guard).client is Some && !old(self).has_pool(old(guard).name@) ==> (r matches Err(
                e,
            ) && e is PoolNotFound) && *final(self) == *old(self),
            old(guard).client is Some && old(self).has_pool(old(guard).name@) ==> r is Ok
                && final(self).has_pool(old(guard).name@) && final(self).pool_model(
                old(guard).name@,
            ) =~= release_model(old(self).pool_model(old(guard).name@), old(guard).client->Some_0)
                && Self::unchanged_except(*old(self), *final(self), old(guard).name@),
    {
        let conn = match guard.take_client() {
            Some(c) => c,
            None => {
                return Ok(());
            },
        };
        let i = match self.find_pool_index(&guard.name) {
            Some(i) => i,
            None => {
                return Err(DbError::PoolNotFound);
            },
        };
        proof {
            old(self).lemma_at_index(i as int);
        }
        if self.pools[i].issued == 0 {
            return Ok(());
        }
        let ghost pre = *self;
        proof {
            assert(model_wf(pre.pools@[i as int].model()));
        }
        let entry = &mut self.pools[i];
        entry.available.push(conn);
        entry.issued = entry.issued - 1;
        proof {
            Self::lemma_update_entry(pre, *self, i as int);
        }
        Ok(())
    }
}

} // verus!

//! A bounded pool of connections, for work that runs on several threads.
//!
//! The pool decides who may borrow which connection. Whoever shares it between
//! threads holds it under a lock, opens and closes the connections, and wakes
//! one waiting borrower after each [`Pool::release`] and
//! [`Pool::connect_failed`], and all of them after [`Pool::close`].

use crate::client::Client;
#[allow(unused_imports)]
use crate::client::{has_transaction, ClientView};
use crate::error::{Error, ErrorKind, Result};
#[allow(unused_imports)]
use crate::error::{is_fatal, plain, ErrorView};
#[allow(unused_imports)]
use crate::frame::FrameView;
use crate::options::Options;
#[allow(unused_imports)]
use crate::sql::{after_control, control_result, Control};
use vstd::prelude::*;

verus! {

/// A bounded pool of connections.
///
/// A [`Client`] is one request/response stream, so concurrency means one
/// connection per concurrent caller. Opening one per request costs a TCP
/// connect plus a handshake every time; a pool pays that once.
#[derive(Debug)]
#[verifier::reject_recursive_types(C)]
pub struct Pool<C> {
    options: Options,
    size: usize,
    idle: Vec<C>,
    lent: usize,
    closed: bool,
}

/// What a [`Pool`] holds.
#[verifier::ext_equal]
#[verifier::reject_recursive_types(C)]
pub struct PoolView<C> {
    pub options: Options,
    pub size: nat,
    pub idle: Seq<C>,
    pub lent: nat,
    pub closed: bool,
}

impl<C> View for Pool<C> {
    type V = PoolView<C>;

    closed spec fn view(&self) -> PoolView<C> {
        PoolView {
            options: self.options,
            size: self.size as nat,
            idle: self.idle@,
            lent: self.lent as nat,
            closed: self.closed,
        }
    }
}

/// A pool never holds more connections than its size, and has room for one.
pub open spec fn within_size<C>(p: PoolView<C>) -> bool {
    p.size > 0 && p.idle.len() + p.lent <= p.size
}

/// What a borrower is to do.
#[derive(Debug)]
pub enum Borrow<C> {
    /// Use this connection.
    Lent(C),
    /// Open a connection: a place is kept for it.
    Connect,
    /// Wait until a connection is released, then try again.
    Wait,
    /// Give up.
    Refused(Error),
}

/// How a wait for a free connection ended.
#[derive(Debug, Clone, Copy, PartialEq, Eq, Structural)]
pub enum WaitEnd {
    /// Somebody woke the borrower.
    Woken,
    /// The deadline came during the wait.
    TimedOut,
    /// The deadline had passed before the wait began.
    DeadlinePassed,
}

/// What a borrower is to do, and the pool after it.
pub open spec fn borrowed<C>(p: PoolView<C>, b: Borrow<C>) -> PoolView<C> {
    match b {
        Borrow::Lent(_) => PoolView { idle: p.idle.drop_last(), lent: p.lent + 1, ..p },
        Borrow::Connect => PoolView { lent: p.lent + 1, ..p },
        _ => p,
    }
}

/// Why a wait ends without a connection.
pub open spec fn none_free() -> ErrorView {
    plain(ErrorKind::Pool, "no pooled connection became free within the timeout"@)
}

impl<C> Pool<C> {
    #[verifier::type_invariant]
    spec fn well_formed(self) -> bool {
        self.size > 0 && self.idle@.len() + self.lent <= self.size
    }

    /// Build a pool holding at most `size` connections.
    ///
    /// Connections are opened as they are needed: a pool sized for peak load
    /// should not pay for peak load at startup.
    pub fn new(options: Options, size: usize) -> (r: Result<Pool<C>>)
        ensures
            match r {
                Ok(p) => size > 0 && p@ == (PoolView {
                    options,
                    size: size as nat,
                    idle: Seq::<C>::empty(),
                    lent: 0,
                    closed: false,
                }),
                Err(e) => size == 0 && e@ == plain(
                    ErrorKind::InvalidArgument,
                    "a pool needs room for at least one connection"@,
                ),
            },
    {
        if size == 0 {
            return Err(Error::invalid("a pool needs room for at least one connection"));
        }
        Ok(Pool { options, size, idle: Vec::new(), lent: 0, closed: false })
    }

    /// What every connection is opened with.
    pub fn options(&self) -> (o: &Options)
        ensures
            *o == self@.options,
    {
        &self.options
    }

    /// How many connections the pool may hold.
    pub fn size(&self) -> (n: usize)
        ensures
            n == self@.size,
    {
        self.size
    }

    /// How many connections are idle, and how many are lent out. Together they
    /// are never more than the pool's size.
    pub fn stats(&self) -> (r: (usize, usize))
        ensures
            r.0 == self@.idle.len(),
            r.1 == self@.lent,
            within_size(self@),
    {
        proof {
            use_type_invariant(self);
        }
        (self.idle.len(), self.lent)
    }

    /// Whether [`Pool::close`] has run.
    pub fn is_closed(&self) -> (b: bool)
        ensures
            b == self@.closed,
    {
        self.closed
    }

    /// Borrow a connection: an idle one first, and a new one only while the pool
    /// has room.
    ///
    /// The place of a new connection is counted before it is opened, so two
    /// threads cannot both decide there is room for the last one.
    pub fn acquire(&mut self) -> (r: Borrow<C>)
        ensures
            final(self)@ == borrowed(old(self)@, r),
            within_size(final(self)@),
            match r {
                Borrow::Refused(e) => old(self)@.closed && e@ == plain(
                    ErrorKind::Pool,
                    "this pool is closed"@,
                ),
                Borrow::Lent(c) => !old(self)@.closed && old(self)@.idle.len() > 0 && c == old(
                    self,
                )@.idle.last(),
                Borrow::Connect => !old(self)@.closed && old(self)@.idle.len() == 0 && old(self)@.lent
                    < old(self)@.size,
                Borrow::Wait => !old(self)@.closed && old(self)@.idle.len() == 0 && old(self)@.lent
                    == old(self)@.size,
            },
    {
        proof {
            use_type_invariant(&*self);
        }
        if self.closed {
            return Borrow::Refused(Error::new(ErrorKind::Pool, "this pool is closed"));
        }
        let mut idle: Vec<C> = Vec::new();
        std::mem::swap(&mut idle, &mut self.idle);
        let lent: usize = self.lent;
        let taken = idle.pop();
        match taken {
            Some(client) => {
                self.lent = lent + 1;
                self.idle = idle;
                Borrow::Lent(client)
            },
            None => {
                assert(self.idle@ =~= old(self)@.idle);
                if lent < self.size {
                    self.lent = lent + 1;
                    Borrow::Connect
                } else {
                    Borrow::Wait
                }
            },
        }
    }

    /// Whether a borrower that waited gives up, rather than the pool growing
    /// past its size — an unbounded pool does not fix overload, it moves it to
    /// the server.
    pub fn waited(&self, end: WaitEnd) -> (r: Option<Error>)
        ensures
            match r {
                Some(e) => e@ == none_free(),
                None => true,
            },
            r is Some <==> {
                ||| end == WaitEnd::DeadlinePassed
                ||| end == WaitEnd::TimedOut && self@.idle.len() == 0 && self@.lent >= self@.size
            },
    {
        let expired = match end {
            WaitEnd::Woken => false,
            WaitEnd::TimedOut => self.idle.len() == 0 && self.lent >= self.size,
            WaitEnd::DeadlinePassed => true,
        };
        if expired {
            Some(
                Error::new(
                    ErrorKind::Pool,
                    "no pooled connection became free within the timeout",
                ),
            )
        } else {
            None
        }
    }

    /// Give the place of a connection back that could not be opened.
    pub fn connect_failed(&mut self)
        requires
            old(self)@.lent > 0,
        ensures
            final(self)@ == (PoolView { lent: (old(self)@.lent - 1) as nat, ..old(self)@ }),
            within_size(final(self)@),
    {
        proof {
            use_type_invariant(&*self);
        }
        self.lent = self.lent - 1;
    }

    /// Take a connection back. A broken one is not kept, nor is any once the
    /// pool is closed: it is returned, to be closed.
    pub fn release(&mut self, client: C, broken: bool) -> (r: Option<C>)
        requires
            old(self)@.lent > 0,
        ensures
            within_size(final(self)@),
            if broken || old(self)@.closed {
                r == Some(client) && final(self)@ == (PoolView {
                    lent: (old(self)@.lent - 1) as nat,
                    ..old(self)@
                })
            } else {
                r is None && final(self)@ == (PoolView {
                    lent: (old(self)@.lent - 1) as nat,
                    idle: old(self)@.idle.push(client),
                    ..old(self)@
                })
            },
    {
        proof {
            use_type_invariant(&*self);
        }
        self.lent = self.lent - 1;
        if broken || self.closed {
            Some(client)
        } else {
            let mut idle: Vec<C> = Vec::new();
            std::mem::swap(&mut idle, &mut self.idle);
            idle.push(client);
            self.idle = idle;
            None
        }
    }

    /// Refuse new borrowing, and return every idle connection, to be closed.
    /// Connections currently lent out close when they come back.
    pub fn close(&mut self) -> (r: Vec<C>)
        ensures
            r@ == old(self)@.idle,
            final(self)@ == (PoolView { closed: true, idle: Seq::<C>::empty(), ..old(self)@ }),
    {
        proof {
            use_type_invariant(&*self);
        }
        let mut idle: Vec<C> = Vec::new();
        std::mem::swap(&mut idle, &mut self.idle);
        self.closed = true;
        idle
    }
}

/// What becomes of a connection once the work on it is done.
#[derive(Debug, Clone, Copy, PartialEq, Eq, Structural)]
pub enum Verdict {
    /// It goes back into the pool.
    Keep,
    /// It is closed.
    Retire,
    /// Its transaction is rolled back first; it is closed if that fails.
    RollBack,
}

impl Verdict {
    /// Whether the connection is closed rather than taken back; `rolled_back`
    /// says whether its rollback succeeded, if it needed one. A rollback that
    /// failed leaves a session whose state no next borrower can assume anything
    /// about.
    pub fn is_broken(self, rolled_back: bool) -> (b: bool)
        ensures
            b == (match self {
                Verdict::Keep => false,
                Verdict::Retire => true,
                Verdict::RollBack => !rolled_back,
            }),
    {
        match self {
            Verdict::Keep => false,
            Verdict::Retire => true,
            Verdict::RollBack => !rolled_back,
        }
    }
}

/// What becomes of a connection: one that is broken is closed, and one with a
/// transaction still open is not handed to the next borrower.
pub open spec fn verdict(c: ClientView, error: Option<ErrorView>) -> Verdict {
    if c.fault is Some || (error matches Some(e) && is_fatal(e.kind)) {
        Verdict::Retire
    } else if has_transaction(c) {
        Verdict::RollBack
    } else {
        Verdict::Keep
    }
}

/// Decide what becomes of a connection once the work on it is done; `outcome`
/// is what the work returned.
pub fn judge<T>(client: &Client, outcome: &Result<T>) -> (r: Verdict)
    ensures
        r == verdict(
            client@,
            match *outcome {
                Ok(_) => None,
                Err(e) => Some(e@),
            },
        ),
{
    let mut broken = client.is_poisoned();
    match outcome {
        Ok(_) => {},
        Err(e) => {
            broken = broken || e.is_connection_fatal();
        },
    }
    if broken {
        Verdict::Retire
    } else if client.in_transaction() {
        Verdict::RollBack
    } else {
        Verdict::Keep
    }
}

/// The report of work that left a transaction open.
pub open spec fn left_open() -> ErrorView {
    plain(
        ErrorKind::TransactionLeftOpen,
        "the closure returned with a transaction still open on the pooled connection; it has been rolled back rather than handed to the next borrower. Commit or roll back inside the closure, or use Client::with_transaction"@,
    )
}

/// What a borrower learns of its work: its own error, the report of a
/// transaction it left open, or its result.
pub fn work_outcome<T>(outcome: Result<T>, verdict: Verdict) -> (r: Result<T>)
    ensures
        match outcome {
            Err(e) => r == Err::<T, Error>(e),
            Ok(x) => if verdict == Verdict::RollBack {
                r is Err && r->Err_0@ == left_open()
            } else {
                r == Ok::<T, Error>(x)
            },
        },
{
    match outcome {
        Err(e) => Err(e),
        Ok(x) => {
            if verdict == Verdict::RollBack {
                Err(
                    Error::new(
                        ErrorKind::TransactionLeftOpen,
                        "the closure returned with a transaction still open on the pooled connection; it has been rolled back rather than handed to the next borrower. Commit or roll back inside the closure, or use Client::with_transaction",
                    ),
                )
            } else {
                Ok(x)
            }
        },
    }
}

/// A connection never goes back into the pool with a transaction open or with a
/// broken stream: neither one that is kept as it is, nor one whose transaction
/// was rolled back.
pub proof fn a_connection_goes_back_clean(
    c: ClientView,
    error: Option<ErrorView>,
    reply: std::result::Result<FrameView, ErrorView>,
)
    ensures
        verdict(c, error) == Verdict::Keep ==> !has_transaction(c) && c.fault is None,
        verdict(c, error) == Verdict::RollBack && control_result(Control::Rollback, reply) is Ok ==> {
            let after = after_control(c, Control::Rollback, reply);
            !has_transaction(after) && after.fault is None
        },
{
}

/// A connection that could not be opened leaves the pool as it was before the
/// borrowing began.
pub proof fn a_failed_connect_gives_the_place_back<C>(p: PoolView<C>)
    ensures
        (PoolView { lent: (borrowed(p, Borrow::Connect).lent - 1) as nat, ..borrowed(
            p,
            Borrow::Connect,
        ) }) == p,
{
}

/// A connection is kept exactly when nothing is wrong with it and no transaction is
/// open on it, and only an open transaction is a reason to roll back.
pub proof fn a_connection_is_kept_when_nothing_is_wrong(c: ClientView, error: Option<ErrorView>)
    ensures
        c.fault is Some ==> verdict(c, error) == Verdict::Retire,
        error matches Some(e) ==> is_fatal(e.kind) ==> verdict(c, error) == Verdict::Retire,
        c.fault is None && (error matches Some(e) ==> !is_fatal(e.kind)) ==> verdict(c, error)
            == if has_transaction(c) {
            Verdict::RollBack
        } else {
            Verdict::Keep
        },
{
}

/// A connection that is lent leaves the idle ones, one that is still to be opened
/// takes a place, and no other answer changes the pool.
pub proof fn lending_counts_every_connection<C>(p: PoolView<C>, c: C, idle: Seq<C>)
    requires
        p.idle == idle.push(c),
    ensures
        borrowed(p, Borrow::Lent(c)).idle == idle,
        borrowed(p, Borrow::Lent(c)).lent == p.lent + 1,
        borrowed(p, Borrow::Lent(c)).size == p.size,
        borrowed(p, Borrow::Lent(c)).closed == p.closed,
        borrowed(p, Borrow::Lent(c)).options == p.options,
        borrowed(p, Borrow::<C>::Connect) == (PoolView { lent: p.lent + 1, ..p }),
        borrowed(p, Borrow::<C>::Wait) == p,
        forall|e: Error| #[trigger] borrowed(p, Borrow::<C>::Refused(e)) == p,
        within_size(p) <==> p.size > 0 && idle.len() + 1 + p.lent <= p.size,
        within_size(p) ==> within_size(borrowed(p, Borrow::Lent(c))),
{
    assert(idle.push(c).drop_last() =~= idle);
}

/// What the pool itself refuses is told by its own kind of error.
pub proof fn the_pool_refuses_in_its_own_words()
    ensures
        none_free().kind == ErrorKind::Pool,
        none_free().message == "no pooled connection became free within the timeout"@,
        left_open().kind == ErrorKind::TransactionLeftOpen,
        !is_fatal(left_open().kind),
{
}

/// A pool is seen as it is.
proof fn a_pool_is_seen_as_it_is<C>(p: Pool<C>)
    ensures
        p@.options == p.options,
        p@.size == p.size,
        p@.idle == p.idle@,
        p@.lent == p.lent,
        p@.closed == p.closed,
{
}

/// What `acquire` decides: a closed pool refuses, an idle connection is lent, a free
/// place is kept for a new one, and a full pool makes the caller wait.
pub proof fn a_pool_lends_what_it_has<C>(p: &mut Pool<C>, r: Borrow<C>)
    requires
        call_ensures(Pool::<C>::acquire, (p,), r),
    ensures
        old(p)@.closed <==> r is Refused,
        r matches Borrow::Refused(e) ==> e@ == plain(ErrorKind::Pool, "this pool is closed"@)
            && final(p)@ == old(p)@,
        r matches Borrow::Lent(c) ==> old(p)@.idle.len() > 0 && c == old(p)@.idle.last()
            && final(p)@.idle == old(p)@.idle.drop_last() && final(p)@.lent == old(p)@.lent + 1,
        r is Connect ==> old(p)@.idle.len() == 0 && final(p)@.lent == old(p)@.lent + 1
            && final(p)@.idle == old(p)@.idle,
        r is Wait ==> old(p)@.idle.len() == 0 && old(p)@.lent == old(p)@.size && final(p)@
            == old(p)@,
        !old(p)@.closed && old(p)@.idle.len() > 0 ==> r is Lent,
        final(p)@.idle.len() + final(p)@.lent <= final(p)@.size,
{
}

/// What two calls have to do with one another: a connection that is lent and given back
/// whole leaves the pool as it was.
pub proof fn a_connection_that_comes_back_is_idle_again<C>(
    p: &mut Pool<C>,
    q: &mut Pool<C>,
    c: C,
    r: Option<C>,
)
    requires
        call_ensures(Pool::<C>::acquire, (p,), Borrow::Lent(c)),
        *old(q) == *final(p),
        call_ensures(Pool::<C>::release, (q, c, false), r),
    ensures
        r is None,
        final(q)@ == old(p)@,
{
    assert(old(p)@.idle.drop_last().push(c) =~= old(p)@.idle);
}

/// What `release`, `connect_failed` and `close` do to the pool.
pub proof fn a_pool_takes_back_what_it_lent<C>(
    p: &mut Pool<C>,
    c: C,
    broken: bool,
    r: Option<C>,
    idle: Vec<C>,
)
    ensures
        call_ensures(Pool::<C>::release, (p, c, broken), r) && old(p)@.lent > 0 ==> final(p)@.lent
            == old(p)@.lent - 1 && final(p)@.closed == old(p)@.closed,
        call_ensures(Pool::<C>::release, (p, c, broken), r) && (broken || old(p)@.closed) ==> r
            == Some(c) && final(p)@.idle == old(p)@.idle,
        call_ensures(Pool::<C>::release, (p, c, broken), r) && !broken && !old(p)@.closed ==> r
            is None && final(p)@.idle == old(p)@.idle.push(c),
        call_ensures(Pool::<C>::connect_failed, (p,), ()) && old(p)@.lent > 0 ==> final(p)@.lent
            == old(p)@.lent - 1 && final(p)@.idle == old(p)@.idle,
        call_ensures(Pool::<C>::close, (p,), idle) ==> idle@ == old(p)@.idle && final(p)@.closed
            && final(p)@.idle.len() == 0 && final(p)@.lent == old(p)@.lent,
{
}

/// What a pool begins as, and what it tells of itself.
pub proof fn a_pool_begins_empty<C>(
    options: Options,
    size: usize,
    r: Result<Pool<C>>,
    p: &Pool<C>,
    n: (usize, usize),
)
    ensures
        call_ensures(Pool::<C>::new, (options, size), r) ==> (r is Ok <==> size > 0),
        call_ensures(Pool::<C>::new, (options, size), r) ==> (r matches Ok(made) ==> {
            &&& made@.options == options
            &&& made@.size == size
            &&& made@.idle.len() == 0
            &&& made@.lent == 0
            &&& !made@.closed
        }),
        call_ensures(Pool::<C>::stats, (p,), n) ==> n.0 == p@.idle.len() && n.1 == p@.lent,
{
}

/// What the pool makes of a connection that comes back, and of the work done on it.
pub proof fn work_on_a_pooled_connection_is_judged(
    c: &Client,
    work: Result<u64>,
    v: Verdict,
    rolled_back: bool,
    b: bool,
    r: Result<u64>,
)
    ensures
        call_ensures(judge::<u64>, (c, &work), v) ==> v == verdict(
            c@,
            match work {
                Ok(_) => None,
                Err(e) => Some(e@),
            },
        ),
        call_ensures(Verdict::is_broken, (v, rolled_back), b) ==> (b <==> v == Verdict::Retire || v
            == Verdict::RollBack && !rolled_back),
        call_ensures(work_outcome::<u64>, (work, v), r) ==> (work matches Err(e) ==> r == Err::<
            u64,
            Error,
        >(e)),
        call_ensures(work_outcome::<u64>, (work, v), r) && work is Ok && v != Verdict::RollBack
            ==> r == work,
        call_ensures(work_outcome::<u64>, (work, v), r)
            && work is Ok && v == Verdict::RollBack ==> r
            is Err && r->Err_0@.kind == ErrorKind::TransactionLeftOpen,
{
}

/// What the end of a wait means: only a deadline that passed, or a last try that found
/// the pool full, gives up.
pub proof fn a_wait_gives_up_when_nothing_is_free<C>(p: &Pool<C>, end: WaitEnd, r: Option<Error>)
    requires
        call_ensures(Pool::<C>::waited, (p, end), r),
    ensures
        end == WaitEnd::DeadlinePassed ==> r is Some,
        end == WaitEnd::TimedOut ==> (r is Some <==> p@.idle.len() == 0 && p@.lent >= p@.size),
        end != WaitEnd::DeadlinePassed && end != WaitEnd::TimedOut ==> r is None,
        r matches Some(e) ==> e@.kind == ErrorKind::Pool,
{
}

} // verus!

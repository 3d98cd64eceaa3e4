//! The pool of automation-server slots: leasing a slot for a session, and
//! taking it back whatever became of the session.

use crate::config::DriverConfig;
use crate::seqs::{first_where, is_first, lemma_first_absent, lemma_first_found};
use vstd::multiset::Multiset;
use vstd::prelude::*;
use vstd::seq_lib::{lemma_multiset_commutative, to_multiset_build, to_multiset_remove};

verus! {

/// One automation server of the pool, known by its port.
#[derive(Debug, PartialEq, Eq)]
pub struct PoolSlot {
    port: usize,
}

impl View for PoolSlot {
    type V = usize;

    closed spec fn view(&self) -> usize {
        self.port
    }
}

impl PoolSlot {
    pub fn port(&self) -> (port: usize)
        ensures
            port == self@,
    {
        self.port
    }
}

/// Why a checkout or a release did not succeed.
#[derive(Debug, Clone, Copy, PartialEq, Eq, Structural)]
pub enum PoolError {
    /// No session could be opened on the slot's server.
    ConnectFailed,
    /// The session could not be authenticated.
    AuthFailed,
    /// The session could not be closed.
    CloseFailed,
    /// The slot is not one that this pool has leased out.
    UnknownSlot,
    /// A server process could not be terminated.
    TerminateFailed { port: usize },
}

/// The slots of a pool: the ports that are free, the last one being the next
/// to be leased, and the ports that are leased out.
pub struct PoolView {
    pub free: Seq<usize>,
    pub leased: Seq<usize>,
}

impl PoolView {
    /// No slot is both free and leased, and none occurs twice.
    pub open spec fn wf(self) -> bool {
        (self.free + self.leased).no_duplicates()
    }

    /// All slots of the pool, free or leased out, each as often as it occurs.
    pub open spec fn slots(self) -> Multiset<usize> {
        (self.free + self.leased).to_multiset()
    }

    /// The pool after its last free slot was leased out.
    pub open spec fn lease_last(self) -> PoolView
        recommends
            self.free.len() > 0,
    {
        PoolView { free: self.free.drop_last(), leased: self.leased.push(self.free.last()) }
    }

    /// The pool after the slot on `port` came back: it is free again if it was
    /// leased out, and nothing changes if it was not.
    pub open spec fn take_back(self, port: usize) -> PoolView {
        if self.leased.contains(port) {
            PoolView { free: self.free.push(port), leased: self.leased.remove_value(port) }
        } else {
            self
        }
    }
}

/// How far a checkout has come.
#[derive(Debug, PartialEq, Eq)]
pub enum CheckoutState {
    /// No slot has been taken yet.
    Start,
    /// A slot is taken and a session is being opened on it.
    Connecting(PoolSlot),
    /// The session is open and is being authenticated.
    Authenticating(PoolSlot),
    /// Authentication failed and the session is being closed.
    Closing(PoolSlot),
}

/// The content of a [`CheckoutState`].
pub enum CheckoutStateView {
    Start,
    Connecting(usize),
    Authenticating(usize),
    Closing(usize),
}

impl View for CheckoutState {
    type V = CheckoutStateView;

    open spec fn view(&self) -> CheckoutStateView {
        match self {
            CheckoutState::Start => CheckoutStateView::Start,
            CheckoutState::Connecting(slot) => CheckoutStateView::Connecting(slot@),
            CheckoutState::Authenticating(slot) => CheckoutStateView::Authenticating(slot@),
            CheckoutState::Closing(slot) => CheckoutStateView::Closing(slot@),
        }
    }
}

/// What the session layer is asked to do for a checkout.
#[derive(Debug, Clone, Copy, PartialEq, Eq, Structural)]
pub enum SessionRequest {
    /// Open a session on the automation server at `port`.
    Connect { port: usize },
    /// Restore or renew the session's authentication.
    Authenticate,
    /// Close the session.
    Close,
}

/// A live session's hold on its slot. It is released by [`WrappedClient::close`].
#[derive(Debug, PartialEq, Eq)]
pub struct WrappedClient {
    val: PoolSlot,
}

impl View for WrappedClient {
    type V = usize;

    closed spec fn view(&self) -> usize {
        self.val@
    }
}

/// What a step of a checkout leads to.
#[derive(Debug, PartialEq, Eq)]
pub enum CheckoutNext {
    /// The request is to be performed, and its outcome handed to the next step.
    Perform(CheckoutState, SessionRequest),
    /// The checkout is over: with a lease, with no slot free, or with an error.
    Finished(Result<Option<WrappedClient>, PoolError>),
}

/// The content of a [`CheckoutNext`].
pub enum CheckoutNextView {
    Perform(CheckoutStateView, SessionRequest),
    Finished(Result<Option<usize>, PoolError>),
}

impl View for CheckoutNext {
    type V = CheckoutNextView;

    open spec fn view(&self) -> CheckoutNextView {
        match self {
            CheckoutNext::Perform(state, request) => CheckoutNextView::Perform(state@, *request),
            CheckoutNext::Finished(Ok(Some(lease))) => CheckoutNextView::Finished(Ok(Some(lease@))),
            CheckoutNext::Finished(Ok(None)) => CheckoutNextView::Finished(Ok(None)),
            CheckoutNext::Finished(Err(e)) => CheckoutNextView::Finished(Err(*e)),
        }
    }
}

/// One step of a checkout. From the start a slot is taken, if one is free, and
/// a session is asked for. `succeeded` says how the request of the step before
/// ended: a session that opened is authenticated next, one that authenticated
/// is leased out, one that did not is closed; and whenever the checkout fails
/// its slot goes back to the pool first.
pub open spec fn checkout_spec(pool: PoolView, state: CheckoutStateView, succeeded: bool) -> (
    PoolView,
    CheckoutNextView,
) {
    match state {
        CheckoutStateView::Start => if pool.free.len() == 0 {
            (pool, CheckoutNextView::Finished(Ok(None)))
        } else {
            (
                pool.lease_last(),
                CheckoutNextView::Perform(
                    CheckoutStateView::Connecting(pool.free.last()),
                    SessionRequest::Connect { port: pool.free.last() },
                ),
            )
        },
        CheckoutStateView::Connecting(port) => if succeeded {
            (
                pool,
                CheckoutNextView::Perform(
                    CheckoutStateView::Authenticating(port),
                    SessionRequest::Authenticate,
                ),
            )
        } else {
            (
                pool.take_back(port),
                CheckoutNextView::Finished(
                    Err(
                        if pool.leased.contains(port) {
                            PoolError::ConnectFailed
                        } else {
                            PoolError::UnknownSlot
                        },
                    ),
                ),
            )
        },
        CheckoutStateView::Authenticating(port) => if succeeded {
            (pool, CheckoutNextView::Finished(Ok(Some(port))))
        } else {
            (
                pool,
                CheckoutNextView::Perform(CheckoutStateView::Closing(port), SessionRequest::Close),
            )
        },
        CheckoutStateView::Closing(port) => (
            pool.take_back(port),
            CheckoutNextView::Finished(
                Err(
                    if !pool.leased.contains(port) {
                        PoolError::UnknownSlot
                    } else if succeeded {
                        PoolError::AuthFailed
                    } else {
                        PoolError::CloseFailed
                    },
                ),
            ),
        ),
    }
}

/// What a release gives: an unknown slot is refused, and otherwise the
/// outcome is that of closing the session.
pub open spec fn release_spec(pool: PoolView, port: usize, closed: bool) -> (
    PoolView,
    Result<(), PoolError>,
) {
    (
        pool.take_back(port),
        if !pool.leased.contains(port) {
            Err(PoolError::UnknownSlot)
        } else if closed {
            Ok(())
        } else {
            Err(PoolError::CloseFailed)
        },
    )
}

/// The ports of a pool of `count` servers from `base` on.
pub open spec fn pool_ports(base: usize, count: usize) -> Seq<usize> {
    Seq::new(count as nat, |n: int| (base + n) as usize)
}

/// The slots of the automation servers, free or leased out.
#[derive(Debug, PartialEq, Eq)]
pub struct DriverPool {
    free: Vec<usize>,
    leased: Vec<usize>,
}

impl View for DriverPool {
    type V = PoolView;

    closed spec fn view(&self) -> PoolView {
        PoolView { free: self.free@, leased: self.leased@ }
    }
}

impl DriverPool {
    /// No slot is both free and leased, and none occurs twice.
    pub open spec fn wf(&self) -> bool {
        self@.wf()
    }

    /// A pool of `driver_count` free slots on the ports from `base_port` on.
    pub fn new(config: &DriverConfig) -> (pool: DriverPool)
        requires
            config.base_port + config.driver_count <= usize::MAX,
        ensures
            pool@.free == pool_ports(config.base_port, config.driver_count),
            pool@.leased.len() == 0,
            pool.wf(),
    {
        let mut free: Vec<usize> = Vec::new();
        let mut n: usize = 0;
        while n < config.driver_count
            invariant
                n <= config.driver_count,
                config.base_port + config.driver_count <= usize::MAX,
                free@ == pool_ports(config.base_port, n),
            decreases config.driver_count - n,
        {
            free.push(config.base_port + n);
            n += 1;
        }
        let pool = DriverPool { free, leased: Vec::new() };
        assert(pool@.free + pool@.leased == pool@.free);
        pool
    }

    /// The number of free slots.
    pub fn free_count(&self) -> (n: usize)
        ensures
            n == self@.free.len(),
    {
        self.free.len()
    }

    /// The number of slots that are leased out.
    pub fn leased_count(&self) -> (n: usize)
        ensures
            n == self@.leased.len(),
    {
        self.leased.len()
    }

    /// The ports of all servers of the pool, the free ones first.
    pub fn ports(&self) -> (ports: Vec<usize>)
        ensures
            ports@ == self@.free + self@.leased,
    {
        let mut ports: Vec<usize> = Vec::new();
        let mut i: usize = 0;
        while i < self.free.len()
            invariant
                i <= self.free.len(),
                ports@ == self.free@.take(i as int),
            decreases self.free.len() - i,
        {
            ports.push(self.free[i]);
            assert(self.free@.take(i + 1) == self.free@.take(i as int).push(self.free@[i as int]));
            i += 1;
        }
        assert(self.free@.take(self.free.len() as int) == self.free@);
        let mut j: usize = 0;
        while j < self.leased.len()
            invariant
                j <= self.leased.len(),
                ports@ == self.free@ + self.leased@.take(j as int),
            decreases self.leased.len() - j,
        {
            ports.push(self.leased[j]);
            assert(self.leased@.take(j + 1) == self.leased@.take(j as int).push(
                self.leased@[j as int],
            ));
            j += 1;
        }
        assert(self.leased@.take(self.leased.len() as int) == self.leased@);
        ports
    }

    /// Shuts the pool down: gives the ports of all its servers, the free ones
    /// first, and leaves the pool without slots. The servers of slots that
    /// are leased out are among them: a session still running on one loses its
    /// server, and its lease is an unknown slot from then on.
    pub fn close(&mut self) -> (ports: Vec<usize>)
        ensures
            ports@ == old(self)@.free + old(self)@.leased,
            final(self)@.free.len() == 0,
            final(self)@.leased.len() == 0,
            final(self).wf(),
    {
        let mut ports: Vec<usize> = Vec::new();
        ports.append(&mut self.free);
        ports.append(&mut self.leased);
        ports
    }

    /// Takes the slot on `port` back, and says whether it was leased out.
    fn take_back(&mut self, port: usize) -> (known: bool)
        requires
            old(self).wf(),
        ensures
            known == old(self)@.leased.contains(port),
            final(self)@ == old(self)@.take_back(port),
            final(self).wf(),
    {
        let mut i: usize = 0;
        while i < self.leased.len()
            invariant
                i <= self.leased.len(),
                *self == *old(self),
                self.wf(),
                forall|j: int| 0 <= j < i ==> self.leased@[j] != port,
            decreases self.leased.len() - i,
        {
            if self.leased[i] == port {
                proof {
                    lemma_take_back(self@, port, i as int);
                }
                self.leased.remove(i);
                self.free.push(port);
                return true;
            }
            i += 1;
        }
        false
    }

    /// One step of a checkout: see [`checkout_spec`].
    pub fn get_client(&mut self, state: CheckoutState, succeeded: bool) -> (next: CheckoutNext)
        requires
            old(self).wf(),
        ensures
            (final(self)@, next@) == checkout_spec(old(self)@, state@, succeeded),
            final(self).wf(),
    {
        match state {
            CheckoutState::Start => match self.free.pop() {
                Some(port) => {
                    proof {
                        lemma_lease_last(old(self)@);
                    }
                    self.leased.push(port);
                    CheckoutNext::Perform(
                        CheckoutState::Connecting(PoolSlot { port }),
                        SessionRequest::Connect { port },
                    )
                },
                None => CheckoutNext::Finished(Ok(None)),
            },
            CheckoutState::Connecting(slot) => {
                if succeeded {
                    CheckoutNext::Perform(
                        CheckoutState::Authenticating(slot),
                        SessionRequest::Authenticate,
                    )
                } else if self.take_back(slot.port) {
                    CheckoutNext::Finished(Err(PoolError::ConnectFailed))
                } else {
                    CheckoutNext::Finished(Err(PoolError::UnknownSlot))
                }
            },
            CheckoutState::Authenticating(slot) => {
                if succeeded {
                    CheckoutNext::Finished(Ok(Some(WrappedClient { val: slot })))
                } else {
                    CheckoutNext::Perform(CheckoutState::Closing(slot), SessionRequest::Close)
                }
            },
            CheckoutState::Closing(slot) => {
                if !self.take_back(slot.port) {
                    CheckoutNext::Finished(Err(PoolError::UnknownSlot))
                } else if succeeded {
                    CheckoutNext::Finished(Err(PoolError::AuthFailed))
                } else {
                    CheckoutNext::Finished(Err(PoolError::CloseFailed))
                }
            },
        }
    }
}

/// Leasing the last free slot keeps the pool well formed.
proof fn lemma_lease_last(pool: PoolView)
    requires
        pool.wf(),
        pool.free.len() > 0,
    ensures
        pool.lease_last().wf(),
{
    let before = pool.free + pool.leased;
    let after = pool.lease_last().free + pool.lease_last().leased;
    let n = pool.free.len() as int;
    assert forall|i: int, j: int| 0 <= i < after.len() && 0 <= j < after.len() && i != j implies
        after[i] != after[j] by {
        // every position of `after` is a position of `before`, one for one
        let a = if i == after.len() - 1 { n - 1 } else if i < n - 1 { i } else { i + 1 };
        let b = if j == after.len() - 1 { n - 1 } else if j < n - 1 { j } else { j + 1 };
        assert(after[i] == before[a]);
        assert(after[j] == before[b]);
        assert(a != b);
    }
}

/// Taking back the slot at position `i` of the leased ones gives what
/// `take_back` says, and keeps the pool well formed.
proof fn lemma_take_back(pool: PoolView, port: usize, i: int)
    requires
        pool.wf(),
        0 <= i < pool.leased.len(),
        pool.leased[i] == port,
    ensures
        pool.leased.contains(port),
        pool.leased.remove_value(port) == pool.leased.remove(i),
        pool.take_back(port).wf(),
{
    let before = pool.free + pool.leased;
    let n = pool.free.len() as int;
    assert(pool.leased.no_duplicates()) by {
        assert forall|a: int, b: int|
            0 <= a < pool.leased.len() && 0 <= b < pool.leased.len() && a != b implies pool.leased[a]
            != pool.leased[b] by {
            assert(before[n + a] == pool.leased[a]);
            assert(before[n + b] == pool.leased[b]);
        }
    }
    pool.leased.index_of_first_ensures(port);
    let k = pool.leased.index_of_first(port).unwrap();
    assert(k == i);
    let after = pool.take_back(port).free + pool.take_back(port).leased;
    assert forall|a: int, b: int| 0 <= a < after.len() && 0 <= b < after.len() && a != b implies
        after[a] != after[b] by {
        let x = if a < n { a } else if a == n { n + i } else if a - n - 1 < i { a - 1 } else { a };
        let y = if b < n { b } else if b == n { n + i } else if b - n - 1 < i { b - 1 } else { b };
        assert(after[a] == before[x]);
        assert(after[b] == before[y]);
        assert(x != y);
    }
}

/// Whether a server was not terminated.
pub open spec fn not_terminated() -> spec_fn((usize, bool)) -> bool {
    |report: (usize, bool)| !report.1
}

/// The outcome of a shutdown, from each server's port and whether it was
/// terminated: the first server that was not is the error.
pub fn termination_result(reports: &Vec<(usize, bool)>) -> (r: Result<(), PoolError>)
    ensures
        match r {
            Ok(()) => first_where(reports@, not_terminated()) is None,
            Err(e) => first_where(reports@, not_terminated()) matches Some(report) && e
                == (PoolError::TerminateFailed { port: report.0 }),
        },
{
    let mut i: usize = 0;
    while i < reports.len()
        invariant
            i <= reports.len(),
            forall|j: int| 0 <= j < i ==> !not_terminated()(#[trigger] reports@[j]),
        decreases reports.len() - i,
    {
        if !reports[i].1 {
            proof {
                assert(is_first(reports@, not_terminated(), i as int));
                lemma_first_found(reports@, not_terminated(), i as int);
            }
            return Err(PoolError::TerminateFailed { port: reports[i].0 });
        }
        i += 1;
    }
    proof {
        lemma_first_absent(reports@, not_terminated());
    }
    Ok(())
}

/// The pool and the outcome of a checkout that starts in `state` and is told
/// `outcomes`, one for each step; `None` where they run out before the
/// checkout is over.
pub open spec fn checkout_run(pool: PoolView, state: CheckoutStateView, outcomes: Seq<bool>) -> Option<
    (PoolView, Result<Option<usize>, PoolError>),
>
    decreases outcomes.len(),
{
    if outcomes.len() == 0 {
        None
    } else {
        let step = checkout_spec(pool, state, outcomes[0]);
        match step.1 {
            CheckoutNextView::Finished(r) => Some((step.0, r)),
            CheckoutNextView::Perform(next, _) => checkout_run(step.0, next, outcomes.skip(1)),
        }
    }
}

/// The pool after `n` of its free slots were leased out, the last one first.
pub open spec fn after_leases(pool: PoolView, n: nat) -> PoolView
    decreases n,
{
    if n == 0 {
        pool
    } else {
        after_leases(pool, (n - 1) as nat).lease_last()
    }
}

/// A slot that was just leased out and comes back leaves the pool as it was.
pub proof fn lemma_lease_then_take_back(pool: PoolView)
    requires
        pool.wf(),
        pool.free.len() > 0,
    ensures
        pool.lease_last().leased.contains(pool.free.last()),
        pool.lease_last().take_back(pool.free.last()) == pool,
{
    let port = pool.free.last();
    let leased = pool.lease_last().leased;
    let n = pool.free.len() as int;
    let all = pool.free + pool.leased;
    assert(leased[leased.len() - 1] == port);
    leased.index_of_first_ensures(port);
    let k = leased.index_of_first(port).unwrap();
    if k < leased.len() - 1 {
        assert(all[n - 1] == port);
        assert(all[n + k] == pool.leased[k]);
        assert(false);
    }
    assert(leased.remove(k) == pool.leased);
    assert(pool.free.drop_last().push(port) == pool.free);
}

/// Leasing a slot and taking one back change where a slot is, and not which
/// slots there are.
proof fn lemma_moves_keep_slots(pool: PoolView, port: usize)
    requires
        pool.wf(),
    ensures
        pool.free.len() > 0 ==> pool.lease_last().slots() == pool.slots(),
        pool.take_back(port).slots() == pool.slots(),
{
    broadcast use vstd::multiset::group_multiset_axioms;

    lemma_multiset_commutative(pool.free, pool.leased);
    if pool.free.len() > 0 {
        let after = pool.lease_last();
        let last = pool.free.last();
        lemma_multiset_commutative(after.free, after.leased);
        to_multiset_build(pool.leased, last);
        assert(pool.free == pool.free.drop_last().push(last));
        to_multiset_build(pool.free.drop_last(), last);
        assert(after.slots() =~= pool.slots());
    }
    if pool.leased.contains(port) {
        let after = pool.take_back(port);
        let i = choose|i: int| 0 <= i < pool.leased.len() && pool.leased[i] == port;
        lemma_take_back(pool, port, i);
        lemma_multiset_commutative(after.free, after.leased);
        to_multiset_build(pool.free, port);
        to_multiset_remove(pool.leased, i);
        assert(pool.leased.to_multiset().count(port) > 0) by {
            to_multiset_remove(pool.leased, i);
            pool.leased.to_multiset_ensures();
        }
        assert(after.slots() =~= pool.slots());
    }
}

/// No step of a checkout and no release loses a slot or makes one up: the
/// pool has the same slots afterwards, each still either free or leased out.
pub proof fn lemma_slots_are_kept(
    pool: PoolView,
    state: CheckoutStateView,
    succeeded: bool,
    port: usize,
    closed: bool,
)
    requires
        pool.wf(),
    ensures
        checkout_spec(pool, state, succeeded).0.wf(),
        checkout_spec(pool, state, succeeded).0.slots() == pool.slots(),
        release_spec(pool, port, closed).0.wf(),
        release_spec(pool, port, closed).0.slots() == pool.slots(),
{
    lemma_moves_keep_slots(pool, port);
    lemma_take_back_keeps_wf(pool, port);
    match state {
        CheckoutStateView::Start => {
            if pool.free.len() > 0 {
                lemma_lease_last(pool);
            }
        },
        CheckoutStateView::Connecting(slot) => {
            lemma_moves_keep_slots(pool, slot);
            lemma_take_back_keeps_wf(pool, slot);
        },
        CheckoutStateView::Authenticating(_) => {},
        CheckoutStateView::Closing(slot) => {
            lemma_moves_keep_slots(pool, slot);
            lemma_take_back_keeps_wf(pool, slot);
        },
    }
}

/// Taking a slot back keeps the pool well formed.
proof fn lemma_take_back_keeps_wf(pool: PoolView, port: usize)
    requires
        pool.wf(),
    ensures
        pool.take_back(port).wf(),
{
    if pool.leased.contains(port) {
        let i = choose|i: int| 0 <= i < pool.leased.len() && pool.leased[i] == port;
        lemma_take_back(pool, port, i);
    }
}

/// Every checkout gives back what it took: one that finds no slot free or
/// fails at any step leaves the pool as it was, and so does one that succeeds
/// once its lease is released, whether or not the session could be closed.
pub proof fn lemma_checkout_release_restores(pool: PoolView, outcomes: Seq<bool>, closed: bool)
    requires
        pool.wf(),
        checkout_run(pool, CheckoutStateView::Start, outcomes) is Some,
    ensures
        match checkout_run(pool, CheckoutStateView::Start, outcomes).unwrap() {
            (after, Ok(Some(port))) => {
                &&& after.free.len() + 1 == pool.free.len()
                &&& release_spec(after, port, closed).0 == pool
                &&& release_spec(after, port, closed).1 == if closed {
                    Ok::<(), PoolError>(())
                } else {
                    Err(PoolError::CloseFailed)
                }
            },
            (after, _) => after == pool,
        },
{
    reveal_with_fuel(checkout_run, 5);
    if pool.free.len() > 0 {
        lemma_lease_then_take_back(pool);
    }
}

/// A checkout whose session opens and authenticates leases the last free slot.
pub proof fn lemma_checkout_leases_last(pool: PoolView)
    requires
        pool.free.len() > 0,
    ensures
        checkout_run(pool, CheckoutStateView::Start, seq![true, true, true]) == Some(
            (pool.lease_last(), Ok::<Option<usize>, PoolError>(Some(pool.free.last()))),
        ),
{
    reveal_with_fuel(checkout_run, 4);
    let outcomes = seq![true, true, true];
    assert(outcomes.skip(1).skip(1)[0]);
    assert(outcomes.skip(1)[0]);
}

/// A pool with `n` free slots and no release: each of the first `n` checkouts
/// whose session opens and authenticates gets a lease, and the checkout after
/// them finds no slot free and ends at once, whatever it is told, leaving the
/// pool as it is.
pub proof fn lemma_pool_runs_dry(pool: PoolView, n: nat, outcomes: Seq<bool>)
    requires
        pool.free.len() == n,
        outcomes.len() > 0,
    ensures
        forall|k: nat|
            k < n ==> checkout_run(
                #[trigger] after_leases(pool, k),
                CheckoutStateView::Start,
                seq![true, true, true],
            ) == Some(
                (
                    after_leases(pool, k + 1),
                    Ok::<Option<usize>, PoolError>(Some(after_leases(pool, k).free.last())),
                ),
            ),
        after_leases(pool, n).free.len() == 0,
        checkout_run(after_leases(pool, n), CheckoutStateView::Start, outcomes) == Some(
            (after_leases(pool, n), Ok::<Option<usize>, PoolError>(None)),
        ),
{
    assert forall|k: nat| k < n implies checkout_run(
        #[trigger] after_leases(pool, k),
        CheckoutStateView::Start,
        seq![true, true, true],
    ) == Some(
        (
            after_leases(pool, k + 1),
            Ok::<Option<usize>, PoolError>(Some(after_leases(pool, k).free.last())),
        ),
    ) by {
        lemma_free_after_leases(pool, k);
        lemma_checkout_leases_last(after_leases(pool, k));
        assert(after_leases(pool, k + 1) == after_leases(pool, k).lease_last());
    }
    lemma_free_after_leases(pool, n);
}

/// Each lease takes one slot from the free ones.
proof fn lemma_free_after_leases(pool: PoolView, k: nat)
    requires
        k <= pool.free.len(),
    ensures
        after_leases(pool, k).free.len() == pool.free.len() - k,
    decreases k,
{
    if k > 0 {
        lemma_free_after_leases(pool, (k - 1) as nat);
    }
}

impl WrappedClient {
    /// The port of the automation server that the session runs on.
    pub fn port(&self) -> (port: usize)
        ensures
            port == self@,
    {
        self.val.port
    }

    /// Releases the lease once its session was closed, `closed` saying whether
    /// that succeeded: the slot goes back to the pool either way.
    pub fn close(self, pool: &mut DriverPool, closed: bool) -> (r: Result<(), PoolError>)
        requires
            old(pool).wf(),
        ensures
            (final(pool)@, r) == release_spec(old(pool)@, self@, closed),
            final(pool).wf(),
    {
        if !pool.take_back(self.val.port) {
            Err(PoolError::UnknownSlot)
        } else if closed {
            Ok(())
        } else {
            Err(PoolError::CloseFailed)
        }
    }
}

} // verus!

//! The fetch as a whole: one session discovers the work items, then a fixed
//! number of workers drain them from a shared queue, each on a session of its
//! own. The decisions are taken here; the caller performs what they ask for and
//! reports how it went.

use crate::config::FetchConfig;
use vstd::prelude::*;
use vstd::seq_lib::seq_to_set_is_finite;
use vstd::set_lib::{lemma_int_range, lemma_len_difference, lemma_len_subset, lemma_len_union, set_int_range};

verus! {

/// What a non-blocking poll of the work queue found.
#[derive(Debug, Clone, PartialEq, Eq)]
pub enum QueuePoll {
    /// The next work item.
    Item(String),
    /// The queue is empty and closed: no item will come any more.
    Drained,
    /// The queue is empty and still open.
    Empty,
}

/// Where a worker stands.
#[derive(Debug, Clone, PartialEq, Eq)]
pub enum WorkerState {
    AcquiringSession,
    Draining,
    FetchingItem(String),
    /// `failed` is set where the worker gave up on the queue.
    ReleasingSession { failed: bool },
    Done,
    Failed,
}

/// What a worker is told: how the action that it asked for ended.
#[derive(Debug, Clone, PartialEq, Eq)]
pub enum WorkerEvent {
    /// Whether the pool gave a session.
    Session(bool),
    Polled(QueuePoll),
    /// Whether the item's fetch succeeded.
    Fetched(bool),
    /// Whether the session could be closed.
    Released(bool),
}

/// What a worker asks for next.
#[derive(Debug, Clone, PartialEq, Eq)]
pub enum WorkerAction {
    /// Check a session out of the pool.
    Checkout,
    /// Poll the work queue without blocking.
    Poll,
    /// Fetch what belongs to the item.
    Fetch(String),
    /// Release the session.
    Release,
    /// Nothing more: the worker has stopped.
    Stop,
}

/// The action that a worker in `state` is waiting for.
pub open spec fn worker_pending(state: WorkerState) -> WorkerAction {
    match state {
        WorkerState::AcquiringSession => WorkerAction::Checkout,
        WorkerState::Draining => WorkerAction::Poll,
        WorkerState::FetchingItem(item) => WorkerAction::Fetch(item),
        WorkerState::ReleasingSession { .. } => WorkerAction::Release,
        WorkerState::Done => WorkerAction::Stop,
        WorkerState::Failed => WorkerAction::Stop,
    }
}

/// A worker's next state and action. Without a session it fails. With one it
/// polls the queue: an item is fetched, and whether or not that works the
/// queue is polled again; a drained queue ends the work; a queue that is
/// empty but open makes the worker give up. Either way the session is
/// released before the worker stops, and it stops as failed only where it got
/// no session or gave up on the queue. An event that does not answer the
/// pending action changes nothing, and the action is asked for again.
pub open spec fn worker_step_spec(state: WorkerState, event: WorkerEvent) -> (
    WorkerState,
    WorkerAction,
) {
    match (state, event) {
        (WorkerState::AcquiringSession, WorkerEvent::Session(true)) => (
            WorkerState::Draining,
            WorkerAction::Poll,
        ),
        (WorkerState::AcquiringSession, WorkerEvent::Session(false)) => (
            WorkerState::Failed,
            WorkerAction::Stop,
        ),
        (WorkerState::Draining, WorkerEvent::Polled(QueuePoll::Item(item))) => (
            WorkerState::FetchingItem(item),
            WorkerAction::Fetch(item),
        ),
        (WorkerState::Draining, WorkerEvent::Polled(QueuePoll::Drained)) => (
            WorkerState::ReleasingSession { failed: false },
            WorkerAction::Release,
        ),
        (WorkerState::Draining, WorkerEvent::Polled(QueuePoll::Empty)) => (
            WorkerState::ReleasingSession { failed: true },
            WorkerAction::Release,
        ),
        (WorkerState::FetchingItem(_), WorkerEvent::Fetched(_)) => (
            WorkerState::Draining,
            WorkerAction::Poll,
        ),
        (WorkerState::ReleasingSession { failed }, WorkerEvent::Released(_)) => if failed {
            (WorkerState::Failed, WorkerAction::Stop)
        } else {
            (WorkerState::Done, WorkerAction::Stop)
        },
        _ => (state, worker_pending(state)),
    }
}

/// A worker fails only for want of a session or for a queue that is empty
/// while still open: a step leads into the failed state only from the wait
/// for a session that was refused, or from the release that follows giving
/// up on the queue, which in turn only an empty and open queue leads to. A
/// fetch that fails leads back to the queue. And a worker that holds a
/// session never stops without releasing it first.
pub proof fn lemma_worker_fails_only_for_session_or_queue(state: WorkerState, event: WorkerEvent)
    ensures
        state is Draining || state is FetchingItem ==> !(worker_step_spec(state, event).0 is Done)
            && !(worker_step_spec(state, event).0 is Failed),
        worker_step_spec(state, event).0 is Failed ==> state is Failed || (state
            is AcquiringSession && event == WorkerEvent::Session(false)) || (state
            == (WorkerState::ReleasingSession { failed: true }) && event is Released),
        worker_step_spec(state, event).0 == (WorkerState::ReleasingSession { failed: true })
            ==> state == (WorkerState::ReleasingSession { failed: true }) || (state is Draining
            && event == WorkerEvent::Polled(QueuePoll::Empty)),
        state is FetchingItem && event is Fetched ==> worker_step_spec(state, event) == (
            WorkerState::Draining,
            WorkerAction::Poll,
        ),
{
}

/// A worker before its first step, and what it asks for first.
pub fn worker_start() -> (r: (WorkerState, WorkerAction))
    ensures
        r == (WorkerState::AcquiringSession, WorkerAction::Checkout),
{
    (WorkerState::AcquiringSession, WorkerAction::Checkout)
}

/// The action that a worker in `state` is waiting for.
fn pending_action(state: &WorkerState) -> (action: WorkerAction)
    ensures
        action == worker_pending(*state),
{
    match state {
        WorkerState::AcquiringSession => WorkerAction::Checkout,
        WorkerState::Draining => WorkerAction::Poll,
        WorkerState::FetchingItem(item) => WorkerAction::Fetch(item.clone()),
        WorkerState::ReleasingSession { .. } => WorkerAction::Release,
        WorkerState::Done => WorkerAction::Stop,
        WorkerState::Failed => WorkerAction::Stop,
    }
}

/// One step of a worker: see [`worker_step_spec`].
pub fn worker_step(state: WorkerState, event: WorkerEvent) -> (r: (WorkerState, WorkerAction))
    ensures
        r == worker_step_spec(state, event),
{
    match (state, event) {
        (WorkerState::AcquiringSession, WorkerEvent::Session(acquired)) => {
            if acquired {
                (WorkerState::Draining, WorkerAction::Poll)
            } else {
                (WorkerState::Failed, WorkerAction::Stop)
            }
        },
        (WorkerState::Draining, WorkerEvent::Polled(poll)) => match poll {
            QueuePoll::Item(item) => {
                let fetching = WorkerState::FetchingItem(item.clone());
                (fetching, WorkerAction::Fetch(item))
            },
            QueuePoll::Drained => (
                WorkerState::ReleasingSession { failed: false },
                WorkerAction::Release,
            ),
            QueuePoll::Empty => (WorkerState::ReleasingSession { failed: true }, WorkerAction::Release),
        },
        (WorkerState::FetchingItem(_), WorkerEvent::Fetched(_)) => (
            WorkerState::Draining,
            WorkerAction::Poll,
        ),
        (WorkerState::ReleasingSession { failed }, WorkerEvent::Released(_)) => {
            if failed {
                (WorkerState::Failed, WorkerAction::Stop)
            } else {
                (WorkerState::Done, WorkerAction::Stop)
            }
        },
        (state, _) => {
            let action = pending_action(&state);
            (state, action)
        },
    }
}

/// What the pool answered to a checkout.
#[derive(Debug, Clone, Copy, PartialEq, Eq, Structural)]
pub enum SessionGrant {
    /// A session was leased.
    Leased,
    /// No slot was free.
    Empty,
    /// A slot was free, but no authenticated session came of it.
    Failed,
}

/// Why a run failed.
#[derive(Debug, Clone, Copy, PartialEq, Eq, Structural)]
pub enum RunError {
    /// The pool had no free slot for the discovery.
    NoClients,
    /// The checkout for the discovery failed.
    CheckoutFailed,
    /// The work items could not be discovered.
    DiscoveryFailed,
    /// The session of the discovery could not be closed.
    ReleaseFailed,
}

/// Where a run stands.
#[derive(Debug, PartialEq, Eq)]
pub enum RunState {
    AcquiringSession,
    Discovering,
    /// The discovery is over, with the work items or without, and its
    /// session is being released.
    ReleasingSession { users: Option<Vec<String>> },
    AwaitingWorkers,
    Finished(Result<(), RunError>),
}

/// What a run is told: how the action that it asked for ended.
#[derive(Debug, Clone, PartialEq, Eq)]
pub enum RunEvent {
    Session(SessionGrant),
    /// The work items, or `None` where the discovery failed.
    Discovered(Option<Vec<String>>),
    /// Whether the session could be closed.
    Released(bool),
    /// Every worker has stopped, failed or not.
    WorkersJoined,
}

/// What a run asks for next.
#[derive(Debug, PartialEq, Eq)]
pub enum RunAction {
    /// Check a session out of the pool.
    Checkout,
    /// Discover the work items on the session.
    Discover,
    /// Release the session.
    Release,
    /// Put the items into a queue, close it, start `workers` workers on it and
    /// wait for all of them.
    Dispatch { items: Vec<String>, workers: usize },
    /// Go on waiting for the workers.
    Join,
    /// Nothing more: the run is over, with this result.
    Finish(Result<(), RunError>),
}

/// The action that a run in `state` is waiting for.
pub open spec fn run_pending(state: RunState) -> RunAction {
    match state {
        RunState::AcquiringSession => RunAction::Checkout,
        RunState::Discovering => RunAction::Discover,
        RunState::ReleasingSession { .. } => RunAction::Release,
        RunState::AwaitingWorkers => RunAction::Join,
        RunState::Finished(result) => RunAction::Finish(result),
    }
}

/// A run that fails with `error`.
pub open spec fn run_failed(error: RunError) -> (RunState, RunAction) {
    (RunState::Finished(Err(error)), RunAction::Finish(Err(error)))
}

/// A run's next state and action. It fails at once where the pool gives no
/// session. The discovery's session is released before anything else happens,
/// whether the discovery worked or not; the run then fails where the session
/// could not be closed or the discovery had failed, and otherwise hands all
/// items to `workers` workers. Once they have stopped the run has succeeded,
/// whatever became of them. An event that does not answer the pending action
/// changes nothing.
pub open spec fn run_step_spec(workers: usize, state: RunState, event: RunEvent) -> (
    RunState,
    RunAction,
) {
    match (state, event) {
        (RunState::AcquiringSession, RunEvent::Session(SessionGrant::Leased)) => (
            RunState::Discovering,
            RunAction::Discover,
        ),
        (RunState::AcquiringSession, RunEvent::Session(SessionGrant::Empty)) => run_failed(
            RunError::NoClients,
        ),
        (RunState::AcquiringSession, RunEvent::Session(SessionGrant::Failed)) => run_failed(
            RunError::CheckoutFailed,
        ),
        (RunState::Discovering, RunEvent::Discovered(users)) => (
            RunState::ReleasingSession { users },
            RunAction::Release,
        ),
        (RunState::ReleasingSession { users }, RunEvent::Released(closed)) => if !closed {
            run_failed(RunError::ReleaseFailed)
        } else {
            match users {
                Some(items) => (RunState::AwaitingWorkers, RunAction::Dispatch { items, workers }),
                None => run_failed(RunError::DiscoveryFailed),
            }
        },
        (RunState::AwaitingWorkers, RunEvent::WorkersJoined) => (
            RunState::Finished(Ok(())),
            RunAction::Finish(Ok(())),
        ),
        _ => (state, run_pending(state)),
    }
}

/// A run fails only before it hands out work: once the workers are awaited,
/// no event makes it fail, and their end makes it succeed.
pub proof fn lemma_run_fails_only_before_dispatch(workers: usize, state: RunState, event: RunEvent)
    ensures
        state is AwaitingWorkers ==> !(run_step_spec(workers, state, event).0 matches RunState::Finished(
            Err(_),
        )),
        state is AwaitingWorkers && event is WorkersJoined ==> run_step_spec(workers, state, event)
            == (RunState::Finished(Ok(())), RunAction::Finish(Ok(()))),
        run_step_spec(workers, state, event).0 matches RunState::Finished(Err(_)) ==> state
            is AcquiringSession || state is ReleasingSession || state is Finished,
{
}

/// A run before its first step, and what it asks for first.
pub fn run_start() -> (r: (RunState, RunAction))
    ensures
        r == (RunState::AcquiringSession, RunAction::Checkout),
{
    (RunState::AcquiringSession, RunAction::Checkout)
}

/// One step of a run with `max_concurrent_users` workers: see [`run_step_spec`].
pub fn run(config: &FetchConfig, state: RunState, event: RunEvent) -> (r: (RunState, RunAction))
    ensures
        r == run_step_spec(config.max_concurrent_users, state, event),
{
    match (state, event) {
        (RunState::AcquiringSession, RunEvent::Session(grant)) => match grant {
            SessionGrant::Leased => (RunState::Discovering, RunAction::Discover),
            SessionGrant::Empty => (
                RunState::Finished(Err(RunError::NoClients)),
                RunAction::Finish(Err(RunError::NoClients)),
            ),
            SessionGrant::Failed => (
                RunState::Finished(Err(RunError::CheckoutFailed)),
                RunAction::Finish(Err(RunError::CheckoutFailed)),
            ),
        },
        (RunState::Discovering, RunEvent::Discovered(users)) => (
            RunState::ReleasingSession { users },
            RunAction::Release,
        ),
        (RunState::ReleasingSession { users }, RunEvent::Released(closed)) => {
            if !closed {
                (
                    RunState::Finished(Err(RunError::ReleaseFailed)),
                    RunAction::Finish(Err(RunError::ReleaseFailed)),
                )
            } else {
                match users {
                    Some(items) => (
                        RunState::AwaitingWorkers,
                        RunAction::Dispatch { items, workers: config.max_concurrent_users },
                    ),
                    None => (
                        RunState::Finished(Err(RunError::DiscoveryFailed)),
                        RunAction::Finish(Err(RunError::DiscoveryFailed)),
                    ),
                }
            }
        },
        (RunState::AwaitingWorkers, RunEvent::WorkersJoined) => (
            RunState::Finished(Ok(())),
            RunAction::Finish(Ok(())),
        ),
        (state, _) => {
            let action = match &state {
                RunState::AcquiringSession => RunAction::Checkout,
                RunState::Discovering => RunAction::Discover,
                RunState::ReleasingSession { .. } => RunAction::Release,
                RunState::AwaitingWorkers => RunAction::Join,
                RunState::Finished(result) => RunAction::Finish(*result),
            };
            (state, action)
        },
    }
}

/// One turn of a group of workers: which worker moves, and how the outside
/// work that it may be waiting for ends.
pub struct Turn {
    pub worker: int,
    pub acquired: bool,
    pub fetched: bool,
    pub released: bool,
}

/// Workers on one closed queue: the items still queued, each worker's state,
/// and the items handed out so far, each with the worker that got it.
pub struct Fleet {
    pub queue: Seq<String>,
    pub workers: Seq<WorkerState>,
    pub handed: Seq<(int, String)>,
}

/// What the worker of a turn is told: a poll gives the head of the queue, or
/// finds the queue drained; the rest is as the turn says.
pub open spec fn fleet_event(fleet: Fleet, turn: Turn) -> WorkerEvent {
    match fleet.workers[turn.worker] {
        WorkerState::AcquiringSession => WorkerEvent::Session(turn.acquired),
        WorkerState::Draining => WorkerEvent::Polled(
            if fleet.queue.len() > 0 {
                QueuePoll::Item(fleet.queue[0])
            } else {
                QueuePoll::Drained
            },
        ),
        WorkerState::FetchingItem(_) => WorkerEvent::Fetched(turn.fetched),
        _ => WorkerEvent::Released(turn.released),
    }
}

/// The group after a turn: the turn's worker takes one step, and an item that
/// it polled leaves the queue and is noted as handed to it.
pub open spec fn fleet_step(fleet: Fleet, turn: Turn) -> Fleet {
    if 0 <= turn.worker < fleet.workers.len() {
        let state = fleet.workers[turn.worker];
        let next = worker_step_spec(state, fleet_event(fleet, turn)).0;
        if state is Draining && fleet.queue.len() > 0 {
            Fleet {
                queue: fleet.queue.skip(1),
                workers: fleet.workers.update(turn.worker, next),
                handed: fleet.handed.push((turn.worker, fleet.queue[0])),
            }
        } else {
            Fleet { workers: fleet.workers.update(turn.worker, next), ..fleet }
        }
    } else {
        fleet
    }
}

/// The group after the turns, taken in order.
pub open spec fn fleet_run(fleet: Fleet, turns: Seq<Turn>) -> Fleet
    decreases turns.len(),
{
    if turns.len() == 0 {
        fleet
    } else {
        fleet_run(fleet_step(fleet, turns[0]), turns.skip(1))
    }
}

/// `workers` workers before their first step, on a queue that holds `items`.
pub open spec fn fleet_start(items: Seq<String>, workers: nat) -> Fleet {
    Fleet {
        queue: items,
        workers: Seq::new(workers, |i: int| WorkerState::AcquiringSession),
        handed: Seq::empty(),
    }
}

/// The items handed out so far, in the order in which they left the queue.
pub open spec fn handed_items(fleet: Fleet) -> Seq<String> {
    fleet.handed.map_values(|h: (int, String)| h.1)
}

/// The workers that were handed an item.
pub open spec fn busy_workers(fleet: Fleet) -> Set<int> {
    fleet.handed.map_values(|h: (int, String)| h.0).to_set()
}

/// The workers that were handed no item.
pub open spec fn idle_workers(fleet: Fleet) -> Set<int> {
    set_int_range(0, fleet.workers.len() as int).difference(busy_workers(fleet))
}

/// Whether every worker has stopped.
pub open spec fn all_stopped(fleet: Fleet) -> bool {
    forall|i: int|
        0 <= i < fleet.workers.len() ==> (#[trigger] fleet.workers[i]) is Done
            || fleet.workers[i] is Failed
}

/// What holds of a group whose workers all get a session: the items handed
/// out and those still queued are the items that the queue began with, no
/// worker has failed or given up, and a worker has seen the end of the queue
/// only where the queue is empty.
spec fn fleet_inv(fleet: Fleet, items: Seq<String>) -> bool {
    &&& handed_items(fleet) + fleet.queue == items
    &&& forall|i: int|
        0 <= i < fleet.workers.len() ==> !((#[trigger] fleet.workers[i]) is Failed)
            && fleet.workers[i] != (WorkerState::ReleasingSession { failed: true })
    &&& forall|i: int|
        0 <= i < fleet.workers.len() && ((#[trigger] fleet.workers[i]) is Done || fleet.workers[i]
            == (WorkerState::ReleasingSession { failed: false })) ==> fleet.queue.len() == 0
}

proof fn lemma_fleet_step(fleet: Fleet, items: Seq<String>, turn: Turn)
    requires
        fleet_inv(fleet, items),
        turn.acquired,
    ensures
        fleet_inv(fleet_step(fleet, turn), items),
        fleet_step(fleet, turn).workers.len() == fleet.workers.len(),
{
    let after = fleet_step(fleet, turn);
    if 0 <= turn.worker < fleet.workers.len() {
        let state = fleet.workers[turn.worker];
        if state is Draining && fleet.queue.len() > 0 {
            assert(handed_items(after) == handed_items(fleet).push(fleet.queue[0]));
            assert(handed_items(after) + after.queue == handed_items(fleet) + fleet.queue);
            assert forall|i: int|
                0 <= i < after.workers.len() && ((#[trigger] after.workers[i]) is Done
                    || after.workers[i] == (WorkerState::ReleasingSession {
                    failed: false,
                })) implies after.queue.len() == 0 by {
                if i != turn.worker {
                    assert(after.workers[i] == fleet.workers[i]);
                }
            }
        } else {
            assert(handed_items(after) == handed_items(fleet));
            assert forall|i: int|
                0 <= i < after.workers.len() && ((#[trigger] after.workers[i]) is Done
                    || after.workers[i] == (WorkerState::ReleasingSession {
                    failed: false,
                })) implies after.queue.len() == 0 by {
                if i != turn.worker {
                    assert(after.workers[i] == fleet.workers[i]);
                } else {
                    assert(fleet.workers[i] == state);
                }
            }
        }
        assert forall|i: int| 0 <= i < after.workers.len() implies !((
        #[trigger] after.workers[i]) is Failed) && after.workers[i] != (
        WorkerState::ReleasingSession { failed: true }) by {
            if i != turn.worker {
                assert(after.workers[i] == fleet.workers[i]);
            } else {
                assert(fleet.workers[i] == state);
            }
        }
    }
}

proof fn lemma_fleet_run(fleet: Fleet, items: Seq<String>, turns: Seq<Turn>)
    requires
        fleet_inv(fleet, items),
        forall|j: int| 0 <= j < turns.len() ==> (#[trigger] turns[j]).acquired,
    ensures
        fleet_inv(fleet_run(fleet, turns), items),
        fleet_run(fleet, turns).workers.len() == fleet.workers.len(),
    decreases turns.len(),
{
    if turns.len() > 0 {
        lemma_fleet_step(fleet, items, turns[0]);
        assert forall|j: int| 0 <= j < turns.skip(1).len() implies (#[trigger] turns.skip(
            1,
        )[j]).acquired by {
            assert(turns.skip(1)[j] == turns[j + 1]);
        }
        lemma_fleet_run(fleet_step(fleet, turns[0]), items, turns.skip(1));
    }
}

/// With more workers than work items, every worker getting a session, and
/// whatever the order of the turns and the fate of each fetch: once all
/// workers have stopped, every item was handed out exactly once, no worker
/// has failed, and at least as many workers as there are more workers than
/// items found the queue drained without ever getting an item.
pub proof fn lemma_every_item_fetched_once(items: Seq<String>, workers: nat, turns: Seq<Turn>)
    requires
        workers > items.len(),
        forall|j: int| 0 <= j < turns.len() ==> (#[trigger] turns[j]).acquired,
        all_stopped(fleet_run(fleet_start(items, workers), turns)),
    ensures
        ({
            let end = fleet_run(fleet_start(items, workers), turns);
            &&& handed_items(end) == items
            &&& end.queue.len() == 0
            &&& end.workers.len() == workers
            &&& forall|i: int| 0 <= i < workers ==> (#[trigger] end.workers[i]) is Done
            &&& idle_workers(end).finite()
            &&& idle_workers(end).len() >= workers - items.len()
        }),
{
    let start = fleet_start(items, workers);
    assert(handed_items(start) + start.queue == items);
    lemma_fleet_run(start, items, turns);
    let end = fleet_run(start, turns);
    assert(end.workers[0] is Done);
    assert(end.queue.len() == 0);
    assert(handed_items(end) == handed_items(end) + end.queue);
    assert(end.handed.len() == handed_items(end).len());

    let range = set_int_range(0, workers as int);
    let busy = busy_workers(end);
    let idle = idle_workers(end);
    lemma_int_range(0, workers as int);
    end.handed.map_values(|h: (int, String)| h.0).lemma_cardinality_of_set();
    seq_to_set_is_finite(end.handed.map_values(|h: (int, String)| h.0));
    lemma_len_difference(range, busy);
    lemma_len_subset(idle, range);
    assert(range.subset_of(idle.union(busy)));
    lemma_len_union(idle, busy);
    assert(idle.union(busy).finite());
    lemma_len_subset(range, idle.union(busy));
}

} // verus!

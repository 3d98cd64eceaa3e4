use twitarc::config::FetchConfig;
use twitarc::orchestrator::{
    run, run_start, worker_start, worker_step, QueuePoll, RunAction, RunError, RunEvent,
    RunState, SessionGrant, WorkerAction, WorkerEvent, WorkerState,
};

fn fetch_config(workers: usize) -> FetchConfig {
    FetchConfig {
        max_links_per_fetch: 5,
        max_concurrent_users: workers,
        max_sessions_per_user: 1,
        fetch_username: "me".to_string(),
        max_retries: 3,
        users_from_following_retry_delay: 1,
    }
}

fn poll(queue: &async_channel::Receiver<String>) -> QueuePoll {
    match queue.try_recv() {
        Ok(item) => QueuePoll::Item(item),
        Err(async_channel::TryRecvError::Closed) => QueuePoll::Drained,
        Err(async_channel::TryRecvError::Empty) => QueuePoll::Empty,
    }
}

/// One worker's turn: performs what it asks for and steps it. Items whose
/// name starts with `bad` fail to fetch.
fn turn(
    worker: &mut (WorkerState, WorkerAction),
    fetched: &mut Vec<String>,
    queue: &async_channel::Receiver<String>,
) {
    let event = match &worker.1 {
        WorkerAction::Checkout => WorkerEvent::Session(true),
        WorkerAction::Poll => WorkerEvent::Polled(poll(queue)),
        WorkerAction::Fetch(item) => {
            fetched.push(item.clone());
            WorkerEvent::Fetched(!item.starts_with("bad"))
        }
        WorkerAction::Release => WorkerEvent::Released(true),
        WorkerAction::Stop => return,
    };
    *worker = worker_step(worker.0.clone(), event);
}

#[test]
fn worker_starts_by_asking_for_a_session() {
    assert_eq!(worker_start(), (WorkerState::AcquiringSession, WorkerAction::Checkout));
}

#[test]
fn worker_without_session_fails() {
    assert_eq!(
        worker_step(WorkerState::AcquiringSession, WorkerEvent::Session(false)),
        (WorkerState::Failed, WorkerAction::Stop)
    );
}

#[test]
fn worker_with_session_polls() {
    assert_eq!(
        worker_step(WorkerState::AcquiringSession, WorkerEvent::Session(true)),
        (WorkerState::Draining, WorkerAction::Poll)
    );
}

#[test]
fn worker_fetches_what_it_polled() {
    assert_eq!(
        worker_step(WorkerState::Draining, WorkerEvent::Polled(QueuePoll::Item("u".to_string()))),
        (WorkerState::FetchingItem("u".to_string()), WorkerAction::Fetch("u".to_string()))
    );
}

#[test]
fn worker_goes_on_after_a_failed_fetch() {
    assert_eq!(
        worker_step(WorkerState::FetchingItem("u".to_string()), WorkerEvent::Fetched(false)),
        (WorkerState::Draining, WorkerAction::Poll)
    );
    assert_eq!(
        worker_step(WorkerState::FetchingItem("u".to_string()), WorkerEvent::Fetched(true)),
        (WorkerState::Draining, WorkerAction::Poll)
    );
}

#[test]
fn drained_queue_ends_the_worker_cleanly() {
    assert_eq!(
        worker_step(WorkerState::Draining, WorkerEvent::Polled(QueuePoll::Drained)),
        (WorkerState::ReleasingSession { failed: false }, WorkerAction::Release)
    );
    assert_eq!(
        worker_step(WorkerState::ReleasingSession { failed: false }, WorkerEvent::Released(true)),
        (WorkerState::Done, WorkerAction::Stop)
    );
    assert_eq!(
        worker_step(WorkerState::ReleasingSession { failed: false }, WorkerEvent::Released(false)),
        (WorkerState::Done, WorkerAction::Stop)
    );
}

#[test]
fn open_empty_queue_fails_the_worker_after_release() {
    assert_eq!(
        worker_step(WorkerState::Draining, WorkerEvent::Polled(QueuePoll::Empty)),
        (WorkerState::ReleasingSession { failed: true }, WorkerAction::Release)
    );
    assert_eq!(
        worker_step(WorkerState::ReleasingSession { failed: true }, WorkerEvent::Released(true)),
        (WorkerState::Failed, WorkerAction::Stop)
    );
}

#[test]
fn stray_event_changes_nothing() {
    assert_eq!(
        worker_step(WorkerState::Draining, WorkerEvent::Fetched(true)),
        (WorkerState::Draining, WorkerAction::Poll)
    );
    assert_eq!(
        worker_step(WorkerState::FetchingItem("u".to_string()), WorkerEvent::Session(true)),
        (WorkerState::FetchingItem("u".to_string()), WorkerAction::Fetch("u".to_string()))
    );
    assert_eq!(
        worker_step(WorkerState::Done, WorkerEvent::Released(true)),
        (WorkerState::Done, WorkerAction::Stop)
    );
    assert_eq!(
        worker_step(WorkerState::Failed, WorkerEvent::Session(true)),
        (WorkerState::Failed, WorkerAction::Stop)
    );
}

#[test]
fn more_workers_than_items_fetch_each_item_once() {
    let items = vec!["a".to_string(), "b".to_string(), "c".to_string()];
    let workers = 5;
    let (tx, rx) = async_channel::unbounded::<String>();
    for item in &items {
        tx.try_send(item.clone()).unwrap();
    }
    assert!(tx.close());
    let mut fleet: Vec<(WorkerState, WorkerAction)> = (0..workers).map(|_| worker_start()).collect();
    let mut fetched: Vec<Vec<String>> = vec![Vec::new(); workers];
    while fleet.iter().any(|w| w.1 != WorkerAction::Stop) {
        for i in 0..workers {
            turn(&mut fleet[i], &mut fetched[i], &rx);
        }
    }
    assert!(fleet.iter().all(|w| w.0 == WorkerState::Done));
    let mut all: Vec<String> = fetched.iter().flatten().cloned().collect();
    all.sort();
    assert_eq!(all, items);
    let idle = fetched.iter().filter(|f| f.is_empty()).count();
    assert!(idle >= workers - items.len());
    assert_eq!(idle, 2);
}

#[test]
fn one_worker_drains_the_whole_queue_in_order() {
    let (tx, rx) = async_channel::unbounded::<String>();
    for item in ["one", "two", "three"] {
        tx.try_send(item.to_string()).unwrap();
    }
    tx.close();
    let mut worker = worker_start();
    let mut fetched = Vec::new();
    while worker.1 != WorkerAction::Stop {
        turn(&mut worker, &mut fetched, &rx);
    }
    assert_eq!(worker.0, WorkerState::Done);
    assert_eq!(fetched, vec!["one", "two", "three"]);
}

#[test]
fn worker_survives_a_failing_item() {
    let (tx, rx) = async_channel::unbounded::<String>();
    for item in ["first", "bad second", "third"] {
        tx.try_send(item.to_string()).unwrap();
    }
    tx.close();
    let mut worker = worker_start();
    let mut fetched = Vec::new();
    while worker.1 != WorkerAction::Stop {
        turn(&mut worker, &mut fetched, &rx);
    }
    assert_eq!(fetched, vec!["first", "bad second", "third"]);
    assert_eq!(worker.0, WorkerState::Done);

    let config = fetch_config(1);
    let (state, action) = run_start();
    assert_eq!(action, RunAction::Checkout);
    let (state, action) = run(&config, state, RunEvent::Session(SessionGrant::Leased));
    assert_eq!(action, RunAction::Discover);
    let users = vec!["first".to_string(), "bad second".to_string(), "third".to_string()];
    let (state, action) = run(&config, state, RunEvent::Discovered(Some(users.clone())));
    assert_eq!(action, RunAction::Release);
    let (state, action) = run(&config, state, RunEvent::Released(true));
    assert_eq!(action, RunAction::Dispatch { items: users, workers: 1 });
    let (state, action) = run(&config, state, RunEvent::WorkersJoined);
    assert_eq!(state, RunState::Finished(Ok(())));
    assert_eq!(action, RunAction::Finish(Ok(())));
}

#[test]
fn worker_on_an_unclosed_queue_fails() {
    let (tx, rx) = async_channel::unbounded::<String>();
    tx.try_send("only".to_string()).unwrap();
    let mut worker = worker_start();
    let mut fetched = Vec::new();
    while worker.1 != WorkerAction::Stop {
        turn(&mut worker, &mut fetched, &rx);
    }
    assert_eq!(fetched, vec!["only"]);
    assert_eq!(worker.0, WorkerState::Failed);
}

#[test]
fn run_without_free_slot_fails_at_once() {
    let config = fetch_config(2);
    let (state, _) = run_start();
    assert_eq!(
        run(&config, state, RunEvent::Session(SessionGrant::Empty)),
        (
            RunState::Finished(Err(RunError::NoClients)),
            RunAction::Finish(Err(RunError::NoClients))
        )
    );
}

#[test]
fn run_with_failed_checkout_fails() {
    let config = fetch_config(2);
    let (state, _) = run_start();
    assert_eq!(
        run(&config, state, RunEvent::Session(SessionGrant::Failed)),
        (
            RunState::Finished(Err(RunError::CheckoutFailed)),
            RunAction::Finish(Err(RunError::CheckoutFailed))
        )
    );
}

#[test]
fn failed_discovery_releases_before_it_fails() {
    let config = fetch_config(2);
    let (state, action) = run(&config, RunState::Discovering, RunEvent::Discovered(None));
    assert_eq!(state, RunState::ReleasingSession { users: None });
    assert_eq!(action, RunAction::Release);
    assert_eq!(
        run(&config, state, RunEvent::Released(true)).1,
        RunAction::Finish(Err(RunError::DiscoveryFailed))
    );
}

#[test]
fn failed_release_after_discovery_fails_the_run() {
    let config = fetch_config(2);
    let users = Some(vec!["a".to_string()]);
    assert_eq!(
        run(&config, RunState::ReleasingSession { users }, RunEvent::Released(false)).1,
        RunAction::Finish(Err(RunError::ReleaseFailed))
    );
    assert_eq!(
        run(&config, RunState::ReleasingSession { users: None }, RunEvent::Released(false)).1,
        RunAction::Finish(Err(RunError::ReleaseFailed))
    );
}

#[test]
fn run_dispatches_to_the_configured_number_of_workers() {
    let config = fetch_config(7);
    let users = vec!["a".to_string(), "b".to_string()];
    let (state, action) = run(
        &config,
        RunState::ReleasingSession { users: Some(users.clone()) },
        RunEvent::Released(true),
    );
    assert_eq!(state, RunState::AwaitingWorkers);
    assert_eq!(action, RunAction::Dispatch { items: users, workers: 7 });
}

#[test]
fn run_ignores_stray_events() {
    let config = fetch_config(2);
    assert_eq!(
        run(&config, RunState::AwaitingWorkers, RunEvent::Released(true)),
        (RunState::AwaitingWorkers, RunAction::Join)
    );
    assert_eq!(
        run(&config, RunState::Discovering, RunEvent::WorkersJoined),
        (RunState::Discovering, RunAction::Discover)
    );
    assert_eq!(
        run(&config, RunState::Finished(Ok(())), RunEvent::WorkersJoined),
        (RunState::Finished(Ok(())), RunAction::Finish(Ok(())))
    );
}

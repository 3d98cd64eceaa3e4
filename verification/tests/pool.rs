use twitarc::config::DriverConfig;
use twitarc::pool::{
    termination_result, CheckoutNext, CheckoutState, DriverPool, PoolError, SessionRequest,
    WrappedClient,
};

fn pool_of(count: usize) -> DriverPool {
    DriverPool::new(&DriverConfig { driver_count: count, base_port: 4444 })
}

/// Runs a checkout to its end, answering the requests as given.
fn checkout(
    pool: &mut DriverPool,
    connect: bool,
    auth: bool,
    close: bool,
) -> (Vec<SessionRequest>, Result<Option<WrappedClient>, PoolError>) {
    let mut asked = Vec::new();
    let mut state = CheckoutState::Start;
    let mut succeeded = true;
    loop {
        match pool.get_client(state, succeeded) {
            CheckoutNext::Finished(result) => return (asked, result),
            CheckoutNext::Perform(next, request) => {
                asked.push(request);
                succeeded = match request {
                    SessionRequest::Connect { .. } => connect,
                    SessionRequest::Authenticate => auth,
                    SessionRequest::Close => close,
                };
                state = next;
            }
        }
    }
}

#[test]
fn new_pool_has_every_slot_free() {
    let pool = pool_of(3);
    assert_eq!(pool.free_count(), 3);
    assert_eq!(pool.leased_count(), 0);
}

#[test]
fn checkout_takes_the_last_port_first() {
    let mut pool = pool_of(3);
    let (asked, result) = checkout(&mut pool, true, true, true);
    assert_eq!(asked, vec![SessionRequest::Connect { port: 4446 }, SessionRequest::Authenticate]);
    assert_eq!(result.unwrap().unwrap().port(), 4446);
    assert_eq!(pool.free_count(), 2);
    assert_eq!(pool.leased_count(), 1);
}

#[test]
fn empty_pool_answers_at_once() {
    let mut pool = pool_of(0);
    let (asked, result) = checkout(&mut pool, true, true, true);
    assert!(asked.is_empty());
    assert_eq!(result, Ok(None));
}

#[test]
fn checkout_after_capacity_is_empty() {
    for n in 0..5usize {
        let mut pool = pool_of(n);
        let mut leases = Vec::new();
        for _ in 0..n {
            let (_, result) = checkout(&mut pool, true, true, true);
            leases.push(result.unwrap().expect("a slot is free"));
        }
        let (asked, result) = checkout(&mut pool, true, true, true);
        assert!(asked.is_empty());
        assert_eq!(result, Ok(None));
        assert_eq!(pool.free_count(), 0);
        assert_eq!(pool.leased_count(), n);
        let mut ports: Vec<usize> = leases.iter().map(|l| l.port()).collect();
        ports.sort();
        assert_eq!(ports, (4444..4444 + n).collect::<Vec<usize>>());
    }
}

#[test]
fn release_gives_the_slot_back() {
    let mut pool = pool_of(2);
    let (_, result) = checkout(&mut pool, true, true, true);
    let lease = result.unwrap().unwrap();
    assert_eq!(pool.free_count(), 1);
    assert_eq!(lease.close(&mut pool, true), Ok(()));
    assert_eq!(pool.free_count(), 2);
    assert_eq!(pool.leased_count(), 0);
    let (_, again) = checkout(&mut pool, true, true, true);
    assert_eq!(again.unwrap().unwrap().port(), 4445);
}

#[test]
fn release_after_failed_close_still_gives_the_slot_back() {
    let mut pool = pool_of(1);
    let (_, result) = checkout(&mut pool, true, true, true);
    let lease = result.unwrap().unwrap();
    assert_eq!(lease.close(&mut pool, false), Err(PoolError::CloseFailed));
    assert_eq!(pool.free_count(), 1);
    assert_eq!(pool.leased_count(), 0);
}

#[test]
fn failed_auth_closes_the_session_and_keeps_the_slot() {
    let mut pool = pool_of(2);
    let (asked, result) = checkout(&mut pool, true, false, true);
    assert_eq!(
        asked,
        vec![
            SessionRequest::Connect { port: 4445 },
            SessionRequest::Authenticate,
            SessionRequest::Close
        ]
    );
    assert_eq!(result, Err(PoolError::AuthFailed));
    assert_eq!(pool.free_count(), 2);
    assert_eq!(pool.leased_count(), 0);
}

#[test]
fn failed_auth_and_failed_close_keep_the_slot() {
    let mut pool = pool_of(2);
    let (_, result) = checkout(&mut pool, true, false, false);
    assert_eq!(result, Err(PoolError::CloseFailed));
    assert_eq!(pool.free_count(), 2);
    assert_eq!(pool.leased_count(), 0);
}

#[test]
fn failed_connect_keeps_the_slot() {
    let mut pool = pool_of(2);
    let (asked, result) = checkout(&mut pool, false, true, true);
    assert_eq!(asked, vec![SessionRequest::Connect { port: 4445 }]);
    assert_eq!(result, Err(PoolError::ConnectFailed));
    assert_eq!(pool.free_count(), 2);
    assert_eq!(pool.leased_count(), 0);
}

#[test]
fn checkout_and_release_leave_the_count_as_it_was() {
    for (connect, auth, close) in [
        (true, true, true),
        (true, false, true),
        (true, false, false),
        (false, true, true),
    ] {
        let mut pool = pool_of(3);
        let (_, first) = checkout(&mut pool, true, true, true);
        let held = first.unwrap().unwrap();
        let before = pool.free_count();
        let (_, result) = checkout(&mut pool, connect, auth, close);
        if let Ok(Some(lease)) = result {
            let _ = lease.close(&mut pool, close);
        }
        assert_eq!(pool.free_count(), before);
        assert_eq!(pool.leased_count(), 1);
        assert_eq!(held.close(&mut pool, true), Ok(()));
        assert_eq!(pool.free_count(), 3);
    }
}

#[test]
fn lease_of_another_pool_is_refused() {
    let mut first = pool_of(1);
    let mut second = DriverPool::new(&DriverConfig { driver_count: 1, base_port: 9000 });
    let (_, result) = checkout(&mut first, true, true, true);
    let lease = result.unwrap().unwrap();
    assert_eq!(lease.close(&mut second, true), Err(PoolError::UnknownSlot));
    assert_eq!(second.free_count(), 1);
    assert_eq!(second.leased_count(), 0);
}

#[test]
fn shutdown_names_every_server() {
    let mut pool = pool_of(3);
    let (_, result) = checkout(&mut pool, true, true, true);
    let lease = result.unwrap().unwrap();
    assert_eq!(pool.close(), vec![4444, 4445, 4446]);
    assert_eq!(pool.free_count(), 0);
    assert_eq!(pool.leased_count(), 0);
    assert_eq!(lease.close(&mut pool, true), Err(PoolError::UnknownSlot));
    assert_eq!(pool.free_count(), 0);
    let (_, after) = checkout(&mut pool, true, true, true);
    assert_eq!(after, Ok(None));
}

#[test]
fn shutdown_reports_the_first_server_that_stays() {
    assert_eq!(termination_result(&vec![]), Ok(()));
    assert_eq!(termination_result(&vec![(4444, true), (4445, true)]), Ok(()));
    assert_eq!(
        termination_result(&vec![(4444, true), (4445, false), (4446, false)]),
        Err(PoolError::TerminateFailed { port: 4445 })
    );
}

use mycelium_sync::wait_cell::{
    abandon_outcome, announce_bits, finish_notify, install, refusal_of, Closed, Error, State, WaitCell, CLOSED,
    NOTIFYING, PARKING, WAITING,
};
use std::sync::atomic::{AtomicUsize, Ordering};
use std::sync::Arc;
use std::task::{Wake, Waker};

/// A task handle that counts how often it was woken.
struct CountingTask {
    wakes: AtomicUsize,
}

impl Wake for CountingTask {
    fn wake(self: Arc<Self>) {
        self.wakes.fetch_add(1, Ordering::SeqCst);
    }
}

fn task() -> (Arc<CountingTask>, Waker) {
    let t = Arc::new(CountingTask { wakes: AtomicUsize::new(0) });
    let w = Waker::from(t.clone());
    (t, w)
}

#[test]
fn wait_smoke() {
    let cell = WaitCell::new();
    let (t, waker) = task();
    let mut completed = 0;

    let mut wait = cell.wait();
    if let Some(r) = wait.poll_wait(&waker) {
        r.unwrap();
        completed += 1;
    }
    assert_eq!(completed, 0);
    assert_eq!(t.wakes.load(Ordering::SeqCst), 0);

    assert_eq!(cell.wake(), true);
    assert_eq!(t.wakes.load(Ordering::SeqCst), 1);
    if let Some(r) = wait.poll_wait(&waker) {
        r.unwrap();
        completed += 1;
    }
    assert_eq!(completed, 1);
}

#[test]
fn close_then_register_is_closed() {
    let cell = WaitCell::new();
    let (_t, waker) = task();
    cell.close();
    assert_eq!(cell.register_wait(&waker), Err(Error::Closed));
    assert_eq!(cell.register_wait(&waker), Err(Error::Closed));
    assert_eq!(cell.wake(), false);
    assert_eq!(cell.register_wait(&waker), Err(Error::Closed));
}

#[test]
fn close_wakes_registered_waiter_with_closed() {
    let cell = WaitCell::new();
    let (t, waker) = task();
    let mut wait = cell.wait();
    assert_eq!(wait.poll_wait(&waker), None);
    cell.close();
    assert_eq!(t.wakes.load(Ordering::SeqCst), 1);
    let mut second = cell.wait();
    assert_eq!(second.poll_wait(&waker), Some(Err(Closed)));
}

#[test]
fn ready_wait_stays_ready() {
    let cell = WaitCell::new();
    let (_t, waker) = task();
    let mut wait = cell.wait();
    assert_eq!(wait.poll_wait(&waker), None);
    assert_eq!(wait.poll_wait(&waker), Some(Ok(())));
    cell.close();
    assert_eq!(wait.poll_wait(&waker), Some(Ok(())));
}

#[test]
fn notify_before_register_is_not_remembered() {
    let cell = WaitCell::new();
    let (t, waker) = task();
    assert_eq!(cell.wake(), false);
    assert_eq!(cell.register_wait(&waker), Ok(()));
    assert_eq!(t.wakes.load(Ordering::SeqCst), 0);
    assert_eq!(cell.wake(), true);
    assert_eq!(t.wakes.load(Ordering::SeqCst), 1);
}

#[test]
fn registering_another_task_wakes_the_displaced_one() {
    let cell = WaitCell::new();
    let (t1, w1) = task();
    let (t2, w2) = task();
    assert_eq!(cell.register_wait(&w1), Ok(()));
    assert_eq!(cell.register_wait(&w2), Ok(()));
    assert_eq!(t1.wakes.load(Ordering::SeqCst), 1);
    assert_eq!(t2.wakes.load(Ordering::SeqCst), 0);
    assert_eq!(cell.wake(), true);
    assert_eq!(t2.wakes.load(Ordering::SeqCst), 1);
}

#[test]
fn state_bits() {
    let closed_parking = State(0b101);
    assert!(closed_parking.is(State(0b100)));
    assert!(closed_parking.is(State(0b001)));
    assert!(!closed_parking.is(State(0b010)));
    assert_eq!(State(0b010).bitor(State(0b100)), State(0b110));
    assert_eq!(State(0b010).not().0 & 0b111, 0b101);
}

#[test]
fn closed_while_registering_is_closed() {
    let cell = WaitCell::new();
    let (t, waker) = task();
    // A notifier that finds a registration under way leaves the close bit
    // for the registrant; a registrant retrying after Busy then sees Closed.
    let mut wait = cell.wait();
    cell.close();
    assert_eq!(wait.poll_wait(&waker), Some(Err(Closed)));
    assert_eq!(t.wakes.load(Ordering::SeqCst), 0);
    assert_eq!(wait.poll_wait(&waker), Some(Ok(())));
}

#[test]
fn refusal_reports_closed_only_with_closed_bit() {
    assert_eq!(refusal_of(State(CLOSED)), Err(Error::Closed));
    assert_eq!(refusal_of(State(CLOSED | PARKING)), Err(Error::Closed));
    assert_eq!(refusal_of(State(NOTIFYING)), Err(Error::Busy));
    assert_eq!(refusal_of(State(PARKING | NOTIFYING)), Err(Error::Busy));
}

#[test]
fn install_keeps_same_task_and_displaces_another() {
    let (_t1, w1) = task();
    let (_t2, w2) = task();
    let (kept, displaced) = install(Some(w1.clone()), true, &w2);
    assert!(kept.unwrap().will_wake(&w1));
    assert!(displaced.is_none());
    let (kept, displaced) = install(Some(w1.clone()), false, &w2);
    assert!(kept.unwrap().will_wake(&w2));
    assert!(displaced.unwrap().will_wake(&w1));
    let (kept, displaced) = install(None, false, &w2);
    assert!(kept.unwrap().will_wake(&w2));
    assert!(displaced.is_none());
}

#[test]
fn finish_notify_wakes_what_it_took() {
    let (t, w) = task();
    assert!(finish_notify(State(WAITING), Some(w)));
    assert_eq!(t.wakes.load(Ordering::SeqCst), 1);
    assert!(!finish_notify(State(WAITING), None));
    assert!(!finish_notify(State(NOTIFYING), None));
    assert_eq!(announce_bits(State(CLOSED)), State(NOTIFYING | CLOSED));
    assert_eq!(announce_bits(State(WAITING)), State(NOTIFYING));
}

#[test]
fn settle_maps_registration_results() {
    let cell = WaitCell::new();
    let (t, waker) = task();
    let mut wait = cell.wait();
    assert_eq!(wait.settle(Err(Error::Busy), &waker), None);
    assert_eq!(t.wakes.load(Ordering::SeqCst), 1);
    assert_eq!(wait.settle(Ok(()), &waker), None);
    assert_eq!(wait.poll_wait(&waker), Some(Ok(())));
    let mut other = cell.wait();
    assert_eq!(other.settle(Err(Error::Closed), &waker), Some(Err(Closed)));
    assert_eq!(other.poll_wait(&waker), Some(Ok(())));
}

#[test]
fn abandoned_registration_is_busy_or_closed() {
    assert_eq!(abandon_outcome(Ok(State(PARKING))), Err(Error::Busy));
    assert_eq!(abandon_outcome(Err(State(PARKING | CLOSED))), Err(Error::Closed));
}

//! An atomically registered single waiter, woken by any notifier, which can
//! be closed for good.
use std::sync::atomic::{AtomicUsize, Ordering};
use std::task::Waker;
use vstd::prelude::*;
use crate::lock::try_acquire;
use std::sync::Mutex;

verus! {

#[verifier::external_type_specification]
#[verifier::external_body]
pub struct ExWaker(Waker);

/// Relies on `Waker::wake`: consumes the waker and schedules its task.
pub assume_specification[ Waker::wake ](waker: Waker);

/// Relies on `Waker::wake_by_ref`: schedules the waker's task, keeping the
/// waker.
pub assume_specification[ Waker::wake_by_ref ](waker: &Waker);

/// Relies on `Waker::will_wake`: a best-effort test that two wakers wake the
/// same task; nothing is promised of its answer.
pub assume_specification[ Waker::will_wake ](waker: &Waker, other: &Waker) -> bool;

/// Relies on `Waker::clone`: a waker for the same task.
pub assume_specification[ <Waker as Clone>::clone ](waker: &Waker) -> Waker;

/// No task is registering or notifying.
pub const WAITING: usize = 0b000;

/// A task is installing its waker.
pub const PARKING: usize = 0b001;

/// A notifier is taking the waker.
pub const NOTIFYING: usize = 0b010;

/// The cell is closed for good.
pub const CLOSED: usize = 0b100;

/// Why a waiter could not be registered.
#[derive(Clone, Copy, Debug, PartialEq, Eq, Structural)]
pub enum Error {
    /// The cell is closed and will never fire again.
    Closed,
    /// Another task or notifier holds the cell; try again later.
    Busy,
}

/// The wait ended because the cell was closed.
#[derive(Clone, Copy, Debug, PartialEq, Eq, Structural)]
pub struct Closed;

fn closed() -> (r: Result<(), Error>)
    ensures
        r == Err::<(), Error>(Error::Closed),
{
    Err(Error::Closed)
}

fn registered() -> (r: Result<(), Error>)
    ensures
        r == Ok::<(), Error>(()),
{
    Ok(())
}

fn busy() -> (r: Result<(), Error>)
    ensures
        r == Err::<(), Error>(Error::Busy),
{
    Err(Error::Busy)
}

/// Every bit of `bits` is set in the state word `s`.
pub open spec fn has_bits(s: usize, bits: usize) -> bool {
    s & bits == bits
}

/// A state word of the cell.
#[derive(Clone, Copy, Debug, PartialEq, Eq, Structural)]
pub struct State(pub usize);

impl State {
    /// Every bit of `bits` is set in this state.
    pub fn is(self, bits: State) -> (r: bool)
        ensures
            r == has_bits(self.0, bits.0),
    {
        self.0 & bits.0 == bits.0
    }

    /// The bits of both states.
    pub fn bitor(self, other: State) -> (r: State)
        ensures
            r.0 == self.0 | other.0,
    {
        State(self.0 | other.0)
    }

    /// The bits not in this state.
    pub fn not(self) -> (r: State)
        ensures
            r.0 == !self.0,
    {
        State(!self.0)
    }
}

/// Why registration cannot begin on the state word `s`: the cell is closed,
/// or someone else holds it.
pub open spec fn refusal(s: usize) -> Error {
    if has_bits(s, CLOSED) {
        Error::Closed
    } else {
        Error::Busy
    }
}

/// What a compare-exchange from `current` to `new` reports on the state word
/// `s`: `Ok` with `s` when it matched and was replaced, else `Err` with `s`.
pub open spec fn cas_result(s: usize, current: usize, new: usize) -> Result<usize, usize> {
    if s == current {
        Ok(s)
    } else {
        Err(s)
    }
}

/// The state word after that compare-exchange.
pub open spec fn after_cas(s: usize, current: usize, new: usize) -> usize {
    if s == current {
        new
    } else {
        s
    }
}

/// How a registration goes on from the result of its first
/// compare-exchange, `WAITING` to `PARKING`: on, or refused.
pub open spec fn begin_register(first: Result<usize, usize>) -> Result<(), Error> {
    match first {
        Ok(_) => Ok(()),
        Err(actual) => Err(refusal(actual)),
    }
}

/// How a registration ends from the result of its second compare-exchange,
/// `PARKING` to `WAITING`: registered, or reported closed because a notifier
/// arrived while it was parking.
pub open spec fn finish_register(second: Result<usize, usize>) -> Result<(), Error> {
    match second {
        Ok(_) => Ok(()),
        Err(_) => Err(Error::Closed),
    }
}

/// How a registration that could not take the slot ends from the result of
/// its second compare-exchange: `Busy`, to be tried again, or `Closed` when a
/// notifier arrived meanwhile.
pub open spec fn abandon_register(second: Result<usize, usize>) -> Result<(), Error> {
    match second {
        Ok(_) => Err(Error::Busy),
        Err(_) => Err(Error::Closed),
    }
}

/// What a registration reports, from the results of its two
/// compare-exchanges and whether it took the slot (`installed`).
pub open spec fn register_outcome(
    first: Result<usize, usize>,
    installed: bool,
    second: Result<usize, usize>,
) -> Result<(), Error> {
    match begin_register(first) {
        Err(e) => Err(e),
        Ok(()) => if installed {
            finish_register(second)
        } else {
            abandon_register(second)
        },
    }
}

/// The state word after a notifier announces itself on `s`, with `close`
/// either `WAITING` or `CLOSED`.
pub open spec fn begin_notify(s: usize, close: usize) -> usize {
    s | NOTIFYING | close
}

/// A notifier that found the word `prev` owns the slot exactly when the
/// cell was idle.
pub open spec fn notify_claims(prev: usize) -> bool {
    prev == WAITING
}

/// The state word after a notifier that claimed the slot lets go of `s`.
pub open spec fn end_notify(s: usize) -> usize {
    s & !NOTIFYING
}

/// The state word after a registrant overtaken by a notifier resets `s`,
/// keeping only the closed bit.
pub open spec fn reset_after_overtaken(s: usize) -> usize {
    s & CLOSED
}

/// The error for a registration refused on the observed state word `actual`.
pub fn refusal_of(actual: State) -> (r: Result<(), Error>)
    ensures
        r == Err::<(), Error>(refusal(actual.0)),
{
    if actual.is(State(CLOSED)) {
        closed()
    } else {
        busy()
    }
}

/// A compare-exchange result, as state words.
pub open spec fn words_of(r: Result<State, State>) -> Result<usize, usize> {
    match r {
        Ok(s) => Ok(s.0),
        Err(s) => Err(s.0),
    }
}

/// How a registration goes on from the result of its first compare-exchange.
pub fn begin_outcome(first: Result<State, State>) -> (r: Result<(), Error>)
    ensures
        r == begin_register(words_of(first)),
{
    match first {
        Ok(_) => registered(),
        Err(actual) => refusal_of(actual),
    }
}

/// How a registration ends from the result of its second compare-exchange.
pub fn finish_outcome(second: Result<State, State>) -> (r: Result<(), Error>)
    ensures
        r == finish_register(words_of(second)),
{
    match second {
        Ok(_) => registered(),
        Err(_) => closed(),
    }
}

/// How a registration that could not take the slot ends from the result of
/// its second compare-exchange.
pub fn abandon_outcome(second: Result<State, State>) -> (r: Result<(), Error>)
    ensures
        r == abandon_register(words_of(second)),
{
    match second {
        Ok(_) => busy(),
        Err(_) => closed(),
    }
}

/// Whether a notifier that found the word `prev` owns the slot.
pub fn claims_slot(prev: State) -> (r: bool)
    ensures
        r == notify_claims(prev.0),
{
    prev.0 == WAITING
}

/// The slot's new content and the waker it displaced, when `waker` is
/// registered into a slot holding `slot`, and `same_task` is whether `waker`
/// wakes the same task as the waker in the slot. A waker for the same task
/// is kept and nothing is displaced; otherwise the slot gets a clone of
/// `waker` and its old waker, if any, is handed back to be woken.
pub fn install(slot: Option<Waker>, same_task: bool, waker: &Waker) -> (r: (Option<Waker>, Option<Waker>))
    ensures
        r.0.is_some(),
        slot.is_some() && same_task ==> r.0 == slot && r.1.is_none(),
        !(slot.is_some() && same_task) ==> r.1 == slot,
{
    match slot {
        Some(old) => {
            if same_task {
                (Some(old), None)
            } else {
                (Some(waker.clone()), Some(old))
            }
        },
        None => (Some(waker.clone()), None),
    }
}

/// Wakes `waker`, if any.
fn wake_if_some(waker: Option<Waker>) {
    match waker {
        Some(w) => w.wake(),
        None => {},
    }
}

/// What a notifier reports: whether it found the cell idle (`prev` is
/// `WAITING`) and took a waker from the slot.
pub open spec fn notify_result(prev: usize, took_waker: bool) -> bool {
    notify_claims(prev) && took_waker
}

/// A notifier's last step: wakes the waker it took from the slot, if any,
/// and reports whether it woke one. `taken` is empty unless the notifier
/// claimed the slot on observing `prev`.
pub fn finish_notify(prev: State, taken: Option<Waker>) -> (r: bool)
    requires
        !notify_claims(prev.0) ==> taken.is_none(),
    ensures
        r == notify_result(prev.0, taken.is_some()),
{
    match taken {
        Some(w) => {
            w.wake();
            true
        },
        None => false,
    }
}

/// The bits a notifier sets: `NOTIFYING`, and `CLOSED` when it closes.
pub fn announce_bits(close: State) -> (r: State)
    requires
        close.0 == WAITING || close.0 == CLOSED,
    ensures
        forall|s: usize| #[trigger] begin_notify(s, close.0) == s | r.0,
{
    let r = State(NOTIFYING).bitor(close);
    assert forall|s: usize| #[trigger] begin_notify(s, close.0) == s | r.0 by {
        let c = close.0;
        assert((s | 2usize) | c == s | (2usize | c)) by (bit_vector);
    }
    r
}

/// The mask a notifier that claimed the slot ands into the word to let go.
pub fn release_mask() -> (r: State)
    ensures
        forall|s: usize| #[trigger] end_notify(s) == s & r.0,
{
    State(NOTIFYING).not()
}

/// The mask an overtaken registrant ands into the word: the closed bit.
pub fn overtaken_mask() -> (r: State)
    ensures
        forall|s: usize| #[trigger] reset_after_overtaken(s) == s & r.0,
{
    State(CLOSED)
}

/// A single waiter slot, registered and notified through a small state
/// word.
///
/// The slot is written only by whoever the state word admits: the
/// registering task while it holds `PARKING`, or a notifier that found the
/// cell `WAITING`. Once closed, the cell stays closed.
pub struct WaitCell {
    lock: AtomicUsize,
    waker: Mutex<Option<Waker>>,
}

impl WaitCell {
    /// An open cell with an empty slot.
    pub fn new() -> (r: WaitCell) {
        WaitCell { lock: AtomicUsize::new(WAITING), waker: Mutex::new(None) }
    }

    /// Takes the slot's waker, leaving it empty; `None` as well when the
    /// slot's lock is held at this instant, which the state word rules out
    /// but for a re-entrant call from a waker.
    fn take_waker(&self) -> (r: Option<Waker>) {
        match try_acquire(&self.waker) {
            Some(mut slot) => slot.take(),
            None => None,
        }
    }

    /// Installs `waker` in the slot and hands back the waker it displaced;
    /// `None` when the slot's lock is held at this instant.
    fn install_waker(&self, waker: &Waker) -> (r: Option<Option<Waker>>) {
        match try_acquire(&self.waker) {
            Some(mut slot) => {
                let old = slot.take();
                let same_task = match &old {
                    Some(o) => waker.will_wake(o),
                    None => false,
                };
                let (kept, displaced) = install(old, same_task, waker);
                *slot = kept;
                Some(displaced)
            },
            None => None,
        }
    }

    /// Registers `waker` to be woken by the next notification.
    ///
    /// Returns `Busy` when a registration or notification is under way, or
    /// the slot's lock is held (only a re-entrant call from a waker can hold
    /// it), and
    /// `Closed` when the cell is closed, or when a notifier arrived before
    /// the registration finished (then the new waker is woken at once).
    /// A waker displaced from the slot is woken.
    pub fn register_wait(&self, waker: &Waker) -> (r: Result<(), Error>)
        ensures
            exists|first: Result<usize, usize>, installed: bool, second: Result<usize, usize>|
                r == register_outcome(first, installed, second),
    {
        let first = self.compare_exchange(State(WAITING), State(PARKING), Ordering::Acquire);
        match begin_outcome(first) {
            Err(e) => {
                assert(Err::<(), Error>(e) == register_outcome(words_of(first), true, Ok(0)));
                return Err(e);
            },
            Ok(()) => {},
        }
        let installed = self.install_waker(waker);
        let placed = installed.is_some();
        match installed {
            Some(displaced) => wake_if_some(displaced),
            None => {},
        }
        let second = self.compare_exchange(State(PARKING), State(WAITING), Ordering::AcqRel);
        let outcome = if placed {
            finish_outcome(second)
        } else {
            abandon_outcome(second)
        };
        if second.is_err() {
            let w = self.take_waker();
            self.fetch_and(overtaken_mask(), Ordering::AcqRel);
            wake_if_some(w);
        }
        assert(outcome == register_outcome(words_of(first), placed, words_of(second)));
        outcome
    }

    /// A future that waits to be woken by this cell. It registers on its
    /// first poll.
    pub fn wait(&self) -> (r: Wait<'_>)
        ensures
            r.cell() == self,
            !r.is_registered(),
    {
        Wait { cell: self, registered: false }
    }

    /// Wakes the registered waiter, if any; `true` when one was woken: when
    /// the cell was idle and its slot held a waker.
    pub fn wake(&self) -> (r: bool)
        ensures
            exists|prev: usize, took_waker: bool| r == notify_result(prev, took_waker),
    {
        self.notify2(State(WAITING))
    }

    /// Closes the cell for good, waking the registered waiter, if any.
    pub fn close(&self) {
        self.notify2(State(CLOSED));
    }

    /// Announces a notification, closing the cell when `close` is `CLOSED`,
    /// and wakes the registered waiter when the cell was idle.
    fn notify2(&self, close: State) -> (r: bool)
        requires
            close.0 == WAITING || close.0 == CLOSED,
        ensures
            exists|prev: usize, took_waker: bool| r == notify_result(prev, took_waker),
    {
        let bits = announce_bits(close);
        let prev = self.fetch_or(bits, Ordering::AcqRel);
        let taken = if claims_slot(prev) {
            let w = self.take_waker();
            self.fetch_and(release_mask(), Ordering::AcqRel);
            w
        } else {
            None
        };
        let r = finish_notify(prev, taken);
        assert(r == notify_result(prev.0, taken.is_some()));
        r
    }

    fn compare_exchange(&self, curr: State, new: State, success: Ordering) -> (r: Result<
        State,
        State,
    >) {
        match self.lock.compare_exchange(curr.0, new.0, success, Ordering::Acquire) {
            Ok(s) => Ok(State(s)),
            Err(s) => Err(State(s)),
        }
    }

    fn fetch_and(&self, state: State, order: Ordering) -> (r: State) {
        State(self.lock.fetch_and(state.0, order))
    }

    fn fetch_or(&self, state: State, order: Ordering) -> (r: State) {
        State(self.lock.fetch_or(state.0, order))
    }
}

/// The future returned by [`WaitCell::wait`]. It is fused: once it has been
/// ready, every later poll is ready with `Ok`.
pub struct Wait<'a> {
    cell: &'a WaitCell,
    registered: bool,
}

impl<'a> Wait<'a> {
    /// The cell waited on.
    pub closed spec fn cell(&self) -> &'a WaitCell {
        self.cell
    }

    /// Whether the wait has registered, or finished on a closed cell.
    pub closed spec fn is_registered(&self) -> bool {
        self.registered
    }

    /// Polls the wait on behalf of the task woken by `waker`: `None` while
    /// pending, `Some` with the outcome when ready.
    ///
    /// A poll that has not registered yet registers `waker` and settles on
    /// the result (see [`poll_step`]). After a registration or a close every
    /// poll is ready with `Ok` and does not touch the cell.
    pub fn poll_wait(&mut self, waker: &Waker) -> (r: Option<Result<(), Closed>>)
        ensures
            final(self).cell() == old(self).cell(),
            old(self).is_registered() ==> r == Some(Ok::<(), Closed>(()))
                && final(self).is_registered(),
            !old(self).is_registered() ==> exists|
                first: Result<usize, usize>,
                installed: bool,
                second: Result<usize, usize>,
            |
                (final(self).is_registered(), r) == poll_step(
                    register_outcome(first, installed, second),
                ),
    {
        if self.registered {
            return Some(Ok(()));
        }
        let res = self.cell.register_wait(waker);
        self.settle(res, waker)
    }

    /// Settles a poll that has not registered yet on the registration's
    /// result `res`: after `Busy` the task asks to be polled again.
    pub fn settle(&mut self, res: Result<(), Error>, waker: &Waker) -> (r: Option<Result<(), Closed>>)
        requires
            !old(self).is_registered(),
        ensures
            final(self).cell() == old(self).cell(),
            (final(self).is_registered(), r) == poll_step(res),
    {
        match res {
            Ok(()) => {
                self.registered = true;
                None
            },
            Err(Error::Busy) => {
                waker.wake_by_ref();
                None
            },
            Err(Error::Closed) => {
                self.registered = true;
                Some(Err(Closed))
            },
        }
    }
}

/// How a first poll settles on its registration's result: whether the wait
/// counts as registered afterwards, and what the poll returns. A
/// registration stays pending, `Busy` stays pending and unregistered, and
/// `Closed` is ready with `Err(Closed)`.
pub open spec fn poll_step(res: Result<(), Error>) -> (bool, Option<Result<(), Closed>>) {
    match res {
        Ok(()) => (true, None),
        Err(Error::Busy) => (false, None),
        Err(Error::Closed) => (true, Some(Err(Closed))),
    }

}

/// Closing sets the closed bit, whatever the word was: the bits a closing
/// notifier announces ([`announce_bits`]) carry it.
pub proof fn lemma_close_sets_closed(s: usize)
    ensures
        has_bits(begin_notify(s, CLOSED), CLOSED),
{
    assert(((s | 2usize) | 4usize) & 4usize == 4usize) by (bit_vector);
}

/// Closing is terminal: on a state word with the closed bit, a
/// registration reports `Closed` whatever its later steps see, and every
/// step of the protocol keeps the bit: both compare-exchanges, the
/// notifier's announce and release ([`announce_bits`], [`release_mask`]),
/// and the overtaken registrant's reset ([`overtaken_mask`]).
pub proof fn lemma_closed_is_terminal(
    s: usize,
    close: usize,
    installed: bool,
    second: Result<usize, usize>,
)
    requires
        has_bits(s, CLOSED),
    ensures
        register_outcome(cas_result(s, WAITING, PARKING), installed, second) == Err::<(), Error>(
            Error::Closed,
        ),
        has_bits(after_cas(s, WAITING, PARKING), CLOSED),
        has_bits(after_cas(s, PARKING, WAITING), CLOSED),
        has_bits(begin_notify(s, close), CLOSED),
        has_bits(end_notify(s), CLOSED),
        has_bits(reset_after_overtaken(s), CLOSED),
{
    assert(s != 0usize && s != 1usize) by (bit_vector)
        requires
            s & 4usize == 4usize,
    ;
    assert((s & 4usize) & 4usize == 4usize) by (bit_vector)
        requires
            s & 4usize == 4usize,
    ;
    assert(((s | 2usize) | close) & 4usize == 4usize) by (bit_vector)
        requires
            s & 4usize == 4usize,
    ;
    assert((s & !2usize) & 4usize == 4usize) by (bit_vector)
        requires
            s & 4usize == 4usize,
    ;
}

/// A notification that finds the cell waiting with an empty slot wakes
/// nobody and leaves the cell waiting, so a registration that follows goes
/// through and is not woken by it: the waiter must check its condition
/// again.
pub proof fn lemma_notify_before_register()
    ensures
        notify_claims(WAITING),
        notify_result(WAITING, false) == false,
        end_notify(begin_notify(WAITING, WAITING)) == WAITING,
        cas_result(end_notify(begin_notify(WAITING, WAITING)), WAITING, PARKING) == Ok::<
            usize,
            usize,
        >(WAITING),
        register_outcome(
            cas_result(WAITING, WAITING, PARKING),
            true,
            cas_result(after_cas(WAITING, WAITING, PARKING), PARKING, WAITING),
        ) == Ok::<(), Error>(()),
        poll_step(Ok::<(), Error>(())) == (true, None::<Result<(), Closed>>),
{
    assert((0usize | 2usize) | 0usize == 2usize) by (bit_vector);
    assert(2usize & !2usize == 0usize) by (bit_vector);
}

/// A wait is fused: a poll that comes out ready leaves the wait registered,
/// so every later poll is ready with `Ok` without registering again; and a
/// successful registration leaves it pending.
pub proof fn lemma_wait_is_fused(res: Result<(), Error>)
    ensures
        poll_step(res).1.is_some() ==> poll_step(res).0,
        res is Ok ==> poll_step(res) == (true, None::<Result<(), Closed>>),
        poll_step(res).0 <==> !(res == Err::<(), Error>(Error::Busy)),
{
}

} // verus!

use mycelium_sync::stack::{Links, Stack, TransferStack};
use std::sync::atomic::{AtomicUsize, Ordering};
use std::sync::Arc;

/// An element that counts how many of its kind have been dropped.
struct Entry {
    val: i32,
    drops: Arc<AtomicUsize>,
}

impl Drop for Entry {
    fn drop(&mut self) {
        self.drops.fetch_add(1, Ordering::SeqCst);
    }
}

fn entry(val: i32, drops: &Arc<AtomicUsize>) -> Entry {
    Entry { val, drops: drops.clone() }
}

fn push_all(stack: &TransferStack<Entry>, thread: i32, n: i32, drops: &Arc<AtomicUsize>) {
    for i in 0..n {
        assert!(stack.push(entry(thread * 10 + i, drops)).is_ok());
    }
}

fn vals(mut stack: Stack<Entry>) -> Vec<i32> {
    let mut out = Vec::new();
    while let Some(e) = stack.pop() {
        out.push(e.val);
    }
    out
}

fn assert_send_sync<T: Send + Sync>() {}

#[test]
fn multithreaded_push() {
    const PUSHES: i32 = 2;
    let drops = Arc::new(AtomicUsize::new(0));
    let stack = TransferStack::new();
    let mut seen = Vec::new();

    // The two producers' pushes interleave with the consumer's takes; the
    // consumer takes once more after both are done.
    assert!(stack.push(entry(10, &drops)).is_ok());
    seen.extend(vals(stack.take_all().unwrap()));
    assert!(stack.push(entry(20, &drops)).is_ok());
    assert!(stack.push(entry(11, &drops)).is_ok());
    seen.extend(vals(stack.take_all().unwrap()));
    assert!(stack.push(entry(21, &drops)).is_ok());
    seen.extend(vals(stack.take_all().unwrap()));
    seen.extend(vals(stack.take_all().unwrap()));

    seen.sort();
    assert_eq!(seen, vec![10, 11, 20, 21]);
    assert_eq!(seen.len(), (2 * PUSHES) as usize);
}

#[test]
fn multithreaded_pop() {
    let drops = Arc::new(AtomicUsize::new(0));
    let stack = TransferStack::new();

    // Producers 1 and 2 each push two values; a second consumer takes in
    // the middle, and the first takes before and after.
    assert!(stack.push(entry(10, &drops)).is_ok());
    assert!(stack.push(entry(20, &drops)).is_ok());
    let seen_thread3 = vals(stack.take_all().unwrap());
    assert!(stack.push(entry(11, &drops)).is_ok());
    let seen_thread0 = vals(stack.take_all().unwrap());
    assert!(stack.push(entry(21, &drops)).is_ok());
    let seen_thread0_final = vals(stack.take_all().unwrap());

    let mut all = seen_thread0;
    all.extend(seen_thread3);
    all.extend(seen_thread0_final);

    all.sort();
    assert_eq!(all, vec![10, 11, 20, 21]);
}

#[test]
fn doesnt_leak() {
    const PUSHES: i32 = 2;
    let drops = Arc::new(AtomicUsize::new(0));
    let stack = TransferStack::new();
    push_all(&stack, 1, PUSHES, &drops);
    push_all(&stack, 2, PUSHES, &drops);
    drop(stack);
    assert_eq!(drops.load(Ordering::SeqCst), 4);
}

#[test]
fn take_all_doesnt_leak() {
    const PUSHES: i32 = 2;
    let drops = Arc::new(AtomicUsize::new(0));
    let stack = TransferStack::new();
    push_all(&stack, 1, PUSHES, &drops);
    push_all(&stack, 2, PUSHES, &drops);

    let take_all = stack.take_all().unwrap();
    drop(stack);
    assert_eq!(drops.load(Ordering::SeqCst), 0);
    drop(take_all);
    assert_eq!(drops.load(Ordering::SeqCst), 4);
}

#[test]
fn take_all_doesnt_leak_racy() {
    const PUSHES: i32 = 2;
    let drops = Arc::new(AtomicUsize::new(0));
    let stack = TransferStack::new();
    push_all(&stack, 1, 1, &drops);

    let take_all = stack.take_all().unwrap();

    assert!(stack.push(entry(11, &drops)).is_ok());
    push_all(&stack, 2, PUSHES, &drops);

    drop(stack);
    assert_eq!(drops.load(Ordering::SeqCst), 3);
    drop(take_all);
    assert_eq!(drops.load(Ordering::SeqCst), 4);
}

#[test]
fn unsync() {
    let drops = Arc::new(AtomicUsize::new(0));
    let mut stack = Stack::<Entry>::new();
    stack.push(entry(1, &drops));
    stack.push(entry(2, &drops));
    stack.push(entry(3, &drops));
    let mut take_all = stack.take_all();

    for i in (1..=3).rev() {
        assert_eq!(take_all.pop().unwrap().val, i);
        stack.push(entry(10 + i, &drops));
    }

    let mut i = 11;
    let mut rest = stack.take_all();
    while let Some(entry) = rest.pop() {
        assert_eq!(entry.val, i);
        i += 1;
    }
}

#[test]
fn unsync_doesnt_leak() {
    let drops = Arc::new(AtomicUsize::new(0));
    let mut stack = Stack::<Entry>::new();
    stack.push(entry(1, &drops));
    stack.push(entry(2, &drops));
    stack.push(entry(3, &drops));
    drop(stack);
    assert_eq!(drops.load(Ordering::SeqCst), 3);
}

#[test]
fn stack_is_send_sync() {
    assert_send_sync::<TransferStack<Entry>>()
}

#[test]
fn links_are_send_sync() {
    assert_send_sync::<Links<Entry>>()
}

#[test]
fn take_all_yields_reverse_push_order() {
    let mut stack = Stack::new();
    stack.push(1);
    stack.push(2);
    stack.push(3);
    let mut taken = stack.take_all();
    assert!(stack.is_empty());
    assert_eq!(taken.drain(), vec![3, 2, 1]);
    assert!(taken.is_empty());
}

#[test]
fn pop_on_empty_stack_is_none() {
    let mut stack: Stack<u8> = Stack::new();
    assert_eq!(stack.pop(), None);
    stack.push(7);
    assert_eq!(stack.pop(), Some(7));
    assert_eq!(stack.pop(), None);
}

#[test]
fn pop_undoes_push() {
    let mut stack = Stack::new();
    stack.push(5);
    stack.push(6);
    assert_eq!(stack.pop(), Some(6));
    stack.push(9);
    assert_eq!(stack.drain(), vec![9, 5]);
}

#[test]
fn transfer_stack_take_all_empties_it() {
    let stack = TransferStack::new();
    assert!(stack.push(1).is_ok());
    assert!(stack.push(2).is_ok());
    assert_eq!(stack.take_all().unwrap().drain(), vec![2, 1]);
    assert!(stack.take_all().unwrap().is_empty());
    let fresh: Links<u8> = Links::new();
    drop(fresh);
}

#[test]
fn transfer_stack_hands_back_nothing_lost() {
    let stack = TransferStack::new();
    assert!(stack.push(4u8).is_ok());
    let mut first = stack.take_all().unwrap();
    assert!(stack.push(5u8).is_ok());
    assert_eq!(first.pop(), Some(4));
    assert_eq!(stack.take_all().unwrap().drain(), vec![5]);
}

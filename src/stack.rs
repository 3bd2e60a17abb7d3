//! Singly-linked stacks built from per-element links: a single-owner
//! [`Stack`], and a [`TransferStack`] that many producers push onto while a
//! consumer takes everything at once.
use vstd::prelude::*;
use crate::lock::try_acquire;
use std::sync::Mutex;

verus! {

/// The link carried by each element of a stack: the rest of the chain below
/// it. A fresh link is empty, so a new element belongs to no chain.
pub struct Links<T> {
    next: Option<Box<Node<T>>>,
}

/// One element of a chain, with its embedded link.
struct Node<T> {
    value: T,
    links: Links<T>,
}

/// The elements reachable from `links`, nearest first.
pub closed spec fn chain<T>(links: Links<T>) -> Seq<T>
    decreases links,
{
    match links.next {
        None => Seq::empty(),
        Some(node) => seq![node.value].add(chain(node.links)),
    }
}

impl<T> Links<T> {
    /// An empty link.
    pub fn new() -> (r: Links<T>)
        ensures
            chain(r) == Seq::<T>::empty(),
    {
        Links { next: None }
    }
}

/// A single-owner LIFO stack. It owns every element on it; dropping it drops
/// them all.
pub struct Stack<T> {
    head: Links<T>,
}

impl<T> View for Stack<T> {
    type V = Seq<T>;

    /// The elements, top first.
    closed spec fn view(&self) -> Seq<T> {
        chain(self.head)
    }
}

/// The stack `s` after pushing `x`.
pub open spec fn pushed<T>(s: Seq<T>, x: T) -> Seq<T> {
    seq![x].add(s)
}

/// What popping `s` gives: its top element, if any.
pub open spec fn popped<T>(s: Seq<T>) -> Option<T> {
    if s.len() == 0 {
        None
    } else {
        Some(s[0])
    }
}

/// The stack `s` after a pop.
pub open spec fn after_pop<T>(s: Seq<T>) -> Seq<T> {
    if s.len() == 0 {
        s
    } else {
        s.drop_first()
    }
}

impl<T> Stack<T> {
    /// An empty stack.
    pub fn new() -> (r: Stack<T>)
        ensures
            r@ == Seq::<T>::empty(),
    {
        Stack { head: Links::new() }
    }

    /// Puts `element` on top.
    pub fn push(&mut self, element: T)
        ensures
            final(self)@ == pushed(old(self)@, element),
    {
        let rest = self.head.next.take();
        let node = Node { value: element, links: Links { next: rest } };
        self.head.next = Some(Box::new(node));
    }

    /// Removes the top element and hands it back; `None` when empty.
    pub fn pop(&mut self) -> (r: Option<T>)
        ensures
            r == popped(old(self)@),
            final(self)@ == after_pop(old(self)@),
    {
        match self.head.next.take() {
            None => None,
            Some(node) => {
                let node = *node;
                self.head = node.links;
                Some(node.value)
            },
        }
    }

    /// Moves every element into a new stack, in the same order, leaving this
    /// one empty.
    pub fn take_all(&mut self) -> (r: Stack<T>)
        ensures
            r@ == old(self)@,
            final(self)@ == Seq::<T>::empty(),
    {
        let head = self.head.next.take();
        Stack { head: Links { next: head } }
    }

    pub fn is_empty(&self) -> (r: bool)
        ensures
            r <==> self@.len() == 0,
    {
        self.head.next.is_none()
    }

    /// Pops every element, in pop order.
    pub fn drain(&mut self) -> (r: Vec<T>)
        ensures
            r@ == old(self)@,
            final(self)@ == Seq::<T>::empty(),
    {
        let mut out: Vec<T> = Vec::new();
        let ghost all = self@;
        while !self.is_empty()
            invariant
                all == out@ + self@,
            decreases self@.len(),
        {
            let x = self.pop();
            match x {
                Some(v) => out.push(v),
                None => {},
            }
            proof {
                assert(all =~= out@ + self@);
            }
        }
        proof {
            assert(out@ =~= all);
        }
        out
    }
}

/// A stack shared by producers that push onto it and a consumer that takes
/// all of its elements in one step.
#[verifier::reject_recursive_types(T)]
pub struct TransferStack<T> {
    head: Mutex<Stack<T>>,
}

impl<T> TransferStack<T> {
    /// An empty transfer stack.
    pub fn new() -> (r: TransferStack<T>) {
        TransferStack { head: Mutex::new(Stack::new()) }
    }

    /// Transfers `element` onto the stack. Hands it back, leaving the stack
    /// as it was, when another producer or the consumer holds the stack at
    /// this instant: the caller retries, as a lock-free push retries a lost
    /// exchange.
    pub fn push(&self, element: T) -> (r: Result<(), T>)
        ensures
            r matches Err(e) ==> e == element,
    {
        match try_acquire(&self.head) {
            Some(mut guard) => {
                guard.push(element);
                Ok(())
            },
            None => Err(element),
        }
    }

    /// Takes every element pushed so far, leaving the transfer stack empty;
    /// `None`, taking nothing, when a producer holds the stack at this
    /// instant.
    pub fn take_all(&self) -> (r: Option<Stack<T>>) {
        match try_acquire(&self.head) {
            Some(mut guard) => Some(guard.take_all()),
            None => None,
        }
    }
}

/// The stack `s` after pushing each of `xs` in turn.
pub open spec fn pushed_all<T>(s: Seq<T>, xs: Seq<T>) -> Seq<T>
    decreases xs.len(),
{
    if xs.len() == 0 {
        s
    } else {
        pushed(pushed_all(s, xs.drop_last()), xs.last())
    }
}

/// A pop hands back the element pushed last and leaves the stack as it was
/// before that push.
pub proof fn lemma_pop_undoes_push<T>(s: Seq<T>, x: T)
    ensures
        popped(pushed(s, x)) == Some(x),
        after_pop(pushed(s, x)) == s,
{
    assert(pushed(s, x).drop_first() =~= s);
}

/// Pushing `xs` in turn puts them on top in reverse order, so pops come out
/// in the reverse of push order.
pub proof fn lemma_lifo_order<T>(s: Seq<T>, xs: Seq<T>)
    ensures
        pushed_all(s, xs) == xs.reverse() + s,
    decreases xs.len(),
{
    if xs.len() == 0 {
        assert(xs.reverse() + s =~= s);
    } else {
        lemma_lifo_order(s, xs.drop_last());
        assert(xs.reverse() =~= seq![xs.last()] + xs.drop_last().reverse());
        assert(pushed_all(s, xs) =~= xs.reverse() + s);
    }
}

/// The stack `s` after `k` pops.
pub open spec fn after_pops<T>(s: Seq<T>, k: nat) -> Seq<T>
    decreases k,
{
    if k == 0 {
        s
    } else {
        after_pop(after_pops(s, (k - 1) as nat))
    }
}

proof fn lemma_after_pops_skips<T>(s: Seq<T>, k: nat)
    requires
        k <= s.len(),
    ensures
        after_pops(s, k) == s.skip(k as int),
    decreases k,
{
    if k == 0 {
        assert(s.skip(0) =~= s);
    } else {
        lemma_after_pops_skips(s, (k - 1) as nat);
        assert(s.skip((k - 1) as int).drop_first() =~= s.skip(k as int));
    }
}

/// Pushing `xs` in turn onto an empty stack and then popping gives them
/// back in reverse push order: the `i`-th pop returns `xs[n - 1 - i]`, and
/// the pop after the last one returns `None`.
pub proof fn lemma_pops_reverse_pushes<T>(xs: Seq<T>)
    ensures
        forall|i: nat|
            i < xs.len() ==> #[trigger] popped(after_pops(pushed_all(Seq::<T>::empty(), xs), i))
                == Some(xs[xs.len() - 1 - i]),
        popped(after_pops(pushed_all(Seq::<T>::empty(), xs), xs.len())) == None::<T>,
{
    let e = Seq::<T>::empty();
    lemma_lifo_order(e, xs);
    assert(xs.reverse() + e =~= xs.reverse());
    let s = xs.reverse();
    assert forall|i: nat| i < xs.len() implies #[trigger] popped(after_pops(pushed_all(e, xs), i))
        == Some(xs[xs.len() - 1 - i]) by {
        lemma_after_pops_skips(s, i);
    }
    lemma_after_pops_skips(s, xs.len());
}

} // verus!

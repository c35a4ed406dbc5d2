//! The reload broadcaster: fan-out of the live-reload signal.
//!
//! Zero or more subscribers each hold their own bounded delivery queue.
//! One `reload` call appends exactly one event to every open subscriber
//! whose queue has room; a subscriber whose queue is full is dropped
//! rather than blocking the caller. A subscriber that connects later
//! sees only notifications sent after it connected. The transport that
//! carries each queue to a browser lives outside the library.

use vstd::prelude::*;

verus! {

/// One server-sent event: a named event with an opaque payload.
pub struct SseEvent {
    /// The event's name.
    pub event: String,
    /// The event's payload.
    pub data: String,
}

impl View for SseEvent {
    type V = (Seq<char>, Seq<char>);

    open spec fn view(&self) -> (Seq<char>, Seq<char>) {
        (self.event@, self.data@)
    }
}

impl DeepView for SseEvent {
    type V = (Seq<char>, Seq<char>);

    open spec fn deep_view(&self) -> (Seq<char>, Seq<char>) {
        self@
    }
}

/// One open live-reload connection, with its undelivered events.
struct Subscriber {
    /// Events accepted and not yet taken by the connection.
    pending: Vec<SseEvent>,
    /// Whether the connection is still served; a lagging subscriber is
    /// dropped by marking it closed.
    open: bool,
}

/// SSE event manager
pub struct SeeEventManager {
    /// Every subscriber ever connected, open or dropped.
    subscribers: Vec<Subscriber>,
    /// How many undelivered events one subscriber may hold.
    capacity: usize,
}

impl SeeEventManager {
    /// How many undelivered events one subscriber may hold.
    pub closed spec fn spec_capacity(&self) -> nat {
        self.capacity as nat
    }

    /// How many subscribers have connected.
    pub closed spec fn sub_count(&self) -> nat {
        self.subscribers@.len()
    }

    /// Whether subscriber `i` is still served.
    pub closed spec fn sub_open(&self, i: int) -> bool {
        self.subscribers@[i].open
    }

    /// The undelivered events of subscriber `i`, oldest first, each as
    /// its (name, payload) pair.
    pub closed spec fn sub_pending(&self, i: int) -> Seq<(Seq<char>, Seq<char>)> {
        self.subscribers@[i].pending.deep_view()
    }

    /// Instantiates a [SeeEventManager] with no subscribers.
    pub fn new(capacity: usize) -> (r: SeeEventManager)
        requires
            capacity >= 1,
        ensures
            r.sub_count() == 0,
            r.spec_capacity() == capacity,
    {
        SeeEventManager { subscribers: Vec::new(), capacity }
    }

    /// Connects a new subscriber and returns its identifier. The new
    /// subscriber starts with no pending events: it receives only
    /// notifications sent after it connected. No other subscriber
    /// changes.
    pub fn subscribe(&mut self) -> (id: usize)
        ensures
            id == old(self).sub_count(),
            final(self).sub_count() == old(self).sub_count() + 1,
            final(self).spec_capacity() == old(self).spec_capacity(),
            forall|i: int|
                0 <= i < old(self).sub_count() ==> #[trigger] final(self).sub_open(i) == old(
                    self,
                ).sub_open(i) && final(self).sub_pending(i) == old(self).sub_pending(i),
            final(self).sub_open(id as int),
            final(self).sub_pending(id as int) == Seq::<(Seq<char>, Seq<char>)>::empty(),
    {
        let id = self.subscribers.len();
        self.subscribers.push(Subscriber { pending: Vec::new(), open: true });
        proof {
            assert(final(self).sub_pending(id as int) =~= Seq::<(Seq<char>, Seq<char>)>::empty());
        }
        id
    }

    /// What one `reload` call does: every open subscriber with room in
    /// its queue gains exactly one `reload` event; an open subscriber
    /// whose queue is full is dropped; dropped subscribers and every
    /// queue's earlier events are untouched; no subscriber joins or
    /// leaves.
    pub open spec fn spec_reload_step(pre: SeeEventManager, post: SeeEventManager) -> bool {
        &&& post.sub_count() == pre.sub_count()
        &&& post.spec_capacity() == pre.spec_capacity()
        &&& forall|i: int|
            0 <= i < pre.sub_count() ==> #[trigger] post.sub_pending(i) == (
            if pre.sub_open(i) && pre.sub_pending(i).len() < pre.spec_capacity() {
                pre.sub_pending(i).push(("reload"@, "hey"@))
            } else {
                pre.sub_pending(i)
            })
        &&& forall|i: int|
            0 <= i < pre.sub_count() ==> #[trigger] post.sub_open(i) == (pre.sub_open(i)
                && pre.sub_pending(i).len() < pre.spec_capacity())
    }

    /// Sends a reload event
    pub fn reload(&mut self)
        ensures
            SeeEventManager::spec_reload_step(*old(self), *final(self)),
    {
        let n = self.subscribers.len();
        let capacity = self.capacity;
        for i in 0..n
            invariant
                n == self.subscribers@.len(),
                capacity == self.capacity,
                self.sub_count() == old(self).sub_count(),
                self.spec_capacity() == old(self).spec_capacity(),
                forall|j: int|
                    i <= j < n ==> #[trigger] self.subscribers@[j] == old(self).subscribers@[j],
                forall|j: int|
                    0 <= j < i ==> (#[trigger] self.subscribers@[j]).open == (old(
                        self,
                    ).subscribers@[j].open && old(self).subscribers@[j].pending.deep_view().len()
                        < capacity),
                forall|j: int|
                    0 <= j < i ==> (#[trigger] self.subscribers@[j]).pending.deep_view() == (
                    if old(self).subscribers@[j].open && old(
                        self,
                    ).subscribers@[j].pending.deep_view().len() < capacity {
                        old(self).subscribers@[j].pending.deep_view().push(("reload"@, "hey"@))
                    } else {
                        old(self).subscribers@[j].pending.deep_view()
                    }),
        {
            let ghost prev = self.subscribers@;
            let ghost before = self.subscribers@[i as int];
            let sub = &mut self.subscribers[i];
            if sub.open {
                if sub.pending.len() < capacity {
                    sub.pending.push(
                        SseEvent { event: "reload".to_owned(), data: "hey".to_owned() },
                    );
                } else {
                    sub.open = false;
                }
            }
            proof {
                let cur = self.subscribers@[i as int];
                assert(forall|j: int|
                    0 <= j < n && j != i ==> #[trigger] self.subscribers@[j] == prev[j]);
                assert(before.pending.deep_view().len() == before.pending@.len());
                if before.open && before.pending@.len() < capacity {
                    assert(cur.open);
                    assert(cur.pending.deep_view() =~= before.pending.deep_view().push(
                        ("reload"@, "hey"@),
                    ));
                } else if before.open {
                    assert(!cur.open);
                    assert(cur.pending == before.pending);
                } else {
                    assert(cur == before);
                }
            }
        }
    }

    /// Law: reload fans out to every subscriber exactly once. One
    /// reload step delivers exactly one `reload` event to each of two
    /// open subscribers with room in their queues; that a subscriber
    /// connecting afterwards receives nothing from it is `subscribe`'s
    /// own contract, which starts every new subscriber empty.
    pub proof fn lemma_reload_fan_out(
        pre: SeeEventManager,
        post: SeeEventManager,
        a: int,
        b: int,
    )
        requires
            SeeEventManager::spec_reload_step(pre, post),
            0 <= a < pre.sub_count(),
            0 <= b < pre.sub_count(),
            a != b,
            pre.sub_open(a),
            pre.sub_open(b),
            pre.sub_pending(a).len() < pre.spec_capacity(),
            pre.sub_pending(b).len() < pre.spec_capacity(),
        ensures
            post.sub_pending(a) == pre.sub_pending(a).push(("reload"@, "hey"@)),
            post.sub_pending(b) == pre.sub_pending(b).push(("reload"@, "hey"@)),
            post.sub_pending(a).len() == pre.sub_pending(a).len() + 1,
            post.sub_pending(b).len() == pre.sub_pending(b).len() + 1,
    {
    }

    /// Takes the oldest undelivered event of subscriber `id`, if any.
    pub fn next_event(&mut self, id: usize) -> (r: Option<SseEvent>)
        requires
            id < old(self).sub_count(),
        ensures
            final(self).sub_count() == old(self).sub_count(),
            final(self).spec_capacity() == old(self).spec_capacity(),
            forall|i: int|
                0 <= i < old(self).sub_count() && i != id ==> #[trigger] final(self).sub_open(i)
                    == old(self).sub_open(i) && final(self).sub_pending(i) == old(
                    self,
                ).sub_pending(i),
            final(self).sub_open(id as int) == old(self).sub_open(id as int),
            old(self).sub_pending(id as int).len() > 0 ==> (r matches Some(e) && e@ == old(
                self,
            ).sub_pending(id as int)[0] && final(self).sub_pending(id as int) == old(
                self,
            ).sub_pending(id as int).drop_first()),
            old(self).sub_pending(id as int).len() == 0 ==> r is None && final(self).sub_pending(
                id as int,
            ) == old(self).sub_pending(id as int),
    {
        let ghost before = self.subscribers@[id as int];
        let sub = &mut self.subscribers[id];
        let r = if sub.pending.len() > 0 {
            let e = sub.pending.remove(0);
            Some(e)
        } else {
            None
        };
        proof {
            if before.pending@.len() > 0 {
                assert(before.pending.deep_view()[0] == before.pending@[0]@);
                assert(self.subscribers@[id as int].pending.deep_view() =~= before.pending.deep_view().drop_first());
            }
        }
        r
    }
}

} // verus!

//! The platform's intrusive ring lists, walked from their head.
//!
//! A list is a ring of nodes that starts and ends at a head node, which
//! carries no item. Here the nodes stand in an arena and name each other by
//! index.

use vstd::prelude::*;

verus! {

/// One node of a ring: the indices of its neighbours in the arena.
#[allow(non_camel_case_types)]
#[derive(Debug, Clone, Copy, PartialEq, Eq, Structural)]
pub struct list_node {
    pub prev: usize,
    pub next: usize,
}

/// Whether every node of the arena names nodes of the arena.
pub open spec fn closed_arena(nodes: Seq<list_node>) -> bool {
    forall|i: int| 0 <= i < nodes.len() ==> (#[trigger] nodes[i]).next < nodes.len()
}

/// The items of a list from `cur` on: the nodes met by following `next`, up
/// to the head, and at most `fuel` of them.
pub open spec fn walk(nodes: Seq<list_node>, head: int, cur: int, fuel: nat) -> Seq<usize>
    decreases fuel,
{
    if fuel == 0 || cur == head || cur < 0 || cur >= nodes.len() {
        Seq::empty()
    } else {
        seq![cur as usize] + walk(nodes, head, nodes[cur].next as int, (fuel - 1) as nat)
    }
}

/// The items of the list whose head is the node `head`: the nodes of the
/// ring behind the head, in order. A ring holds each node once at most, so
/// the walk is cut off after as many items as the arena has nodes.
pub open spec fn items(nodes: Seq<list_node>, head: int) -> Seq<usize> {
    if 0 <= head < nodes.len() {
        walk(nodes, head, nodes[head].next as int, nodes.len())
    } else {
        Seq::empty()
    }
}

/// A walk over the items of one list.
pub struct LkListIterator<'a> {
    nodes: &'a [list_node],
    head: usize,
    cur: usize,
}

impl<'a> LkListIterator<'a> {
    #[verifier::type_invariant]
    spec fn in_arena(self) -> bool {
        &&& closed_arena(self.nodes@)
        &&& self.head < self.nodes@.len()
        &&& self.cur < self.nodes@.len()
    }

    /// The arena that the list lies in.
    pub closed spec fn arena(&self) -> Seq<list_node> {
        self.nodes@
    }

    /// The head of the list.
    pub closed spec fn head(&self) -> int {
        self.head as int
    }

    /// The node that the walk has come to.
    pub closed spec fn position(&self) -> int {
        self.cur as int
    }

    /// The items that are left, at most `fuel` of them.
    pub open spec fn rest(&self, fuel: nat) -> Seq<usize> {
        walk(self.arena(), self.head(), self.position(), fuel)
    }

    /// A walk over the list whose head is the node `list`. The first item is
    /// the node behind the head. There is no walk over an arena that is not
    /// closed, or from a head outside it.
    pub fn new(nodes: &'a [list_node], list: usize) -> (iter: Option<Self>)
        ensures
            iter is Some <==> closed_arena(nodes@) && list < nodes@.len(),
            iter is Some ==> iter->0.arena() == nodes@ && iter->0.head() == list
                && iter->0.position() == nodes@[list as int].next,
    {
        if list >= nodes.len() || !is_closed(nodes) {
            return None;
        }
        Some(LkListIterator { nodes, head: list, cur: nodes[list].next })
    }

    /// The next item, or nothing where the walk is back at the head.
    pub fn next(&mut self) -> (item: Option<usize>)
        ensures
            final(self).arena() == old(self).arena(),
            final(self).head() == old(self).head(),
            item is None <==> old(self).position() == old(self).head(),
            item is None ==> final(self).position() == old(self).position(),
            item is Some ==> item->0 == old(self).position(),
            item is Some ==> final(self).position() == old(self).arena()[old(self).position()].next,
            forall|fuel: nat|
                fuel > 0 ==> #[trigger] old(self).rest(fuel) == match item {
                    Some(index) => seq![index] + final(self).rest((fuel - 1) as nat),
                    None => Seq::empty(),
                },
    {
        proof {
            use_type_invariant(&*self);
        }
        if self.head == self.cur {
            return None;
        }
        let item: usize = self.cur;
        self.cur = self.nodes[self.cur].next;
        Some(item)
    }
}

/// Tells whether every node of the arena names nodes of the arena.
pub fn is_closed(nodes: &[list_node]) -> (closed: bool)
    ensures
        closed == closed_arena(nodes@),
{
    let mut i: usize = 0;
    while i < nodes.len()
        invariant
            0 <= i <= nodes@.len(),
            forall|j: int| 0 <= j < i ==> (#[trigger] nodes@[j]).next < nodes@.len(),
        decreases nodes@.len() - i,
    {
        if nodes[i].next >= nodes.len() {
            return false;
        }
        i += 1;
    }
    true
}

/// The items of the list whose head is the node `list`, in order. An arena
/// that is not closed, or a head outside it, has no items.
pub fn collect(nodes: &[list_node], list: usize) -> (found: Vec<usize>)
    ensures
        found@ == if closed_arena(nodes@) {
            items(nodes@, list as int)
        } else {
            Seq::empty()
        },
        forall|k: int| 0 <= k < found@.len() ==> #[trigger] found@[k] < nodes@.len(),
{
    let mut found: Vec<usize> = Vec::new();
    let mut iter: LkListIterator = match LkListIterator::new(nodes, list) {
        Some(iter) => iter,
        None => { return found; },
    };
    let mut left: usize = nodes.len();
    let ghost all = items(nodes@, list as int);
    assert(found@ + iter.rest(left as nat) =~= all);
    while left > 0
        invariant
            closed_arena(nodes@),
            iter.arena() == nodes@,
            iter.head() == list,
            all == items(nodes@, list as int),
            found@ + iter.rest(left as nat) == all,
            forall|k: int| 0 <= k < found@.len() ==> #[trigger] found@[k] < nodes@.len(),
            0 <= iter.position() < nodes@.len(),
        decreases left,
    {
        let ghost before = iter;
        match iter.next() {
            Some(index) => {
                found.push(index);
                left -= 1;
                assert(before.rest((left + 1) as nat) == seq![index] + iter.rest(left as nat));
                assert(found@ + iter.rest(left as nat) =~= all);
            },
            None => {
                assert(before.rest(left as nat) == Seq::<usize>::empty());
                assert(found@ =~= all);
                return found;
            },
        }
    }
    assert(iter.rest(0) =~= Seq::<usize>::empty());
    assert(found@ =~= all);
    found
}

/// The node that stands at place `k` of a ring: behind the last place the
/// ring begins again.
pub open spec fn ring_at(order: Seq<usize>, k: int) -> usize {
    if k == order.len() {
        order[0]
    } else {
        order[k]
    }
}

/// Whether `order` lists a ring of the arena: it starts with the head, each
/// node is followed by the node that its `next` names, the last by the head
/// again, and no node stands in it twice.
pub open spec fn is_ring(nodes: Seq<list_node>, order: Seq<usize>) -> bool {
    &&& 0 < order.len() <= nodes.len()
    &&& forall|k: int| 0 <= k < order.len() ==> #[trigger] order[k] < nodes.len()
    &&& forall|k: int|
        0 <= k < order.len() ==> nodes[#[trigger] order[k] as int].next == ring_at(order, k + 1)
    &&& forall|j: int, k: int| 0 <= j < k < order.len() ==> order[j] != order[k]
}

/// From place `k` of a ring on, a walk with fuel for the rest of the ring
/// meets the rest of the ring.
proof fn ring_walk(nodes: Seq<list_node>, order: Seq<usize>, k: int, fuel: nat)
    requires
        is_ring(nodes, order),
        1 <= k <= order.len(),
        fuel >= order.len() - k,
    ensures
        walk(nodes, order[0] as int, ring_at(order, k) as int, fuel) == order.subrange(
            k,
            order.len() as int,
        ),
    decreases order.len() - k,
{
    let n = order.len() as int;
    if k == n {
        assert(order.subrange(k, n) =~= Seq::<usize>::empty());
    } else {
        ring_walk(nodes, order, k + 1, (fuel - 1) as nat);
        assert(order[k] != order[0]);
        assert(nodes[order[k] as int].next == ring_at(order, k + 1));
        assert(order.subrange(k, n) =~= seq![order[k]] + order.subrange(k + 1, n));
    }
}

/// The items of a ring are its nodes behind the head, each once and in the
/// order of the ring: the cut-off never shortens a ring.
pub proof fn ring_is_walked_once(nodes: Seq<list_node>, order: Seq<usize>)
    requires
        is_ring(nodes, order),
    ensures
        items(nodes, order[0] as int) == order.skip(1),
{
    let n = order.len() as int;
    assert(nodes[order[0] as int].next == ring_at(order, 1));
    ring_walk(nodes, order, 1, nodes.len());
    assert(order.skip(1) =~= order.subrange(1, n));
}

} // verus!

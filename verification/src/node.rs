//! The gossip broadcast node: a store of values that grows monotonically, the
//! neighbour list assigned by a `Topology` message, and the gossip fan-out
//! that disseminates the store to neighbours while pruning, via the
//! "informed" set carried by each gossip wave, those already covered.

use vstd::prelude::*;

use crate::message::{
    sent_message, GossipPayload, Message, MessageKind, ReadOkPayload, TopologyPayload,
};
use crate::sender::MessageSender;

verus! {

/// The set of node-id views occurring in a list of node ids.
pub open spec fn id_set(ids: Seq<String>) -> Set<Seq<char>> {
    Set::new(|id: Seq<char>| exists|i: int| 0 <= i < ids.len() && ids[i]@ == id)
}

/// The neighbours that a gossip fan-out actually targets: those whose id is
/// not in `skip`, in neighbour-list order.
pub open spec fn pruned(neighbours: Seq<String>, skip: Set<Seq<char>>) -> Seq<String>
    decreases neighbours.len(),
{
    if neighbours.len() == 0 {
        Seq::empty()
    } else if skip.contains(neighbours.last()@) {
        pruned(neighbours.drop_last(), skip)
    } else {
        pruned(neighbours.drop_last(), skip).push(neighbours.last())
    }
}

/// The value store after merging an incoming gossip payload: plain set union,
/// the anti-entropy step.
pub open spec fn merge_values(store: Set<i32>, incoming: Set<i32>) -> Set<i32> {
    store.union(incoming)
}

/// The neighbour list a node extracts from a `Topology` adjacency: the list of
/// the first entry whose key is the node's own id, or empty if there is none.
pub open spec fn adjacency_lookup(
    adjacency: Seq<(String, Vec<String>)>,
    id: Seq<char>,
) -> Seq<String>
    decreases adjacency.len(),
{
    if adjacency.len() == 0 {
        Seq::empty()
    } else if adjacency.first().0@ == id {
        adjacency.first().1@
    } else {
        adjacency_lookup(adjacency.drop_first(), id)
    }
}

/// Holds when `m` is an outbound gossip envelope: unsolicited (no reply
/// correlation), carrying exactly the value snapshot `values` and an informed
/// list whose id set is `informed`.
pub open spec fn gossip_message(
    m: Message<MessageKind>,
    source: Seq<char>,
    destination: Seq<char>,
    values: Seq<i32>,
    informed: Set<Seq<char>>,
    id: int,
) -> bool {
    &&& m.source@ == source
    &&& m.destination@ == destination
    &&& (m.payload.message_type matches MessageKind::Gossip(g) && g.values@ == values && id_set(
        g.informed@,
    ) == informed)
    &&& (m.payload.message_id matches Some(mid) && mid == id)
    &&& m.payload.in_reply_to is None
}

/// What handling `Broadcast{value}` does: the value joins the store, one
/// gossip envelope carrying the whole new store goes to every neighbour with
/// the informed list "neighbours plus self", and a `BroadcastOk` reply closes
/// the burst. Message ids are drawn consecutively from the counter.
pub open spec fn broadcast_post(
    pre: MultiNodeBroadcastNode,
    post: MultiNodeBroadcastNode,
    pres: MessageSender<MessageKind>,
    posts: MessageSender<MessageKind>,
    value: i32,
) -> bool {
    let neighbours = pre.neighbour_seq();
    let n = neighbours.len() as int;
    let base = pres.outbound@.len() as int;
    &&& post.wf()
    &&& posts.wf()
    &&& post.values() == pre.values().insert(value)
    &&& post.neighbours == pre.neighbours
    &&& posts.node_information == pres.node_information
    &&& posts.sender_information is None
    &&& posts.message_id == pres.message_id + n + 1
    &&& posts.outbound@.len() == base + n + 1
    &&& (forall|i: int| 0 <= i < base ==> posts.outbound@[i] == pres.outbound@[i])
    &&& (forall|i: int|
        base <= i < base + n ==> gossip_message(
            #[trigger] posts.outbound@[i],
            pres.spec_self_id(),
            neighbours[i - base]@,
            post.messages@,
            id_set(neighbours).insert(pres.spec_self_id()),
            pres.message_id + 1 + (i - base),
        ))
    &&& sent_message(
        posts.outbound@[base + n],
        pres.spec_self_id(),
        pres.sender_information->0.source@,
        MessageKind::BroadcastOk,
        ((pres.message_id + n + 1) as u32),
        pres.sender_information->0.message_id,
    )
}

/// What handling `Read` does: nothing changes, and a single `ReadOk` reply
/// carries the exact value store snapshot.
pub open spec fn read_post(
    node: MultiNodeBroadcastNode,
    pres: MessageSender<MessageKind>,
    posts: MessageSender<MessageKind>,
) -> bool {
    let base = pres.outbound@.len() as int;
    &&& posts.wf()
    &&& posts.node_information == pres.node_information
    &&& posts.sender_information is None
    &&& posts.message_id == pres.message_id + 1
    &&& posts.outbound@.len() == base + 1
    &&& (forall|i: int| 0 <= i < base ==> posts.outbound@[i] == pres.outbound@[i])
    &&& ({
        let m = posts.outbound@[base];
        &&& m.source@ == pres.spec_self_id()
        &&& m.destination@ == pres.sender_information->0.source@
        &&& m.payload.message_id == Some((pres.message_id + 1) as u32)
        &&& m.payload.in_reply_to == pres.sender_information->0.message_id
        &&& (m.payload.message_type matches MessageKind::ReadOk(p) && p.messages@
            == node.messages@)
    })
}

/// What handling `Topology{adjacency}` does: the first topology assignment
/// sets the neighbour list to the node's own adjacency entry (empty if there
/// is none) and later assignments change nothing — the first writer wins; a
/// single `TopologyOk` reply closes the burst.
pub open spec fn topology_post(
    pre: MultiNodeBroadcastNode,
    post: MultiNodeBroadcastNode,
    pres: MessageSender<MessageKind>,
    posts: MessageSender<MessageKind>,
    adjacency: Seq<(String, Vec<String>)>,
) -> bool {
    let base = pres.outbound@.len() as int;
    &&& post.wf()
    &&& posts.wf()
    &&& post.messages == pre.messages
    &&& (if pre.neighbours is None {
        post.neighbours matches Some(n) && n@ == adjacency_lookup(adjacency, pres.spec_self_id())
    } else {
        post.neighbours == pre.neighbours
    })
    &&& posts.node_information == pres.node_information
    &&& posts.sender_information is None
    &&& posts.message_id == pres.message_id + 1
    &&& posts.outbound@.len() == base + 1
    &&& (forall|i: int| 0 <= i < base ==> posts.outbound@[i] == pres.outbound@[i])
    &&& sent_message(
        posts.outbound@[base],
        pres.spec_self_id(),
        pres.sender_information->0.source@,
        MessageKind::TopologyOk,
        ((pres.message_id + 1) as u32),
        pres.sender_information->0.message_id,
    )
}

/// What handling `Gossip{values, informed}` does: the incoming values merge
/// into the store by set union; every neighbour not already in `informed`
/// is sent a gossip envelope carrying the whole merged store and the informed
/// list grown by this node's neighbours; no reply is sent.
pub open spec fn gossip_post(
    pre: MultiNodeBroadcastNode,
    post: MultiNodeBroadcastNode,
    pres: MessageSender<MessageKind>,
    posts: MessageSender<MessageKind>,
    values: Seq<i32>,
    informed: Seq<String>,
) -> bool {
    let targets = pruned(pre.neighbour_seq(), id_set(informed));
    let base = pres.outbound@.len() as int;
    &&& post.wf()
    &&& posts.wf()
    &&& post.values() == merge_values(pre.values(), values.to_set())
    &&& post.neighbours == pre.neighbours
    &&& posts.node_information == pres.node_information
    &&& posts.sender_information == pres.sender_information
    &&& posts.message_id == pres.message_id + targets.len()
    &&& posts.outbound@.len() == base + targets.len()
    &&& (forall|i: int| 0 <= i < base ==> posts.outbound@[i] == pres.outbound@[i])
    &&& (forall|i: int|
        base <= i < base + targets.len() ==> gossip_message(
            #[trigger] posts.outbound@[i],
            pres.spec_self_id(),
            targets[i - base]@,
            post.messages@,
            id_set(informed).union(id_set(pre.neighbour_seq())),
            pres.message_id + 1 + (i - base),
        ))
}

/// Returns whether `values` holds `value`.
fn contains_value(values: &Vec<i32>, value: i32) -> (r: bool)
    ensures
        r == values@.contains(value),
{
    let mut k: usize = 0;
    while k < values.len()
        invariant
            k <= values@.len(),
            forall|i: int| 0 <= i < k ==> values@[i] != value,
        decreases values@.len() - k,
    {
        if values[k] == value {
            return true;
        }
        k = k + 1;
    }
    false
}

/// Returns whether `ids` holds an id equal to `id`.
fn contains_id(ids: &Vec<String>, id: &String) -> (r: bool)
    ensures
        r == id_set(ids@).contains(id@),
{
    let mut k: usize = 0;
    while k < ids.len()
        invariant
            k <= ids@.len(),
            forall|i: int| 0 <= i < k ==> (#[trigger] ids@[i])@ != id@,
        decreases ids@.len() - k,
    {
        if ids[k].eq(id) {
            assert(id_set(ids@).contains(id@));
            return true;
        }
        k = k + 1;
    }
    false
}

/// Copies a list of values.
pub(crate) fn clone_values(values: &Vec<i32>) -> (r: Vec<i32>)
    ensures
        r@ == values@,
{
    let mut r: Vec<i32> = Vec::new();
    let mut k: usize = 0;
    while k < values.len()
        invariant
            k <= values@.len(),
            r@ == values@.take(k as int),
        decreases values@.len() - k,
    {
        r.push(values[k]);
        k = k + 1;
        proof {
            assert(values@.take(k as int) =~= values@.take(k - 1).push(values@[k - 1]));
        }
    }
    proof {
        assert(values@.take(values@.len() as int) =~= values@);
    }
    r
}

/// Copies a list of node ids.
fn clone_ids(ids: &Vec<String>) -> (r: Vec<String>)
    ensures
        r@ == ids@,
{
    let mut r: Vec<String> = Vec::new();
    let mut k: usize = 0;
    while k < ids.len()
        invariant
            k <= ids@.len(),
            r@ == ids@.take(k as int),
        decreases ids@.len() - k,
    {
        r.push(ids[k].clone());
        k = k + 1;
        proof {
            assert(ids@.take(k as int) =~= ids@.take(k - 1).push(ids@[k - 1]));
        }
    }
    proof {
        assert(ids@.take(ids@.len() as int) =~= ids@);
    }
    r
}

/// Appending an element to a sequence inserts it into the sequence's set.
proof fn lemma_to_set_push<A>(s: Seq<A>, v: A)
    ensures
        s.push(v).to_set() == s.to_set().insert(v),
{
    assert forall|x: A| s.push(v).to_set().contains(x) implies s.to_set().insert(v).contains(
        x,
    ) by {
        let i = choose|i: int| 0 <= i < s.push(v).len() && s.push(v)[i] == x;
        if i < s.len() {
            assert(s[i] == x);
        }
    }
    assert forall|x: A| s.to_set().insert(v).contains(x) implies s.push(v).to_set().contains(
        x,
    ) by {
        if s.to_set().contains(x) {
            let i = choose|i: int| 0 <= i < s.len() && s[i] == x;
            assert(s.push(v)[i] == x);
        } else {
            assert(s.push(v)[s.len() as int] == x);
        }
    }
    assert(s.push(v).to_set() =~= s.to_set().insert(v));
}

/// Appending an id to a list inserts its view into the list's id set.
proof fn lemma_id_set_push(ids: Seq<String>, id: String)
    ensures
        id_set(ids.push(id)) == id_set(ids).insert(id@),
{
    assert forall|x: Seq<char>| id_set(ids.push(id)).contains(x) implies id_set(ids).insert(
        id@,
    ).contains(x) by {
        let i = choose|i: int| 0 <= i < ids.push(id).len() && ids.push(id)[i]@ == x;
        if i < ids.len() {
            assert(ids[i]@ == x);
        }
    }
    assert forall|x: Seq<char>| id_set(ids).insert(id@).contains(x) implies id_set(
        ids.push(id),
    ).contains(x) by {
        if id_set(ids).contains(x) {
            let i = choose|i: int| 0 <= i < ids.len() && ids[i]@ == x;
            assert(ids.push(id)[i]@ == x);
        } else {
            assert(ids.push(id)[ids.len() as int]@ == x);
        }
    }
    assert(id_set(ids.push(id)) =~= id_set(ids).insert(id@));
}

/// Extends `base` with every id of `extra` not already present; the result's
/// id set is exactly the union of the two.
fn union_ids(base: &Vec<String>, extra: &Vec<String>) -> (r: Vec<String>)
    ensures
        id_set(r@) == id_set(base@).union(id_set(extra@)),
{
    let mut r = clone_ids(base);
    let mut k: usize = 0;
    while k < extra.len()
        invariant
            k <= extra@.len(),
            id_set(r@) == id_set(base@).union(id_set(extra@.take(k as int))),
        decreases extra@.len() - k,
    {
        let id = &extra[k];
        proof {
            assert(extra@.take(k + 1) =~= extra@.take(k as int).push(extra@[k as int]));
            lemma_id_set_push(extra@.take(k as int), extra@[k as int]);
        }
        if !contains_id(&r, id) {
            let ghost r_old = r@;
            r.push(id.clone());
            proof {
                lemma_id_set_push(r_old, extra@[k as int]);
                assert(id_set(r@) =~= id_set(base@).union(id_set(extra@.take(k + 1))));
            }
        } else {
            proof {
                assert(id_set(r@) =~= id_set(base@).union(id_set(extra@.take(k + 1))));
            }
        }
        k = k + 1;
    }
    proof {
        assert(extra@.take(extra@.len() as int) =~= extra@);
    }
    r
}

/// When no neighbour is in `skip`, pruning skips nothing.
proof fn lemma_pruned_none_skipped(neighbours: Seq<String>, skip: Set<Seq<char>>)
    requires
        forall|i: int| 0 <= i < neighbours.len() ==> !skip.contains((#[trigger] neighbours[i])@),
    ensures
        pruned(neighbours, skip) == neighbours,
    decreases neighbours.len(),
{
    if neighbours.len() > 0 {
        lemma_pruned_none_skipped(neighbours.drop_last(), skip);
        assert(pruned(neighbours, skip) =~= neighbours);
    }
}

/// Pruning never yields more targets than there are neighbours.
pub(crate) proof fn lemma_pruned_len(neighbours: Seq<String>, skip: Set<Seq<char>>)
    ensures
        pruned(neighbours, skip).len() <= neighbours.len(),
    decreases neighbours.len(),
{
    if neighbours.len() > 0 {
        lemma_pruned_len(neighbours.drop_last(), skip);
    }
}

/// Every pruned target is a neighbour whose id is outside `skip`.
proof fn lemma_pruned_sound(neighbours: Seq<String>, skip: Set<Seq<char>>, i: int)
    requires
        0 <= i < pruned(neighbours, skip).len(),
    ensures
        neighbours.contains(pruned(neighbours, skip)[i]),
        !skip.contains(pruned(neighbours, skip)[i]@),
    decreases neighbours.len(),
{
    if neighbours.len() > 0 {
        let rest = pruned(neighbours.drop_last(), skip);
        if i < rest.len() {
            lemma_pruned_sound(neighbours.drop_last(), skip, i);
            let j = choose|j: int|
                0 <= j < neighbours.drop_last().len() && neighbours.drop_last()[j] == rest[i];
            assert(neighbours[j] == pruned(neighbours, skip)[i]);
        } else {
            assert(neighbours[neighbours.len() - 1] == pruned(neighbours, skip)[i]);
        }
    }
}

/// Every neighbour whose id is outside `skip` is among the pruned targets.
proof fn lemma_pruned_complete(neighbours: Seq<String>, skip: Set<Seq<char>>, k: int)
    requires
        0 <= k < neighbours.len(),
        !skip.contains(neighbours[k]@),
    ensures
        pruned(neighbours, skip).contains(neighbours[k]),
    decreases neighbours.len(),
{
    let targets = pruned(neighbours, skip);
    if k == neighbours.len() - 1 {
        assert(targets[targets.len() - 1] == neighbours[k]);
    } else {
        lemma_pruned_complete(neighbours.drop_last(), skip, k);
        let rest = pruned(neighbours.drop_last(), skip);
        let i = choose|i: int| 0 <= i < rest.len() && rest[i] == neighbours.drop_last()[k];
        assert(targets[i] == neighbours[k]);
    }
}

/// When the first adjacency entry matching `id` is the one at `i`, the lookup
/// yields that entry's neighbour list.
proof fn lemma_adjacency_lookup_at(adjacency: Seq<(String, Vec<String>)>, id: Seq<char>, i: int)
    requires
        0 <= i < adjacency.len(),
        adjacency[i].0@ == id,
        forall|j: int| 0 <= j < i ==> (#[trigger] adjacency[j]).0@ != id,
    ensures
        adjacency_lookup(adjacency, id) == adjacency[i].1@,
    decreases i,
{
    if i > 0 {
        assert forall|j: int| 0 <= j < i - 1 implies (#[trigger] adjacency.drop_first()[j]).0@
            != id by {
            assert(adjacency.drop_first()[j] == adjacency[j + 1]);
        }
        assert(adjacency.drop_first()[i - 1] == adjacency[i]);
        lemma_adjacency_lookup_at(adjacency.drop_first(), id, i - 1);
    }
}

/// When no adjacency entry matches `id`, the lookup yields the empty list.
proof fn lemma_adjacency_lookup_none(adjacency: Seq<(String, Vec<String>)>, id: Seq<char>)
    requires
        forall|j: int| 0 <= j < adjacency.len() ==> (#[trigger] adjacency[j]).0@ != id,
    ensures
        adjacency_lookup(adjacency, id) == Seq::<String>::empty(),
    decreases adjacency.len(),
{
    if adjacency.len() > 0 {
        assert forall|j: int|
            0 <= j < adjacency.drop_first().len() implies (#[trigger] adjacency.drop_first()[j]).0@
            != id by {
            assert(adjacency.drop_first()[j] == adjacency[j + 1]);
        }
        lemma_adjacency_lookup_none(adjacency.drop_first(), id);
    }
}

/// Finds the first adjacency entry whose key equals `id`.
fn find_entry(adjacency: &Vec<(String, Vec<String>)>, id: &String) -> (r: Option<usize>)
    ensures
        r matches Some(i) ==> i < adjacency@.len() && adjacency@[i as int].0@ == id@ && (forall|
            j: int,
        |
            0 <= j < i ==> (#[trigger] adjacency@[j]).0@ != id@),
        r is None ==> forall|j: int|
            0 <= j < adjacency@.len() ==> (#[trigger] adjacency@[j]).0@ != id@,
{
    let mut k: usize = 0;
    while k < adjacency.len()
        invariant
            k <= adjacency@.len(),
            forall|j: int| 0 <= j < k ==> (#[trigger] adjacency@[j]).0@ != id@,
        decreases adjacency@.len() - k,
    {
        if adjacency[k].0.eq(id) {
            return Some(k);
        }
        k = k + 1;
    }
    None
}

/// A node of the multi-node broadcast service: the set of values known
/// locally (kept without duplicates) and the neighbour list, unset until a
/// `Topology` message assigns it.
pub struct MultiNodeBroadcastNode {
    pub messages: Vec<i32>,
    pub neighbours: Option<Vec<String>>,
}

impl MultiNodeBroadcastNode {
    /// The mathematical value store: which values this node knows.
    pub open spec fn values(&self) -> Set<i32> {
        self.messages@.to_set()
    }

    /// The assigned neighbour list, or empty while none is assigned.
    pub open spec fn neighbour_seq(&self) -> Seq<String> {
        match self.neighbours {
            Some(neighbours) => neighbours@,
            None => Seq::empty(),
        }
    }

    /// Well-formedness: the value list holds no duplicates, so it is exactly
    /// its set of values.
    pub open spec fn wf(&self) -> bool {
        forall|i: int, j: int|
            0 <= i < j < self.messages@.len() ==> self.messages@[i] != self.messages@[j]
    }

    /// A fresh node: empty store, no topology assigned yet.
    pub fn new() -> (r: Self)
        ensures
            r.wf(),
            r.values() == Set::<i32>::empty(),
            r.neighbours is None,
            r.messages@ == Seq::<i32>::empty(),
    {
        let r = MultiNodeBroadcastNode { messages: Vec::new(), neighbours: None };
        proof {
            assert(r.values() =~= Set::<i32>::empty());
        }
        r
    }

    /// Inserts one value into the store; a no-op if it is already known.
    fn insert_value(&mut self, value: i32)
        requires
            old(self).wf(),
        ensures
            final(self).wf(),
            final(self).neighbours == old(self).neighbours,
            final(self).values() == old(self).values().insert(value),
            final(self).messages@ == (if old(self).messages@.contains(value) {
                old(self).messages@
            } else {
                old(self).messages@.push(value)
            }),
    {
        if !contains_value(&self.messages, value) {
            let ghost pre = self.messages@;
            self.messages.push(value);
            proof {
                lemma_to_set_push(pre, value);
            }
        } else {
            proof {
                assert(self.values() =~= old(self).values().insert(value));
            }
        }
    }

    /// Sends one gossip envelope — the full current store plus the given
    /// informed list — to every neighbour whose id is not in `skip`, in
    /// neighbour-list order.
    fn gossip(
        &self,
        skip: &Vec<String>,
        informed: &Vec<String>,
        sender: &mut MessageSender<MessageKind>,
    )
        requires
            old(sender).wf(),
            old(sender).node_information is Some,
            old(sender).message_id + self.neighbour_seq().len() <= u32::MAX,
        ensures
            final(sender).wf(),
            final(sender).node_information == old(sender).node_information,
            final(sender).sender_information == old(sender).sender_information,
            ({
                let targets = pruned(self.neighbour_seq(), id_set(skip@));
                let base = old(sender).outbound@.len() as int;
                &&& final(sender).message_id == old(sender).message_id + targets.len()
                &&& final(sender).outbound@.len() == base + targets.len()
                &&& (forall|i: int|
                    0 <= i < base ==> final(sender).outbound@[i] == old(sender).outbound@[i])
                &&& (forall|i: int|
                    base <= i < base + targets.len() ==> gossip_message(
                        #[trigger] final(sender).outbound@[i],
                        old(sender).spec_self_id(),
                        targets[i - base]@,
                        self.messages@,
                        id_set(informed@),
                        old(sender).message_id + 1 + (i - base),
                    ))
            }),
    {
        let neighbours: &Vec<String> = match &self.neighbours {
            Some(neighbours) => neighbours,
            None => {
                return;
            },
        };
        let ghost base = old(sender).outbound@.len() as int;
        let ghost skip_set = id_set(skip@);
        let mut k: usize = 0;
        while k < neighbours.len()
            invariant
                neighbours@ == self.neighbour_seq(),
                k <= neighbours@.len(),
                sender.wf(),
                sender.node_information == old(sender).node_information,
                sender.node_information is Some,
                sender.spec_self_id() == old(sender).spec_self_id(),
                sender.sender_information == old(sender).sender_information,
                sender.message_id as int + (neighbours@.len() - k) <= u32::MAX,
                base == old(sender).outbound@.len() as int,
                skip_set == id_set(skip@),
                ({
                    let t = pruned(neighbours@.take(k as int), skip_set);
                    &&& sender.message_id == old(sender).message_id + t.len()
                    &&& sender.outbound@.len() == base + t.len()
                    &&& (forall|i: int|
                        0 <= i < base ==> sender.outbound@[i] == old(sender).outbound@[i])
                    &&& (forall|i: int|
                        base <= i < base + t.len() ==> gossip_message(
                            #[trigger] sender.outbound@[i],
                            old(sender).spec_self_id(),
                            t[i - base]@,
                            self.messages@,
                            id_set(informed@),
                            old(sender).message_id + 1 + (i - base),
                        ))
                }),
            decreases neighbours@.len() - k,
        {
            let neighbour = &neighbours[k];
            let ghost t_pre = pruned(neighbours@.take(k as int), skip_set);
            proof {
                assert(neighbours@.take(k + 1).drop_last() =~= neighbours@.take(k as int));
                assert(neighbours@.take(k + 1).last() == neighbours@[k as int]);
            }
            if !contains_id(skip, neighbour) {
                let payload = MessageKind::Gossip(
                    GossipPayload {
                        values: clone_values(&self.messages),
                        informed: clone_ids(informed),
                    },
                );
                sender.send_to(neighbour.clone(), payload);
                proof {
                    let t_next = pruned(neighbours@.take(k + 1), skip_set);
                    assert(t_next =~= t_pre.push(neighbours@[k as int]));
                    assert(sender.outbound@.drop_last() == sender.outbound@.subrange(
                        0,
                        sender.outbound@.len() - 1,
                    ));
                    assert forall|i: int| base <= i < base + t_next.len() implies gossip_message(
                        #[trigger] sender.outbound@[i],
                        old(sender).spec_self_id(),
                        t_next[i - base]@,
                        self.messages@,
                        id_set(informed@),
                        old(sender).message_id + 1 + (i - base),
                    ) by {
                        if i < base + t_pre.len() {
                            assert(sender.outbound@[i] == sender.outbound@.drop_last()[i]);
                            assert(t_next[i - base] == t_pre[i - base]);
                        } else {
                            assert(sender.outbound@[i] == sender.outbound@.last());
                        }
                    }
                }
            } else {
                proof {
                    assert(pruned(neighbours@.take(k + 1), skip_set) == t_pre);
                }
            }
            k = k + 1;
        }
        proof {
            assert(neighbours@.take(neighbours@.len() as int) =~= neighbours@);
        }
    }

    /// Handles `Broadcast{value}`: inserts the value, gossips the whole new
    /// store to every neighbour (informed list: neighbours plus self), then
    /// replies `BroadcastOk`.
    pub fn handle_broadcast(&mut self, value: i32, sender: &mut MessageSender<MessageKind>)
        requires
            old(self).wf(),
            old(sender).wf(),
            old(sender).node_information is Some,
            old(sender).sender_information is Some,
            old(sender).message_id + old(self).neighbour_seq().len() + 1 <= u32::MAX,
        ensures
            broadcast_post(*old(self), *final(self), *old(sender), *final(sender), value),
    {
        self.insert_value(value);
        let self_id = sender.node_id_owned();
        let mut informed: Vec<String> = match &self.neighbours {
            Some(neighbours) => clone_ids(neighbours),
            None => Vec::new(),
        };
        let ghost informed_pre = informed@;
        if !contains_id(&informed, &self_id) {
            informed.push(self_id);
            proof {
                lemma_id_set_push(informed_pre, informed@.last());
            }
        } else {
            proof {
                assert(id_set(informed@) =~= id_set(old(self).neighbour_seq()).insert(
                    old(sender).spec_self_id(),
                ));
            }
        }
        let skip: Vec<String> = Vec::new();
        proof {
            assert forall|i: int|
                0 <= i < self.neighbour_seq().len() implies !id_set(skip@).contains(
                (#[trigger] self.neighbour_seq()[i])@,
            ) by {
                assert(skip@.len() == 0);
            }
            lemma_pruned_none_skipped(self.neighbour_seq(), id_set(skip@));
        }
        self.gossip(&skip, &informed, sender);
        sender.reply(MessageKind::BroadcastOk);
        proof {
            let neigh = old(self).neighbour_seq();
            let base = old(sender).outbound@.len() as int;
            let n = neigh.len() as int;
            assert forall|i: int| base <= i < base + n implies gossip_message(
                #[trigger] sender.outbound@[i],
                old(sender).spec_self_id(),
                neigh[i - base]@,
                self.messages@,
                id_set(neigh).insert(old(sender).spec_self_id()),
                old(sender).message_id + 1 + (i - base),
            ) by {
                assert(sender.outbound@[i] == sender.outbound@.drop_last()[i]);
            }
        }
    }

    /// Handles `Read`: replies `ReadOk` carrying the exact store snapshot;
    /// nothing changes.
    pub fn handle_read(&self, sender: &mut MessageSender<MessageKind>)
        requires
            old(sender).wf(),
            old(sender).node_information is Some,
            old(sender).sender_information is Some,
            old(sender).message_id < u32::MAX,
        ensures
            read_post(*self, *old(sender), *final(sender)),
    {
        let snapshot = clone_values(&self.messages);
        sender.reply(MessageKind::ReadOk(ReadOkPayload { messages: snapshot }));
    }

    /// Handles `Topology{adjacency}`: the first assignment sets the neighbour
    /// list to this node's adjacency entry (empty if absent); later ones are
    /// ignored — the first writer wins; then replies `TopologyOk`.
    pub fn handle_topology(&mut self, topology: TopologyPayload, sender: &mut MessageSender<MessageKind>)
        requires
            old(self).wf(),
            old(sender).wf(),
            old(sender).node_information is Some,
            old(sender).sender_information is Some,
            old(sender).message_id < u32::MAX,
        ensures
            topology_post(*old(self), *final(self), *old(sender), *final(sender), topology.topology@),
    {
        if self.neighbours.is_none() {
            let self_id = sender.node_id_owned();
            let mut adjacency = topology.topology;
            match find_entry(&adjacency, &self_id) {
                Some(i) => {
                    let ghost adjacency_pre = adjacency@;
                    let entry = adjacency.remove(i);
                    proof {
                        lemma_adjacency_lookup_at(adjacency_pre, self_id@, i as int);
                    }
                    self.neighbours = Some(entry.1);
                },
                None => {
                    proof {
                        lemma_adjacency_lookup_none(adjacency@, self_id@);
                    }
                    self.neighbours = Some(Vec::new());
                },
            }
        }
        sender.reply(MessageKind::TopologyOk);
    }

    /// Handles `Gossip{values, informed}`: merges the values into the store
    /// (set union), then gossips the merged store to every neighbour not in
    /// `informed`, carrying the informed list grown by this node's
    /// neighbours. Fire-and-forget: no reply.
    pub fn handle_gossip(&mut self, payload: GossipPayload, sender: &mut MessageSender<MessageKind>)
        requires
            old(self).wf(),
            old(sender).wf(),
            old(sender).node_information is Some,
            old(sender).message_id + old(self).neighbour_seq().len() <= u32::MAX,
        ensures
            gossip_post(
                *old(self),
                *final(self),
                *old(sender),
                *final(sender),
                payload.values@,
                payload.informed@,
            ),
    {
        let GossipPayload { values, informed } = payload;
        let mut k: usize = 0;
        while k < values.len()
            invariant
                k <= values@.len(),
                self.wf(),
                self.neighbours == old(self).neighbours,
                self.values() == old(self).values().union(values@.take(k as int).to_set()),
            decreases values@.len() - k,
        {
            self.insert_value(values[k]);
            proof {
                lemma_to_set_push(values@.take(k as int), values@[k as int]);
                assert(values@.take(k + 1) =~= values@.take(k as int).push(values@[k as int]));
                assert(self.values() =~= old(self).values().union(values@.take(k + 1).to_set()));
            }
            k = k + 1;
        }
        proof {
            assert(values@.take(values@.len() as int) =~= values@);
            assert(self.values() == old(self).values().union(values@.to_set()));
        }
        let newly_informed = match &self.neighbours {
            Some(neighbours) => union_ids(&informed, neighbours),
            None => {
                let r = clone_ids(&informed);
                proof {
                    assert(id_set(informed@).union(id_set(self.neighbour_seq())) =~= id_set(
                        informed@,
                    ));
                }
                r
            },
        };
        self.gossip(&informed, &newly_informed, sender);
    }

    /// Routes one typed payload to its handler. `Init` and the guard checks
    /// are the dispatch runtime's business; only request kinds other than
    /// `Init` arrive here.
    pub fn handle_message(&mut self, message: MessageKind, sender: &mut MessageSender<MessageKind>)
        requires
            old(self).wf(),
            old(sender).wf(),
            old(sender).node_information is Some,
            message is Broadcast || message is Read || message is Topology || message is Gossip,
            !(message is Gossip) ==> old(sender).sender_information is Some,
            old(sender).message_id + old(self).neighbour_seq().len() + 1 <= u32::MAX,
        ensures
            final(self).wf(),
            final(sender).wf(),
            final(sender).node_information == old(sender).node_information,
            old(self).values().subset_of(final(self).values()),
            (message matches MessageKind::Broadcast(p) ==> broadcast_post(
                *old(self),
                *final(self),
                *old(sender),
                *final(sender),
                p.message,
            )),
            (message is Read ==> *final(self) == *old(self) && read_post(
                *old(self),
                *old(sender),
                *final(sender),
            )),
            (message matches MessageKind::Topology(p) ==> topology_post(
                *old(self),
                *final(self),
                *old(sender),
                *final(sender),
                p.topology@,
            )),
            (message matches MessageKind::Gossip(p) ==> gossip_post(
                *old(self),
                *final(self),
                *old(sender),
                *final(sender),
                p.values@,
                p.informed@,
            )),
    {
        match message {
            MessageKind::Broadcast(payload) => {
                self.handle_broadcast(payload.message, sender);
            },
            MessageKind::Read => {
                self.handle_read(sender);
            },
            MessageKind::Topology(payload) => {
                self.handle_topology(payload, sender);
            },
            MessageKind::Gossip(payload) => {
                self.handle_gossip(payload, sender);
            },
            _ => {
                unreached()
            },
        }
    }
}

/// Holds when `m` is a gossip envelope to `destination` whose values are
/// exactly the store `store`.
pub open spec fn gossip_to(m: Message<MessageKind>, destination: Seq<char>, store: Set<i32>) -> bool {
    &&& m.destination@ == destination
    &&& (m.payload.message_type matches MessageKind::Gossip(g) && g.values@.to_set() == store)
}

/// Holds when some envelope of `out` in `[lo, hi)` is a gossip to
/// `destination` carrying exactly `store`.
pub open spec fn gossip_sent_to(
    out: Seq<Message<MessageKind>>,
    lo: int,
    hi: int,
    destination: Seq<char>,
    store: Set<i32>,
) -> bool {
    exists|i: int| lo <= i < hi && gossip_to(#[trigger] out[i], destination, store)
}

/// Law (idempotent merge): merging the same gossip values twice leaves the
/// value store exactly as merging them once does.
pub proof fn lemma_merge_idempotent(store: Set<i32>, incoming: Set<i32>)
    ensures
        merge_values(merge_values(store, incoming), incoming) == merge_values(store, incoming),
{
    assert(merge_values(merge_values(store, incoming), incoming) =~= merge_values(
        store,
        incoming,
    ));
}

/// Law (idempotent delivery): handling the same `Gossip{values, informed}`
/// message twice in a row leaves the value store exactly as handling it once
/// did.
pub proof fn lemma_gossip_delivery_idempotent(
    s0: MultiNodeBroadcastNode,
    s1: MultiNodeBroadcastNode,
    s2: MultiNodeBroadcastNode,
    pres0: MessageSender<MessageKind>,
    posts0: MessageSender<MessageKind>,
    pres1: MessageSender<MessageKind>,
    posts1: MessageSender<MessageKind>,
    values: Seq<i32>,
    informed: Seq<String>,
)
    requires
        gossip_post(s0, s1, pres0, posts0, values, informed),
        gossip_post(s1, s2, pres1, posts1, values, informed),
    ensures
        s2.values() == s1.values(),
{
    lemma_merge_idempotent(s0.values(), values.to_set());
}

/// Law (monotonic growth): neither a broadcast insert nor a gossip merge
/// removes a value from the store.
pub proof fn lemma_store_monotonic(store: Set<i32>, incoming: Set<i32>, value: i32)
    ensures
        store.subset_of(store.insert(value)),
        store.subset_of(merge_values(store, incoming)),
{
}

/// Law (dissemination): after `Broadcast{value}` is handled, every neighbour
/// is sent a gossip envelope whose values are exactly the node's whole new
/// store — the broadcast value included — and whose informed set already
/// covers the neighbour itself and the broadcasting node.
pub proof fn lemma_broadcast_disseminates(
    pre: MultiNodeBroadcastNode,
    post: MultiNodeBroadcastNode,
    pres: MessageSender<MessageKind>,
    posts: MessageSender<MessageKind>,
    value: i32,
    k: int,
)
    requires
        broadcast_post(pre, post, pres, posts, value),
        0 <= k < pre.neighbour_seq().len(),
    ensures
        gossip_to(
            posts.outbound@[pres.outbound@.len() + k],
            pre.neighbour_seq()[k]@,
            post.values(),
        ),
        post.values().contains(value),
        posts.outbound@[pres.outbound@.len() + k].payload.message_type matches MessageKind::Gossip(
            g,
        ) && id_set(g.informed@).contains(pre.neighbour_seq()[k]@) && id_set(g.informed@).contains(
            pres.spec_self_id(),
        ),
{
    let base = pres.outbound@.len() as int;
    assert(gossip_message(
        posts.outbound@[base + k],
        pres.spec_self_id(),
        pre.neighbour_seq()[k]@,
        post.messages@,
        id_set(pre.neighbour_seq()).insert(pres.spec_self_id()),
        pres.message_id + 1 + k,
    ));
    assert(id_set(pre.neighbour_seq()).contains(pre.neighbour_seq()[k]@));
}

/// Law (relay): a node that handles `Gossip{values, informed}` sends to every
/// neighbour not in `informed` a gossip envelope carrying exactly its whole
/// merged store — every incoming value included.
pub proof fn lemma_gossip_relays(
    pre: MultiNodeBroadcastNode,
    post: MultiNodeBroadcastNode,
    pres: MessageSender<MessageKind>,
    posts: MessageSender<MessageKind>,
    values: Seq<i32>,
    informed: Seq<String>,
    k: int,
)
    requires
        gossip_post(pre, post, pres, posts, values, informed),
        0 <= k < pre.neighbour_seq().len(),
        !id_set(informed).contains(pre.neighbour_seq()[k]@),
    ensures
        gossip_sent_to(
            posts.outbound@,
            pres.outbound@.len() as int,
            posts.outbound@.len() as int,
            pre.neighbour_seq()[k]@,
            merge_values(pre.values(), values.to_set()),
        ),
        values.to_set().subset_of(merge_values(pre.values(), values.to_set())),
{
    let neighbours = pre.neighbour_seq();
    let skip = id_set(informed);
    let targets = pruned(neighbours, skip);
    lemma_pruned_complete(neighbours, skip, k);
    let j = choose|j: int| 0 <= j < targets.len() && targets[j] == neighbours[k];
    let base = pres.outbound@.len() as int;
    assert(gossip_message(
        posts.outbound@[base + j],
        pres.spec_self_id(),
        targets[j]@,
        post.messages@,
        id_set(informed).union(id_set(neighbours)),
        pres.message_id + 1 + j,
    ));
    assert(gossip_to(posts.outbound@[base + j], neighbours[k]@, post.values()));
}

/// Law (bounded fan-out): a node that handles `Gossip{values, informed}`
/// never sends to a destination the incoming informed set already covers, and
/// every envelope it relays carries an informed set that has grown by its own
/// destination while keeping all of the incoming one — so the informed set
/// grows strictly along any chain of relays, which is what bounds a gossip
/// wave.
pub proof fn lemma_gossip_bounded(
    pre: MultiNodeBroadcastNode,
    post: MultiNodeBroadcastNode,
    pres: MessageSender<MessageKind>,
    posts: MessageSender<MessageKind>,
    values: Seq<i32>,
    informed: Seq<String>,
    i: int,
)
    requires
        gossip_post(pre, post, pres, posts, values, informed),
        pres.outbound@.len() <= i < posts.outbound@.len(),
    ensures
        !id_set(informed).contains(posts.outbound@[i].destination@),
        posts.outbound@[i].payload.message_type matches MessageKind::Gossip(g) && id_set(
            g.informed@,
        ).contains(posts.outbound@[i].destination@) && id_set(informed).subset_of(
            id_set(g.informed@),
        ),
{
    let neighbours = pre.neighbour_seq();
    let skip = id_set(informed);
    let targets = pruned(neighbours, skip);
    let base = pres.outbound@.len() as int;
    assert(gossip_message(
        posts.outbound@[i],
        pres.spec_self_id(),
        targets[i - base]@,
        post.messages@,
        id_set(informed).union(id_set(neighbours)),
        pres.message_id + 1 + (i - base),
    ));
    lemma_pruned_sound(neighbours, skip, i - base);
}

} // verus!

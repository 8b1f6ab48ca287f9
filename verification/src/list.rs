//! The intrusive list editor: unlinks matching nodes from a model of the
//! host-owned singly linked message list and schedules the host's teardown
//! and deallocation calls for each removed node, teardown strictly first.
//!
//! The host keeps spawned messages in an intrusive singly linked list: each
//! node carries a template id (the registry key) and the address of the next
//! node, and a manager object holds the address of the head. The model here
//! is that list read into plain values, in list order; its well-formedness
//! invariant states exactly the pointer discipline of the real structure
//! (head names the first node, each node's link names its successor, the
//! last link is null, addresses are non-null and distinct). All edits happen
//! from the bridged task callback, which the host serializes with its own
//! traversals; nothing else makes concurrent edits sound.
use vstd::prelude::*;

use crate::registry::{norm, MessageRegistry, get_message, normalized_is_equal};

verus! {

/// One node of the host's message list, read into plain values.
#[derive(Clone, Copy, Debug, PartialEq, Eq, Structural)]
pub struct MessageNode {
    pub addr: u64,
    pub template: u16,
    pub next: u64,
}

/// A lifecycle call the host must perform on a removed node. Teardown
/// cleans up the node's sub-objects; dealloc frees its memory. For every
/// removed node the teardown call precedes the dealloc call.
#[derive(Clone, Copy, Debug, PartialEq, Eq, Structural)]
pub enum HostCall {
    Teardown(u64),
    Dealloc(u64),
}

/// The host's message list: a head address and the chain of nodes in list
/// order.
pub struct MessageList {
    head: u64,
    nodes: Vec<MessageNode>,
}

/// Whether the registry maps `template` to a text equal to `msg` with
/// whitespace ignored: the predicate on which the editor unlinks.
pub open spec fn spec_matches(c: Map<u16, Seq<char>>, template: u16, msg: Seq<char>) -> bool {
    c.contains_key(template) && norm(c[template]) == norm(msg)
}

/// The lifecycle calls an unlink pass schedules: for each removed node, in
/// list order, its teardown and then its deallocation.
pub open spec fn unlink_calls(nodes: Seq<MessageNode>, c: Map<u16, Seq<char>>, msg: Seq<char>) -> Seq<
    HostCall,
>
    decreases nodes.len(),
{
    if nodes.len() == 0 {
        Seq::empty()
    } else if spec_matches(c, nodes[0].template, msg) {
        seq![HostCall::Teardown(nodes[0].addr), HostCall::Dealloc(nodes[0].addr)] + unlink_calls(
            nodes.drop_first(),
            c,
            msg,
        )
    } else {
        unlink_calls(nodes.drop_first(), c, msg)
    }
}

/// The chain conditions of the intrusive list, head aside: every link names
/// its successor, the last link is null, and addresses are non-null and
/// distinct.
pub open spec fn chain_ok(nodes: Seq<MessageNode>) -> bool {
    &&& forall|i: int| 0 <= i < nodes.len() ==> (#[trigger] nodes[i]).addr != 0
    &&& forall|i: int, j: int| 0 <= i < j < nodes.len() ==> nodes[i].addr != nodes[j].addr
    &&& forall|i: int|
        0 <= i < nodes.len() - 1 ==> (#[trigger] nodes[i]).next == nodes[i + 1].addr
    &&& (nodes.len() > 0 ==> nodes[nodes.len() - 1].next == 0)
}

impl MessageList {
    /// The chain of nodes, in list order.
    pub closed spec fn nodes_view(self) -> Seq<MessageNode> {
        self.nodes@
    }

    /// The address stored in the container's head field.
    pub closed spec fn spec_head(self) -> u64 {
        self.head
    }

    /// Whether some node of the chain lives at `addr`.
    pub open spec fn has_addr(self, addr: u64) -> bool {
        exists|i: int| 0 <= i < self.nodes_view().len() && (#[trigger] self.nodes_view()[i]).addr
            == addr
    }

    /// The pointer discipline of the real structure: the head names the
    /// first node (or is null for an empty list), and the chain conditions
    /// of `chain_ok` hold of the nodes.
    pub closed spec fn wf(self) -> bool {
        &&& chain_ok(self.nodes@)
        &&& (if self.nodes@.len() == 0 {
            self.head == 0
        } else {
            self.head == self.nodes@[0].addr
        })
    }

    /// An empty list: a null head.
    pub fn new() -> (r: MessageList)
        ensures
            r.wf(),
            r.nodes_view() == Seq::<MessageNode>::empty(),
            r.spec_head() == 0u64,
    {
        MessageList { head: 0, nodes: Vec::new() }
    }

    /// Links a new node carrying `template` at address `addr` in front of
    /// the current head, as the host does when it spawns a message.
    pub fn push_front(&mut self, addr: u64, template: u16)
        requires
            old(self).wf(),
            addr != 0,
            !old(self).has_addr(addr),
        ensures
            final(self).wf(),
            final(self).nodes_view() == old(self).nodes_view().insert(
                0,
                MessageNode { addr, template, next: old(self).spec_head() },
            ),
            final(self).spec_head() == addr,
    {
        let node = MessageNode { addr, template, next: self.head };
        self.nodes.insert(0, node);
        self.head = addr;
        proof {
            let v = self.nodes@;
            let o = old(self).nodes@;
            assert(v == o.insert(0, node));
            assert(v[0] == node);
            assert(forall|i: int| 1 <= i < v.len() ==> v[i] == o[i - 1]);
            assert forall|i: int, j: int| 0 <= i < j < v.len() implies v[i].addr != v[j].addr by {
                if i == 0 {
                    assert(o[j - 1].addr != addr) by {
                        assert(old(self).nodes_view()[j - 1].addr == o[j - 1].addr);
                    }
                }
            }
            if v.len() > 1 {
                assert(v[0].next == old(self).spec_head() == o[0].addr == v[1].addr);
            }
        }
    }

    /// The container's head address, as the host would read it.
    pub fn head_addr(&self) -> (r: u64)
        ensures
            r == self.spec_head(),
    {
        self.head
    }

    /// The number of linked nodes.
    pub fn len(&self) -> (n: usize)
        ensures
            n == self.nodes_view().len(),
    {
        self.nodes.len()
    }

    /// The node at position `i` of the chain.
    pub fn node_at(&self, i: usize) -> (r: MessageNode)
        requires
            i < self.nodes_view().len(),
        ensures
            r == self.nodes_view()[i as int],
    {
        self.nodes[i]
    }
}

/// What survives pointer rewriting: the address and template of each node,
/// in chain order. The links themselves are pinned separately, by the chain
/// conditions.
pub open spec fn keys_of(nodes: Seq<MessageNode>) -> Seq<(u64, u16)> {
    Seq::new(nodes.len(), |j: int| (nodes[j].addr, nodes[j].template))
}

proof fn lemma_splice_chain(v: Seq<MessageNode>, i: int, w: Seq<MessageNode>)
    requires
        chain_ok(v),
        0 <= i < v.len(),
        w.len() == v.len() - 1,
        forall|j: int| 0 <= j < i - 1 ==> w[j] == v[j],
        i > 0 ==> w[i - 1] == (MessageNode {
            addr: v[i - 1].addr,
            template: v[i - 1].template,
            next: v[i].next,
        }),
        forall|j: int| i - 1 < j < w.len() ==> w[j] == v[j + 1],
    ensures
        chain_ok(w),
        w.len() > 0 ==> w[0].addr == (if i == 0 {
            v[i].next
        } else {
            v[0].addr
        }),
        (i == 0 && w.len() == 0) ==> v[0].next == 0,
        keys_of(w.subrange(0, i)) == keys_of(v.subrange(0, i)),
        w.skip(i) == v.skip(i + 1),
{
    assert(keys_of(w.subrange(0, i)) =~= keys_of(v.subrange(0, i))) by {
        assert forall|j: int| 0 <= j < i implies keys_of(w.subrange(0, i))[j] == keys_of(
            v.subrange(0, i),
        )[j] by {
            assert(w.subrange(0, i)[j] == w[j]);
            assert(v.subrange(0, i)[j] == v[j]);
            if j < i - 1 {
                assert(w[j] == v[j]);
            }
        }
    }
    assert(w.skip(i) =~= v.skip(i + 1)) by {
        assert forall|j: int| 0 <= j < w.len() - i implies w.skip(i)[j] == v.skip(i + 1)[j] by {
            assert(w.skip(i)[j] == w[i + j]);
            assert(v.skip(i + 1)[j] == v[i + 1 + j]);
            assert(w[i + j] == v[i + j + 1]);
        }
    }
    assert forall|p: int| 0 <= p < w.len() implies (#[trigger] w[p]).addr != 0 by {
        if p < i - 1 || p > i - 1 {
            assert(w[p].addr == v[if p < i - 1 { p } else { p + 1 }].addr);
        }
    }
    assert forall|p: int, q: int| 0 <= p < q < w.len() implies w[p].addr != w[q].addr by {
        let p0 = if p <= i - 1 { p } else { p + 1 };
        let q0 = if q <= i - 1 { q } else { q + 1 };
        assert(w[p].addr == v[p0].addr);
        assert(w[q].addr == v[q0].addr);
    }
    assert forall|p: int| 0 <= p < w.len() - 1 implies (#[trigger] w[p]).next == w[p + 1].addr by {
        if p < i - 1 {
            assert(w[p] == v[p]);
            assert(w[p + 1].addr == v[p + 1].addr);
        } else if p == i - 1 {
            assert(w[p].next == v[i].next);
            assert(w[p + 1] == v[i + 1]);
            assert(v[i].next == v[i + 1].addr);
        } else {
            assert(w[p] == v[p + 1]);
            assert(w[p + 1] == v[p + 2]);
        }
    }
    if w.len() > 0 {
        if i == w.len() {
            // the removed node was the last of the chain
            if i > 0 {
                assert(w[w.len() - 1].next == v[i].next);
                assert(v[i].next == 0);
            }
        } else {
            assert(w[w.len() - 1] == v[v.len() - 1]);
        }
        if i == 0 {
            assert(w[0] == v[1]);
            assert(v[0].next == v[1].addr);
        } else if i == 1 {
            assert(w[0].addr == v[0].addr);
        } else {
            assert(w[0] == v[0]);
        }
    }
    if i == 0 && w.len() == 0 {
        assert(v.len() == 1);
    }
}

/// The addresses and templates of the nodes that survive an unlink pass,
/// in list order.
pub open spec fn survivor_keys(
    nodes: Seq<MessageNode>,
    c: Map<u16, Seq<char>>,
    msg: Seq<char>,
) -> Seq<(u64, u16)>
    decreases nodes.len(),
{
    if nodes.len() == 0 {
        Seq::empty()
    } else if spec_matches(c, nodes[0].template, msg) {
        survivor_keys(nodes.drop_first(), c, msg)
    } else {
        seq![(nodes[0].addr, nodes[0].template)] + survivor_keys(nodes.drop_first(), c, msg)
    }
}

proof fn lemma_step_unfold(orig: Seq<MessageNode>, k: int, c: Map<u16, Seq<char>>, m: Seq<char>)
    requires
        0 <= k < orig.len(),
    ensures
        orig.skip(k).len() == orig.len() - k,
        orig.skip(k)[0] == orig[k],
        orig.skip(k).drop_first() == orig.skip(k + 1),
        spec_matches(c, orig[k].template, m) ==> survivor_keys(orig.skip(k), c, m)
            == survivor_keys(orig.skip(k + 1), c, m),
        spec_matches(c, orig[k].template, m) ==> unlink_calls(orig.skip(k), c, m) == seq![
            HostCall::Teardown(orig[k].addr),
            HostCall::Dealloc(orig[k].addr),
        ] + unlink_calls(orig.skip(k + 1), c, m),
        !spec_matches(c, orig[k].template, m) ==> survivor_keys(orig.skip(k), c, m) == seq![
            (orig[k].addr, orig[k].template),
        ] + survivor_keys(orig.skip(k + 1), c, m),
        !spec_matches(c, orig[k].template, m) ==> unlink_calls(orig.skip(k), c, m) == unlink_calls(
            orig.skip(k + 1),
            c,
            m,
        ),
{
    assert(orig.skip(k).drop_first() =~= orig.skip(k + 1));
}

impl MessageList {
    /// Splices the node at chain position `i` out: redirects the
    /// predecessor's link (or the head field, for the first node) to the
    /// node behind it and drops the node, re-establishing the chain
    /// conditions.
    #[verifier::rlimit(100)]
    #[verifier::spinoff_prover]
    fn splice_out(&mut self, i: usize)
        requires
            old(self).wf(),
            i < old(self).nodes_view().len(),
        ensures
            final(self).wf(),
            final(self).nodes_view().len() == old(self).nodes_view().len() - 1,
            keys_of(final(self).nodes_view().subrange(0, i as int)) == keys_of(
                old(self).nodes_view().subrange(0, i as int),
            ),
            final(self).nodes_view().skip(i as int) == old(self).nodes_view().skip(i + 1),
    {
        let ghost v = self.nodes@;
        let node = self.nodes[i];
        if i == 0 {
            self.head = node.next;
        } else {
            let mut prev = self.nodes[i - 1];
            prev.next = node.next;
            self.nodes[i - 1] = prev;
        }
        self.nodes.remove(i);
        proof {
            let w = self.nodes@;
            assert(w.len() == v.len() - 1);
            assert(forall|j: int| 0 <= j < i - 1 ==> w[j] == v[j]);
            if i > 0 {
                assert(w[i - 1] == (MessageNode {
                    addr: v[i - 1].addr,
                    template: v[i - 1].template,
                    next: v[i as int].next,
                }));
            }
            assert(forall|j: int| i - 1 < j < w.len() ==> w[j] == v[j + 1]);
            lemma_splice_chain(v, i as int, w);
        }
    }
}

proof fn lemma_unlink_init(orig: Seq<MessageNode>, c: Map<u16, Seq<char>>, m: Seq<char>)
    ensures
        orig.skip(0) == orig,
        keys_of(orig.subrange(0, 0)) == Seq::<(u64, u16)>::empty(),
        Seq::<(u64, u16)>::empty() + survivor_keys(orig, c, m) == survivor_keys(orig, c, m),
        Seq::<HostCall>::empty() + unlink_calls(orig, c, m) == unlink_calls(orig, c, m),
{
    assert(orig.skip(0) =~= orig);
    assert(keys_of(orig.subrange(0, 0)) =~= Seq::<(u64, u16)>::empty());
    assert(Seq::<(u64, u16)>::empty() + survivor_keys(orig, c, m) =~= survivor_keys(orig, c, m));
    assert(Seq::<HostCall>::empty() + unlink_calls(orig, c, m) =~= unlink_calls(orig, c, m));
}

proof fn lemma_unlink_final(
    orig: Seq<MessageNode>,
    c: Map<u16, Seq<char>>,
    m: Seq<char>,
    v: Seq<MessageNode>,
    acts: Seq<HostCall>,
    i: int,
    k: int,
)
    requires
        i == v.len(),
        0 <= k <= orig.len(),
        v.skip(i) == orig.skip(k),
        survivor_keys(orig, c, m) == keys_of(v.subrange(0, i)) + survivor_keys(
            orig.skip(k),
            c,
            m,
        ),
        unlink_calls(orig, c, m) == acts + unlink_calls(orig.skip(k), c, m),
    ensures
        keys_of(v) == survivor_keys(orig, c, m),
        acts == unlink_calls(orig, c, m),
        k == orig.len(),
{
    assert(orig.skip(k).len() == 0);
    assert(orig.skip(k) =~= Seq::<MessageNode>::empty());
    assert(v.subrange(0, i) =~= v);
    assert(keys_of(v) + survivor_keys(orig.skip(k), c, m) =~= keys_of(v));
    assert(acts + unlink_calls(orig.skip(k), c, m) =~= acts);
}

/// Walks the chain once and unlinks every node whose template maps, in the
/// registry, to a text equal to `message` with whitespace ignored. Splices
/// each removed node out (redirecting its predecessor's link, or the head
/// field for the first node) and schedules the host's teardown call and
/// then its deallocation call for it, continuing the walk behind the
/// removed node. Returns how many nodes were removed and the scheduled
/// calls in order. An empty list stays a no-op.
#[verifier::rlimit(100)]
#[verifier::spinoff_prover]
pub fn unlink_matching(list: &mut MessageList, reg: &MessageRegistry, message: &str) -> (r: (
    usize,
    Vec<HostCall>,
))
    requires
        old(list).wf(),
        reg.wf(),
    ensures
        final(list).wf(),
        keys_of(final(list).nodes_view()) == survivor_keys(
            old(list).nodes_view(),
            reg.contents(),
            message@,
        ),
        r.1@ == unlink_calls(old(list).nodes_view(), reg.contents(), message@),
        r.0 == old(list).nodes_view().len() - final(list).nodes_view().len(),
{
    let ghost c = reg.contents();
    let ghost m = message@;
    let ghost orig = list.nodes@;
    let total = list.nodes.len();
    let mut acts: Vec<HostCall> = Vec::new();
    let mut count: usize = 0;
    let mut i: usize = 0;
    let ghost mut k: int = 0;
    proof {
        assert(orig.len() == total);
        lemma_unlink_init(orig, c, m);
        assert(acts@ =~= Seq::<HostCall>::empty());
        assert(list.nodes_view() == orig);
        assert(list.nodes_view().subrange(0, 0) == orig.subrange(0, 0));
        assert(list.nodes_view().skip(0) == orig.skip(0));
    }
    while i < list.nodes.len()
        invariant
            reg.wf(),
            c == reg.contents(),
            m == message@,
            list.wf(),
            0 <= i <= list.nodes_view().len(),
            i <= k <= orig.len(),
            orig.len() == total,
            list.nodes_view().skip(i as int) == orig.skip(k),
            survivor_keys(orig, c, m) == keys_of(list.nodes_view().subrange(0, i as int))
                + survivor_keys(orig.skip(k), c, m),
            unlink_calls(orig, c, m) == acts@ + unlink_calls(orig.skip(k), c, m),
            count == k - i,
        decreases list.nodes_view().len() - i,
    {
        let node = list.nodes[i];
        proof {
            assert(orig.skip(k).len() == list.nodes@.len() - i);
            lemma_step_unfold(orig, k, c, m);
            assert(list.nodes@[i as int] == list.nodes@.skip(i as int)[0]);
            assert(node == orig[k]);
        }
        let matched = match get_message(reg, node.template) {
            Some(t) => normalized_is_equal(t.as_str(), message),
            None => false,
        };
        proof {
            assert(matched == spec_matches(c, node.template, m));
        }
        if matched {
            let ghost v = list.nodes@;
            list.splice_out(i);
            acts.push(HostCall::Teardown(node.addr));
            acts.push(HostCall::Dealloc(node.addr));
            proof {
                let w = list.nodes@;
                assert(w.skip(i as int) == v.skip(i + 1));
                assert(v.skip(i + 1) =~= orig.skip(k + 1)) by {
                    assert(v.skip(i as int) == orig.skip(k));
                    assert(v.skip(i as int).drop_first() =~= v.skip(i + 1));
                    assert(orig.skip(k).drop_first() == orig.skip(k + 1));
                }
                assert(keys_of(w.subrange(0, i as int)) == keys_of(v.subrange(0, i as int)));
                assert(survivor_keys(orig, c, m) == keys_of(w.subrange(0, i as int))
                    + survivor_keys(orig.skip(k + 1), c, m));
                assert(acts@ + unlink_calls(orig.skip(k + 1), c, m) =~= unlink_calls(orig, c, m));
                assert(k < orig.len());
                k = k + 1;
            }
            assert(count < orig.len());
            count = count + 1;
        } else {
            proof {
                let v = list.nodes@;
                assert(keys_of(v.subrange(0, i + 1)) =~= keys_of(v.subrange(0, i as int)) + seq![
                    (node.addr, node.template),
                ]);
                assert(keys_of(v.subrange(0, i as int)) + seq![(node.addr, node.template)]
                    + survivor_keys(orig.skip(k + 1), c, m) =~= keys_of(v.subrange(0, i as int))
                    + (seq![(node.addr, node.template)] + survivor_keys(orig.skip(k + 1), c, m)));
                assert(v.skip(i + 1) =~= v.skip(i as int).drop_first());
                k = k + 1;
            }
            i = i + 1;
        }
    }
    proof {
        lemma_unlink_final(orig, c, m, list.nodes@, acts@, i as int, k);
    }
    (count, acts)
}

/// `survivor_keys`, stated over address/template keys alone: what the list
/// holds after an unlink pass, as a function of what it held before.
pub open spec fn key_survivors(keys: Seq<(u64, u16)>, c: Map<u16, Seq<char>>, msg: Seq<char>) -> Seq<
    (u64, u16),
>
    decreases keys.len(),
{
    if keys.len() == 0 {
        Seq::empty()
    } else if spec_matches(c, keys[0].1, msg) {
        key_survivors(keys.drop_first(), c, msg)
    } else {
        seq![keys[0]] + key_survivors(keys.drop_first(), c, msg)
    }
}

/// `unlink_calls`, stated over address/template keys alone.
pub open spec fn key_unlink_calls(keys: Seq<(u64, u16)>, c: Map<u16, Seq<char>>, msg: Seq<char>) -> Seq<
    HostCall,
>
    decreases keys.len(),
{
    if keys.len() == 0 {
        Seq::empty()
    } else if spec_matches(c, keys[0].1, msg) {
        seq![HostCall::Teardown(keys[0].0), HostCall::Dealloc(keys[0].0)] + key_unlink_calls(
            keys.drop_first(),
            c,
            msg,
        )
    } else {
        key_unlink_calls(keys.drop_first(), c, msg)
    }
}

/// Law: the node-level unlink contract and its key-level form agree, so the
/// list's behaviour is a function of its addresses and templates alone.
pub proof fn lemma_keys_bridge(nodes: Seq<MessageNode>, c: Map<u16, Seq<char>>, m: Seq<char>)
    ensures
        survivor_keys(nodes, c, m) == key_survivors(keys_of(nodes), c, m),
        unlink_calls(nodes, c, m) == key_unlink_calls(keys_of(nodes), c, m),
    decreases nodes.len(),
{
    if nodes.len() > 0 {
        lemma_keys_bridge(nodes.drop_first(), c, m);
        assert(keys_of(nodes).drop_first() =~= keys_of(nodes.drop_first()));
        assert(keys_of(nodes)[0] == (nodes[0].addr, nodes[0].template));
    } else {
        assert(keys_of(nodes) =~= Seq::<(u64, u16)>::empty());
    }
}

/// Law: the scheduled calls come in pairs, one pair per removed node in
/// list order: its teardown first, its deallocation immediately after.
/// Nothing is ever deallocated before it is torn down.
pub proof fn law_teardown_before_dealloc(
    nodes: Seq<MessageNode>,
    c: Map<u16, Seq<char>>,
    msg: Seq<char>,
)
    ensures
        unlink_calls(nodes, c, msg).len() % 2 == 0,
        forall|k: int|
            0 <= k && 2 * k + 1 < unlink_calls(nodes, c, msg).len() ==> exists|a: u64|
                #[trigger] unlink_calls(nodes, c, msg)[2 * k] == HostCall::Teardown(a)
                    && unlink_calls(nodes, c, msg)[2 * k + 1] == HostCall::Dealloc(a),
    decreases nodes.len(),
{
    if nodes.len() > 0 {
        law_teardown_before_dealloc(nodes.drop_first(), c, msg);
        let calls = unlink_calls(nodes, c, msg);
        let rest = unlink_calls(nodes.drop_first(), c, msg);
        if spec_matches(c, nodes[0].template, msg) {
            let a0 = nodes[0].addr;
            assert(calls == seq![HostCall::Teardown(a0), HostCall::Dealloc(a0)] + rest);
            assert forall|k: int| 0 <= k && 2 * k + 1 < calls.len() implies exists|a: u64|
                #[trigger] calls[2 * k] == HostCall::Teardown(a) && calls[2 * k + 1]
                    == HostCall::Dealloc(a) by {
                if k == 0 {
                    assert(calls[0] == HostCall::Teardown(a0) && calls[1] == HostCall::Dealloc(
                        a0,
                    ));
                } else {
                    assert(calls[2 * k] == rest[2 * (k - 1)]);
                    assert(calls[2 * k + 1] == rest[2 * (k - 1) + 1]);
                    let a = choose|a: u64|
                        #[trigger] rest[2 * (k - 1)] == HostCall::Teardown(a) && rest[2 * (k - 1)
                            + 1] == HostCall::Dealloc(a);
                    assert(calls[2 * k] == HostCall::Teardown(a) && calls[2 * k + 1]
                        == HostCall::Dealloc(a));
                }
            }
        }
    }
}

} // verus!

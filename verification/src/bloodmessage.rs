//! Spawning, deleting and intercepting floor messages.
//!
//! Spawning stores the text in the registry and builds the parameter block
//! for the host's spawn routine; the block's constant fields are host
//! conventions that must be reproduced exactly. Deleting walks the host's
//! message list, unlinks every node whose registry text matches, and drops
//! the matched registry entries. The lookup interception answers the host's
//! per-frame text lookup from the registry, rate limiting its outbound
//! notification.
use vstd::prelude::*;

use crate::hook::{notifies, RateLimiter};
use crate::list::{
    keys_of, spec_matches, survivor_keys, unlink_calls, unlink_matching, HostCall, MessageList,
    MessageNode,
};
use crate::player::MapId;
use crate::registry::{
    add_message, get_message, message_wide, next_counter, normalized_is_equal, remove_message,
    wide_of, MessageRegistry,
};

verus! {

/// The parameter block of the host's message-spawn routine, integer fields
/// only: the position, orientation and angle are measured by the glue that
/// reads the player's coordinates and are filled in there. A null database
/// item makes the host render the message as a developer message; the other
/// constants are host conventions determined empirically and reproduced
/// exactly.
#[derive(Clone, Copy, Debug, PartialEq, Eq, Structural)]
pub struct SpawnPlan {
    pub blood_message_db_item: usize,
    pub map_id: MapId,
    pub template_id: u16,
    pub unk1e: i8,
    pub unk1f: u8,
    pub unk20: u32,
    pub unk24: u32,
    pub unk28: u32,
    pub unk2c: i32,
    pub magic_value: u32,
    pub unk34: i32,
    pub message_sign_visual: i32,
    pub unk3c: u32,
    pub unk40: i32,
    pub unk44: i32,
    pub unk48: i32,
    pub unk4c: i32,
}

/// The parameter block spawning builds: a null database item, the host's
/// constant fields reproduced exactly, and the caller's template id, map
/// position and visual style.
pub open spec fn spec_spawn_plan(template_id: u16, map_id: MapId, msg_visual: i32) -> SpawnPlan {
    SpawnPlan {
        blood_message_db_item: 0usize,
        map_id,
        template_id,
        unk1e: -1i8,
        unk1f: 66u8,
        unk20: 30001u32,
        unk24: 0u32,
        unk28: 0u32,
        unk2c: -1i32,
        magic_value: u32::MAX,
        unk34: -1i32,
        message_sign_visual: msg_visual,
        unk3c: 0u32,
        unk40: -1i32,
        unk44: -1i32,
        unk48: -1i32,
        unk4c: -1i32,
    }
}

/// Stores `message` under a fresh id and builds the spawn parameter block
/// carrying that id as its template, the caller's map position and visual
/// style, and the host's constant fields.
pub fn spawn_message(
    reg: &mut MessageRegistry,
    map_id: MapId,
    message: &str,
    msg_visual: i32,
) -> (plan: SpawnPlan)
    requires
        old(reg).wf(),
    ensures
        final(reg).wf(),
        plan == spec_spawn_plan(old(reg).counter(), map_id, msg_visual),
        final(reg).contents() == old(reg).contents().insert(plan.template_id, message@),
        final(reg).counter() == next_counter(old(reg).counter()),
{
    let template_id = add_message(reg, message);
    SpawnPlan {
        blood_message_db_item: 0,
        map_id,
        template_id,
        unk1e: -1,
        unk1f: 66,
        unk20: 30001,
        unk24: 0,
        unk28: 0,
        unk2c: -1,
        magic_value: u32::MAX,
        unk34: -1,
        message_sign_visual: msg_visual,
        unk3c: 0,
        unk40: -1,
        unk44: -1,
        unk48: -1,
        unk4c: -1,
    }
}

/// `removed_templates`, stated over address/template keys alone.
pub open spec fn key_removed_templates(
    keys: Seq<(u64, u16)>,
    c: Map<u16, Seq<char>>,
    msg: Seq<char>,
) -> Seq<u16>
    decreases keys.len(),
{
    if keys.len() == 0 {
        Seq::empty()
    } else if spec_matches(c, keys[0].1, msg) {
        seq![keys[0].1] + key_removed_templates(keys.drop_first(), c, msg)
    } else {
        key_removed_templates(keys.drop_first(), c, msg)
    }
}

/// Law: the node-level template removal and its key-level form agree.
pub proof fn lemma_removed_bridge(nodes: Seq<MessageNode>, c: Map<u16, Seq<char>>, m: Seq<char>)
    ensures
        removed_templates(nodes, c, m) == key_removed_templates(keys_of(nodes), c, m),
    decreases nodes.len(),
{
    if nodes.len() > 0 {
        lemma_removed_bridge(nodes.drop_first(), c, m);
        assert(keys_of(nodes).drop_first() =~= keys_of(nodes.drop_first()));
        assert(keys_of(nodes)[0] == (nodes[0].addr, nodes[0].template));
    } else {
        assert(keys_of(nodes) =~= Seq::<(u64, u16)>::empty());
    }
}

/// The templates of the nodes an unlink pass removes, in list order.
pub open spec fn removed_templates(
    nodes: Seq<MessageNode>,
    c: Map<u16, Seq<char>>,
    msg: Seq<char>,
) -> Seq<u16>
    decreases nodes.len(),
{
    if nodes.len() == 0 {
        Seq::empty()
    } else if spec_matches(c, nodes[0].template, msg) {
        seq![nodes[0].template] + removed_templates(nodes.drop_first(), c, msg)
    } else {
        removed_templates(nodes.drop_first(), c, msg)
    }
}

proof fn lemma_removed_unfold(nodes: Seq<MessageNode>, k: int, c: Map<u16, Seq<char>>, m: Seq<char>)
    requires
        0 <= k < nodes.len(),
    ensures
        nodes.skip(k)[0] == nodes[k],
        spec_matches(c, nodes[k].template, m) ==> removed_templates(nodes.skip(k), c, m) == seq![
            nodes[k].template,
        ] + removed_templates(nodes.skip(k + 1), c, m),
        !spec_matches(c, nodes[k].template, m) ==> removed_templates(nodes.skip(k), c, m)
            == removed_templates(nodes.skip(k + 1), c, m),
{
    assert(nodes.skip(k).drop_first() =~= nodes.skip(k + 1));
}

/// Despawns every listed message whose text matches `message` with
/// whitespace ignored: unlinks the matching nodes from the host list,
/// schedules teardown-then-deallocate for each, and drops the matched
/// registry entries. Returns the removed count and the scheduled host
/// calls.
pub fn delete_message(list: &mut MessageList, reg: &mut MessageRegistry, message: &str) -> (r: (
    usize,
    Vec<HostCall>,
))
    requires
        old(list).wf(),
        old(reg).wf(),
    ensures
        final(list).wf(),
        final(reg).wf(),
        keys_of(final(list).nodes_view()) == survivor_keys(
            old(list).nodes_view(),
            old(reg).contents(),
            message@,
        ),
        r.1@ == unlink_calls(old(list).nodes_view(), old(reg).contents(), message@),
        r.0 == old(list).nodes_view().len() - final(list).nodes_view().len(),
        final(reg).contents() == old(reg).contents().remove_keys(
            removed_templates(old(list).nodes_view(), old(reg).contents(), message@).to_set(),
        ),
        final(reg).counter() == old(reg).counter(),
{
    let ghost c = reg.contents();
    let ghost m = message@;
    let ghost nodes = list.nodes_view();
    // first pass: collect the templates of the nodes that will be removed
    let mut ts: Vec<u16> = Vec::new();
    let n = list.len();
    let mut i: usize = 0;
    proof {
        assert(nodes.skip(0) =~= nodes);
        assert(Seq::<u16>::empty() + removed_templates(nodes, c, m) =~= removed_templates(
            nodes,
            c,
            m,
        ));
    }
    while i < n
        invariant
            reg.wf(),
            c == reg.contents(),
            m == message@,
            nodes == list.nodes_view(),
            n == nodes.len(),
            0 <= i <= n,
            removed_templates(nodes, c, m) == ts@ + removed_templates(nodes.skip(i as int), c, m),
        decreases n - i,
    {
        let node = list.node_at(i);
        proof {
            lemma_removed_unfold(nodes, i as int, c, m);
        }
        let matched = match get_message(reg, node.template) {
            Some(t) => normalized_is_equal(t.as_str(), message),
            None => false,
        };
        if matched {
            ts.push(node.template);
            proof {
                assert(ts@ + removed_templates(nodes.skip(i + 1), c, m) =~= removed_templates(
                    nodes,
                    c,
                    m,
                ));
            }
        }
        i = i + 1;
    }
    proof {
        assert(nodes.skip(n as int) =~= Seq::<MessageNode>::empty());
        assert(ts@ + Seq::<u16>::empty() =~= ts@);
        assert(ts@ == removed_templates(nodes, c, m));
    }
    // second pass: splice the matching nodes out of the host list
    let (count, acts) = unlink_matching(list, reg, message);
    // third pass: drop the matched registry entries
    let tn = ts.len();
    let mut j: usize = 0;
    proof {
        assert(c.remove_keys(ts@.subrange(0, 0).to_set()) =~= c) by {
            assert(forall|x: u16| !(#[trigger] ts@.subrange(0, 0).contains(x)));
        }
    }
    while j < tn
        invariant
            tn == ts@.len(),
            0 <= j <= tn,
            reg.wf(),
            reg.counter() == old(reg).counter(),
            reg.contents() == c.remove_keys(ts@.subrange(0, j as int).to_set()),
        decreases tn - j,
    {
        let t = ts[j];
        remove_message(reg, t);
        proof {
            let s0 = ts@.subrange(0, j as int).to_set();
            let s1 = ts@.subrange(0, j + 1).to_set();
            assert(s1 =~= s0.insert(t)) by {
                assert forall|x: u16| ts@.subrange(0, j + 1).contains(x) implies (
                ts@.subrange(0, j as int).contains(x) || x == t) by {
                    let ix = choose|ix: int|
                        0 <= ix < j + 1 && #[trigger] ts@.subrange(0, j + 1)[ix] == x;
                    if ix < j {
                        assert(ts@.subrange(0, j as int)[ix] == x);
                    }
                }
                assert forall|x: u16| ts@.subrange(0, j as int).contains(x) implies ts@.subrange(
                    0,
                    j + 1,
                ).contains(x) by {
                    let ix = choose|ix: int|
                        0 <= ix < j && #[trigger] ts@.subrange(0, j as int)[ix] == x;
                    assert(ts@.subrange(0, j + 1)[ix] == x);
                }
                assert(ts@.subrange(0, j + 1)[j as int] == t);
            }
            assert(c.remove_keys(s0).remove(t) =~= c.remove_keys(s1));
        }
        j = j + 1;
    }
    proof {
        assert(ts@.subrange(0, tn as int) =~= ts@);
    }
    (count, acts)
}

/// What the lookup interception decides for one host call.
pub enum LookupOutcome {
    /// Answer the host with this registry text instead of calling through;
    /// `notify` says whether the rate limiter lets this read produce an
    /// outbound event.
    Synthesized { text: String, notify: bool },
    /// Not one of ours: call the intercepted routine through.
    PassThrough,
}

/// The lookup interception's decision: if the requested template id names a
/// registry entry, answer with its text and note the read against the rate
/// limiter; otherwise leave the call to the intercepted routine and
/// touch nothing.
pub fn blood_message_lookup(
    reg: &MessageRegistry,
    limiter: &mut RateLimiter,
    template_id: u32,
    now: u64,
) -> (r: LookupOutcome)
    requires
        reg.wf(),
    ensures
        (template_id <= 0xFFFF && reg.contents().contains_key(template_id as u16)) ==> match r {
            LookupOutcome::Synthesized { text, notify } => {
                &&& text@ == reg.contents()[template_id as u16]
                &&& notify == notifies(old(limiter).last(), now)
                &&& final(limiter).last() == now
            },
            LookupOutcome::PassThrough => false,
        },
        !(template_id <= 0xFFFF && reg.contents().contains_key(template_id as u16)) ==> r
            is PassThrough && *final(limiter) == *old(limiter),
{
    if template_id <= 0xFFFF {
        let id = template_id as u16;
        if let Some(text) = get_message(reg, id) {
            let notify = limiter.note_read(now);
            return LookupOutcome::Synthesized { text, notify };
        }
    }
    LookupOutcome::PassThrough
}

/// What the interception hands the host for one call: for a template id
/// with a registry entry, the entry's text as the host reads it (and a
/// note against the rate limiter); for any other id, whatever the
/// intercepted routine itself replied, unchanged.
pub fn lookup_reply(
    reg: &MessageRegistry,
    limiter: &mut RateLimiter,
    template_id: u32,
    now: u64,
    host_reply: Option<Vec<u16>>,
) -> (r: (Option<Vec<u16>>, bool))
    requires
        reg.wf(),
    ensures
        (template_id <= 0xFFFF && reg.contents().contains_key(template_id as u16)) ==> ({
            &&& match r.0 {
                Some(w) => w@ == wide_of(reg.contents()[template_id as u16]),
                None => false,
            }
            &&& r.1 == notifies(old(limiter).last(), now)
            &&& final(limiter).last() == now
        }),
        !(template_id <= 0xFFFF && reg.contents().contains_key(template_id as u16)) ==> r.0
            == host_reply && r.1 == false && *final(limiter) == *old(limiter),
{
    if template_id <= 0xFFFF {
        let id = template_id as u16;
        if let Some(w) = message_wide(reg, id) {
            let notify = limiter.note_read(now);
            return (Some(w), notify);
        }
    }
    (host_reply, false)
}

} // verus!

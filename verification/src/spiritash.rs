//! Spirit-ash companion tracking: filtering the host's buddy character set
//! down to spirit companions and diffing their health against the last
//! observed state to decide summon, leave and death events.
//!
//! The glue walks the host's buddy set and hands over one plain record per
//! slot; the logic here filters and diffs. A newly seen companion with
//! health is a summon (and gets the host-side cosmetic adjustments, so its
//! address is handed back); a tracked companion that vanished while it
//! still had health has left; a tracked companion whose health reached zero
//! has died. When the player's own health is zero every tracked companion
//! leaves at once.
use vstd::prelude::*;

use crate::OutgoingMessage;

verus! {

/// One slot of the host's buddy character set, read into plain values.
#[derive(Clone, Copy, Debug, PartialEq, Eq, Structural)]
pub struct ChrSlot {
    pub addr: u64,
    pub vftable: u64,
    pub team_type: u8,
    pub instance_id: i32,
    pub hp: u32,
}

/// A spirit-ash companion: the fields of its slot that the diff reads.
#[derive(Clone, Copy, Debug, PartialEq, Eq, Structural)]
pub struct SpiritRecord {
    pub addr: u64,
    pub instance_id: i32,
    pub hp: u32,
}

/// The team marker the host gives spirit-ash companions.
pub open spec fn spirit_team() -> u8 {
    0x2f
}

/// Whether a slot holds a live spirit companion: a present character
/// (non-null address and dispatch table) on the spirit team.
pub open spec fn is_spirit_slot(s: ChrSlot) -> bool {
    s.addr != 0 && s.vftable != 0 && s.team_type == spirit_team()
}

/// The spirit companions among the given slots, in slot order.
pub open spec fn spec_spirit_records(s: Seq<ChrSlot>) -> Seq<SpiritRecord>
    decreases s.len(),
{
    if s.len() == 0 {
        Seq::empty()
    } else if is_spirit_slot(s[0]) {
        seq![
            SpiritRecord { addr: s[0].addr, instance_id: s[0].instance_id, hp: s[0].hp },
        ] + spec_spirit_records(s.drop_first())
    } else {
        spec_spirit_records(s.drop_first())
    }
}

proof fn lemma_spirit_records_unfold(s: Seq<ChrSlot>, i: int)
    requires
        0 <= i < s.len(),
    ensures
        s.skip(i)[0] == s[i],
        is_spirit_slot(s[i]) ==> spec_spirit_records(s.skip(i)) == seq![
            SpiritRecord { addr: s[i].addr, instance_id: s[i].instance_id, hp: s[i].hp },
        ] + spec_spirit_records(s.skip(i + 1)),
        !is_spirit_slot(s[i]) ==> spec_spirit_records(s.skip(i)) == spec_spirit_records(
            s.skip(i + 1),
        ),
{
    assert(s.skip(i).drop_first() =~= s.skip(i + 1));
}

/// Filters the host's buddy set down to the spirit companions, in slot
/// order.
pub fn spirit_records(slots: &Vec<ChrSlot>) -> (r: Vec<SpiritRecord>)
    ensures
        r@ == spec_spirit_records(slots@),
{
    let mut out: Vec<SpiritRecord> = Vec::new();
    let n = slots.len();
    let mut i: usize = 0;
    proof {
        assert(slots@.skip(0) =~= slots@);
        assert(Seq::<SpiritRecord>::empty() + spec_spirit_records(slots@) =~= spec_spirit_records(
            slots@,
        ));
    }
    while i < n
        invariant
            n == slots@.len(),
            0 <= i <= n,
            spec_spirit_records(slots@) == out@ + spec_spirit_records(slots@.skip(i as int)),
        decreases n - i,
    {
        let s = slots[i];
        proof {
            lemma_spirit_records_unfold(slots@, i as int);
        }
        if s.addr != 0 && s.vftable != 0 && s.team_type == 0x2f {
            out.push(SpiritRecord { addr: s.addr, instance_id: s.instance_id, hp: s.hp });
            proof {
                assert(out@ + spec_spirit_records(slots@.skip(i + 1)) =~= spec_spirit_records(
                    slots@,
                ));
            }
        }
        i = i + 1;
    }
    proof {
        assert(slots@.skip(n as int) =~= Seq::<ChrSlot>::empty());
        assert(out@ + Seq::<SpiritRecord>::empty() =~= out@);
    }
    out
}

/// Whether the tracked state holds an entry for `id`.
pub open spec fn tr_has(tr: Seq<(i32, u32)>, id: i32) -> bool {
    exists|ix: int| 0 <= ix < tr.len() && (#[trigger] tr[ix]).0 == id
}

/// The health remembered for `id`: its first entry's, or zero when there is
/// none.
pub open spec fn tr_get(tr: Seq<(i32, u32)>, id: i32) -> u32
    decreases tr.len(),
{
    if tr.len() == 0 {
        0u32
    } else if tr[0].0 == id {
        tr[0].1
    } else {
        tr_get(tr.drop_first(), id)
    }
}

/// The tracked state with the first entry for `id` replaced by `(id, v)`;
/// unchanged when there is none.
pub open spec fn tr_set(tr: Seq<(i32, u32)>, id: i32, v: u32) -> Seq<(i32, u32)>
    decreases tr.len(),
{
    if tr.len() == 0 {
        Seq::empty()
    } else if tr[0].0 == id {
        seq![(id, v)] + tr.drop_first()
    } else {
        seq![tr[0]] + tr_set(tr.drop_first(), id, v)
    }
}

/// Whether the current snapshot holds a companion with `id`.
pub open spec fn cur_has(cur: Seq<SpiritRecord>, id: i32) -> bool {
    exists|ix: int| 0 <= ix < cur.len() && (#[trigger] cur[ix]).instance_id == id
}

/// A leave event for every tracked companion, in tracked order: what goes
/// out when the player dies.
pub open spec fn all_leave(tr: Seq<(i32, u32)>) -> Seq<OutgoingMessage>
    decreases tr.len(),
{
    if tr.len() == 0 {
        Seq::empty()
    } else {
        seq![OutgoingMessage::SpiritLeaveEvent { id: tr[0].0 }] + all_leave(tr.drop_first())
    }
}

/// Whether the tracked entry has left: it still had health, but the current
/// snapshot no longer holds its id.
pub open spec fn has_left(e: (i32, u32), cur: Seq<SpiritRecord>) -> bool {
    e.1 > 0 && !cur_has(cur, e.0)
}

/// The tracked entries that stay after the leave pass, in tracked order.
pub open spec fn keep_pass(tr: Seq<(i32, u32)>, cur: Seq<SpiritRecord>) -> Seq<(i32, u32)>
    decreases tr.len(),
{
    if tr.len() == 0 {
        Seq::empty()
    } else if has_left(tr[0], cur) {
        keep_pass(tr.drop_first(), cur)
    } else {
        seq![tr[0]] + keep_pass(tr.drop_first(), cur)
    }
}

/// The leave events of the leave pass, in tracked order.
pub open spec fn leave_events(tr: Seq<(i32, u32)>, cur: Seq<SpiritRecord>) -> Seq<OutgoingMessage>
    decreases tr.len(),
{
    if tr.len() == 0 {
        Seq::empty()
    } else if has_left(tr[0], cur) {
        seq![OutgoingMessage::SpiritLeaveEvent { id: tr[0].0 }] + leave_events(
            tr.drop_first(),
            cur,
        )
    } else {
        leave_events(tr.drop_first(), cur)
    }
}

/// The arrival pass over the current snapshot, threading the tracked state:
/// an untracked companion with health is a summon (tracked from now on, and
/// handed back for the host-side adjustments); a tracked companion that
/// had health and now has none is a death (its remembered health drops to
/// zero). Yields the final tracked state, the events and the addresses to
/// adjust.
pub open spec fn arrive_pass(tr: Seq<(i32, u32)>, cur: Seq<SpiritRecord>) -> (
    Seq<(i32, u32)>,
    Seq<OutgoingMessage>,
    Seq<u64>,
)
    decreases cur.len(),
{
    if cur.len() == 0 {
        (tr, Seq::empty(), Seq::empty())
    } else {
        let r = cur[0];
        if !tr_has(tr, r.instance_id) && r.hp > 0 {
            let rest = arrive_pass(tr.push((r.instance_id, r.hp)), cur.drop_first());
            (
                rest.0,
                seq![OutgoingMessage::SpiritSummonEvent { id: r.instance_id }] + rest.1,
                seq![r.addr] + rest.2,
            )
        } else if tr_has(tr, r.instance_id) && tr_get(tr, r.instance_id) > 0 && r.hp == 0 {
            let rest = arrive_pass(tr_set(tr, r.instance_id, r.hp), cur.drop_first());
            (rest.0, seq![OutgoingMessage::SpiritDeathEvent { id: r.instance_id }] + rest.1, rest.2)
        } else {
            arrive_pass(tr, cur.drop_first())
        }
    }
}

/// Whether each id appears at most once.
pub open spec fn tr_unique(tr: Seq<(i32, u32)>) -> bool {
    forall|i: int, j: int| 0 <= i < j < tr.len() ==> tr[i].0 != tr[j].0
}

/// The last observed health of each companion, keyed by instance id.
pub struct SpiritTracker {
    entries: Vec<(i32, u32)>,
}

proof fn lemma_tr_get_first(tr: Seq<(i32, u32)>, idx: int, id: i32)
    requires
        0 <= idx < tr.len(),
        tr[idx].0 == id,
        forall|j: int| 0 <= j < idx ==> (#[trigger] tr[j]).0 != id,
    ensures
        tr_get(tr, id) == tr[idx].1,
    decreases idx,
{
    if idx > 0 {
        assert(forall|j: int|
            0 <= j < idx - 1 ==> (#[trigger] tr.drop_first()[j]).0 != id);
        assert(tr.drop_first()[idx - 1] == tr[idx]);
        lemma_tr_get_first(tr.drop_first(), idx - 1, id);
    }
}

proof fn lemma_tr_set_first(tr: Seq<(i32, u32)>, idx: int, id: i32, v: u32)
    requires
        0 <= idx < tr.len(),
        tr[idx].0 == id,
        forall|j: int| 0 <= j < idx ==> (#[trigger] tr[j]).0 != id,
    ensures
        tr_set(tr, id, v) == tr.update(idx, (id, v)),
    decreases idx,
{
    if idx == 0 {
        assert(tr_set(tr, id, v) == seq![(id, v)] + tr.drop_first());
        assert(seq![(id, v)] + tr.drop_first() =~= tr.update(0, (id, v)));
    } else {
        assert(forall|j: int|
            0 <= j < idx - 1 ==> (#[trigger] tr.drop_first()[j]).0 != id);
        assert(tr.drop_first()[idx - 1] == tr[idx]);
        lemma_tr_set_first(tr.drop_first(), idx - 1, id, v);
        assert(seq![tr[0]] + tr.drop_first().update(idx - 1, (id, v)) =~= tr.update(
            idx,
            (id, v),
        ));
    }
}

impl SpiritTracker {
    /// The tracked entries, in insertion order.
    pub closed spec fn view_entries(self) -> Seq<(i32, u32)> {
        self.entries@
    }

    /// Each companion is tracked at most once.
    pub closed spec fn wf(self) -> bool {
        tr_unique(self.entries@)
    }

    /// A tracker that has observed nothing.
    pub fn new() -> (r: SpiritTracker)
        ensures
            r.wf(),
            r.view_entries() == Seq::<(i32, u32)>::empty(),
    {
        SpiritTracker { entries: Vec::new() }
    }

    /// Whether `id` is tracked.
    fn has(&self, id: i32) -> (r: bool)
        ensures
            r == tr_has(self.view_entries(), id),
    {
        let n = self.entries.len();
        let mut i: usize = 0;
        while i < n
            invariant
                n == self.entries@.len(),
                0 <= i <= n,
                forall|j: int| 0 <= j < i ==> (#[trigger] self.entries@[j]).0 != id,
            decreases n - i,
        {
            if self.entries[i].0 == id {
                return true;
            }
            i = i + 1;
        }
        false
    }

    /// The remembered health of `id` (zero when untracked).
    fn get_hp(&self, id: i32) -> (r: u32)
        ensures
            r == tr_get(self.view_entries(), id),
    {
        let n = self.entries.len();
        let mut i: usize = 0;
        while i < n
            invariant
                n == self.entries@.len(),
                0 <= i <= n,
                forall|j: int| 0 <= j < i ==> (#[trigger] self.entries@[j]).0 != id,
            decreases n - i,
        {
            if self.entries[i].0 == id {
                proof {
                    lemma_tr_get_first(self.entries@, i as int, id);
                }
                return self.entries[i].1;
            }
            i = i + 1;
        }
        proof {
            lemma_tr_get_missing(self.entries@, id);
        }
        0
    }

    /// Replaces the remembered health of `id` (no effect when untracked).
    fn set_hp(&mut self, id: i32, v: u32)
        requires
            old(self).wf(),
        ensures
            final(self).wf(),
            final(self).view_entries() == tr_set(old(self).view_entries(), id, v),
        {
        let n = self.entries.len();
        let mut i: usize = 0;
        while i < n
            invariant
                n == self.entries@.len(),
                0 <= i <= n,
                self.entries@ == old(self).entries@,
                self.wf(),
                forall|j: int| 0 <= j < i ==> (#[trigger] self.entries@[j]).0 != id,
            decreases n - i,
        {
            if self.entries[i].0 == id {
                proof {
                    lemma_tr_set_first(self.entries@, i as int, id, v);
                }
                self.entries[i] = (id, v);
                return;
            }
            i = i + 1;
        }
        proof {
            lemma_tr_set_missing(self.entries@, id, v);
        }
    }
}

proof fn lemma_tr_get_missing(tr: Seq<(i32, u32)>, id: i32)
    requires
        forall|j: int| 0 <= j < tr.len() ==> (#[trigger] tr[j]).0 != id,
    ensures
        tr_get(tr, id) == 0u32,
    decreases tr.len(),
{
    if tr.len() > 0 {
        assert(forall|j: int|
            0 <= j < tr.drop_first().len() ==> (#[trigger] tr.drop_first()[j]).0 != id);
        lemma_tr_get_missing(tr.drop_first(), id);
    }
}

proof fn lemma_tr_set_missing(tr: Seq<(i32, u32)>, id: i32, v: u32)
    requires
        forall|j: int| 0 <= j < tr.len() ==> (#[trigger] tr[j]).0 != id,
    ensures
        tr_set(tr, id, v) == tr,
    decreases tr.len(),
{
    if tr.len() > 0 {
        assert(forall|j: int|
            0 <= j < tr.drop_first().len() ==> (#[trigger] tr.drop_first()[j]).0 != id);
        lemma_tr_set_missing(tr.drop_first(), id, v);
        assert(seq![tr[0]] + tr.drop_first() =~= tr);
    }
}

proof fn lemma_all_leave_unfold(tr: Seq<(i32, u32)>, i: int)
    requires
        0 <= i < tr.len(),
    ensures
        tr.skip(i)[0] == tr[i],
        all_leave(tr.skip(i)) == seq![OutgoingMessage::SpiritLeaveEvent { id: tr[i].0 }]
            + all_leave(tr.skip(i + 1)),
{
    assert(tr.skip(i).drop_first() =~= tr.skip(i + 1));
}

proof fn lemma_keep_unfold(tr: Seq<(i32, u32)>, i: int, cur: Seq<SpiritRecord>)
    requires
        0 <= i < tr.len(),
    ensures
        tr.skip(i)[0] == tr[i],
        has_left(tr[i], cur) ==> keep_pass(tr.skip(i), cur) == keep_pass(tr.skip(i + 1), cur),
        has_left(tr[i], cur) ==> leave_events(tr.skip(i), cur) == seq![
            OutgoingMessage::SpiritLeaveEvent { id: tr[i].0 },
        ] + leave_events(tr.skip(i + 1), cur),
        !has_left(tr[i], cur) ==> keep_pass(tr.skip(i), cur) == seq![tr[i]] + keep_pass(
            tr.skip(i + 1),
            cur,
        ),
        !has_left(tr[i], cur) ==> leave_events(tr.skip(i), cur) == leave_events(
            tr.skip(i + 1),
            cur,
        ),
{
    assert(tr.skip(i).drop_first() =~= tr.skip(i + 1));
}

proof fn lemma_keep_pass_unique(tr: Seq<(i32, u32)>, cur: Seq<SpiritRecord>)
    ensures
        forall|id: i32| tr_has(keep_pass(tr, cur), id) ==> tr_has(tr, id),
        tr_unique(tr) ==> tr_unique(keep_pass(tr, cur)),
    decreases tr.len(),
{
    if tr.len() > 0 {
        lemma_keep_pass_unique(tr.drop_first(), cur);
        let rest = keep_pass(tr.drop_first(), cur);
        assert forall|id: i32| tr_has(keep_pass(tr, cur), id) implies tr_has(tr, id) by {
            let kp = keep_pass(tr, cur);
            let ix = choose|ix: int| 0 <= ix < kp.len() && (#[trigger] kp[ix]).0 == id;
            if has_left(tr[0], cur) {
                assert(tr_has(tr.drop_first(), id));
            } else {
                if ix == 0 {
                    assert(tr[0].0 == id);
                } else {
                    assert(kp[ix] == rest[ix - 1]);
                    assert(tr_has(tr.drop_first(), id));
                }
            }
            if tr_has(tr.drop_first(), id) {
                let jx = choose|jx: int|
                    0 <= jx < tr.drop_first().len() && (#[trigger] tr.drop_first()[jx]).0 == id;
                assert(tr[jx + 1].0 == id);
            }
        }
        if tr_unique(tr) {
            assert(tr_unique(tr.drop_first())) by {
                assert(forall|p: int, q: int|
                    0 <= p < q < tr.drop_first().len() ==> tr.drop_first()[p].0
                        != tr.drop_first()[q].0);
            }
            if !has_left(tr[0], cur) {
                let kp = keep_pass(tr, cur);
                assert(kp == seq![tr[0]] + rest);
                assert forall|p: int, q: int| 0 <= p < q < kp.len() implies kp[p].0 != kp[q].0 by {
                    if p == 0 {
                        assert(kp[q] == rest[q - 1]);
                        if kp[0].0 == kp[q].0 {
                            assert(tr_has(rest, tr[0].0));
                            assert(tr_has(tr.drop_first(), tr[0].0));
                            let jx = choose|jx: int|
                                0 <= jx < tr.drop_first().len() && (
                                #[trigger] tr.drop_first()[jx]).0 == tr[0].0;
                            assert(tr[jx + 1].0 == tr[0].0);
                        }
                    } else {
                        assert(kp[p] == rest[p - 1]);
                        assert(kp[q] == rest[q - 1]);
                    }
                }
            }
        }
    }
}

proof fn lemma_tr_set_keys(tr: Seq<(i32, u32)>, id: i32, v: u32)
    ensures
        tr_set(tr, id, v).len() == tr.len(),
        forall|j: int| 0 <= j < tr.len() ==> (#[trigger] tr_set(tr, id, v)[j]).0 == tr[j].0,
    decreases tr.len(),
{
    if tr.len() > 0 {
        lemma_tr_set_keys(tr.drop_first(), id, v);
        let ts = tr_set(tr, id, v);
        if tr[0].0 == id {
            assert(forall|j: int| 1 <= j < tr.len() ==> ts[j] == tr.drop_first()[j - 1]);
            assert(forall|j: int| 1 <= j < tr.len() ==> tr[j] == tr.drop_first()[j - 1]);
        } else {
            assert(forall|j: int|
                1 <= j < tr.len() ==> ts[j] == tr_set(tr.drop_first(), id, v)[j - 1]);
            assert(forall|j: int| 1 <= j < tr.len() ==> tr[j] == tr.drop_first()[j - 1]);
        }
    }
}

proof fn lemma_arrive_unfold(tr: Seq<(i32, u32)>, cur: Seq<SpiritRecord>, i: int)
    requires
        0 <= i < cur.len(),
    ensures
        cur.skip(i)[0] == cur[i],
        (!tr_has(tr, cur[i].instance_id) && cur[i].hp > 0) ==> arrive_pass(tr, cur.skip(i)) == ({
            let rest = arrive_pass(
                tr.push((cur[i].instance_id, cur[i].hp)),
                cur.skip(i + 1),
            );
            (
                rest.0,
                seq![OutgoingMessage::SpiritSummonEvent { id: cur[i].instance_id }] + rest.1,
                seq![cur[i].addr] + rest.2,
            )
        }),
        (tr_has(tr, cur[i].instance_id) && tr_get(tr, cur[i].instance_id) > 0 && cur[i].hp == 0)
            ==> arrive_pass(tr, cur.skip(i)) == ({
            let rest = arrive_pass(tr_set(tr, cur[i].instance_id, cur[i].hp), cur.skip(i + 1));
            (
                rest.0,
                seq![OutgoingMessage::SpiritDeathEvent { id: cur[i].instance_id }] + rest.1,
                rest.2,
            )
        }),
        !(!tr_has(tr, cur[i].instance_id) && cur[i].hp > 0) && !(tr_has(tr, cur[i].instance_id)
            && tr_get(tr, cur[i].instance_id) > 0 && cur[i].hp == 0) ==> arrive_pass(
            tr,
            cur.skip(i),
        ) == arrive_pass(tr, cur.skip(i + 1)),
{
    assert(cur.skip(i).drop_first() =~= cur.skip(i + 1));
}

/// Whether the current snapshot holds a companion with `id`, as the diff
/// tests it.
fn current_has(current: &Vec<SpiritRecord>, id: i32) -> (r: bool)
    ensures
        r == cur_has(current@, id),
{
    let n = current.len();
    let mut i: usize = 0;
    while i < n
        invariant
            n == current@.len(),
            0 <= i <= n,
            forall|j: int| 0 <= j < i ==> (#[trigger] current@[j]).instance_id != id,
        decreases n - i,
    {
        if current[i].instance_id == id {
            return true;
        }
        i = i + 1;
    }
    false
}

/// Diffs the current spirit snapshot against the tracked state and decides
/// the outbound events: every tracked companion leaves when the player's
/// health is zero; otherwise companions that vanished with health leave,
/// untracked companions with health are summoned (their addresses are
/// returned for the host-side adjustments), and tracked companions whose
/// health reached zero die. The tracker is updated accordingly.
#[verifier::rlimit(60)]
pub fn get_status(tracker: &mut SpiritTracker, current: &Vec<SpiritRecord>, player_hp: u32) -> (r:
    (Vec<OutgoingMessage>, Vec<u64>))
    requires
        old(tracker).wf(),
    ensures
        final(tracker).wf(),
        player_hp == 0 ==> final(tracker).view_entries() == Seq::<(i32, u32)>::empty() && r.0@
            == all_leave(old(tracker).view_entries()) && r.1@ == Seq::<u64>::empty(),
        player_hp != 0 ==> {
            let kept = keep_pass(old(tracker).view_entries(), current@);
            let after = arrive_pass(kept, current@);
            &&& final(tracker).view_entries() == after.0
            &&& r.0@ == leave_events(old(tracker).view_entries(), current@) + after.1
            &&& r.1@ == after.2
        },
{
    let ghost tr0 = tracker.entries@;
    let mut events: Vec<OutgoingMessage> = Vec::new();
    let mut hacks: Vec<u64> = Vec::new();
    if player_hp == 0 {
        let n = tracker.entries.len();
        let mut i: usize = 0;
        proof {
            assert(tr0.skip(0) =~= tr0);
            assert(Seq::<OutgoingMessage>::empty() + all_leave(tr0) =~= all_leave(tr0));
        }
        while i < n
            invariant
                n == tr0.len(),
                0 <= i <= n,
                tracker.entries@ == tr0,
                all_leave(tr0) == events@ + all_leave(tr0.skip(i as int)),
            decreases n - i,
        {
            proof {
                lemma_all_leave_unfold(tr0, i as int);
            }
            let id = tracker.entries[i].0;
            events.push(OutgoingMessage::SpiritLeaveEvent { id });
            proof {
                assert(events@ + all_leave(tr0.skip(i + 1)) =~= all_leave(tr0));
            }
            i = i + 1;
        }
        proof {
            assert(tr0.skip(n as int) =~= Seq::<(i32, u32)>::empty());
            assert(events@ + Seq::<OutgoingMessage>::empty() =~= events@);
        }
        tracker.entries.clear();
        return (events, hacks);
    }
    // leave pass: drop companions that vanished while they still had health
    let mut kept: Vec<(i32, u32)> = Vec::new();
    let n = tracker.entries.len();
    let mut i: usize = 0;
    proof {
        assert(tr0.skip(0) =~= tr0);
        assert(Seq::<(i32, u32)>::empty() + keep_pass(tr0, current@) =~= keep_pass(
            tr0,
            current@,
        ));
        assert(Seq::<OutgoingMessage>::empty() + leave_events(tr0, current@) =~= leave_events(
            tr0,
            current@,
        ));
    }
    while i < n
        invariant
            n == tr0.len(),
            0 <= i <= n,
            tracker.entries@ == tr0,
            keep_pass(tr0, current@) == kept@ + keep_pass(tr0.skip(i as int), current@),
            leave_events(tr0, current@) == events@ + leave_events(tr0.skip(i as int), current@),
        decreases n - i,
    {
        proof {
            lemma_keep_unfold(tr0, i as int, current@);
        }
        let e = tracker.entries[i];
        let gone = e.1 > 0 && !current_has(current, e.0);
        proof {
            assert(gone == has_left(tr0[i as int], current@));
        }
        if gone {
            events.push(OutgoingMessage::SpiritLeaveEvent { id: e.0 });
            proof {
                assert(events@ + leave_events(tr0.skip(i + 1), current@) =~= leave_events(
                    tr0,
                    current@,
                ));
            }
        } else {
            kept.push(e);
            proof {
                assert(kept@ + keep_pass(tr0.skip(i + 1), current@) =~= keep_pass(
                    tr0,
                    current@,
                ));
            }
        }
        i = i + 1;
    }
    proof {
        assert(tr0.skip(n as int) =~= Seq::<(i32, u32)>::empty());
        assert(kept@ + Seq::<(i32, u32)>::empty() =~= kept@);
        assert(events@ + Seq::<OutgoingMessage>::empty() =~= events@);
        lemma_keep_pass_unique(tr0, current@);
    }
    tracker.entries = kept;
    // arrival pass: summon the newly seen, record the newly dead
    let ghost keptg = tracker.entries@;
    let ghost target = arrive_pass(keptg, current@);
    let cn = current.len();
    let mut ci: usize = 0;
    let mut ev2: Vec<OutgoingMessage> = Vec::new();
    proof {
        assert(current@.skip(0) =~= current@);
        assert(Seq::<OutgoingMessage>::empty() + target.1 =~= target.1);
        assert(Seq::<u64>::empty() + target.2 =~= target.2);
    }
    while ci < cn
        invariant
            cn == current@.len(),
            0 <= ci <= cn,
            tracker.wf(),
            target == arrive_pass(keptg, current@),
            target.0 == arrive_pass(tracker.entries@, current@.skip(ci as int)).0,
            target.1 == ev2@ + arrive_pass(tracker.entries@, current@.skip(ci as int)).1,
            target.2 == hacks@ + arrive_pass(tracker.entries@, current@.skip(ci as int)).2,
        decreases cn - ci,
    {
        let r = current[ci];
        let ghost trc = tracker.entries@;
        proof {
            lemma_arrive_unfold(trc, current@, ci as int);
        }
        let present = tracker.has(r.instance_id);
        if !present && r.hp > 0 {
            tracker.entries.push((r.instance_id, r.hp));
            ev2.push(OutgoingMessage::SpiritSummonEvent { id: r.instance_id });
            hacks.push(r.addr);
            proof {
                assert(tr_unique(tracker.entries@)) by {
                    assert(forall|j: int|
                        0 <= j < trc.len() ==> (#[trigger] trc[j]).0 != r.instance_id);
                    assert(forall|j: int|
                        0 <= j < trc.len() ==> tracker.entries@[j] == trc[j]);
                }
                let rest = arrive_pass(trc.push((r.instance_id, r.hp)), current@.skip(ci + 1));
                assert(ev2@ + rest.1 =~= target.1.subrange(0, ev2@.len() as int) + rest.1) by {
                    assert(ev2@ =~= target.1.subrange(0, ev2@.len() as int));
                }
                assert(target.1 == ev2@ + rest.1) by {
                    assert(target.1 == (ev2@.subrange(0, ev2@.len() - 1)) + (seq![
                        OutgoingMessage::SpiritSummonEvent { id: r.instance_id },
                    ] + rest.1));
                    assert((ev2@.subrange(0, ev2@.len() - 1)) + (seq![
                        OutgoingMessage::SpiritSummonEvent { id: r.instance_id },
                    ] + rest.1) =~= ev2@ + rest.1);
                    assert(ev2@.subrange(0, ev2@.len() - 1) =~= ev2@.drop_last());
                }
                assert(target.2 == hacks@ + rest.2) by {
                    assert(target.2 == (hacks@.subrange(0, hacks@.len() - 1)) + (seq![r.addr]
                        + rest.2));
                    assert((hacks@.subrange(0, hacks@.len() - 1)) + (seq![r.addr] + rest.2)
                        =~= hacks@ + rest.2);
                }
            }
        } else {
            let mut death = false;
            if present {
                let hp0 = tracker.get_hp(r.instance_id);
                if hp0 > 0 && r.hp == 0 {
                    death = true;
                    tracker.set_hp(r.instance_id, r.hp);
                    ev2.push(OutgoingMessage::SpiritDeathEvent { id: r.instance_id });
                }
            }
            proof {
                if death {
                    lemma_tr_set_keys(trc, r.instance_id, r.hp);
                    assert(tr_unique(tracker.entries@)) by {
                        assert(tracker.entries@ == tr_set(trc, r.instance_id, r.hp));
                        assert(forall|p: int, q: int|
                            0 <= p < q < trc.len() ==> tracker.entries@[p].0
                                != tracker.entries@[q].0);
                    }
                    let rest = arrive_pass(
                        tr_set(trc, r.instance_id, r.hp),
                        current@.skip(ci + 1),
                    );
                    assert(target.1 == ev2@ + rest.1) by {
                        assert(target.1 == (ev2@.subrange(0, ev2@.len() - 1)) + (seq![
                            OutgoingMessage::SpiritDeathEvent { id: r.instance_id },
                        ] + rest.1));
                        assert((ev2@.subrange(0, ev2@.len() - 1)) + (seq![
                            OutgoingMessage::SpiritDeathEvent { id: r.instance_id },
                        ] + rest.1) =~= ev2@ + rest.1);
                    }
                }
            }
        }
        ci = ci + 1;
    }
    proof {
        assert(current@.skip(cn as int) =~= Seq::<SpiritRecord>::empty());
        assert(ev2@ + Seq::<OutgoingMessage>::empty() =~= ev2@);
        assert(hacks@ + Seq::<u64>::empty() =~= hacks@);
    }
    events.append(&mut ev2);
    (events, hacks)
}

} // verus!

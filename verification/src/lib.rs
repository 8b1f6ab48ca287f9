//! Library for driving externally-triggered actions through a host process's
//! own cooperative scheduler: a byte/bit signature scanner that locates
//! unexported routines in the host image, a compute-once address resolver, a
//! hook state machine with a rate-limited notification path, a shared message
//! registry keyed by a wrapping 16-bit counter, and an editor for an intrusive
//! singly linked list owned by the host.
use vstd::prelude::*;

use crate::bloodmessage::{
    delete_message, key_removed_templates, lemma_removed_bridge, spawn_message, spec_spawn_plan,
    SpawnPlan,
};
use crate::difficulty::{decrease_difficulty, increase_difficulty, spec_ng_val_to_msg};
use crate::list::{
    key_survivors, key_unlink_calls, keys_of, lemma_keys_bridge, HostCall, MessageList,
};
use crate::player::{GameDataMan, MapId};
use crate::registry::{next_counter, MessageRegistry};
use crate::util::FullscreenMsgIndex;

pub mod bloodmessage;
pub mod difficulty;
pub mod hook;
pub mod list;
pub mod pattern;
pub mod player;
pub mod registry;
pub mod resolve;
pub mod spiritash;
pub mod task;
pub mod util;

verus! {

/// A command arriving from the control channel.
pub enum IncomingMessage {
    SpawnBloodMessage { text: String, msg_visual: i32 },
    RemoveBloodMessage { text: String },
    IncreaseDifficulty,
    DecreaseDifficulty,
}

/// An event pushed back over the control channel.
pub enum OutgoingMessage {
    BloodMessageEvent { text: String },
    SpiritSummonEvent { id: i32 },
    SpiritLeaveEvent { id: i32 },
    SpiritDeathEvent { id: i32 },
}

/// One action the glue must perform against the host after a drain: call
/// the spawn routine with a parameter block, perform a scheduled list
/// teardown or deallocation, or display a banner.
#[derive(Clone, Copy, Debug, PartialEq, Eq, Structural)]
pub enum HostAction {
    Spawn(SpawnPlan),
    ListEdit(HostCall),
    Display(FullscreenMsgIndex),
}

/// The state a drain acts on, in mathematical form: the registry table and
/// its counter, the host list's addresses and templates, and the
/// difficulty counter.
#[verifier::ext_equal]
pub struct ModState {
    pub registry: Map<u16, Seq<char>>,
    pub counter: u16,
    pub list_keys: Seq<(u64, u16)>,
    pub clear_count: u32,
}

/// The scheduled list calls wrapped as host actions, in order.
pub open spec fn list_edit_actions(calls: Seq<HostCall>) -> Seq<HostAction>
    decreases calls.len(),
{
    if calls.len() == 0 {
        Seq::empty()
    } else {
        seq![HostAction::ListEdit(calls[0])] + list_edit_actions(calls.drop_first())
    }
}

/// The drain-state view of the registry, host list and game data.
pub open spec fn state_of(reg: MessageRegistry, list: MessageList, game_data: GameDataMan) -> ModState {
    ModState {
        registry: reg.contents(),
        counter: reg.counter(),
        list_keys: keys_of(list.nodes_view()),
        clear_count: game_data.clear_count,
    }
}

/// What one command does to the state, and the actions it emits: spawning
/// stores the text under the next id and emits the spawn block; removing
/// drops the matching list nodes and registry entries and emits their
/// teardown/deallocation calls; a difficulty change moves the clamped
/// counter and emits the banner for the new level.
pub open spec fn step_spec(st: ModState, msg: IncomingMessage, map_id: MapId) -> (
    ModState,
    Seq<HostAction>,
) {
    match msg {
        IncomingMessage::SpawnBloodMessage { text, msg_visual } => (
            ModState {
                registry: st.registry.insert(st.counter, text@),
                counter: next_counter(st.counter),
                ..st
            },
            seq![HostAction::Spawn(spec_spawn_plan(st.counter, map_id, msg_visual))],
        ),
        IncomingMessage::RemoveBloodMessage { text } => (
            ModState {
                registry: st.registry.remove_keys(
                    key_removed_templates(st.list_keys, st.registry, text@).to_set(),
                ),
                list_keys: key_survivors(st.list_keys, st.registry, text@),
                ..st
            },
            list_edit_actions(key_unlink_calls(st.list_keys, st.registry, text@)),
        ),
        IncomingMessage::IncreaseDifficulty => {
            let up = if st.clear_count < 7 {
                (st.clear_count + 1) as u32
            } else {
                st.clear_count
            };
            (
                ModState { clear_count: up, ..st },
                seq![HostAction::Display(spec_ng_val_to_msg(up, true))],
            )
        },
        IncomingMessage::DecreaseDifficulty => {
            let down = if st.clear_count > 0 {
                (st.clear_count - 1) as u32
            } else {
                0u32
            };
            (
                ModState { clear_count: down, ..st },
                seq![HostAction::Display(spec_ng_val_to_msg(down, false))],
            )
        },
    }
}

/// What draining a whole command queue does: the commands applied in
/// order, their actions concatenated.
pub open spec fn drain_spec(st: ModState, queue: Seq<IncomingMessage>, map_id: MapId) -> (
    ModState,
    Seq<HostAction>,
)
    decreases queue.len(),
{
    if queue.len() == 0 {
        (st, Seq::empty())
    } else {
        let s1 = step_spec(st, queue[0], map_id);
        let s2 = drain_spec(s1.0, queue.drop_first(), map_id);
        (s2.0, s1.1 + s2.1)
    }
}

proof fn lemma_drain_unfold(st: ModState, queue: Seq<IncomingMessage>, i: int, map_id: MapId)
    requires
        0 <= i < queue.len(),
    ensures
        queue.skip(i)[0] == queue[i],
        drain_spec(st, queue.skip(i), map_id) == ({
            let s1 = step_spec(st, queue[i], map_id);
            let s2 = drain_spec(s1.0, queue.skip(i + 1), map_id);
            (s2.0, s1.1 + s2.1)
        }),
{
    assert(queue.skip(i).drop_first() =~= queue.skip(i + 1));
}

proof fn lemma_wrap_unfold(calls: Seq<HostCall>, i: int)
    requires
        0 <= i < calls.len(),
    ensures
        calls.skip(i)[0] == calls[i],
        list_edit_actions(calls.skip(i)) == seq![HostAction::ListEdit(calls[i])]
            + list_edit_actions(calls.skip(i + 1)),
{
    assert(calls.skip(i).drop_first() =~= calls.skip(i + 1));
}

/// Wraps scheduled list calls as host actions, in order.
fn wrap_calls(calls: &Vec<HostCall>) -> (r: Vec<HostAction>)
    ensures
        r@ == list_edit_actions(calls@),
{
    let mut out: Vec<HostAction> = Vec::new();
    let n = calls.len();
    let mut i: usize = 0;
    proof {
        assert(calls@.skip(0) =~= calls@);
        assert(Seq::<HostAction>::empty() + list_edit_actions(calls@) =~= list_edit_actions(
            calls@,
        ));
    }
    while i < n
        invariant
            n == calls@.len(),
            0 <= i <= n,
            list_edit_actions(calls@) == out@ + list_edit_actions(calls@.skip(i as int)),
        decreases n - i,
    {
        proof {
            lemma_wrap_unfold(calls@, i as int);
        }
        out.push(HostAction::ListEdit(calls[i]));
        proof {
            assert(out@ + list_edit_actions(calls@.skip(i + 1)) =~= list_edit_actions(calls@));
        }
        i = i + 1;
    }
    proof {
        assert(calls@.skip(n as int) =~= Seq::<HostCall>::empty());
        assert(out@ + Seq::<HostAction>::empty() =~= out@);
    }
    out
}

/// Drains one queue of pending commands against the registry, the host
/// list and the game data, exactly once each and in arrival order, and
/// returns the host actions the glue must perform. The work per call is
/// bounded by the queue handed in, so the host's frame budget is
/// respected.
#[verifier::rlimit(100)]
pub fn handle_client_task(
    queue: Vec<IncomingMessage>,
    reg: &mut MessageRegistry,
    list: &mut MessageList,
    game_data: &mut GameDataMan,
    map_id: MapId,
) -> (actions: Vec<HostAction>)
    requires
        old(reg).wf(),
        old(list).wf(),
    ensures
        final(reg).wf(),
        final(list).wf(),
        state_of(*final(reg), *final(list), *final(game_data)) == drain_spec(
            state_of(*old(reg), *old(list), *old(game_data)),
            queue@,
            map_id,
        ).0,
        actions@ == drain_spec(
            state_of(*old(reg), *old(list), *old(game_data)),
            queue@,
            map_id,
        ).1,
{
    let ghost st0 = state_of(*reg, *list, *game_data);
    let ghost target = drain_spec(st0, queue@, map_id);
    let mut actions: Vec<HostAction> = Vec::new();
    let n = queue.len();
    let mut i: usize = 0;
    proof {
        assert(queue@.skip(0) =~= queue@);
        assert(Seq::<HostAction>::empty() + target.1 =~= target.1);
    }
    while i < n
        invariant
            n == queue@.len(),
            0 <= i <= n,
            reg.wf(),
            list.wf(),
            target == drain_spec(st0, queue@, map_id),
            target.0 == drain_spec(
                state_of(*reg, *list, *game_data),
                queue@.skip(i as int),
                map_id,
            ).0,
            target.1 == actions@ + drain_spec(
                state_of(*reg, *list, *game_data),
                queue@.skip(i as int),
                map_id,
            ).1,
        decreases n - i,
    {
        let ghost stc = state_of(*reg, *list, *game_data);
        let ghost acts0 = actions@;
        proof {
            lemma_drain_unfold(stc, queue@, i as int, map_id);
        }
        match &queue[i] {
            IncomingMessage::SpawnBloodMessage { text, msg_visual } => {
                let plan = spawn_message(reg, map_id, text.as_str(), *msg_visual);
                actions.push(HostAction::Spawn(plan));
                proof {
                    let s1 = step_spec(stc, queue@[i as int], map_id);
                    let s2 = drain_spec(s1.0, queue@.skip(i + 1), map_id);
                    assert(state_of(*reg, *list, *game_data) =~= s1.0);
                    assert(actions@ =~= acts0 + s1.1);
                    assert(acts0 + (s1.1 + s2.1) =~= (acts0 + s1.1) + s2.1);
                }
            },
            IncomingMessage::RemoveBloodMessage { text } => {
                let ghost nodes0 = list.nodes_view();
                let out = delete_message(list, reg, text.as_str());
                let mut wrapped = wrap_calls(&out.1);
                actions.append(&mut wrapped);
                proof {
                    lemma_keys_bridge(nodes0, stc.registry, text@);
                    lemma_removed_bridge(nodes0, stc.registry, text@);
                    let s1 = step_spec(stc, queue@[i as int], map_id);
                    let s2 = drain_spec(s1.0, queue@.skip(i + 1), map_id);
                    assert(state_of(*reg, *list, *game_data) =~= s1.0);
                    assert(actions@ =~= acts0 + s1.1);
                    assert(acts0 + (s1.1 + s2.1) =~= (acts0 + s1.1) + s2.1);
                }
            },
            IncomingMessage::IncreaseDifficulty => {
                let msg = increase_difficulty(game_data);
                actions.push(HostAction::Display(msg));
                proof {
                    let s1 = step_spec(stc, queue@[i as int], map_id);
                    let s2 = drain_spec(s1.0, queue@.skip(i + 1), map_id);
                    assert(state_of(*reg, *list, *game_data) =~= s1.0);
                    assert(actions@ =~= acts0 + s1.1);
                    assert(acts0 + (s1.1 + s2.1) =~= (acts0 + s1.1) + s2.1);
                }
            },
            IncomingMessage::DecreaseDifficulty => {
                let msg = decrease_difficulty(game_data);
                actions.push(HostAction::Display(msg));
                proof {
                    let s1 = step_spec(stc, queue@[i as int], map_id);
                    let s2 = drain_spec(s1.0, queue@.skip(i + 1), map_id);
                    assert(state_of(*reg, *list, *game_data) =~= s1.0);
                    assert(actions@ =~= acts0 + s1.1);
                    assert(acts0 + (s1.1 + s2.1) =~= (acts0 + s1.1) + s2.1);
                }
            },
        }
        i = i + 1;
    }
    proof {
        assert(queue@.skip(n as int) =~= Seq::<IncomingMessage>::empty());
        assert(actions@ + Seq::<HostAction>::empty() =~= actions@);
    }
    actions
}

} // verus!

//! The bounded difficulty counter and the enemy-scaling decision logic.
//!
//! The counter lives in the host's game-progress singleton and is clamped to
//! 0..=7. Raising or lowering it picks the fullscreen banner the host should
//! display. Scaling walks the host's active character set and decides, per
//! character, which scaling effect to apply; the raw memory walk that gathers
//! the records and the call that applies an effect stay with the glue.
use vstd::prelude::*;
use vstd::wrapping::u64_specs;

use crate::player::GameDataMan;
use crate::util::FullscreenMsgIndex;

verus! {

/// One active character read from the host's character set: its address
/// and the scaling effect its parameter row names (zero when it names
/// none). The raw walk that reads these lives with the glue.
#[derive(Clone, Copy, Debug, PartialEq, Eq, Structural)]
pub struct EnemyRecord {
    pub addr: u64,
    pub gameclear_speffect: u32,
}

/// The offsets, within a character object, of the parameter pointer for
/// the two character layouts the host uses, told apart by their dispatch
/// tables at fixed offsets from the image base.
pub open spec fn spec_enemy_param_offset(vftable: u64, base: u64) -> Option<u64> {
    if vftable == u64_specs::wrapping_add(base, 0x2a44010) {
        Some(0x598u64)
    } else if vftable == u64_specs::wrapping_add(base, 0x2a7cb40) {
        Some(0x5f0u64)
    } else {
        None
    }
}

/// Decides where a character's parameter pointer sits, from its dispatch
/// table: one offset for the enemy layout, another for the player layout,
/// nothing for an unknown layout (which is skipped).
pub fn enemy_param_offset(vftable: u64, base: u64) -> (r: Option<u64>)
    ensures
        r == spec_enemy_param_offset(vftable, base),
{
    if vftable == base.wrapping_add(0x2a44010) {
        Some(0x598)
    } else if vftable == base.wrapping_add(0x2a7cb40) {
        Some(0x5f0)
    } else {
        None
    }
}

/// The characters a scaling pass applies an effect to: every present
/// character whose parameter row names a scaling effect, paired with that
/// effect, in set order.
pub open spec fn spec_scaling_targets(s: Seq<EnemyRecord>) -> Seq<(u64, u32)>
    decreases s.len(),
{
    if s.len() == 0 {
        Seq::empty()
    } else if s[0].addr != 0 && s[0].gameclear_speffect != 0 {
        seq![(s[0].addr, s[0].gameclear_speffect)] + spec_scaling_targets(s.drop_first())
    } else {
        spec_scaling_targets(s.drop_first())
    }
}

proof fn lemma_scaling_unfold(s: Seq<EnemyRecord>, i: int)
    requires
        0 <= i < s.len(),
    ensures
        s.skip(i)[0] == s[i],
        (s[i].addr != 0 && s[i].gameclear_speffect != 0) ==> spec_scaling_targets(s.skip(i))
            == seq![(s[i].addr, s[i].gameclear_speffect)] + spec_scaling_targets(s.skip(i + 1)),
        !(s[i].addr != 0 && s[i].gameclear_speffect != 0) ==> spec_scaling_targets(s.skip(i))
            == spec_scaling_targets(s.skip(i + 1)),
{
    assert(s.skip(i).drop_first() =~= s.skip(i + 1));
}

/// Decides, for one scaling pass over the active character set, which
/// characters get their new-game-cycle scaling effect applied: each
/// present character whose parameter row names an effect, with that
/// effect. The host applies the same effect to newly loaded characters on
/// later passes, since the pass runs as a recurring task.
pub fn set_scaling(enemies: &Vec<EnemyRecord>) -> (r: Vec<(u64, u32)>)
    ensures
        r@ == spec_scaling_targets(enemies@),
{
    let mut out: Vec<(u64, u32)> = Vec::new();
    let n = enemies.len();
    let mut i: usize = 0;
    proof {
        assert(enemies@.skip(0) =~= enemies@);
        assert(Seq::<(u64, u32)>::empty() + spec_scaling_targets(enemies@)
            =~= spec_scaling_targets(enemies@));
    }
    while i < n
        invariant
            n == enemies@.len(),
            0 <= i <= n,
            spec_scaling_targets(enemies@) == out@ + spec_scaling_targets(
                enemies@.skip(i as int),
            ),
        decreases n - i,
    {
        let e = enemies[i];
        proof {
            lemma_scaling_unfold(enemies@, i as int);
        }
        if e.addr != 0 && e.gameclear_speffect != 0 {
            out.push((e.addr, e.gameclear_speffect));
            proof {
                assert(out@ + spec_scaling_targets(enemies@.skip(i + 1)) =~= spec_scaling_targets(
                    enemies@,
                ));
            }
        }
        i = i + 1;
    }
    proof {
        assert(enemies@.skip(n as int) =~= Seq::<EnemyRecord>::empty());
        assert(out@ + Seq::<(u64, u32)>::empty() =~= out@);
    }
    out
}

/// The banner announcing the difficulty level `ng` after a change in the
/// direction `isup`.
pub open spec fn spec_ng_val_to_msg(ng: u32, isup: bool) -> FullscreenMsgIndex {
    match (ng, isup) {
        (0u32, false) => FullscreenMsgIndex::Down0,
        (1u32, false) => FullscreenMsgIndex::Down1,
        (2u32, false) => FullscreenMsgIndex::Down2,
        (3u32, false) => FullscreenMsgIndex::Down3,
        (4u32, false) => FullscreenMsgIndex::Down4,
        (5u32, false) => FullscreenMsgIndex::Down5,
        (6u32, false) => FullscreenMsgIndex::Down6,
        (1u32, true) => FullscreenMsgIndex::Up1,
        (2u32, true) => FullscreenMsgIndex::Up2,
        (3u32, true) => FullscreenMsgIndex::Up3,
        (4u32, true) => FullscreenMsgIndex::Up4,
        (5u32, true) => FullscreenMsgIndex::Up5,
        (6u32, true) => FullscreenMsgIndex::Up6,
        (7u32, true) => FullscreenMsgIndex::Up7,
        (_, _) => FullscreenMsgIndex::YouDied,
    }
}

/// Maps a difficulty level and a direction to the banner announcing it.
pub fn ng_val_to_msg(ng: u32, isup: bool) -> (r: FullscreenMsgIndex)
    ensures
        r == spec_ng_val_to_msg(ng, isup),
{
    match (ng, isup) {
        (0u32, false) => FullscreenMsgIndex::Down0,
        (1u32, false) => FullscreenMsgIndex::Down1,
        (2u32, false) => FullscreenMsgIndex::Down2,
        (3u32, false) => FullscreenMsgIndex::Down3,
        (4u32, false) => FullscreenMsgIndex::Down4,
        (5u32, false) => FullscreenMsgIndex::Down5,
        (6u32, false) => FullscreenMsgIndex::Down6,
        (1u32, true) => FullscreenMsgIndex::Up1,
        (2u32, true) => FullscreenMsgIndex::Up2,
        (3u32, true) => FullscreenMsgIndex::Up3,
        (4u32, true) => FullscreenMsgIndex::Up4,
        (5u32, true) => FullscreenMsgIndex::Up5,
        (6u32, true) => FullscreenMsgIndex::Up6,
        (7u32, true) => FullscreenMsgIndex::Up7,
        (_, _) => FullscreenMsgIndex::YouDied,
    }
}

/// Raises the difficulty counter by one, clamped at 7, and returns the banner
/// to display for the new level.
pub fn increase_difficulty(game_data: &mut GameDataMan) -> (msg: FullscreenMsgIndex)
    ensures
        final(game_data).clear_count == if old(game_data).clear_count < 7 {
            old(game_data).clear_count + 1
        } else {
            old(game_data).clear_count as int
        },
        msg == spec_ng_val_to_msg(final(game_data).clear_count, true),
{
    if game_data.clear_count < 7 {
        game_data.clear_count = game_data.clear_count + 1;
    }
    ng_val_to_msg(game_data.clear_count, true)
}

/// Lowers the difficulty counter by one, stopping at 0, and returns the
/// banner to display for the new level.
pub fn decrease_difficulty(game_data: &mut GameDataMan) -> (msg: FullscreenMsgIndex)
    ensures
        final(game_data).clear_count == if old(game_data).clear_count > 0 {
            old(game_data).clear_count - 1
        } else {
            0int
        },
        msg == spec_ng_val_to_msg(final(game_data).clear_count, false),
{
    if game_data.clear_count > 0 {
        game_data.clear_count = game_data.clear_count - 1;
    }
    ng_val_to_msg(game_data.clear_count, false)
}

} // verus!

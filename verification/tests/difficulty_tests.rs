use bloodmessage_mod::difficulty::{
    decrease_difficulty, enemy_param_offset, increase_difficulty, ng_val_to_msg, set_scaling,
    EnemyRecord,
};
use bloodmessage_mod::player::GameDataMan;
use bloodmessage_mod::util::{effective_chr_count, FullscreenMsgIndex};

#[test]
fn increase_is_clamped_at_seven() {
    let mut gd = GameDataMan { clear_count: 6 };
    assert_eq!(increase_difficulty(&mut gd), FullscreenMsgIndex::Up7);
    assert_eq!(gd.clear_count, 7);
    assert_eq!(increase_difficulty(&mut gd), FullscreenMsgIndex::Up7);
    assert_eq!(gd.clear_count, 7);
}

#[test]
fn decrease_stops_at_zero() {
    let mut gd = GameDataMan { clear_count: 1 };
    assert_eq!(decrease_difficulty(&mut gd), FullscreenMsgIndex::Down0);
    assert_eq!(gd.clear_count, 0);
    assert_eq!(decrease_difficulty(&mut gd), FullscreenMsgIndex::Down0);
    assert_eq!(gd.clear_count, 0);
}

#[test]
fn banner_table_matches_levels() {
    assert_eq!(ng_val_to_msg(0, false), FullscreenMsgIndex::Down0);
    assert_eq!(ng_val_to_msg(3, false), FullscreenMsgIndex::Down3);
    assert_eq!(ng_val_to_msg(6, false), FullscreenMsgIndex::Down6);
    assert_eq!(ng_val_to_msg(1, true), FullscreenMsgIndex::Up1);
    assert_eq!(ng_val_to_msg(7, true), FullscreenMsgIndex::Up7);
    // levels outside the table fall back to the death banner
    assert_eq!(ng_val_to_msg(0, true), FullscreenMsgIndex::YouDied);
    assert_eq!(ng_val_to_msg(7, false), FullscreenMsgIndex::YouDied);
    assert_eq!(ng_val_to_msg(42, true), FullscreenMsgIndex::YouDied);
}

#[test]
fn banner_codes_are_the_hosts() {
    assert_eq!(FullscreenMsgIndex::YouDied.code(), 5);
    assert_eq!(FullscreenMsgIndex::Down0.code(), 32);
    assert_eq!(FullscreenMsgIndex::Up7.code(), 33);
    assert_eq!(FullscreenMsgIndex::HeartStolen.code(), 40);
}

#[test]
fn scaling_targets_keep_only_marked_characters() {
    let enemies = vec![
        EnemyRecord { addr: 0x100, gameclear_speffect: 7000 },
        EnemyRecord { addr: 0, gameclear_speffect: 7000 },
        EnemyRecord { addr: 0x300, gameclear_speffect: 0 },
        EnemyRecord { addr: 0x400, gameclear_speffect: 7040 },
    ];
    assert_eq!(set_scaling(&enemies), vec![(0x100, 7000), (0x400, 7040)]);
    assert_eq!(set_scaling(&Vec::new()), Vec::new());
}

#[test]
fn param_offset_follows_the_dispatch_table() {
    let base = 0x7ff600000000u64;
    assert_eq!(enemy_param_offset(base + 0x2a44010, base), Some(0x598));
    assert_eq!(enemy_param_offset(base + 0x2a7cb40, base), Some(0x5f0));
    assert_eq!(enemy_param_offset(base + 0x1234, base), None);
}

#[test]
fn chr_count_falls_back_on_unset_marker() {
    assert_eq!(effective_chr_count(0xffffffff, 12), 12);
    assert_eq!(effective_chr_count(5, 12), 5);
    assert_eq!(effective_chr_count(0, 12), 0);
}

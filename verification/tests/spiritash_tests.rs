use bloodmessage_mod::spiritash::{
    get_status, spirit_records, ChrSlot, SpiritRecord, SpiritTracker,
};
use bloodmessage_mod::OutgoingMessage;

fn spirit(addr: u64, id: i32, hp: u32) -> SpiritRecord {
    SpiritRecord { addr, instance_id: id, hp }
}

fn leave_id(e: &OutgoingMessage) -> Option<i32> {
    match e {
        OutgoingMessage::SpiritLeaveEvent { id } => Some(*id),
        _ => None,
    }
}

#[test]
fn records_filter_keeps_only_spirit_team() {
    let slots = vec![
        ChrSlot { addr: 0, vftable: 1, team_type: 0x2f, instance_id: 1, hp: 5 },
        ChrSlot { addr: 0x10, vftable: 0, team_type: 0x2f, instance_id: 2, hp: 5 },
        ChrSlot { addr: 0x20, vftable: 1, team_type: 0x18, instance_id: 3, hp: 5 },
        ChrSlot { addr: 0x30, vftable: 1, team_type: 0x2f, instance_id: 4, hp: 5 },
    ];
    assert_eq!(spirit_records(&slots), vec![spirit(0x30, 4, 5)]);
}

#[test]
fn new_spirit_with_health_is_a_summon() {
    let mut tracker = SpiritTracker::new();
    let current = vec![spirit(0x100, 7, 350)];
    let (events, hacks) = get_status(&mut tracker, &current, 500);
    assert_eq!(events.len(), 1);
    assert!(matches!(events[0], OutgoingMessage::SpiritSummonEvent { id: 7 }));
    // its address is handed back for the host-side adjustments
    assert_eq!(hacks, vec![0x100]);
    // a second identical frame reports nothing new
    let (events2, hacks2) = get_status(&mut tracker, &current, 500);
    assert!(events2.is_empty());
    assert!(hacks2.is_empty());
}

#[test]
fn spirit_dropping_to_zero_health_is_a_death() {
    let mut tracker = SpiritTracker::new();
    let _ = get_status(&mut tracker, &vec![spirit(0x100, 7, 350)], 500);
    let (events, hacks) = get_status(&mut tracker, &vec![spirit(0x100, 7, 0)], 500);
    assert_eq!(events.len(), 1);
    assert!(matches!(events[0], OutgoingMessage::SpiritDeathEvent { id: 7 }));
    assert!(hacks.is_empty());
    // death is reported once, not every frame
    let (events2, _) = get_status(&mut tracker, &vec![spirit(0x100, 7, 0)], 500);
    assert!(events2.is_empty());
}

#[test]
fn vanished_spirit_with_health_leaves() {
    let mut tracker = SpiritTracker::new();
    let _ = get_status(&mut tracker, &vec![spirit(0x100, 7, 350)], 500);
    let (events, _) = get_status(&mut tracker, &Vec::new(), 500);
    assert_eq!(events.len(), 1);
    assert_eq!(leave_id(&events[0]), Some(7));
    // the entry is gone: an empty frame reports nothing further
    let (events2, _) = get_status(&mut tracker, &Vec::new(), 500);
    assert!(events2.is_empty());
}

#[test]
fn player_death_releases_every_tracked_spirit() {
    let mut tracker = SpiritTracker::new();
    let both = vec![spirit(0x100, 7, 350), spirit(0x200, 9, 120)];
    let _ = get_status(&mut tracker, &both, 500);
    let (events, hacks) = get_status(&mut tracker, &both, 0);
    let ids: Vec<i32> = events.iter().filter_map(leave_id).collect();
    assert_eq!(ids, vec![7, 9]);
    assert_eq!(events.len(), 2);
    assert!(hacks.is_empty());
    // the tracker was cleared: the same spirits summon again afterwards
    let (events2, _) = get_status(&mut tracker, &both, 500);
    assert_eq!(events2.len(), 2);
    assert!(matches!(events2[0], OutgoingMessage::SpiritSummonEvent { id: 7 }));
    assert!(matches!(events2[1], OutgoingMessage::SpiritSummonEvent { id: 9 }));
}

#[test]
fn dead_on_arrival_spirit_is_not_summoned() {
    let mut tracker = SpiritTracker::new();
    let (events, hacks) = get_status(&mut tracker, &vec![spirit(0x100, 7, 0)], 500);
    assert!(events.is_empty());
    assert!(hacks.is_empty());
}

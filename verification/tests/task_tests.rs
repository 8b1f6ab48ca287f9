use bloodmessage_mod::bloodmessage::{blood_message_lookup, LookupOutcome};
use bloodmessage_mod::list::{HostCall, MessageList};
use bloodmessage_mod::player::{GameDataMan, MapId};
use bloodmessage_mod::registry::{get_message, MessageRegistry};
use bloodmessage_mod::task::{run_task, CSTaskGroupIndex};
use bloodmessage_mod::util::FullscreenMsgIndex;
use bloodmessage_mod::{handle_client_task, HostAction, IncomingMessage};

fn map_id() -> MapId {
    MapId { index: 0, region: 0, block: 10, area: 60 }
}

#[test]
fn task_phase_codes_follow_catalogue_order() {
    assert_eq!(CSTaskGroupIndex::FrameBegin.code(), 0);
    assert_eq!(CSTaskGroupIndex::WorldChrMan_PostPhysics.code(), 117);
    assert_eq!(CSTaskGroupIndex::FrameEnd.code(), 168);
}

#[test]
fn task_proxy_frees_exactly_once() {
    let mut task = run_task(CSTaskGroupIndex::WorldChrMan_PostPhysics);
    assert!(task.release());
    assert!(!task.release());
}

#[test]
fn drain_dispatches_commands_in_order() {
    let mut reg = MessageRegistry::new();
    let mut list = MessageList::new();
    let mut gd = GameDataMan { clear_count: 0 };
    let queue = vec![
        IncomingMessage::SpawnBloodMessage { text: String::from("seek grace"), msg_visual: 5 },
        IncomingMessage::IncreaseDifficulty,
        IncomingMessage::DecreaseDifficulty,
    ];
    let actions = handle_client_task(queue, &mut reg, &mut list, &mut gd, map_id());
    assert_eq!(actions.len(), 3);
    match &actions[0] {
        HostAction::Spawn(plan) => {
            assert_eq!(plan.template_id, 1);
            assert_eq!(plan.message_sign_visual, 5);
            assert_eq!(plan.map_id, map_id());
            assert_eq!(plan.blood_message_db_item, 0);
            assert_eq!(plan.unk1f, 66);
            assert_eq!(plan.unk20, 30001);
            assert_eq!(plan.magic_value, u32::MAX);
        }
        other => panic!("expected a spawn action, got {other:?}"),
    }
    assert!(matches!(actions[1], HostAction::Display(FullscreenMsgIndex::Up1)));
    assert!(matches!(actions[2], HostAction::Display(FullscreenMsgIndex::Down0)));
    assert_eq!(gd.clear_count, 0);
    assert_eq!(get_message(&reg, 1), Some(String::from("seek grace")));
}

#[test]
fn drain_of_empty_queue_does_nothing() {
    let mut reg = MessageRegistry::new();
    let mut list = MessageList::new();
    let mut gd = GameDataMan { clear_count: 3 };
    let actions = handle_client_task(Vec::new(), &mut reg, &mut list, &mut gd, map_id());
    assert!(actions.is_empty());
    assert_eq!(gd.clear_count, 3);
}

#[test]
fn drain_remove_unlinks_and_schedules_host_calls() {
    let mut reg = MessageRegistry::new();
    let mut list = MessageList::new();
    let mut gd = GameDataMan { clear_count: 0 };
    // spawn, then link the node the host would have created for it
    let actions = handle_client_task(
        vec![IncomingMessage::SpawnBloodMessage {
            text: String::from("dog ahead"),
            msg_visual: 1,
        }],
        &mut reg,
        &mut list,
        &mut gd,
        map_id(),
    );
    let template = match &actions[0] {
        HostAction::Spawn(plan) => plan.template_id,
        other => panic!("expected a spawn action, got {other:?}"),
    };
    list.push_front(0xBEE0, template);
    let actions = handle_client_task(
        vec![IncomingMessage::RemoveBloodMessage { text: String::from("dogahead") }],
        &mut reg,
        &mut list,
        &mut gd,
        map_id(),
    );
    assert_eq!(
        actions,
        vec![
            HostAction::ListEdit(HostCall::Teardown(0xBEE0)),
            HostAction::ListEdit(HostCall::Dealloc(0xBEE0)),
        ]
    );
    assert_eq!(list.len(), 0);
    assert_eq!(get_message(&reg, template), None);
}

#[test]
fn spawn_then_lookup_then_rate_limited_event() {
    // a client spawns a message; the host looks its template up and the
    // first read notifies; an immediate second read does not; a read after
    // the window notifies once more
    let mut reg = MessageRegistry::new();
    let mut list = MessageList::new();
    let mut gd = GameDataMan { clear_count: 0 };
    let actions = handle_client_task(
        vec![IncomingMessage::SpawnBloodMessage {
            text: String::from("Try finger"),
            msg_visual: 66,
        }],
        &mut reg,
        &mut list,
        &mut gd,
        map_id(),
    );
    let template = match &actions[0] {
        HostAction::Spawn(plan) => plan.template_id,
        other => panic!("expected a spawn action, got {other:?}"),
    };
    assert_eq!(template, 1);

    let mut limiter = bloodmessage_mod::hook::RateLimiter::new();
    let t0 = 1000u64;
    match blood_message_lookup(&reg, &mut limiter, template as u32, t0) {
        LookupOutcome::Synthesized { text, notify } => {
            assert_eq!(text, "Try finger");
            assert!(notify);
        }
        LookupOutcome::PassThrough => panic!("the spawned template must be answered"),
    }
    match blood_message_lookup(&reg, &mut limiter, template as u32, t0) {
        LookupOutcome::Synthesized { notify, .. } => assert!(!notify),
        LookupOutcome::PassThrough => panic!("the spawned template must be answered"),
    }
    match blood_message_lookup(&reg, &mut limiter, template as u32, t0 + 3) {
        LookupOutcome::Synthesized { notify, .. } => assert!(notify),
        LookupOutcome::PassThrough => panic!("the spawned template must be answered"),
    }
}

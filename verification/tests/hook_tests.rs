use bloodmessage_mod::bloodmessage::{blood_message_lookup, lookup_reply, LookupOutcome};
use bloodmessage_mod::hook::{HookError, HookHandle, RateLimiter};
use bloodmessage_mod::registry::{add_message, MessageRegistry};

#[test]
fn enable_before_initialize_fails() {
    let mut hook = HookHandle::new();
    assert_eq!(hook.enable(), Err(HookError::NotInitialized));
    assert_eq!(hook.disable(), Err(HookError::NotInitialized));
}

#[test]
fn initialize_twice_fails() {
    let mut hook = HookHandle::new();
    assert_eq!(hook.initialize(0x1000), Ok(()));
    assert_eq!(hook.initialize(0x2000), Err(HookError::AlreadyInitialized));
    assert_eq!(hook.enable(), Ok(()));
    assert_eq!(hook.initialize(0x3000), Err(HookError::AlreadyInitialized));
}

#[test]
fn disable_then_enable_restores_interception() {
    let mut hook = HookHandle::new();
    assert_eq!(hook.initialize(0x1000), Ok(()));
    assert_eq!(hook.enable(), Ok(()));
    assert_eq!(hook.disable(), Ok(()));
    assert_eq!(hook.enable(), Ok(()));
}

#[test]
fn lookup_synthesizes_registry_text() {
    let mut reg = MessageRegistry::new();
    let id = add_message(&mut reg, "Try finger");
    let mut limiter = RateLimiter::new();
    match blood_message_lookup(&reg, &mut limiter, id as u32, 100) {
        LookupOutcome::Synthesized { text, notify } => {
            assert_eq!(text, "Try finger");
            assert!(notify);
        }
        LookupOutcome::PassThrough => panic!("a registered id must be answered"),
    }
}

#[test]
fn lookup_passes_unknown_ids_through() {
    let reg = MessageRegistry::new();
    let mut limiter = RateLimiter::new();
    assert!(matches!(
        blood_message_lookup(&reg, &mut limiter, 42, 100),
        LookupOutcome::PassThrough
    ));
    // ids beyond the 16-bit template space are never ours
    assert!(matches!(
        blood_message_lookup(&reg, &mut limiter, 0x10000, 100),
        LookupOutcome::PassThrough
    ));
}

#[test]
fn repeated_reads_within_two_seconds_notify_once() {
    let mut reg = MessageRegistry::new();
    let id = add_message(&mut reg, "patience");
    let mut limiter = RateLimiter::new();
    let mut notifications = 0;
    for t in [100u64, 100, 101, 102] {
        if let LookupOutcome::Synthesized { notify, .. } =
            blood_message_lookup(&reg, &mut limiter, id as u32, t)
        {
            if notify {
                notifications += 1;
            }
        } else {
            panic!("a registered id must be answered");
        }
    }
    assert_eq!(notifications, 1);
    // after the window has elapsed since the latest read, exactly one more
    if let LookupOutcome::Synthesized { notify, .. } =
        blood_message_lookup(&reg, &mut limiter, id as u32, 105)
    {
        assert!(notify);
    } else {
        panic!("a registered id must be answered");
    }
}

#[test]
fn rate_limiter_window_restarts_on_every_read() {
    let mut limiter = RateLimiter::new();
    assert!(limiter.note_read(10));
    assert!(!limiter.note_read(12)); // within 2 s of the read at 10
    assert!(!limiter.note_read(14)); // within 2 s of the read at 12
    assert!(limiter.note_read(17)); // more than 2 s past the read at 14
}

#[test]
fn lookup_reply_synthesizes_or_passes_host_reply_unchanged() {
    let mut reg = MessageRegistry::new();
    let id = add_message(&mut reg, "hi");
    let mut limiter = RateLimiter::new();
    let host_reply = Some(vec![0x41u16, 0x42]);
    // a registered template answers with the registry text, encoded wide
    let (reply, notify) = lookup_reply(&mut reg, &mut limiter, id as u32, 100, host_reply.clone());
    assert_eq!(reply, Some(vec![0x68u16, 0x69]));
    assert!(notify);
    // any other template hands the host's own reply through unchanged
    let (reply, notify) = lookup_reply(&mut reg, &mut limiter, 999, 100, host_reply.clone());
    assert_eq!(reply, host_reply);
    assert!(!notify);
    let (reply, notify) = lookup_reply(&mut reg, &mut limiter, 999, 100, None);
    assert_eq!(reply, None);
    assert!(!notify);
}

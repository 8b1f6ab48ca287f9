//! The hook engine's state machine and the rate limiter that guards its
//! notification path.
//!
//! A hook handle moves Uninitialized -> Initialized -> Enabled <-> Disabled.
//! Installing twice is a conflict and fails loudly; enabling or disabling a
//! handle that was never installed fails too. The machinery that actually
//! patches code at the target address is process glue; what is modelled here
//! is the lifecycle every caller must respect.
//!
//! The intercepted function runs once per host frame, so notifying external
//! consumers from it must be rate limited: at most one notification per
//! 2-second wall-clock window, where every read (notifying or not) restarts
//! the window.
use vstd::prelude::*;

verus! {

/// Lifecycle states of one interception.
#[derive(Clone, Copy, Debug, PartialEq, Eq, Structural)]
pub enum HookState {
    Uninitialized,
    Initialized,
    Enabled,
    Disabled,
}

/// Why a lifecycle call was refused.
#[derive(Clone, Copy, Debug, PartialEq, Eq, Structural)]
pub enum HookError {
    AlreadyInitialized,
    NotInitialized,
}

/// One installed (or installable) interception and its target address.
pub struct HookHandle {
    state: HookState,
    target: u64,
}

impl HookHandle {
    /// The lifecycle state of this handle.
    pub closed spec fn state(self) -> HookState {
        self.state
    }

    /// The address this handle intercepts; meaningful once initialized.
    pub closed spec fn target(self) -> u64 {
        self.target
    }

    /// Whether calls through the target are currently intercepted.
    pub open spec fn is_enabled(self) -> bool {
        self.state() == HookState::Enabled
    }

    /// A handle with nothing installed.
    pub fn new() -> (r: HookHandle)
        ensures
            r.state() == HookState::Uninitialized,
    {
        HookHandle { state: HookState::Uninitialized, target: 0 }
    }

    /// Installs the interception at `target`. Succeeds exactly once: a
    /// second install on the same handle is a conflict and changes nothing.
    pub fn initialize(&mut self, target: u64) -> (r: Result<(), HookError>)
        ensures
            old(self).state() == HookState::Uninitialized ==> r is Ok
                && final(self).state() == HookState::Initialized && final(self).target() == target,
            old(self).state() != HookState::Uninitialized ==> r == Result::<
                (),
                HookError,
            >::Err(HookError::AlreadyInitialized) && *final(self) == *old(self),
    {
        match self.state {
            HookState::Uninitialized => {
                self.state = HookState::Initialized;
                self.target = target;
                Ok(())
            },
            _ => Err(HookError::AlreadyInitialized),
        }
    }

    /// Turns the interception on. Fails exactly when nothing was installed;
    /// enabling an enabled hook stays enabled.
    pub fn enable(&mut self) -> (r: Result<(), HookError>)
        ensures
            old(self).state() == HookState::Uninitialized ==> r == Result::<
                (),
                HookError,
            >::Err(HookError::NotInitialized) && *final(self) == *old(self),
            old(self).state() != HookState::Uninitialized ==> r is Ok && final(self).state()
                == HookState::Enabled && final(self).target() == old(self).target(),
    {
        match self.state {
            HookState::Uninitialized => Err(HookError::NotInitialized),
            _ => {
                self.state = HookState::Enabled;
                Ok(())
            },
        }
    }

    /// Turns the interception off, keeping it installed so that a later
    /// enable restores it. Fails exactly when nothing was installed.
    pub fn disable(&mut self) -> (r: Result<(), HookError>)
        ensures
            old(self).state() == HookState::Uninitialized ==> r == Result::<
                (),
                HookError,
            >::Err(HookError::NotInitialized) && *final(self) == *old(self),
            old(self).state() != HookState::Uninitialized ==> r is Ok && final(self).state()
                == HookState::Disabled && final(self).target() == old(self).target(),
    {
        match self.state {
            HookState::Uninitialized => Err(HookError::NotInitialized),
            _ => {
                self.state = HookState::Disabled;
                Ok(())
            },
        }
    }
}

/// Whether a read at `now` may notify, given the time of the last read.
pub open spec fn notifies(last: u64, now: u64) -> bool {
    last + 2 < now
}

/// Wall-clock rate limiter for the hook's notification path.
pub struct RateLimiter {
    last_read: u64,
}

impl RateLimiter {
    /// The time (seconds) of the last noted read.
    pub closed spec fn last(self) -> u64 {
        self.last_read
    }

    /// A limiter that has seen no read; the first read at any time past the
    /// initial window notifies.
    pub fn new() -> (r: RateLimiter)
        ensures
            r.last() == 0u64,
    {
        RateLimiter { last_read: 0 }
    }

    /// Notes a read at time `now` (seconds) and decides whether this read
    /// may notify: only when more than two seconds have passed since the
    /// last noted read. Every read restarts the window.
    pub fn note_read(&mut self, now: u64) -> (notify: bool)
        ensures
            notify == notifies(old(self).last(), now),
            final(self).last() == now,
    {
        let notify = now > 2 && self.last_read < now - 2;
        self.last_read = now;
        notify
    }
}

/// The number of notifications a sequence of reads at times `ts` produces,
/// starting from a last-read time of `last`.
pub open spec fn notify_count(last: u64, ts: Seq<u64>) -> nat
    decreases ts.len(),
{
    if ts.len() == 0 {
        0
    } else {
        (if notifies(last, ts[0]) {
            1nat
        } else {
            0nat
        }) + notify_count(ts[0], ts.drop_first())
    }
}

proof fn lemma_no_notify_within_window(last: u64, ts: Seq<u64>, start: u64)
    requires
        last >= start,
        forall|i: int| 0 <= i < ts.len() ==> start <= #[trigger] ts[i] <= start + 2,
    ensures
        notify_count(last, ts) == 0,
    decreases ts.len(),
{
    if ts.len() > 0 {
        assert(ts[0] <= start + 2 <= last + 2);
        assert(forall|i: int|
            0 <= i < ts.drop_first().len() ==> start <= #[trigger] ts.drop_first()[i] <= start
                + 2);
        lemma_no_notify_within_window(ts[0], ts.drop_first(), start);
    }
}

/// Law: of repeated reads falling inside one 2-second window, exactly the
/// first notifies — and once the window has elapsed since the latest read,
/// the next read notifies again.
pub proof fn law_rate_limit_window(last: u64, ts: Seq<u64>, later: u64)
    requires
        ts.len() > 0,
        notifies(last, ts[0]),
        forall|i: int| 0 <= i < ts.len() ==> ts[0] <= #[trigger] ts[i] <= ts[0] + 2,
    ensures
        notify_count(last, ts) == 1,
        later > ts.last() + 2 ==> notifies(ts.last(), later),
{
    assert(forall|i: int|
        0 <= i < ts.drop_first().len() ==> ts[0] <= #[trigger] ts.drop_first()[i] <= ts[0] + 2);
    lemma_no_notify_within_window(ts[0], ts.drop_first(), ts[0]);
}

} // verus!

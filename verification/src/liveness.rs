//! Whether a session is open, whether it is in use, and when it has been idle for too long.

use crate::constants::ONE_SECOND;
use vstd::prelude::*;

verus! {

/// The part of a session that its tasks watch: the flag that keeps them running, and a counter
/// that moves whenever bytes pass through the tunnel.
pub struct Liveness {
    pub open: bool,
    pub heartbeat: u64,
}

/// The counter value that follows another one; after the largest one it starts again at zero.
pub open spec fn next_heartbeat(heartbeat: u64) -> u64 {
    if heartbeat == u64::MAX {
        0
    } else {
        (heartbeat + 1) as u64
    }
}

impl Liveness {
    /// The state of a session that has just been set up.
    pub fn new() -> (live: Liveness)
        ensures
            live == (Liveness { open: true, heartbeat: 0 }),
    {
        Liveness { open: true, heartbeat: 0 }
    }

    /// Closes the session, and tells whether this call was the one that closed it.
    pub fn close(&mut self) -> (first: bool)
        ensures
            first == old(self).open,
            *final(self) == (Liveness { open: false, heartbeat: old(self).heartbeat }),
    {
        let first = self.open;
        self.open = false;
        first
    }

    /// Marks the session as in use.
    pub fn beat(&mut self)
        ensures
            *final(self) == (Liveness {
                open: old(self).open,
                heartbeat: next_heartbeat(old(self).heartbeat),
            }),
    {
        self.heartbeat = self.heartbeat.wrapping_add(1);
    }
}

/// Looks at a session once a second and counts the looks in a row that found it idle. How many
/// of them are tolerated is the timeout of whoever keeps the session.
pub struct Watchdog {
    /// Idle looks in a row so far.
    pub idle_count: u32,
    /// The counter of the session when it was last found in use.
    pub baseline: u64,
}

/// What the watchdog wants done.
pub enum WatchStep {
    /// Wait this many seconds, then look at the session again.
    Sleep(u64),
    /// Close the session, it has been idle for too long; the watch is over.
    Expire,
    /// The session is closed, the watch is over.
    Stop,
}

/// How the watch goes on over a session that is open or not.
pub open spec fn watch_on(open: bool) -> WatchStep {
    if open {
        WatchStep::Sleep(ONE_SECOND)
    } else {
        WatchStep::Stop
    }
}

/// The watchdog that has just found the session in use, with this counter value.
pub open spec fn fresh_watchdog(heartbeat: u64) -> Watchdog {
    Watchdog { idle_count: 0, baseline: heartbeat }
}

impl Watchdog {
    /// One look at the session, with `timeout` idle looks in a row tolerated: the watchdog after
    /// it, and what it wants done.
    pub open spec fn look(self, timeout: u32, open: bool, heartbeat: u64) -> (
        Watchdog,
        WatchStep,
    ) {
        if heartbeat != self.baseline {
            (fresh_watchdog(heartbeat), watch_on(open))
        } else if self.idle_count >= timeout {
            (self, WatchStep::Expire)
        } else {
            (
                Watchdog { idle_count: (self.idle_count + 1) as u32, ..self },
                watch_on(open),
            )
        }
    }

    /// The watchdog after a number of looks at an open session, which found these counter values.
    pub open spec fn after(self, timeout: u32, heartbeats: Seq<u64>) -> Watchdog
        decreases heartbeats.len(),
    {
        if heartbeats.len() == 0 {
            self
        } else {
            self.after(timeout, heartbeats.drop_last()).look(timeout, true, heartbeats.last()).0
        }
    }

    /// Starts to watch a session.
    pub fn start(live: &Liveness) -> (started: (Watchdog, WatchStep))
        ensures
            started.0 == fresh_watchdog(live.heartbeat),
            started.1 == watch_on(live.open),
    {
        let step = if live.open {
            WatchStep::Sleep(ONE_SECOND)
        } else {
            WatchStep::Stop
        };
        (Watchdog { idle_count: 0, baseline: live.heartbeat }, step)
    }

    /// Looks at the session after a pause.
    pub fn tick(&mut self, timeout: u32, live: &Liveness) -> (step: WatchStep)
        ensures
            (*final(self), step) == old(self).look(timeout, live.open, live.heartbeat),
    {
        if live.heartbeat != self.baseline {
            self.baseline = live.heartbeat;
            self.idle_count = 0;
        } else if self.idle_count >= timeout {
            return WatchStep::Expire;
        } else {
            self.idle_count = self.idle_count + 1;
        }
        if live.open {
            WatchStep::Sleep(ONE_SECOND)
        } else {
            WatchStep::Stop
        }
    }
}

/// A heartbeat always moves the counter, so that the next look of a watchdog that had seen the
/// counter before it starts the idle count again.
pub proof fn law_heartbeat_is_seen(watchdog: Watchdog, timeout: u32, open: bool)
    ensures
        watchdog.look(timeout, open, next_heartbeat(watchdog.baseline)) == (
            fresh_watchdog(next_heartbeat(watchdog.baseline)),
            watch_on(open),
        ),
{
}

/// A session that stays idle is tolerated for as many looks as the timeout says, and closed at
/// the next one.
pub proof fn law_idle_session_expires(timeout: u32, heartbeat: u64, looks: Seq<u64>)
    requires
        looks.len() <= timeout,
        forall|i: int| 0 <= i < looks.len() ==> looks[i] == heartbeat,
    ensures
        fresh_watchdog(heartbeat).after(timeout, looks).idle_count == looks.len(),
        fresh_watchdog(heartbeat).after(timeout, looks).look(timeout, true, heartbeat).1 == (
        if looks.len() < timeout {
            WatchStep::Sleep(ONE_SECOND)
        } else {
            WatchStep::Expire
        }),
    decreases looks.len(),
{
    lemma_after(timeout, heartbeat, looks);
    if looks.len() > 0 {
        law_idle_session_expires(timeout, heartbeat, looks.drop_last());
        assert(looks.last() == heartbeat);
    }
}

/// The counter value seen `back` looks ago, where the start of the watch counts as a look.
pub open spec fn seen(heartbeat: u64, looks: Seq<u64>, back: int) -> u64 {
    if back < looks.len() {
        looks[looks.len() - 1 - back]
    } else {
        heartbeat
    }
}

/// The idle count tells how many of the last looks saw the counter unmoved.
proof fn lemma_after(timeout: u32, heartbeat: u64, looks: Seq<u64>)
    ensures
        ({
            let now = fresh_watchdog(heartbeat).after(timeout, looks);
            &&& now.idle_count <= timeout
            &&& now.idle_count <= looks.len()
            &&& forall|back: int|
                0 <= back <= now.idle_count ==> #[trigger] seen(heartbeat, looks, back)
                    == now.baseline
        }),
    decreases looks.len(),
{
    if looks.len() > 0 {
        let earlier = looks.drop_last();
        lemma_after(timeout, heartbeat, earlier);
        let now = fresh_watchdog(heartbeat).after(timeout, looks);
        assert forall|back: int| 0 <= back <= now.idle_count implies #[trigger] seen(
            heartbeat,
            looks,
            back,
        ) == now.baseline by {
            if back > 0 {
                assert(seen(heartbeat, earlier, back - 1) == seen(heartbeat, looks, back));
            }
        }
    }
}

/// A session is closed for inactivity only when its counter has not moved over one look more
/// than the timeout says, whatever happened before.
pub proof fn law_active_session_is_kept(
    timeout: u32,
    heartbeat: u64,
    looks: Seq<u64>,
    open: bool,
    now: u64,
)
    requires
        fresh_watchdog(heartbeat).after(timeout, looks).look(timeout, open, now).1 is Expire,
    ensures
        looks.len() >= timeout,
        forall|back: int| 0 <= back <= timeout ==> seen(heartbeat, looks, back) == now,
{
    lemma_after(timeout, heartbeat, looks);
}

} // verus!

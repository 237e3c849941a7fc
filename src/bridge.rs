//! Decisions of the bridge loop about the direct renderer route: when to
//! open or close the second connection, when an `init_pool` is owed, and
//! the pacing of `batch_update` messages. Time is in milliseconds on the
//! bridge's own clock.

use vstd::prelude::*;

use crate::session::DirectMcRoute;
use crate::text::same_text;
use crate::voice::VoiceFrame;

verus! {

/// Wait after a failed direct connection before the next attempt.
pub const DIRECT_RETRY_MS: u64 = 2000;

/// Least time between two `batch_update` messages on the direct route.
pub const BATCH_INTERVAL_MS: u64 = 45;

/// Voice frames sent per bridge tick.
pub const VOICE_FRAMES_PER_TICK: usize = 3;

/// Where a direct connection goes: host, port and zone.
pub open spec fn target_key(r: &DirectMcRoute) -> (Seq<char>, u16, Seq<char>) {
    (r.host@, r.port, r.zone@)
}

/// What an entity pool was initialised for: host, port, zone and count.
pub open spec fn pool_key(r: &DirectMcRoute) -> (Seq<char>, u16, Seq<char>, u32) {
    (r.host@, r.port, r.zone@, r.entity_count)
}

/// What the bridge does about the direct route on this tick.
pub enum RoutePlan {
    /// No direct route is wanted: close any connection.
    Close,
    /// Open a connection to the wanted route.
    Connect,
    /// Leave the connection as it is.
    Keep,
}

/// The bridge's knowledge of its direct renderer connection.
pub struct DirectLink {
    connected: bool,
    target: Option<(String, u16, String)>,
    pool: Option<(String, u16, String, u32)>,
    next_connect_ms: u64,
    last_batch_ms: Option<u64>,
}

impl DirectLink {
    pub closed spec fn spec_connected(&self) -> bool {
        self.connected
    }

    /// The route the open connection was made for.
    pub closed spec fn spec_target(&self) -> Option<(Seq<char>, u16, Seq<char>)> {
        match self.target {
            Some(t) => Some((t.0@, t.1, t.2@)),
            None => None,
        }
    }

    /// The pool that was last initialised on the connection.
    pub closed spec fn spec_pool(&self) -> Option<(Seq<char>, u16, Seq<char>, u32)> {
        match self.pool {
            Some(p) => Some((p.0@, p.1, p.2@, p.3)),
            None => None,
        }
    }

    pub closed spec fn spec_next_connect_ms(&self) -> u64 {
        self.next_connect_ms
    }

    pub closed spec fn spec_last_batch_ms(&self) -> Option<u64> {
        self.last_batch_ms
    }

    /// No connection; a connection may be tried at once.
    pub fn new() -> (r: Self)
        ensures
            !r.spec_connected(),
            r.spec_target() is None,
            r.spec_pool() is None,
            r.spec_next_connect_ms() == 0,
            r.spec_last_batch_ms() is None,
    {
        DirectLink { connected: false, target: None, pool: None, next_connect_ms: 0, last_batch_ms: None }
    }

    pub fn is_connected(&self) -> (r: bool)
        ensures
            r == self.spec_connected(),
    {
        self.connected
    }

    fn is_target(&self, r: &DirectMcRoute) -> (b: bool)
        ensures
            b == (self.spec_target() == Some(target_key(r))),
    {
        match &self.target {
            Some(t) => t.1 == r.port && same_text(t.0.as_str(), r.host.as_str()) && same_text(
                t.2.as_str(),
                r.zone.as_str(),
            ),
            None => false,
        }
    }

    /// Closes when no route is wanted; connects when the wanted route is
    /// not the connected one (or nothing is connected) and the retry wait
    /// is over; keeps the connection otherwise.
    pub fn plan(&self, desired: &Option<DirectMcRoute>, now_ms: u64) -> (r: RoutePlan)
        ensures
            desired is None ==> r is Close,
            desired matches Some(d) ==> ((self.spec_target() != Some(target_key(&d)) || !self.spec_connected())
                && now_ms >= self.spec_next_connect_ms() ==> r is Connect),
            desired matches Some(d) ==> (!((self.spec_target() != Some(target_key(&d)) || !self.spec_connected())
                && now_ms >= self.spec_next_connect_ms()) ==> r is Keep),
    {
        match desired {
            None => RoutePlan::Close,
            Some(d) => {
                if (!self.is_target(d) || !self.connected) && now_ms >= self.next_connect_ms {
                    RoutePlan::Connect
                } else {
                    RoutePlan::Keep
                }
            },
        }
    }

    /// The connection was closed because no route is wanted.
    pub fn close(&mut self)
        ensures
            !final(self).spec_connected(),
            final(self).spec_target() is None,
            final(self).spec_pool() is None,
            final(self).spec_next_connect_ms() == old(self).spec_next_connect_ms(),
            final(self).spec_last_batch_ms() == old(self).spec_last_batch_ms(),
    {
        self.connected = false;
        self.target = None;
        self.pool = None;
    }

    /// A connection to `route` was opened; its pool is not initialised yet.
    pub fn connected_to(&mut self, route: &DirectMcRoute)
        ensures
            final(self).spec_connected(),
            final(self).spec_target() == Some(target_key(route)),
            final(self).spec_pool() is None,
            final(self).spec_next_connect_ms() == old(self).spec_next_connect_ms(),
            final(self).spec_last_batch_ms() == old(self).spec_last_batch_ms(),
    {
        self.connected = true;
        self.target = Some((route.host.clone(), route.port, route.zone.clone()));
        self.pool = None;
    }

    /// Opening a connection failed: wait before the next attempt.
    pub fn connect_failed(&mut self, now_ms: u64)
        ensures
            final(self).spec_connected() == old(self).spec_connected(),
            final(self).spec_target() == old(self).spec_target(),
            final(self).spec_pool() == old(self).spec_pool(),
            final(self).spec_next_connect_ms() == if now_ms as int + DIRECT_RETRY_MS <= u64::MAX {
                (now_ms + DIRECT_RETRY_MS) as u64
            } else {
                u64::MAX
            },
            final(self).spec_last_batch_ms() == old(self).spec_last_batch_ms(),
    {
        self.next_connect_ms = now_ms.saturating_add(DIRECT_RETRY_MS);
    }

    /// A send on the direct connection failed: it is dropped, its pool
    /// forgotten, and the next attempt waits.
    pub fn send_failed(&mut self, now_ms: u64)
        ensures
            !final(self).spec_connected(),
            final(self).spec_target() == old(self).spec_target(),
            final(self).spec_pool() is None,
            final(self).spec_next_connect_ms() == if now_ms as int + DIRECT_RETRY_MS <= u64::MAX {
                (now_ms + DIRECT_RETRY_MS) as u64
            } else {
                u64::MAX
            },
            final(self).spec_last_batch_ms() == old(self).spec_last_batch_ms(),
    {
        self.connected = false;
        self.pool = None;
        self.next_connect_ms = now_ms.saturating_add(DIRECT_RETRY_MS);
    }

    /// Whether a `batch_update` is due: connected, and at least 45 ms after
    /// the last one.
    pub fn batch_due(&self, now_ms: u64) -> (r: bool)
        ensures
            r == (self.spec_connected() && match self.spec_last_batch_ms() {
                Some(t) => now_ms >= t && now_ms - t >= BATCH_INTERVAL_MS,
                None => true,
            }),
    {
        if !self.connected {
            return false;
        }
        match self.last_batch_ms {
            Some(t) => now_ms >= t && now_ms - t >= BATCH_INTERVAL_MS,
            None => true,
        }
    }

    /// Whether an `init_pool` must precede the next batch: the pool was
    /// not initialised for this route's host, port, zone and count.
    pub fn needs_init_pool(&self, route: &DirectMcRoute) -> (r: bool)
        ensures
            r == (self.spec_pool() != Some(pool_key(route))),
    {
        match &self.pool {
            Some(p) => !(p.1 == route.port && p.3 == route.entity_count && same_text(
                p.0.as_str(),
                route.host.as_str(),
            ) && same_text(p.2.as_str(), route.zone.as_str())),
            None => true,
        }
    }

    /// An `init_pool` for `route` was sent.
    pub fn init_pool_sent(&mut self, route: &DirectMcRoute)
        ensures
            final(self).spec_connected() == old(self).spec_connected(),
            final(self).spec_target() == old(self).spec_target(),
            final(self).spec_pool() == Some(pool_key(route)),
            final(self).spec_next_connect_ms() == old(self).spec_next_connect_ms(),
            final(self).spec_last_batch_ms() == old(self).spec_last_batch_ms(),
    {
        self.pool = Some((route.host.clone(), route.port, route.zone.clone(), route.entity_count));
    }

    /// A `batch_update` was sent at `now_ms`.
    pub fn batch_sent(&mut self, now_ms: u64)
        ensures
            final(self).spec_connected() == old(self).spec_connected(),
            final(self).spec_target() == old(self).spec_target(),
            final(self).spec_pool() == old(self).spec_pool(),
            final(self).spec_next_connect_ms() == old(self).spec_next_connect_ms(),
            final(self).spec_last_batch_ms() == Some(now_ms),
    {
        self.last_batch_ms = Some(now_ms);
    }
}

/// The voice frames sent on one tick: the first three drained, oldest
/// first; any others are dropped.
pub fn frames_for_tick(frames: Vec<VoiceFrame>) -> (r: Vec<VoiceFrame>)
    ensures
        r@ == frames@.subrange(
            0,
            if frames@.len() < VOICE_FRAMES_PER_TICK { frames@.len() as int } else { VOICE_FRAMES_PER_TICK as int },
        ),
{
    let ghost all = frames@;
    let mut frames = frames;
    if frames.len() > VOICE_FRAMES_PER_TICK {
        frames.truncate(VOICE_FRAMES_PER_TICK);
    }
    assert(frames@ =~= all.subrange(
        0,
        if all.len() < VOICE_FRAMES_PER_TICK { all.len() as int } else { VOICE_FRAMES_PER_TICK as int },
    ));
    frames
}

} // verus!

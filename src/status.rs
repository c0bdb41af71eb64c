use vstd::prelude::*;

use crate::measurement::Measurement;

verus! {

/// A cached status frame is dropped once its age reaches this many milliseconds.
pub const STALE_AFTER_MS: u64 = 500;

/// Device-type tag under which a distance sensor talks on the bus.
pub const DEVICE_TYPE_DISTANCE_SENSOR: u8 = 6;

/// A message taken off the bus, as far as the status poll cares.
#[derive(Clone, Copy, Debug, PartialEq, Eq, Structural)]
pub enum InboundMessage {
    /// A status frame carrying the sensor's latest measurement.
    Status(Measurement),
    /// Any other message of the device.
    Other,
}

/// A frame captured at `t` is fresh at `now` while its age is under the threshold:
/// at exactly the threshold it is stale. A `now` earlier than `t` counts as age zero.
pub open spec fn is_fresh(t: u64, now: u64) -> bool {
    now < t + STALE_AFTER_MS
}

/// What a poll at `now` hands out of the cache `c`.
pub open spec fn fresh_reading(c: Option<(u64, Measurement)>, now: u64) -> Option<Measurement> {
    match c {
        Some((t, m)) => if is_fresh(t, now) {
            Some(m)
        } else {
            None
        },
        None => None,
    }
}

/// What is left in the cache `c` after a poll at `now`: stale entries are cleared.
pub open spec fn retained(c: Option<(u64, Measurement)>, now: u64) -> Option<(u64, Measurement)> {
    match c {
        Some((t, m)) => if is_fresh(t, now) {
            c
        } else {
            None
        },
        None => None,
    }
}

/// `k` is the position of the first status frame in `frames`.
pub open spec fn is_first_status(frames: Seq<InboundMessage>, k: int) -> bool {
    &&& 0 <= k < frames.len()
    &&& frames[k] is Status
    &&& forall|j: int| 0 <= j < k ==> frames[j] is Other
}

/// The measurement of the first status frame in `frames`, if there is one.
pub open spec fn first_status(frames: Seq<InboundMessage>) -> Option<Measurement> {
    if exists|k: int| is_first_status(frames, k) {
        let k = choose|k: int| is_first_status(frames, k);
        match frames[k] {
            InboundMessage::Status(m) => Some(m),
            InboundMessage::Other => None,
        }
    } else {
        None
    }
}

/// How many queued frames one poll takes off the bus: up to and including the
/// first status frame, or all of them.
pub open spec fn drained_len(frames: Seq<InboundMessage>) -> int {
    if exists|k: int| is_first_status(frames, k) {
        (choose|k: int| is_first_status(frames, k)) + 1
    } else {
        frames.len() as int
    }
}

/// The cache after the queued `frames` were drained at `now`: the first status
/// frame, stamped with `now`, replaces what was cached.
pub open spec fn observe(c: Option<(u64, Measurement)>, frames: Seq<InboundMessage>, now: u64) -> Option<(u64, Measurement)> {
    match first_status(frames) {
        Some(m) => Some((now, m)),
        None => c,
    }
}

/// The first status frame is unique, so `first_status` and `drained_len` are
/// fixed by its position.
pub proof fn lemma_first_status_unique(frames: Seq<InboundMessage>, k: int)
    requires
        is_first_status(frames, k),
    ensures
        forall|k2: int| is_first_status(frames, k2) ==> k2 == k,
        first_status(frames) == (match frames[k] {
            InboundMessage::Status(m) => Some(m),
            InboundMessage::Other => None,
        }),
        drained_len(frames) == k + 1,
{
    assert forall|k2: int| is_first_status(frames, k2) implies k2 == k by {
        if k2 < k {
            assert(frames[k2] is Other);
        } else if k2 > k {
            assert(frames[k] is Other);
        }
    }
}

/// The client side of one distance sensor: the bus address it answers on, and
/// at most one cached status frame with the instant (in milliseconds) at which
/// it was seen.
pub struct NativeLaserCan {
    can_id: u8,
    last_status_frame: Option<(u64, Measurement)>,
}

impl NativeLaserCan {
    /// The cached status frame, with its capture instant.
    pub closed spec fn cached(&self) -> Option<(u64, Measurement)> {
        self.last_status_frame
    }

    /// The bus address of the sensor.
    pub closed spec fn bus_id(&self) -> u8 {
        self.can_id
    }

    /// A client for the sensor at bus address `can_id`, with nothing cached.
    pub fn new(can_id: u8) -> (r: Self)
        ensures
            r.bus_id() == can_id,
            r.cached() is None,
    {
        NativeLaserCan { can_id, last_status_frame: None }
    }

    /// The bus address of the sensor.
    pub fn can_id(&self) -> (r: u8)
        ensures
            r == self.bus_id(),
    {
        self.can_id
    }

    /// The device-type tag the transport for this client is scoped to.
    pub fn device_type(&self) -> (r: u8)
        ensures
            r == DEVICE_TYPE_DISTANCE_SENSOR,
    {
        DEVICE_TYPE_DISTANCE_SENSOR
    }

    /// Visits one message taken off the bus at `now_ms`. A status frame becomes
    /// the cached one and stops the draining; any other message lets it go on.
    pub fn on_message(&mut self, msg: &InboundMessage, now_ms: u64) -> (keep_draining: bool)
        ensures
            final(self).bus_id() == old(self).bus_id(),
            keep_draining <==> *msg is Other,
            match *msg {
                InboundMessage::Status(m) => final(self).cached() == Some((now_ms, m)),
                InboundMessage::Other => final(self).cached() == old(self).cached(),
            },
    {
        match msg {
            InboundMessage::Status(m) => {
                self.last_status_frame = Some((now_ms, *m));
                false
            },
            InboundMessage::Other => true,
        }
    }

    /// Drains the `queued` frames at `now_ms` up to and including the first
    /// status frame, and returns how many it took.
    pub fn drain(&mut self, queued: &Vec<InboundMessage>, now_ms: u64) -> (consumed: usize)
        ensures
            final(self).bus_id() == old(self).bus_id(),
            final(self).cached() == observe(old(self).cached(), queued@, now_ms),
            consumed as int == drained_len(queued@),
    {
        let n = queued.len();
        let mut i: usize = 0;
        while i < n
            invariant
                n == queued@.len(),
                0 <= i <= n,
                self.bus_id() == old(self).bus_id(),
                self.cached() == old(self).cached(),
                forall|j: int| 0 <= j < i ==> queued@[j] is Other,
            decreases n - i,
        {
            let keep = self.on_message(&queued[i], now_ms);
            if !keep {
                proof {
                    assert(is_first_status(queued@, i as int));
                    lemma_first_status_unique(queued@, i as int);
                }
                return i + 1;
            }
            i = i + 1;
        }
        proof {
            assert forall|k: int| !is_first_status(queued@, k) by {
                if 0 <= k < queued@.len() {
                    assert(queued@[k] is Other);
                }
            }
        }
        n
    }

    /// Hands out the cached measurement if it is fresh at `now_ms`; a stale one
    /// is cleared.
    pub fn take_fresh(&mut self, now_ms: u64) -> (r: Option<Measurement>)
        ensures
            final(self).bus_id() == old(self).bus_id(),
            r == fresh_reading(old(self).cached(), now_ms),
            final(self).cached() == retained(old(self).cached(), now_ms),
    {
        match self.last_status_frame {
            Some((t, m)) => {
                if now_ms >= t && now_ms - t >= STALE_AFTER_MS {
                    self.last_status_frame = None;
                    None
                } else {
                    Some(m)
                }
            },
            None => None,
        }
    }

    /// One status poll at `now_ms` over the frames queued on the bus: drains them
    /// up to the first status frame, then hands out the cached measurement if it
    /// is still fresh, clearing it if it is stale. Never waits on the bus.
    pub fn get_measurement(&mut self, queued: &Vec<InboundMessage>, now_ms: u64) -> (r: Option<Measurement>)
        ensures
            final(self).bus_id() == old(self).bus_id(),
            r == fresh_reading(observe(old(self).cached(), queued@, now_ms), now_ms),
            final(self).cached() == retained(observe(old(self).cached(), queued@, now_ms), now_ms),
    {
        self.drain(queued, now_ms);
        self.take_fresh(now_ms)
    }
}

} // verus!

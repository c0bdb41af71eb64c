use vstd::prelude::*;

use crate::config::{flattened, ConfigCommand, ConfigRequest, LaserCanError, RequestResponse, REQUEST_TIMEOUT_MS};
use crate::measurement::{Measurement, RangingMode, Roi, TimingBudget};
use crate::status::{fresh_reading, is_first_status, observe, retained, InboundMessage, NativeLaserCan};

verus! {

/// What a sensor backend offers: the status poll and the three configuration
/// calls, each split into the request to send and the outcome of its response.
pub trait LaserCanImpl: Sized {
    /// The cached status frame of the backend, with its capture instant.
    spec fn cached_status(&self) -> Option<(u64, Measurement)>;

    fn on_message(&mut self, msg: &InboundMessage, now_ms: u64) -> (keep_draining: bool)
        ensures
            keep_draining <==> *msg is Other,
            final(self).cached_status() == observe(old(self).cached_status(), seq![*msg], now_ms),
    ;

    fn take_fresh(&mut self, now_ms: u64) -> (r: Option<Measurement>)
        ensures
            r == fresh_reading(old(self).cached_status(), now_ms),
            final(self).cached_status() == retained(old(self).cached_status(), now_ms),
    ;

    fn get_measurement(&mut self, queued: &Vec<InboundMessage>, now_ms: u64) -> (r: Option<Measurement>)
        ensures
            r == fresh_reading(observe(old(self).cached_status(), queued@, now_ms), now_ms),
            final(self).cached_status() == retained(observe(old(self).cached_status(), queued@, now_ms), now_ms),
    ;

    fn set_timing_budget(&self, budget: TimingBudget) -> (r: ConfigRequest)
        ensures
            r.command == ConfigCommand::SetTimingBudget(budget),
            r.timeout_ms == REQUEST_TIMEOUT_MS,
    ;

    fn set_roi(&self, roi: Roi) -> (r: ConfigRequest)
        ensures
            r.command == ConfigCommand::SetRoi(roi),
            r.timeout_ms == REQUEST_TIMEOUT_MS,
    ;

    fn set_range(&self, mode: RangingMode) -> (r: ConfigRequest)
        ensures
            r.command == ConfigCommand::SetRange(mode),
            r.timeout_ms == REQUEST_TIMEOUT_MS,
    ;

    fn finish_request(&self, response: RequestResponse) -> (r: Result<(), LaserCanError>)
        ensures
            r == flattened(response),
    ;
}

impl LaserCanImpl for NativeLaserCan {
    open spec fn cached_status(&self) -> Option<(u64, Measurement)> {
        self.cached()
    }

    fn on_message(&mut self, msg: &InboundMessage, now_ms: u64) -> (keep_draining: bool) {
        proof {
            lemma_single_frame_observed(*msg, self.cached(), now_ms);
        }
        NativeLaserCan::on_message(self, msg, now_ms)
    }

    fn take_fresh(&mut self, now_ms: u64) -> (r: Option<Measurement>) {
        NativeLaserCan::take_fresh(self, now_ms)
    }

    fn get_measurement(&mut self, queued: &Vec<InboundMessage>, now_ms: u64) -> (r: Option<Measurement>) {
        NativeLaserCan::get_measurement(self, queued, now_ms)
    }

    fn set_timing_budget(&self, budget: TimingBudget) -> (r: ConfigRequest) {
        NativeLaserCan::set_timing_budget(self, budget)
    }

    fn set_roi(&self, roi: Roi) -> (r: ConfigRequest) {
        NativeLaserCan::set_roi(self, roi)
    }

    fn set_range(&self, mode: RangingMode) -> (r: ConfigRequest) {
        NativeLaserCan::set_range(self, mode)
    }

    fn finish_request(&self, response: RequestResponse) -> (r: Result<(), LaserCanError>) {
        NativeLaserCan::finish_request(self, response)
    }
}

proof fn lemma_single_frame_observed(msg: InboundMessage, c: Option<(u64, Measurement)>, now: u64)
    ensures
        observe(c, seq![msg], now) == (match msg {
            InboundMessage::Status(m) => Some((now, m)),
            InboundMessage::Other => c,
        }),
{
    let s = seq![msg];
    if msg is Status {
        assert(is_first_status(s, 0));
        assert forall|k2: int| is_first_status(s, k2) implies k2 == 0 by {}
    } else {
        assert forall|k: int| !is_first_status(s, k) by {
            if 0 <= k < 1 {
                assert(s[k] == msg);
            }
        }
    }
}

/// A sensor handle: it owns exactly one backend and delegates every operation to it.
pub struct LaserCanDevice<B: LaserCanImpl> {
    backend: B,
}

impl LaserCanDevice<NativeLaserCan> {
    /// A handle on the native backend for the sensor at bus address `can_id`.
    pub fn new(can_id: u8) -> (r: Self)
        ensures
            r.backend().bus_id() == can_id,
            r.backend().cached() is None,
    {
        LaserCanDevice { backend: NativeLaserCan::new(can_id) }
    }
}

impl<B: LaserCanImpl> LaserCanDevice<B> {
    /// The backend this handle owns.
    pub closed spec fn backend(&self) -> B {
        self.backend
    }

    /// A handle that owns `backend`.
    pub fn from_backend(backend: B) -> (r: Self)
        ensures
            r.backend() == backend,
    {
        LaserCanDevice { backend }
    }

    /// The backend this handle owns.
    pub fn backend_ref(&self) -> (r: &B)
        ensures
            *r == self.backend(),
    {
        &self.backend
    }

    /// Visits one message taken off the bus at `now_ms`; see `NativeLaserCan::on_message`.
    pub fn on_message(&mut self, msg: &InboundMessage, now_ms: u64) -> (keep_draining: bool)
        ensures
            keep_draining <==> *msg is Other,
            final(self).backend().cached_status() == observe(old(self).backend().cached_status(), seq![*msg], now_ms),
    {
        self.backend.on_message(msg, now_ms)
    }

    /// Hands out the cached measurement if fresh at `now_ms`; see `NativeLaserCan::take_fresh`.
    pub fn take_fresh(&mut self, now_ms: u64) -> (r: Option<Measurement>)
        ensures
            r == fresh_reading(old(self).backend().cached_status(), now_ms),
            final(self).backend().cached_status() == retained(old(self).backend().cached_status(), now_ms),
    {
        self.backend.take_fresh(now_ms)
    }

    /// One status poll of the backend; see `NativeLaserCan::get_measurement`.
    pub fn get_measurement(&mut self, queued: &Vec<InboundMessage>, now_ms: u64) -> (r: Option<Measurement>)
        ensures
            r == fresh_reading(observe(old(self).backend().cached_status(), queued@, now_ms), now_ms),
            final(self).backend().cached_status() == retained(
                observe(old(self).backend().cached_status(), queued@, now_ms),
                now_ms,
            ),
    {
        self.backend.get_measurement(queued, now_ms)
    }

    /// The request that sets the timing budget.
    pub fn set_timing_budget(&self, budget: TimingBudget) -> (r: ConfigRequest)
        ensures
            r.command == ConfigCommand::SetTimingBudget(budget),
            r.timeout_ms == REQUEST_TIMEOUT_MS,
    {
        self.backend.set_timing_budget(budget)
    }

    /// The request that sets the region of interest.
    pub fn set_roi(&self, roi: Roi) -> (r: ConfigRequest)
        ensures
            r.command == ConfigCommand::SetRoi(roi),
            r.timeout_ms == REQUEST_TIMEOUT_MS,
    {
        self.backend.set_roi(roi)
    }

    /// The request that sets the ranging mode.
    pub fn set_range(&self, mode: RangingMode) -> (r: ConfigRequest)
        ensures
            r.command == ConfigCommand::SetRange(mode),
            r.timeout_ms == REQUEST_TIMEOUT_MS,
    {
        self.backend.set_range(mode)
    }

    /// The outcome of a configuration call once the transport answered.
    pub fn finish_request(&self, response: RequestResponse) -> (r: Result<(), LaserCanError>)
        ensures
            r == flattened(response),
    {
        self.backend.finish_request(response)
    }
}

} // verus!

use lasercan::config::{flatten_response, ConfigCommand, ErrorKind, LaserCanError, ProtocolError, REQUEST_TIMEOUT_MS};
use lasercan::device::LaserCanDevice;
use lasercan::measurement::{Measurement, RangingMode, Roi, TimingBudget};
use lasercan::status::{InboundMessage, NativeLaserCan, DEVICE_TYPE_DISTANCE_SENSOR};
use lasercan::surface::{
    jni_roi, jni_timing_budget, to_c_result, to_jni_measurement, to_jni_throw, to_maybe_measurement, ErrorInfo,
    ErrorLayer,
};

fn reading(distance_mm: u16) -> Measurement {
    Measurement {
        status: 0,
        distance_mm,
        ambient: 17,
        mode: RangingMode::Long,
        budget: TimingBudget::TB33ms,
        roi: Roi { x: 8, y: 8, w: 16, h: 16 },
    }
}

fn error(kind: ErrorKind) -> ProtocolError {
    ProtocolError { kind, message: String::from("failed") }
}

#[test]
fn end_to_end_status_scenario() {
    let mut dev = LaserCanDevice::new(5);
    assert_eq!(dev.backend_ref().can_id(), 5);
    assert_eq!(dev.get_measurement(&vec![], 0), None);
    let got = dev.get_measurement(&vec![InboundMessage::Status(reading(1200))], 100);
    assert_eq!(got.map(|m| m.distance_mm), Some(1200));
    assert_eq!(dev.get_measurement(&vec![], 600), None);
}

#[test]
fn end_to_end_timing_budget_scenario() {
    let dev = LaserCanDevice::new(5);
    let req = dev.set_timing_budget(TimingBudget::TB33ms);
    assert_eq!(req.command, ConfigCommand::SetTimingBudget(TimingBudget::TB33ms));
    assert_eq!(req.timeout_ms, 500);
    assert_eq!(dev.finish_request(Ok(Ok(()))), Ok(()));
    let r = dev.finish_request(Err(error(ErrorKind::TimedOut)));
    assert_eq!(r, Err(LaserCanError::Transport(error(ErrorKind::TimedOut))));
}

#[test]
fn poll_takes_first_status_then_newer_frames() {
    let mut lc = NativeLaserCan::new(3);
    let queued = vec![
        InboundMessage::Other,
        InboundMessage::Status(reading(100)),
        InboundMessage::Status(reading(200)),
    ];
    assert_eq!(lc.get_measurement(&queued, 10), Some(reading(100)));
    // the frame left queued behind the first status is seen by the next poll
    assert_eq!(lc.get_measurement(&vec![InboundMessage::Status(reading(200))], 20), Some(reading(200)));
    // no new status frame: the last one observed is still handed out while fresh
    assert_eq!(lc.get_measurement(&vec![InboundMessage::Other], 400), Some(reading(200)));
    assert_eq!(lc.get_measurement(&vec![InboundMessage::Other], 520), None);
}

#[test]
fn drain_stops_after_first_status() {
    let mut lc = NativeLaserCan::new(3);
    let queued = vec![
        InboundMessage::Other,
        InboundMessage::Other,
        InboundMessage::Status(reading(100)),
        InboundMessage::Status(reading(200)),
    ];
    assert_eq!(lc.drain(&queued, 0), 3);
    assert_eq!(lc.drain(&vec![InboundMessage::Other, InboundMessage::Other], 0), 2);
    assert_eq!(lc.drain(&vec![], 0), 0);
    assert_eq!(lc.take_fresh(0), Some(reading(100)));
}

#[test]
fn repeated_poll_returns_same_measurement() {
    let mut lc = NativeLaserCan::new(1);
    let first = lc.get_measurement(&vec![InboundMessage::Status(reading(750))], 1000);
    let second = lc.get_measurement(&vec![], 1200);
    assert_eq!(first, Some(reading(750)));
    assert_eq!(first, second);
}

#[test]
fn staleness_boundary_both_sides() {
    let mut lc = NativeLaserCan::new(1);
    lc.get_measurement(&vec![InboundMessage::Status(reading(42))], 1000);
    assert_eq!(lc.get_measurement(&vec![], 1499), Some(reading(42)));
    assert_eq!(lc.get_measurement(&vec![], 1500), None);
}

#[test]
fn stale_entry_is_cleared() {
    let mut lc = NativeLaserCan::new(1);
    lc.get_measurement(&vec![InboundMessage::Status(reading(42))], 100);
    assert_eq!(lc.get_measurement(&vec![], 600), None);
    // once cleared, an earlier instant finds nothing either
    assert_eq!(lc.get_measurement(&vec![], 300), None);
}

#[test]
fn earlier_instant_counts_as_fresh() {
    let mut lc = NativeLaserCan::new(1);
    lc.get_measurement(&vec![InboundMessage::Status(reading(42))], 1000);
    assert_eq!(lc.get_measurement(&vec![], 900), Some(reading(42)));
}

#[test]
fn transport_failure_on_every_setter() {
    let dev = LaserCanDevice::new(9);
    let requests = vec![
        dev.set_timing_budget(TimingBudget::TB50ms),
        dev.set_roi(Roi { x: 8, y: 8, w: 4, h: 4 }),
        dev.set_range(RangingMode::Short),
    ];
    for req in requests {
        assert_eq!(req.timeout_ms, REQUEST_TIMEOUT_MS);
        let r = dev.finish_request(Err(error(ErrorKind::TimedOut)));
        let c = to_c_result(&r);
        assert!(!c.is_ok);
        assert_eq!(c.error, ErrorInfo { layer: ErrorLayer::Transport, code: 0xFE });
        assert_eq!(to_jni_throw(&r), Some(ErrorInfo { layer: ErrorLayer::Transport, code: 0xFE }));
    }
}

#[test]
fn device_rejection_is_distinct_from_transport() {
    let dev = LaserCanDevice::new(9);
    let rejected = dev.finish_request(Ok(Err(error(ErrorKind::ParameterOutOfBounds))));
    assert_eq!(rejected, Err(LaserCanError::Device(error(ErrorKind::ParameterOutOfBounds))));
    let c = to_c_result(&rejected);
    assert!(!c.is_ok);
    assert_eq!(c.error, ErrorInfo { layer: ErrorLayer::Device, code: 0x00 });
    let timed_out = dev.finish_request(Err(error(ErrorKind::TimedOut)));
    assert_ne!(to_jni_throw(&rejected), to_jni_throw(&timed_out));
    assert!(!rejected.unwrap_err().is_transport());
}

#[test]
fn success_is_tagged_ok() {
    let c = to_c_result(&Ok(()));
    assert!(c.is_ok);
    assert_eq!(c.error, ErrorInfo { layer: ErrorLayer::NoError, code: 0 });
    assert_eq!(to_jni_throw(&Ok(())), None);
}

#[test]
fn create_then_drop_handle() {
    let dev = LaserCanDevice::new(5);
    drop(dev);
    let dev = LaserCanDevice::from_backend(NativeLaserCan::new(7));
    assert_eq!(dev.backend_ref().can_id(), 7);
    assert_eq!(dev.backend_ref().device_type(), DEVICE_TYPE_DISTANCE_SENSOR);
}

#[test]
fn error_codes_per_kind() {
    assert_eq!(ErrorKind::ParameterOutOfBounds.code(), 0x00);
    assert_eq!(ErrorKind::FailedAssertion.code(), 0x01);
    assert_eq!(ErrorKind::TimedOut.code(), 0xFE);
    assert_eq!(ErrorKind::Generic.code(), 0xFF);
    let e = LaserCanError::Device(error(ErrorKind::FailedAssertion));
    assert_eq!(e.kind(), ErrorKind::FailedAssertion);
}

#[test]
fn flatten_each_layer() {
    assert_eq!(flatten_response(Ok(Ok(()))), Ok(()));
    assert_eq!(
        flatten_response(Ok(Err(error(ErrorKind::Generic)))),
        Err(LaserCanError::Device(error(ErrorKind::Generic)))
    );
    assert_eq!(
        flatten_response(Err(error(ErrorKind::Generic))),
        Err(LaserCanError::Transport(error(ErrorKind::Generic)))
    );
}

#[test]
fn timing_budget_numbers() {
    assert_eq!(jni_timing_budget(20), Some(TimingBudget::TB20ms));
    assert_eq!(jni_timing_budget(33), Some(TimingBudget::TB33ms));
    assert_eq!(jni_timing_budget(50), Some(TimingBudget::TB50ms));
    assert_eq!(jni_timing_budget(100), Some(TimingBudget::TB100ms));
    assert_eq!(jni_timing_budget(21), None);
    assert_eq!(jni_timing_budget(276), None);
    assert_eq!(jni_timing_budget(-1), None);
    assert_eq!(TimingBudget::TB100ms.millis(), 100);
    assert_eq!(TimingBudget::TB33ms.millis(), 33);
}

#[test]
fn ranging_mode_flag() {
    assert_eq!(RangingMode::from_is_long(true), RangingMode::Long);
    assert_eq!(RangingMode::from_is_long(false), RangingMode::Short);
    assert!(RangingMode::Long.is_long());
    assert!(!RangingMode::Short.is_long());
}

#[test]
fn jni_measurement_fields() {
    let j = to_jni_measurement(&Measurement {
        status: 2,
        distance_mm: 65535,
        ambient: 300,
        mode: RangingMode::Long,
        budget: TimingBudget::TB50ms,
        roi: Roi { x: 1, y: 2, w: 3, h: 4 },
    });
    assert_eq!(j.status, 2);
    assert_eq!(j.distance_mm, 65535);
    assert_eq!(j.ambient, 300);
    assert!(j.is_long);
    assert_eq!(j.budget_ms, 50);
    assert_eq!((j.roi_x, j.roi_y, j.roi_w, j.roi_h), (1, 2, 3, 4));
}

#[test]
fn jni_roi_keeps_low_byte() {
    assert_eq!(jni_roi(8, 9, 257, 4), Roi { x: 8, y: 9, w: 1, h: 4 });
}

#[test]
fn maybe_measurement_tags() {
    let present = to_maybe_measurement(Some(reading(5)));
    assert!(present.present);
    assert_eq!(present.value, reading(5));
    let absent = to_maybe_measurement(None);
    assert!(!absent.present);
    assert_eq!(absent.value.distance_mm, 0);
}

#[test]
fn visitor_stops_on_status_frame() {
    let mut dev = LaserCanDevice::new(2);
    assert!(dev.on_message(&InboundMessage::Other, 50));
    assert_eq!(dev.take_fresh(50), None);
    assert!(!dev.on_message(&InboundMessage::Status(reading(900)), 50));
    assert_eq!(dev.take_fresh(549), Some(reading(900)));
    assert_eq!(dev.take_fresh(550), None);
}

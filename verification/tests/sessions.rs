use pendulum::gy521::Gy521Error;
use pendulum::hall::{HallAction, HallSession, HallStep, HallTelemetry};
use pendulum::imu::{probe_who_am_i, Gy521Session, ImuAction, ImuProbeError, ImuStep, ImuTelemetry};

fn block13() -> [u8; 13] {
    [0, 0, 0, 1, 0, 2, 0, 3, 0x01, 0x00, 0x10, 9, 0]
}

#[test]
fn hall_session_configures_then_reads() {
    let mut s = HallSession::new();
    assert!(!s.is_configured());
    assert!(matches!(s.on_presence(true), HallStep::Next(HallAction::Configure)));
    assert!(matches!(s.on_configured(Ok(())), HallStep::Next(HallAction::ReadMeasurement)));
    assert!(s.is_configured());
    match s.on_measurement(Ok(block13())) {
        HallTelemetry::Measurement(m) => {
            assert_eq!(m.x_code, 1);
            assert_eq!(m.angle_whole_deg, 1);
            assert_eq!(m.magnitude, 9);
        }
        _ => panic!("expected a measurement"),
    }
    // Next cycle reads straight away.
    assert!(matches!(s.on_presence(true), HallStep::Next(HallAction::ReadMeasurement)));
    assert!(matches!(s.on_measurement(Err(0x10)), HallTelemetry::ReadError { register: 0x10 }));
}

#[test]
fn hall_session_forgets_configuration_when_missing() {
    let mut s = HallSession::new();
    s.on_presence(true);
    s.on_configured(Ok(()));
    assert!(matches!(s.on_presence(false), HallStep::Done(HallTelemetry::Missing)));
    assert!(!s.is_configured());
    assert!(matches!(s.on_presence(true), HallStep::Next(HallAction::Configure)));
    assert!(matches!(
        s.on_configured(Err(0x02)),
        HallStep::Done(HallTelemetry::ConfigError { register: 0x02 })
    ));
    assert!(!s.is_configured());
}

#[test]
fn imu_session_full_cycle() {
    let mut s = Gy521Session::new();
    assert!(matches!(s.on_presence(true), ImuStep::Next(ImuAction::VerifyWhoAmI)));
    assert!(matches!(s.on_who_am_i(Ok(())), ImuStep::Next(ImuAction::Wake)));
    assert!(matches!(s.on_woken(Ok(())), ImuStep::Next(ImuAction::ReadMeasurement)));
    assert!(s.is_verified() && s.is_awake());
    let t = s.on_sample(Ok([0, 1, 0, 2, 0, 3, 0, 4, 0, 5, 0, 6, 0, 7]));
    assert!(!t.resets_estimator());
    match t {
        ImuTelemetry::Measurement(m) => assert_eq!((m.ax, m.gz), (1, 7)),
        _ => panic!("expected a sample"),
    }
    assert!(matches!(s.on_presence(true), ImuStep::Next(ImuAction::ReadMeasurement)));
}

#[test]
fn imu_session_failures_reset_estimator() {
    let mut s = Gy521Session::new();
    s.on_presence(true);
    let step = s.on_who_am_i(Err(Gy521Error::UnexpectedWhoAmI(0x70)));
    match step {
        ImuStep::Done(t) => {
            assert!(matches!(t, ImuTelemetry::UnexpectedWhoAmI { value: 0x70 }));
            assert!(t.resets_estimator());
        }
        _ => panic!("expected the cycle to end"),
    }
    assert!(matches!(s.on_who_am_i(Err(Gy521Error::RegisterRead(0x75))), ImuStep::Done(ImuTelemetry::Missing)));
    assert!(matches!(s.on_who_am_i(Ok(())), ImuStep::Next(ImuAction::Wake)));
    assert!(matches!(s.on_woken(Err(0x1B)), ImuStep::Done(ImuTelemetry::WakeError { register: 0x1B })));
    assert!(s.is_verified() && !s.is_awake());
    assert!(matches!(s.on_presence(true), ImuStep::Next(ImuAction::Wake)));
    assert!(s.on_sample(Err(0x3B)).resets_estimator());
    assert!(matches!(s.on_presence(false), ImuStep::Done(ImuTelemetry::Missing)));
    assert!(!s.is_verified() && !s.is_awake());
    s.on_presence(true);
    s.on_who_am_i(Ok(()));
    s.reset();
    assert!(!s.is_verified());
}

#[test]
fn imu_probe() {
    assert_eq!(probe_who_am_i(Some(0x68)), Ok(()));
    assert_eq!(probe_who_am_i(Some(0x98)), Err(ImuProbeError::UnexpectedWhoAmI(0x98)));
    assert_eq!(probe_who_am_i(None), Err(ImuProbeError::RegisterRead));
}

#[test]
fn imu_never_awake_without_identity() {
    let mut s = Gy521Session::new();
    assert!(matches!(s.on_presence(true), ImuStep::Next(ImuAction::VerifyWhoAmI)));
    s.on_who_am_i(Err(Gy521Error::UnexpectedWhoAmI(0x70)));
    assert!(!s.is_verified() && !s.is_awake());
    assert!(matches!(s.on_presence(true), ImuStep::Next(ImuAction::VerifyWhoAmI)));
    assert!(matches!(s.on_who_am_i(Ok(())), ImuStep::Next(ImuAction::Wake)));
    assert!(matches!(s.on_woken(Ok(())), ImuStep::Next(ImuAction::ReadMeasurement)));
    assert!(s.is_verified() && s.is_awake());
    assert!(matches!(s.on_presence(false), ImuStep::Done(ImuTelemetry::Missing)));
    assert!(!s.is_verified() && !s.is_awake());
}

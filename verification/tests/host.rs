use pendulum::cli::{Cli, ModeArg};
use pendulum::host::{
    check_reply, plan_request, DeviceMode, DeviceRequestKind, ReplyError, ReplyHandling, ReplyKind,
};
use pendulum::wifi::{
    start_failure, validation_result, AssociationOutcome, DhcpEvent, StationPlan,
    StationStartFailure, TelemetryLink, WifiCredentials, WifiProbeResult,
};

fn plan(args: &[&str]) -> (DeviceRequestKind, ReplyHandling) {
    plan_request(&Cli::try_parse_from(args).unwrap().command)
}

#[test]
fn requests_for_commands() {
    assert!(matches!(plan(&["p", "info"]), (DeviceRequestKind::GetInfo, ReplyHandling::ExpectInfo)));
    assert!(matches!(plan(&["p", "status"]), (DeviceRequestKind::GetStatus, ReplyHandling::ExpectStatus)));
    assert!(matches!(
        plan(&["p", "mode", "get"]),
        (DeviceRequestKind::GetStatus, ReplyHandling::ExpectStatusMode)
    ));
    assert!(matches!(
        plan(&["p", "mode", "set", "production"]),
        (DeviceRequestKind::SetMode(DeviceMode::Production), ReplyHandling::ExpectAck { message: "mode change accepted" })
    ));
    match plan(&["p", "wifi", "set", "net", "pw"]) {
        (DeviceRequestKind::SetWifiConfig { ssid, password }, ReplyHandling::PrintAny) => {
            assert_eq!(ssid, "net");
            assert_eq!(password, "pw");
        }
        other => panic!("unexpected plan: {other:?}"),
    }
    assert!(matches!(plan(&["p", "wifi", "status"]), (DeviceRequestKind::GetWifiStatus, ReplyHandling::ExpectWifiStatus)));
    assert!(matches!(plan(&["p", "wifi", "clear"]), (DeviceRequestKind::ClearWifiConfig, ReplyHandling::PrintAny)));
    assert!(matches!(plan(&["p", "wifi", "validate"]), (DeviceRequestKind::ValidateWifi, ReplyHandling::PrintAny)));
    assert!(matches!(plan(&["p", "motor", "calibrate"]), (DeviceRequestKind::StartMotorCalibration, ReplyHandling::PrintAny)));
    assert!(matches!(
        plan(&["p", "run", "start"]),
        (DeviceRequestKind::StartRun, ReplyHandling::ExpectAck { message: "run started" })
    ));
    assert!(matches!(
        plan(&["p", "run", "stop"]),
        (DeviceRequestKind::StopRun, ReplyHandling::ExpectAck { message: "run stopped" })
    ));
    assert!(matches!(
        plan(&["p", "reboot"]),
        (DeviceRequestKind::Reboot, ReplyHandling::ExpectAck { message: "reboot accepted" })
    ));
}

#[test]
fn mode_conversion() {
    assert_eq!(DeviceMode::from(ModeArg::Manufacturing), DeviceMode::Manufacturing);
    assert_eq!(DeviceMode::from(ModeArg::Production), DeviceMode::Production);
}

#[test]
fn replies_are_judged() {
    assert_eq!(check_reply(ReplyHandling::ExpectInfo, ReplyKind::Info), Ok(()));
    assert_eq!(check_reply(ReplyHandling::ExpectInfo, ReplyKind::Ack), Err(ReplyError::Unexpected));
    assert_eq!(check_reply(ReplyHandling::ExpectInfo, ReplyKind::Error), Err(ReplyError::Device));
    assert_eq!(check_reply(ReplyHandling::ExpectStatusMode, ReplyKind::Status), Ok(()));
    assert_eq!(check_reply(ReplyHandling::ExpectWifiStatus, ReplyKind::Status), Err(ReplyError::Unexpected));
    assert_eq!(check_reply(ReplyHandling::ExpectAck { message: "ok" }, ReplyKind::Ack), Ok(()));
    assert_eq!(check_reply(ReplyHandling::PrintAny, ReplyKind::WifiValidation), Ok(()));
    assert_eq!(check_reply(ReplyHandling::PrintAny, ReplyKind::CalibrationStatus), Ok(()));
    assert_eq!(check_reply(ReplyHandling::PrintAny, ReplyKind::Error), Err(ReplyError::Device));
}

fn creds(ssid: &str, password: &str) -> WifiCredentials {
    WifiCredentials { ssid: ssid.to_string(), password: password.to_string() }
}

#[test]
fn station_restarts_only_on_new_credentials() {
    let mut link = TelemetryLink::new();
    let home = creds("home", "secret");
    assert_eq!(link.station_plan(None), StationPlan::Stop);
    assert_eq!(link.station_plan(Some(&home)), StationPlan::Restart);
    link.on_station_started(&home, Ok(()));
    assert_eq!(link.station_plan(Some(&home)), StationPlan::Keep);
    assert_eq!(link.station_plan(Some(&creds("home", "other"))), StationPlan::Restart);
    assert_eq!(link.station_plan(Some(&creds("lab", "secret"))), StationPlan::Restart);
    link.on_station_started(&home, Err(StationStartFailure::Start));
    assert_eq!(link.station_plan(Some(&home)), StationPlan::Restart);
}

#[test]
fn address_follows_dhcp_and_connection() {
    let mut link = TelemetryLink::new();
    link.on_station_started(&creds("a", "b"), Ok(()));
    assert_eq!(link.ipv4_octets(), None);
    link.on_dhcp(Some(DhcpEvent::Configured { ipv4_octets: [192, 168, 1, 20] }));
    assert_eq!(link.ipv4_octets(), Some([192, 168, 1, 20]));
    link.on_dhcp(None);
    assert_eq!(link.ipv4_octets(), Some([192, 168, 1, 20]));
    assert!(link.on_connection_checked(true));
    assert_eq!(link.ipv4_octets(), Some([192, 168, 1, 20]));
    assert!(!link.on_connection_checked(false));
    assert_eq!(link.ipv4_octets(), None);
    link.on_dhcp(Some(DhcpEvent::Configured { ipv4_octets: [10, 0, 0, 2] }));
    link.on_dhcp(Some(DhcpEvent::Deconfigured));
    assert_eq!(link.ipv4_octets(), None);
    link.on_dhcp(Some(DhcpEvent::Configured { ipv4_octets: [10, 0, 0, 2] }));
    link.on_stopped();
    assert_eq!(link.ipv4_octets(), None);
    assert_eq!(link.station_plan(Some(&creds("a", "b"))), StationPlan::Restart);
}

#[test]
fn validation_reports() {
    assert_eq!(start_failure(StationStartFailure::SetConfiguration), WifiProbeResult::ConfigurationRejected);
    assert_eq!(start_failure(StationStartFailure::Start), WifiProbeResult::StartFailed);
    assert_eq!(start_failure(StationStartFailure::Connect), WifiProbeResult::AssociationFailed);
    assert_eq!(
        validation_result(Some(StationStartFailure::Start), AssociationOutcome::Connected, Some([1, 2, 3, 4])),
        WifiProbeResult::StartFailed
    );
    assert_eq!(
        validation_result(None, AssociationOutcome::Error, None),
        WifiProbeResult::AssociationFailed
    );
    assert_eq!(
        validation_result(None, AssociationOutcome::TimedOut, Some([1, 2, 3, 4])),
        WifiProbeResult::AssociationTimedOut
    );
    assert_eq!(validation_result(None, AssociationOutcome::Connected, None), WifiProbeResult::DhcpTimedOut);
    assert_eq!(
        validation_result(None, AssociationOutcome::Connected, Some([10, 1, 2, 3])),
        WifiProbeResult::Success { ipv4_octets: [10, 1, 2, 3] }
    );
}

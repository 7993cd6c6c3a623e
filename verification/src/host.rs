//! What the host tool sends to the device for each command, and how it judges
//! the device's answer.

use vstd::prelude::*;
use crate::cli::{command_timeout_spec, Command, CommandModel, ModeArg, ModeCommand, MotorCommand, RunCommand, WifiCommand};

verus! {

/// Operating mode of the device.
#[derive(Clone, Copy, Debug, PartialEq, Eq)]
pub enum DeviceMode {
    Manufacturing,
    Production,
}

/// The device mode a command-line mode names.
pub open spec fn device_mode_of(value: ModeArg) -> DeviceMode {
    match value {
        ModeArg::Manufacturing => DeviceMode::Manufacturing,
        ModeArg::Production => DeviceMode::Production,
    }
}

impl From<ModeArg> for DeviceMode {
    fn from(value: ModeArg) -> (mode: Self) {
        match value {
            ModeArg::Manufacturing => DeviceMode::Manufacturing,
            ModeArg::Production => DeviceMode::Production,
        }
    }
}

impl vstd::std_specs::convert::FromSpecImpl<ModeArg> for DeviceMode {
    open spec fn obeys_from_spec() -> bool {
        true
    }

    open spec fn from_spec(value: ModeArg) -> DeviceMode {
        device_mode_of(value)
    }
}

/// A request of the device protocol, with the values it carries.
#[derive(Debug)]
pub enum DeviceRequestKind {
    GetInfo,
    GetStatus,
    SetMode(DeviceMode),
    GetWifiStatus,
    SetWifiConfig { ssid: String, password: String },
    ClearWifiConfig,
    ValidateWifi,
    StartMotorCalibration,
    StartRun,
    StopRun,
    Reboot,
}

/// The kinds of answer the device gives.
#[derive(Clone, Copy, Debug, PartialEq, Eq, Structural)]
pub enum ReplyKind {
    Ack,
    Info,
    Status,
    WifiStatus,
    CalibrationStatus,
    WifiValidation,
    Error,
}

/// How the answer to a request is judged and shown.
#[derive(Clone, Copy, Debug, PartialEq, Eq)]
pub enum ReplyHandling {
    /// Device information is expected and printed.
    ExpectInfo,
    /// A status report is expected and printed in full.
    ExpectStatus,
    /// A status report is expected; only its mode is printed.
    ExpectStatusMode,
    /// A Wi-Fi status is expected and printed.
    ExpectWifiStatus,
    /// An acknowledgement is expected; the message is printed on success.
    ExpectAck { message: &'static str },
    /// Any answer but an error is printed.
    PrintAny,
}

/// Why an answer was not the one expected.
#[derive(Clone, Copy, Debug, PartialEq, Eq)]
pub enum ReplyError {
    /// The device answered with an error.
    Device,
    /// The device answered with another kind of answer.
    Unexpected,
}

/// Whether `r` is the request that command `c` sends.
pub open spec fn request_matches(c: CommandModel, r: DeviceRequestKind) -> bool {
    match c {
        CommandModel::Info => r is GetInfo,
        CommandModel::Status => r is GetStatus,
        CommandModel::ModeGet => r is GetStatus,
        CommandModel::ModeSet(m) => r == DeviceRequestKind::SetMode(device_mode_of(m)),
        CommandModel::WifiStatus => r is GetWifiStatus,
        CommandModel::WifiSet(ssid, password) => match r {
            DeviceRequestKind::SetWifiConfig { ssid: s, password: p } => s@ == ssid && p@ == password,
            _ => false,
        },
        CommandModel::WifiClear => r is ClearWifiConfig,
        CommandModel::WifiValidate => r is ValidateWifi,
        CommandModel::MotorCalibrate => r is StartMotorCalibration,
        CommandModel::RunStart => r is StartRun,
        CommandModel::RunStop => r is StopRun,
        CommandModel::Reboot => r is Reboot,
    }
}

/// How the answer to a command is handled.
pub open spec fn handling_spec(c: CommandModel) -> ReplyHandling {
    match c {
        CommandModel::Info => ReplyHandling::ExpectInfo,
        CommandModel::Status => ReplyHandling::ExpectStatus,
        CommandModel::ModeGet => ReplyHandling::ExpectStatusMode,
        CommandModel::ModeSet(_) => ReplyHandling::ExpectAck { message: "mode change accepted" },
        CommandModel::WifiStatus => ReplyHandling::ExpectWifiStatus,
        CommandModel::RunStart => ReplyHandling::ExpectAck { message: "run started" },
        CommandModel::RunStop => ReplyHandling::ExpectAck { message: "run stopped" },
        CommandModel::Reboot => ReplyHandling::ExpectAck { message: "reboot accepted" },
        _ => ReplyHandling::PrintAny,
    }
}

/// The request to send for a command and how to handle the answer.
pub fn plan_request(command: &Command) -> (plan: (DeviceRequestKind, ReplyHandling))
    ensures
        request_matches(command@, plan.0),
        plan.1 == handling_spec(command@),
{
    match command {
        Command::Info => (DeviceRequestKind::GetInfo, ReplyHandling::ExpectInfo),
        Command::Status => (DeviceRequestKind::GetStatus, ReplyHandling::ExpectStatus),
        Command::Mode { command } => match command {
            ModeCommand::Get => (DeviceRequestKind::GetStatus, ReplyHandling::ExpectStatusMode),
            ModeCommand::SetMode { mode } => (
                DeviceRequestKind::SetMode(DeviceMode::from(*mode)),
                ReplyHandling::ExpectAck { message: "mode change accepted" },
            ),
        },
        Command::Wifi { command } => match command {
            WifiCommand::Status => (DeviceRequestKind::GetWifiStatus, ReplyHandling::ExpectWifiStatus),
            WifiCommand::SetCredentials { ssid, password } => (
                DeviceRequestKind::SetWifiConfig { ssid: ssid.clone(), password: password.clone() },
                ReplyHandling::PrintAny,
            ),
            WifiCommand::Clear => (DeviceRequestKind::ClearWifiConfig, ReplyHandling::PrintAny),
            WifiCommand::Validate => (DeviceRequestKind::ValidateWifi, ReplyHandling::PrintAny),
        },
        Command::Motor { command: MotorCommand::Calibrate } => (
            DeviceRequestKind::StartMotorCalibration,
            ReplyHandling::PrintAny,
        ),
        Command::Run { command } => match command {
            RunCommand::Start => (
                DeviceRequestKind::StartRun,
                ReplyHandling::ExpectAck { message: "run started" },
            ),
            RunCommand::Stop => (
                DeviceRequestKind::StopRun,
                ReplyHandling::ExpectAck { message: "run stopped" },
            ),
        },
        Command::Reboot => (
            DeviceRequestKind::Reboot,
            ReplyHandling::ExpectAck { message: "reboot accepted" },
        ),
    }
}

/// Whether an answer of kind `reply` is the one the handling waits for.
pub open spec fn accepts(handling: ReplyHandling, reply: ReplyKind) -> bool {
    match handling {
        ReplyHandling::ExpectInfo => reply == ReplyKind::Info,
        ReplyHandling::ExpectStatus => reply == ReplyKind::Status,
        ReplyHandling::ExpectStatusMode => reply == ReplyKind::Status,
        ReplyHandling::ExpectWifiStatus => reply == ReplyKind::WifiStatus,
        ReplyHandling::ExpectAck { .. } => reply == ReplyKind::Ack,
        ReplyHandling::PrintAny => reply != ReplyKind::Error,
    }
}

/// Judges an answer: a device error is always a failure, the expected kind
/// succeeds, and anything else is unexpected.
pub fn check_reply(handling: ReplyHandling, reply: ReplyKind) -> (r: Result<(), ReplyError>)
    ensures
        reply == ReplyKind::Error ==> r == Err::<(), ReplyError>(ReplyError::Device),
        reply != ReplyKind::Error ==> (r is Ok <==> accepts(handling, reply)),
        reply != ReplyKind::Error && !accepts(handling, reply) ==> r == Err::<(), ReplyError>(
            ReplyError::Unexpected,
        ),
{
    if reply == ReplyKind::Error {
        return Err(ReplyError::Device);
    }
    let ok = match handling {
        ReplyHandling::ExpectInfo => reply == ReplyKind::Info,
        ReplyHandling::ExpectStatus => reply == ReplyKind::Status,
        ReplyHandling::ExpectStatusMode => reply == ReplyKind::Status,
        ReplyHandling::ExpectWifiStatus => reply == ReplyKind::WifiStatus,
        ReplyHandling::ExpectAck { .. } => reply == ReplyKind::Ack,
        ReplyHandling::PrintAny => true,
    };
    if ok {
        Ok(())
    } else {
        Err(ReplyError::Unexpected)
    }
}

/// The answer each command waits for is the one that serves its request:
/// `info` accepts exactly device information; `status` and `mode get` exactly
/// a status report; `wifi status` exactly a Wi-Fi status; `mode set`,
/// `run start`, `run stop` and `reboot` exactly an acknowledgement; the other
/// commands print any answer but an error. No command accepts a device error.
pub proof fn lemma_each_command_accepts_its_answer(c: CommandModel, k: ReplyKind)
    ensures
        c is Info ==> (accepts(handling_spec(c), k) <==> k == ReplyKind::Info),
        (c is Status || c is ModeGet) ==> (accepts(handling_spec(c), k) <==> k == ReplyKind::Status),
        c is WifiStatus ==> (accepts(handling_spec(c), k) <==> k == ReplyKind::WifiStatus),
        (c is ModeSet || c is RunStart || c is RunStop || c is Reboot) ==> (accepts(
            handling_spec(c),
            k,
        ) <==> k == ReplyKind::Ack),
        (c is WifiSet || c is WifiClear || c is WifiValidate || c is MotorCalibrate) ==> (accepts(
            handling_spec(c),
            k,
        ) <==> k != ReplyKind::Error),
        !accepts(handling_spec(c), ReplyKind::Error),
{
}

/// Each command sends the request that asks for what the command is about:
/// `info` device information, `status` and `mode get` a status report,
/// `mode set` the named mode, `wifi status` the Wi-Fi status, `wifi set` the
/// given credentials unchanged, and the remaining commands their own action.
pub proof fn lemma_each_command_sends_its_request(c: CommandModel, r: DeviceRequestKind)
    requires
        request_matches(c, r),
    ensures
        c is Info ==> r is GetInfo,
        (c is Status || c is ModeGet) ==> r is GetStatus,
        c matches CommandModel::ModeSet(m) ==> r == DeviceRequestKind::SetMode(
            match m {
                ModeArg::Manufacturing => DeviceMode::Manufacturing,
                ModeArg::Production => DeviceMode::Production,
            },
        ),
        c is WifiStatus ==> r is GetWifiStatus,
        c matches CommandModel::WifiSet(ssid, password) ==> (r matches DeviceRequestKind::SetWifiConfig {
            ssid: s,
            password: p,
        } && s@ == ssid && p@ == password),
        c is WifiClear ==> r is ClearWifiConfig,
        c is WifiValidate ==> r is ValidateWifi,
        c is MotorCalibrate ==> r is StartMotorCalibration,
        c is RunStart ==> r is StartRun,
        c is RunStop ==> r is StopRun,
        c is Reboot ==> r is Reboot,
{
}

/// Waiting times follow the work the device does: 20 s for Wi-Fi credential
/// changes and validation (association and DHCP), 120 s for motor
/// calibration, 5 s for everything else.
pub proof fn lemma_command_timeouts(c: CommandModel)
    ensures
        (c is WifiSet || c is WifiValidate) ==> command_timeout_spec(c) == 20,
        c is MotorCalibrate ==> command_timeout_spec(c) == 120,
        !(c is WifiSet || c is WifiValidate || c is MotorCalibrate) ==> command_timeout_spec(c) == 5,
{
}

} // verus!

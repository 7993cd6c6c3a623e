use pendulum::cli::{
    command_timeout, Cli, CliError, Command, ModeArg, ModeCommand, MotorCommand, RunCommand,
    WifiCommand, DEFAULT_SENSOR_TELEMETRY_BAUD, DEFAULT_SERIAL_PORT,
};

#[test]
fn parses_mode_set_command() {
    let cli = Cli::try_parse_from(&["pendev", "mode", "set", "production"]).unwrap();
    match cli.command {
        Command::Mode { command: ModeCommand::SetMode { mode } } => {
            assert!(matches!(mode, ModeArg::Production));
        }
        other => panic!("unexpected command: {other:?}"),
    }
}

#[test]
fn parses_wifi_set_arguments() {
    let cli =
        Cli::try_parse_from(&["pendev", "wifi", "set", "pendulum-net", "super-secret"]).unwrap();

    match cli.command {
        Command::Wifi {
            command: WifiCommand::SetCredentials { ssid, password },
        } => {
            assert_eq!(ssid, "pendulum-net");
            assert_eq!(password, "super-secret");
        }
        other => panic!("unexpected command: {other:?}"),
    }
}

#[test]
fn defaults_apply_without_options() {
    let cli = Cli::try_parse_from(&["pendev", "info"]).unwrap();
    assert_eq!(cli.port, DEFAULT_SERIAL_PORT);
    assert_eq!(cli.port, "/dev/cu.usbserial-110");
    assert_eq!(cli.baud, DEFAULT_SENSOR_TELEMETRY_BAUD);
    assert_eq!(cli.baud, 115_200);
    assert!(matches!(cli.command, Command::Info));
}

#[test]
fn options_in_both_spellings() {
    let cli = Cli::try_parse_from(&["pendev", "--port", "/dev/ttyUSB0", "--baud=921600", "status"])
        .unwrap();
    assert_eq!(cli.port, "/dev/ttyUSB0");
    assert_eq!(cli.baud, 921_600);
    assert!(matches!(cli.command, Command::Status));

    let cli = Cli::try_parse_from(&["pendev", "--baud", "+9600", "--port=COM3", "reboot"]).unwrap();
    assert_eq!(cli.port, "COM3");
    assert_eq!(cli.baud, 9600);
    assert!(matches!(cli.command, Command::Reboot));
}

#[test]
fn every_command_parses() {
    let cases: [(&[&str], fn(&Command) -> bool); 11] = [
        (&["p", "status"], |c| matches!(c, Command::Status)),
        (&["p", "mode", "get"], |c| matches!(c, Command::Mode { command: ModeCommand::Get })),
        (&["p", "mode", "set", "manufacturing"], |c| {
            matches!(c, Command::Mode { command: ModeCommand::SetMode { mode: ModeArg::Manufacturing } })
        }),
        (&["p", "wifi", "status"], |c| matches!(c, Command::Wifi { command: WifiCommand::Status })),
        (&["p", "wifi", "clear"], |c| matches!(c, Command::Wifi { command: WifiCommand::Clear })),
        (&["p", "wifi", "validate"], |c| {
            matches!(c, Command::Wifi { command: WifiCommand::Validate })
        }),
        (&["p", "motor", "calibrate"], |c| {
            matches!(c, Command::Motor { command: MotorCommand::Calibrate })
        }),
        (&["p", "run", "start"], |c| matches!(c, Command::Run { command: RunCommand::Start })),
        (&["p", "run", "stop"], |c| matches!(c, Command::Run { command: RunCommand::Stop })),
        (&["p", "reboot"], |c| matches!(c, Command::Reboot)),
        (&["p", "info"], |c| matches!(c, Command::Info)),
    ];
    for (args, check) in cases {
        let cli = Cli::try_parse_from(args).unwrap();
        assert!(check(&cli.command), "{args:?}");
    }
}

#[test]
fn values_after_double_dash_are_literal() {
    let cli = Cli::try_parse_from(&["pendev", "wifi", "set", "--", "-lab-", "--pw"]).unwrap();
    match cli.command {
        Command::Wifi { command: WifiCommand::SetCredentials { ssid, password } } => {
            assert_eq!(ssid, "-lab-");
            assert_eq!(password, "--pw");
        }
        other => panic!("unexpected command: {other:?}"),
    }
}

#[test]
fn rejected_command_lines() {
    let err = |args: &[&str]| Cli::try_parse_from(args).unwrap_err();
    assert_eq!(err(&["pendev"]), CliError::MissingSubcommand);
    assert_eq!(err(&[]), CliError::MissingSubcommand);
    assert_eq!(err(&["pendev", "--help"]), CliError::Help);
    assert_eq!(err(&["pendev", "help"]), CliError::Help);
    assert_eq!(err(&["pendev", "mode", "-h"]), CliError::Help);
    assert_eq!(err(&["pendev", "fly"]), CliError::InvalidSubcommand);
    assert_eq!(err(&["pendev", "mode", "toggle"]), CliError::InvalidSubcommand);
    assert_eq!(err(&["pendev", "mode"]), CliError::MissingSubcommand);
    assert_eq!(err(&["pendev", "mode", "set"]), CliError::MissingRequiredArgument);
    assert_eq!(err(&["pendev", "mode", "set", "testing"]), CliError::InvalidValue);
    assert_eq!(err(&["pendev", "wifi", "set", "net"]), CliError::MissingRequiredArgument);
    assert_eq!(err(&["pendev", "wifi", "set", "a", "b", "c"]), CliError::UnexpectedArgument);
    assert_eq!(err(&["pendev", "info", "now"]), CliError::UnexpectedArgument);
    assert_eq!(err(&["pendev", "--verbose", "info"]), CliError::UnknownArgument);
    assert_eq!(err(&["pendev", "status", "--port", "x"]), CliError::UnknownArgument);
    assert_eq!(err(&["pendev", "--port"]), CliError::MissingValue);
    assert_eq!(err(&["pendev", "--port", "--baud", "1", "info"]), CliError::MissingValue);
    assert_eq!(err(&["pendev", "--port", "a", "--port=b", "info"]), CliError::DuplicateArgument);
    assert_eq!(err(&["pendev", "--baud", "fast", "info"]), CliError::InvalidValue);
    assert_eq!(err(&["pendev", "--baud=4294967296", "info"]), CliError::InvalidValue);
    assert_eq!(err(&["pendev", "--baud=-5", "info"]), CliError::InvalidValue);
}

#[test]
fn baud_limits() {
    assert_eq!(Cli::try_parse_from(&["p", "--baud=4294967295", "info"]).unwrap().baud, u32::MAX);
    assert_eq!(Cli::try_parse_from(&["p", "--baud=-0", "info"]).unwrap().baud, 0);
    assert_eq!(Cli::try_parse_from(&["p", "--baud=000115200", "info"]).unwrap().baud, 115_200);
}

#[test]
fn timeouts_follow_the_command() {
    let timeout = |args: &[&str]| command_timeout(&Cli::try_parse_from(args).unwrap().command);
    assert_eq!(timeout(&["p", "wifi", "set", "a", "b"]), 20);
    assert_eq!(timeout(&["p", "wifi", "validate"]), 20);
    assert_eq!(timeout(&["p", "wifi", "status"]), 5);
    assert_eq!(timeout(&["p", "motor", "calibrate"]), 120);
    assert_eq!(timeout(&["p", "info"]), 5);
    assert_eq!(timeout(&["p", "run", "start"]), 5);
}

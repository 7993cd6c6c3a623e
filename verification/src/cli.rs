//! Command-line grammar of the host tool that talks to the device over its
//! serial link.
//!
//! ```text
//! pendev [--port <PORT>] [--baud <BAUD>] <COMMAND>
//!   info | status | reboot
//!   mode get | mode set <manufacturing|production>
//!   wifi status | wifi set <SSID> <PASSWORD> | wifi clear | wifi validate
//!   motor calibrate
//!   run start | run stop
//! ```
//!
//! Options precede the command and may be written `--port <V>` or
//! `--port=<V>`; each may be given once. `--help`, `-h` or a `help` command
//! anywhere a command or argument is expected asks for help. After `--`,
//! every further argument of a command is taken as a value.

use vstd::prelude::*;
use vstd::string::*;
use crate::text::{decimal_chars, lemma_parse_u32_of_decimal, has_prefix, is_flag, parse_u32, parse_u32_spec, str_eq, str_has_prefix, str_is_flag};

verus! {

/// Serial port used when `--port` is not given.
pub const DEFAULT_SERIAL_PORT: &'static str = "/dev/cu.usbserial-110";

/// Baud rate used when `--baud` is not given.
pub const DEFAULT_SENSOR_TELEMETRY_BAUD: u32 = 115_200;

/// Parsed command line.
#[derive(Debug)]
pub struct Cli {
    pub port: String,
    pub baud: u32,
    pub command: Command,
}

/// Top-level command.
#[derive(Debug)]
pub enum Command {
    Info,
    Status,
    Mode { command: ModeCommand },
    Wifi { command: WifiCommand },
    Motor { command: MotorCommand },
    Run { command: RunCommand },
    Reboot,
}

#[derive(Debug)]
pub enum ModeCommand {
    Get,
    SetMode { mode: ModeArg },
}

#[derive(Debug)]
pub enum WifiCommand {
    Status,
    SetCredentials { ssid: String, password: String },
    Clear,
    Validate,
}

#[derive(Debug)]
pub enum MotorCommand {
    Calibrate,
}

#[derive(Debug)]
pub enum RunCommand {
    Start,
    Stop,
}

/// Device operating mode named on the command line.
#[derive(Clone, Copy, Debug, PartialEq, Eq)]
pub enum ModeArg {
    Manufacturing,
    Production,
}

/// Why a command line was not accepted.
#[derive(Clone, Copy, Debug, PartialEq, Eq)]
pub enum CliError {
    /// Help was asked for.
    Help,
    /// A command or subcommand was expected but the arguments ended.
    MissingSubcommand,
    /// The word where a command or subcommand was expected is not one.
    InvalidSubcommand,
    /// An option that the command does not have.
    UnknownArgument,
    /// An argument after all of the command's values were given.
    UnexpectedArgument,
    /// An option without its value.
    MissingValue,
    /// A value that is not one the argument accepts.
    InvalidValue,
    /// An option given more than once.
    DuplicateArgument,
    /// A required value of the command is missing.
    MissingRequiredArgument,
}

/// A parsed command with its values as character sequences.
pub enum CommandModel {
    Info,
    Status,
    ModeGet,
    ModeSet(ModeArg),
    WifiStatus,
    WifiSet(Seq<char>, Seq<char>),
    WifiClear,
    WifiValidate,
    MotorCalibrate,
    RunStart,
    RunStop,
    Reboot,
}

/// A parsed command line with its values as character sequences.
pub struct CliModel {
    pub port: Seq<char>,
    pub baud: u32,
    pub command: CommandModel,
}

impl View for Command {
    type V = CommandModel;

    open spec fn view(&self) -> CommandModel {
        match self {
            Command::Info => CommandModel::Info,
            Command::Status => CommandModel::Status,
            Command::Mode { command: ModeCommand::Get } => CommandModel::ModeGet,
            Command::Mode { command: ModeCommand::SetMode { mode } } => CommandModel::ModeSet(*mode),
            Command::Wifi { command: WifiCommand::Status } => CommandModel::WifiStatus,
            Command::Wifi { command: WifiCommand::SetCredentials { ssid, password } } => CommandModel::WifiSet(
                ssid@,
                password@,
            ),
            Command::Wifi { command: WifiCommand::Clear } => CommandModel::WifiClear,
            Command::Wifi { command: WifiCommand::Validate } => CommandModel::WifiValidate,
            Command::Motor { command: MotorCommand::Calibrate } => CommandModel::MotorCalibrate,
            Command::Run { command: RunCommand::Start } => CommandModel::RunStart,
            Command::Run { command: RunCommand::Stop } => CommandModel::RunStop,
            Command::Reboot => CommandModel::Reboot,
        }
    }
}

impl View for Cli {
    type V = CliModel;

    open spec fn view(&self) -> CliModel {
        CliModel { port: self.port@, baud: self.baud, command: self.command@ }
    }
}

/// The characters of each argument.
pub open spec fn arg_views(args: Seq<&str>) -> Seq<Seq<char>> {
    args.map_values(|a: &str| a@)
}

/// Whether the token asks for help.
pub open spec fn is_help(t: Seq<char>) -> bool {
    t == "--help"@ || t == "-h"@
}

/// The mode named by a value.
pub open spec fn mode_arg_spec(t: Seq<char>) -> Option<ModeArg> {
    if t == "manufacturing"@ {
        Some(ModeArg::Manufacturing)
    } else if t == "production"@ {
        Some(ModeArg::Production)
    } else {
        None
    }
}

/// Collects the values of a command from `args[k..]`: indices of exactly
/// `needed` value arguments, after `acc` already collected. Before `--`, an
/// option-like argument is help or an unknown option; after it, everything is
/// a value.
pub open spec fn values_spec(args: Seq<Seq<char>>, k: int, raw: bool, acc: Seq<int>, needed: nat) -> Result<
    Seq<int>,
    CliError,
>
    decreases args.len() - k,
{
    if k >= args.len() || k < 0 {
        if acc.len() == needed {
            Ok(acc)
        } else {
            Err(CliError::MissingRequiredArgument)
        }
    } else {
        let t = args[k];
        if !raw && t == "--"@ {
            values_spec(args, k + 1, true, acc, needed)
        } else if !raw && is_help(t) {
            Err(CliError::Help)
        } else if !raw && is_flag(t) {
            Err(CliError::UnknownArgument)
        } else if acc.len() >= needed {
            Err(CliError::UnexpectedArgument)
        } else {
            values_spec(args, k + 1, raw, acc.push(k), needed)
        }
    }
}

/// A command without values whose arguments start at `k`.
pub open spec fn leaf_spec(args: Seq<Seq<char>>, k: int, c: CommandModel) -> Result<CommandModel, CliError> {
    match values_spec(args, k, false, Seq::empty(), 0) {
        Ok(_) => Ok(c),
        Err(e) => Err(e),
    }
}

/// Checks the word at `k` where a subcommand is expected: `Ok(())` when it
/// may name one.
pub open spec fn subcommand_word_spec(args: Seq<Seq<char>>, k: int) -> Result<(), CliError> {
    if k >= args.len() {
        Err(CliError::MissingSubcommand)
    } else if is_help(args[k]) || args[k] == "help"@ {
        Err(CliError::Help)
    } else if is_flag(args[k]) {
        Err(CliError::UnknownArgument)
    } else {
        Ok(())
    }
}

/// `mode get` or `mode set <MODE>`, with the subcommand at `k`.
pub open spec fn mode_spec(args: Seq<Seq<char>>, k: int) -> Result<CommandModel, CliError> {
    match subcommand_word_spec(args, k) {
        Err(e) => Err(e),
        Ok(()) => if args[k] == "get"@ {
            leaf_spec(args, k + 1, CommandModel::ModeGet)
        } else if args[k] == "set"@ {
            match values_spec(args, k + 1, false, Seq::empty(), 1) {
                Err(e) => Err(e),
                Ok(v) => match mode_arg_spec(args[v[0]]) {
                    Some(m) => Ok(CommandModel::ModeSet(m)),
                    None => Err(CliError::InvalidValue),
                },
            }
        } else {
            Err(CliError::InvalidSubcommand)
        },
    }
}

/// `wifi status | set <SSID> <PASSWORD> | clear | validate`, with the
/// subcommand at `k`.
pub open spec fn wifi_spec(args: Seq<Seq<char>>, k: int) -> Result<CommandModel, CliError> {
    match subcommand_word_spec(args, k) {
        Err(e) => Err(e),
        Ok(()) => if args[k] == "status"@ {
            leaf_spec(args, k + 1, CommandModel::WifiStatus)
        } else if args[k] == "set"@ {
            match values_spec(args, k + 1, false, Seq::empty(), 2) {
                Err(e) => Err(e),
                Ok(v) => Ok(CommandModel::WifiSet(args[v[0]], args[v[1]])),
            }
        } else if args[k] == "clear"@ {
            leaf_spec(args, k + 1, CommandModel::WifiClear)
        } else if args[k] == "validate"@ {
            leaf_spec(args, k + 1, CommandModel::WifiValidate)
        } else {
            Err(CliError::InvalidSubcommand)
        },
    }
}

/// `motor calibrate`, with the subcommand at `k`.
pub open spec fn motor_spec(args: Seq<Seq<char>>, k: int) -> Result<CommandModel, CliError> {
    match subcommand_word_spec(args, k) {
        Err(e) => Err(e),
        Ok(()) => if args[k] == "calibrate"@ {
            leaf_spec(args, k + 1, CommandModel::MotorCalibrate)
        } else {
            Err(CliError::InvalidSubcommand)
        },
    }
}

/// `run start | stop`, with the subcommand at `k`.
pub open spec fn run_spec(args: Seq<Seq<char>>, k: int) -> Result<CommandModel, CliError> {
    match subcommand_word_spec(args, k) {
        Err(e) => Err(e),
        Ok(()) => if args[k] == "start"@ {
            leaf_spec(args, k + 1, CommandModel::RunStart)
        } else if args[k] == "stop"@ {
            leaf_spec(args, k + 1, CommandModel::RunStop)
        } else {
            Err(CliError::InvalidSubcommand)
        },
    }
}

/// The command named at `k` (which is not option-like), with its arguments
/// after it.
pub open spec fn command_spec(args: Seq<Seq<char>>, k: int) -> Result<CommandModel, CliError> {
    let t = args[k];
    if t == "info"@ {
        leaf_spec(args, k + 1, CommandModel::Info)
    } else if t == "status"@ {
        leaf_spec(args, k + 1, CommandModel::Status)
    } else if t == "reboot"@ {
        leaf_spec(args, k + 1, CommandModel::Reboot)
    } else if t == "help"@ {
        Err(CliError::Help)
    } else if t == "mode"@ {
        mode_spec(args, k + 1)
    } else if t == "wifi"@ {
        wifi_spec(args, k + 1)
    } else if t == "motor"@ {
        motor_spec(args, k + 1)
    } else if t == "run"@ {
        run_spec(args, k + 1)
    } else {
        Err(CliError::InvalidSubcommand)
    }
}

/// Options from `args[i..]` up to the command, with the port and baud seen so
/// far; then the command.
pub open spec fn options_spec(
    args: Seq<Seq<char>>,
    i: int,
    port: Option<Seq<char>>,
    baud: Option<u32>,
) -> Result<CliModel, CliError>
    decreases args.len() - i,
{
    if i >= args.len() || i < 0 {
        Err(CliError::MissingSubcommand)
    } else {
        let t = args[i];
        if t == "--port"@ {
            if i + 1 >= args.len() || is_flag(args[i + 1]) {
                Err(CliError::MissingValue)
            } else if port is Some {
                Err(CliError::DuplicateArgument)
            } else {
                options_spec(args, i + 2, Some(args[i + 1]), baud)
            }
        } else if has_prefix(t, "--port="@) {
            if port is Some {
                Err(CliError::DuplicateArgument)
            } else {
                options_spec(args, i + 1, Some(t.skip(7)), baud)
            }
        } else if t == "--baud"@ {
            if i + 1 >= args.len() || is_flag(args[i + 1]) {
                Err(CliError::MissingValue)
            } else if baud is Some {
                Err(CliError::DuplicateArgument)
            } else {
                match parse_u32_spec(args[i + 1]) {
                    None => Err(CliError::InvalidValue),
                    Some(b) => options_spec(args, i + 2, port, Some(b)),
                }
            }
        } else if has_prefix(t, "--baud="@) {
            if baud is Some {
                Err(CliError::DuplicateArgument)
            } else {
                match parse_u32_spec(t.skip(7)) {
                    None => Err(CliError::InvalidValue),
                    Some(b) => options_spec(args, i + 1, port, Some(b)),
                }
            }
        } else if is_help(t) {
            Err(CliError::Help)
        } else if is_flag(t) {
            Err(CliError::UnknownArgument)
        } else {
            match command_spec(args, i) {
                Err(e) => Err(e),
                Ok(c) => Ok(
                    CliModel {
                        port: match port {
                            Some(p) => p,
                            None => DEFAULT_SERIAL_PORT@,
                        },
                        baud: match baud {
                            Some(b) => b,
                            None => DEFAULT_SENSOR_TELEMETRY_BAUD,
                        },
                        command: c,
                    },
                ),
            }
        }
    }
}

/// The meaning of a whole command line, program name first.
pub open spec fn parse_cli_spec(args: Seq<Seq<char>>) -> Result<CliModel, CliError> {
    if args.len() == 0 {
        Err(CliError::MissingSubcommand)
    } else {
        options_spec(args, 1, None, None)
    }
}

/// The word naming a mode on the command line.
pub open spec fn mode_word(m: ModeArg) -> Seq<char> {
    match m {
        ModeArg::Manufacturing => "manufacturing"@,
        ModeArg::Production => "production"@,
    }
}

/// The canonical arguments of a command: its words, then `--` before free-form
/// values so that they are taken literally.
pub open spec fn render_command(c: CommandModel) -> Seq<Seq<char>> {
    match c {
        CommandModel::Info => seq!["info"@],
        CommandModel::Status => seq!["status"@],
        CommandModel::ModeGet => seq!["mode"@, "get"@],
        CommandModel::ModeSet(m) => seq!["mode"@, "set"@, mode_word(m)],
        CommandModel::WifiStatus => seq!["wifi"@, "status"@],
        CommandModel::WifiSet(ssid, password) => seq!["wifi"@, "set"@, "--"@, ssid, password],
        CommandModel::WifiClear => seq!["wifi"@, "clear"@],
        CommandModel::WifiValidate => seq!["wifi"@, "validate"@],
        CommandModel::MotorCalibrate => seq!["motor"@, "calibrate"@],
        CommandModel::RunStart => seq!["run"@, "start"@],
        CommandModel::RunStop => seq!["run"@, "stop"@],
        CommandModel::Reboot => seq!["reboot"@],
    }
}

/// The canonical command line of a parsed command line: program name, both
/// options in `--name=value` form, then the command.
pub open spec fn render_cli(program: Seq<char>, m: CliModel) -> Seq<Seq<char>> {
    seq![program, "--port="@ + m.port, "--baud="@ + decimal_chars(m.baud as nat)] + render_command(
        m.command,
    )
}

/// Index values as integers.
pub open spec fn idx_view(v: Seq<usize>) -> Seq<int> {
    v.map_values(|x: usize| x as int)
}

/// Collected value indices as integers.
pub open spec fn values_view(r: Result<Vec<usize>, CliError>) -> Result<Seq<int>, CliError> {
    match r {
        Ok(v) => Ok(idx_view(v@)),
        Err(e) => Err(e),
    }
}

/// A parsed command as its model.
pub open spec fn command_view(r: Result<Command, CliError>) -> Result<CommandModel, CliError> {
    match r {
        Ok(c) => Ok(c@),
        Err(e) => Err(e),
    }
}

/// A parsed command line as its model.
pub open spec fn cli_view(r: Result<Cli, CliError>) -> Result<CliModel, CliError> {
    match r {
        Ok(c) => Ok(c@),
        Err(e) => Err(e),
    }
}

fn is_help_arg(t: &str) -> (r: bool)
    ensures
        r == is_help(t@),
{
    str_eq(t, "--help") || str_eq(t, "-h")
}

fn values(args: &[&str], k: usize, raw: bool, acc: Vec<usize>, needed: usize) -> (r: Result<
    Vec<usize>,
    CliError,
>)
    requires
        k <= args@.len(),
        forall|j: int| 0 <= j < acc@.len() ==> #[trigger] acc@[j] < k,
    ensures
        values_view(r) == values_spec(arg_views(args@), k as int, raw, idx_view(acc@), needed as nat),
        r matches Ok(v) ==> v@.len() == needed && forall|j: int|
            0 <= j < v@.len() ==> #[trigger] v@[j] < args@.len(),
    decreases args@.len() - k,
{
    let ghost a = arg_views(args@);
    if k >= args.len() {
        if acc.len() == needed {
            return Ok(acc);
        } else {
            return Err(CliError::MissingRequiredArgument);
        }
    }
    let t = args[k];
    assert(a[k as int] == t@);
    if !raw && str_eq(t, "--") {
        values(args, k + 1, true, acc, needed)
    } else if !raw && is_help_arg(t) {
        Err(CliError::Help)
    } else if !raw && str_is_flag(t) {
        Err(CliError::UnknownArgument)
    } else if acc.len() >= needed {
        Err(CliError::UnexpectedArgument)
    } else {
        let mut acc2 = acc;
        acc2.push(k);
        assert(idx_view(acc2@) =~= idx_view(acc@).push(k as int));
        values(args, k + 1, raw, acc2, needed)
    }
}

fn leaf(args: &[&str], k: usize, c: Command) -> (r: Result<Command, CliError>)
    requires
        k <= args@.len(),
    ensures
        command_view(r) == leaf_spec(arg_views(args@), k as int, c@),
{
    let empty: Vec<usize> = Vec::new();
    assert(idx_view(empty@) =~= Seq::<int>::empty());
    match values(args, k, false, empty, 0) {
        Ok(_) => Ok(c),
        Err(e) => Err(e),
    }
}

fn subcommand_word(args: &[&str], k: usize) -> (r: Result<(), CliError>)
    requires
        k <= args@.len(),
    ensures
        r == subcommand_word_spec(arg_views(args@), k as int),
{
    if k >= args.len() {
        return Err(CliError::MissingSubcommand);
    }
    let t = args[k];
    assert(arg_views(args@)[k as int] == t@);
    if is_help_arg(t) || str_eq(t, "help") {
        Err(CliError::Help)
    } else if str_is_flag(t) {
        Err(CliError::UnknownArgument)
    } else {
        Ok(())
    }
}

fn mode_arg(t: &str) -> (r: Option<ModeArg>)
    ensures
        r == mode_arg_spec(t@),
{
    if str_eq(t, "manufacturing") {
        Some(ModeArg::Manufacturing)
    } else if str_eq(t, "production") {
        Some(ModeArg::Production)
    } else {
        None
    }
}

fn first_values(args: &[&str], k: usize, needed: usize) -> (r: Result<Vec<usize>, CliError>)
    requires
        k <= args@.len(),
    ensures
        values_view(r) == values_spec(arg_views(args@), k as int, false, Seq::empty(), needed as nat),
        r matches Ok(v) ==> v@.len() == needed && forall|j: int|
            0 <= j < v@.len() ==> #[trigger] v@[j] < args@.len(),
{
    let empty: Vec<usize> = Vec::new();
    assert(idx_view(empty@) =~= Seq::<int>::empty());
    values(args, k, false, empty, needed)
}

fn mode(args: &[&str], k: usize) -> (r: Result<Command, CliError>)
    requires
        k <= args@.len(),
    ensures
        command_view(r) == mode_spec(arg_views(args@), k as int),
{
    if let Err(e) = subcommand_word(args, k) {
        return Err(e);
    }
    let t = args[k];
    let ghost a = arg_views(args@);
    assert(a[k as int] == t@);
    if str_eq(t, "get") {
        leaf(args, k + 1, Command::Mode { command: ModeCommand::Get })
    } else if str_eq(t, "set") {
        match first_values(args, k + 1, 1) {
            Err(e) => Err(e),
            Ok(v) => {
                let i = v[0];
                assert(a[idx_view(v@)[0]] == args@[i as int]@);
                match mode_arg(args[i]) {
                    Some(m) => Ok(Command::Mode { command: ModeCommand::SetMode { mode: m } }),
                    None => Err(CliError::InvalidValue),
                }
            },
        }
    } else {
        Err(CliError::InvalidSubcommand)
    }
}

fn wifi(args: &[&str], k: usize) -> (r: Result<Command, CliError>)
    requires
        k <= args@.len(),
    ensures
        command_view(r) == wifi_spec(arg_views(args@), k as int),
{
    if let Err(e) = subcommand_word(args, k) {
        return Err(e);
    }
    let t = args[k];
    let ghost a = arg_views(args@);
    assert(a[k as int] == t@);
    if str_eq(t, "status") {
        leaf(args, k + 1, Command::Wifi { command: WifiCommand::Status })
    } else if str_eq(t, "set") {
        match first_values(args, k + 1, 2) {
            Err(e) => Err(e),
            Ok(v) => {
                let i = v[0];
                let j = v[1];
                assert(a[idx_view(v@)[0]] == args@[i as int]@);
                assert(a[idx_view(v@)[1]] == args@[j as int]@);
                let ssid = String::from_str(args[i]);
                let password = String::from_str(args[j]);
                Ok(Command::Wifi { command: WifiCommand::SetCredentials { ssid, password } })
            },
        }
    } else if str_eq(t, "clear") {
        leaf(args, k + 1, Command::Wifi { command: WifiCommand::Clear })
    } else if str_eq(t, "validate") {
        leaf(args, k + 1, Command::Wifi { command: WifiCommand::Validate })
    } else {
        Err(CliError::InvalidSubcommand)
    }
}

fn motor(args: &[&str], k: usize) -> (r: Result<Command, CliError>)
    requires
        k <= args@.len(),
    ensures
        command_view(r) == motor_spec(arg_views(args@), k as int),
{
    if let Err(e) = subcommand_word(args, k) {
        return Err(e);
    }
    let t = args[k];
    assert(arg_views(args@)[k as int] == t@);
    if str_eq(t, "calibrate") {
        leaf(args, k + 1, Command::Motor { command: MotorCommand::Calibrate })
    } else {
        Err(CliError::InvalidSubcommand)
    }
}

fn run(args: &[&str], k: usize) -> (r: Result<Command, CliError>)
    requires
        k <= args@.len(),
    ensures
        command_view(r) == run_spec(arg_views(args@), k as int),
{
    if let Err(e) = subcommand_word(args, k) {
        return Err(e);
    }
    let t = args[k];
    assert(arg_views(args@)[k as int] == t@);
    if str_eq(t, "start") {
        leaf(args, k + 1, Command::Run { command: RunCommand::Start })
    } else if str_eq(t, "stop") {
        leaf(args, k + 1, Command::Run { command: RunCommand::Stop })
    } else {
        Err(CliError::InvalidSubcommand)
    }
}

fn command(args: &[&str], k: usize) -> (r: Result<Command, CliError>)
    requires
        k < args@.len(),
    ensures
        command_view(r) == command_spec(arg_views(args@), k as int),
{
    let t = args[k];
    assert(arg_views(args@)[k as int] == t@);
    if str_eq(t, "info") {
        leaf(args, k + 1, Command::Info)
    } else if str_eq(t, "status") {
        leaf(args, k + 1, Command::Status)
    } else if str_eq(t, "reboot") {
        leaf(args, k + 1, Command::Reboot)
    } else if str_eq(t, "help") {
        Err(CliError::Help)
    } else if str_eq(t, "mode") {
        mode(args, k + 1)
    } else if str_eq(t, "wifi") {
        wifi(args, k + 1)
    } else if str_eq(t, "motor") {
        motor(args, k + 1)
    } else if str_eq(t, "run") {
        run(args, k + 1)
    } else {
        Err(CliError::InvalidSubcommand)
    }
}

/// The characters after the first seven (the `--port=` / `--baud=` prefix).
fn after_prefix(t: &str) -> (s: &str)
    requires
        t@.len() >= 7,
    ensures
        s@ == t@.skip(7),
{
    let s = t.substring_char(7, t.unicode_len());
    assert(s@ =~= t@.skip(7));
    s
}

fn options(args: &[&str], i: usize, port: Option<String>, baud: Option<u32>) -> (r: Result<
    Cli,
    CliError,
>)
    requires
        i <= args@.len(),
    ensures
        cli_view(r) == options_spec(
            arg_views(args@),
            i as int,
            match port {
                Some(p) => Some(p@),
                None => None,
            },
            baud,
        ),
    decreases args@.len() - i,
{
    let ghost a = arg_views(args@);
    if i >= args.len() {
        return Err(CliError::MissingSubcommand);
    }
    let t = args[i];
    assert(a[i as int] == t@);
    if str_eq(t, "--port") {
        if i + 1 >= args.len() {
            return Err(CliError::MissingValue);
        }
        assert(a[i + 1] == args@[i + 1]@);
        if str_is_flag(args[i + 1]) {
            Err(CliError::MissingValue)
        } else if port.is_some() {
            Err(CliError::DuplicateArgument)
        } else {
            options(args, i + 2, Some(String::from_str(args[i + 1])), baud)
        }
    } else if str_has_prefix(t, "--port=") {
        proof {
            reveal_strlit("--port=");
        }
        if port.is_some() {
            Err(CliError::DuplicateArgument)
        } else {
            let v = after_prefix(t);
            options(args, i + 1, Some(String::from_str(v)), baud)
        }
    } else if str_eq(t, "--baud") {
        if i + 1 >= args.len() {
            return Err(CliError::MissingValue);
        }
        assert(a[i + 1] == args@[i + 1]@);
        if str_is_flag(args[i + 1]) {
            Err(CliError::MissingValue)
        } else if baud.is_some() {
            Err(CliError::DuplicateArgument)
        } else {
            match parse_u32(args[i + 1]) {
                None => Err(CliError::InvalidValue),
                Some(b) => options(args, i + 2, port, Some(b)),
            }
        }
    } else if str_has_prefix(t, "--baud=") {
        proof {
            reveal_strlit("--baud=");
        }
        if baud.is_some() {
            Err(CliError::DuplicateArgument)
        } else {
            let v = after_prefix(t);
            match parse_u32(v) {
                None => Err(CliError::InvalidValue),
                Some(b) => options(args, i + 1, port, Some(b)),
            }
        }
    } else if is_help_arg(t) {
        Err(CliError::Help)
    } else if str_is_flag(t) {
        Err(CliError::UnknownArgument)
    } else {
        match command(args, i) {
            Err(e) => Err(e),
            Ok(c) => {
                let port = match port {
                    Some(p) => p,
                    None => String::from_str(DEFAULT_SERIAL_PORT),
                };
                let baud = match baud {
                    Some(b) => b,
                    None => DEFAULT_SENSOR_TELEMETRY_BAUD,
                };
                Ok(Cli { port, baud, command: c })
            },
        }
    }
}

impl Cli {
    /// Parses a command line, program name first, according to the grammar
    /// described by `parse_cli_spec`.
    pub fn try_parse_from(args: &[&str]) -> (r: Result<Cli, CliError>)
        ensures
            cli_view(r) == parse_cli_spec(arg_views(args@)),
    {
        if args.len() == 0 {
            return Err(CliError::MissingSubcommand);
        }
        options(args, 1, None, None)
    }
}

/// The characters of the grammar's keywords.
proof fn reveal_keywords()
    ensures
        "--port"@ == seq!['-', '-', 'p', 'o', 'r', 't'],
        "--port="@ == seq!['-', '-', 'p', 'o', 'r', 't', '='],
        "--baud"@ == seq!['-', '-', 'b', 'a', 'u', 'd'],
        "--baud="@ == seq!['-', '-', 'b', 'a', 'u', 'd', '='],
        "--help"@ == seq!['-', '-', 'h', 'e', 'l', 'p'],
        "-h"@ == seq!['-', 'h'],
        "--"@ == seq!['-', '-'],
        "help"@ == seq!['h', 'e', 'l', 'p'],
        "info"@ == seq!['i', 'n', 'f', 'o'],
        "status"@ == seq!['s', 't', 'a', 't', 'u', 's'],
        "reboot"@ == seq!['r', 'e', 'b', 'o', 'o', 't'],
        "mode"@ == seq!['m', 'o', 'd', 'e'],
        "wifi"@ == seq!['w', 'i', 'f', 'i'],
        "motor"@ == seq!['m', 'o', 't', 'o', 'r'],
        "run"@ == seq!['r', 'u', 'n'],
        "get"@ == seq!['g', 'e', 't'],
        "set"@ == seq!['s', 'e', 't'],
        "clear"@ == seq!['c', 'l', 'e', 'a', 'r'],
        "validate"@ == seq!['v', 'a', 'l', 'i', 'd', 'a', 't', 'e'],
        "calibrate"@ == seq!['c', 'a', 'l', 'i', 'b', 'r', 'a', 't', 'e'],
        "start"@ == seq!['s', 't', 'a', 'r', 't'],
        "stop"@ == seq!['s', 't', 'o', 'p'],
        "manufacturing"@ == seq!['m', 'a', 'n', 'u', 'f', 'a', 'c', 't', 'u', 'r', 'i', 'n', 'g'],
        "production"@ == seq!['p', 'r', 'o', 'd', 'u', 'c', 't', 'i', 'o', 'n'],
{
    reveal_strlit("--port");
    reveal_strlit("--port=");
    reveal_strlit("--baud");
    reveal_strlit("--baud=");
    reveal_strlit("--help");
    reveal_strlit("-h");
    reveal_strlit("--");
    reveal_strlit("help");
    reveal_strlit("info");
    reveal_strlit("status");
    reveal_strlit("reboot");
    reveal_strlit("mode");
    reveal_strlit("wifi");
    reveal_strlit("motor");
    reveal_strlit("run");
    reveal_strlit("get");
    reveal_strlit("set");
    reveal_strlit("clear");
    reveal_strlit("validate");
    reveal_strlit("calibrate");
    reveal_strlit("start");
    reveal_strlit("stop");
    reveal_strlit("manufacturing");
    reveal_strlit("production");
    assert("--port"@ =~= seq!['-', '-', 'p', 'o', 'r', 't']);
    assert("--port="@ =~= seq!['-', '-', 'p', 'o', 'r', 't', '=']);
    assert("--baud"@ =~= seq!['-', '-', 'b', 'a', 'u', 'd']);
    assert("--baud="@ =~= seq!['-', '-', 'b', 'a', 'u', 'd', '=']);
    assert("--help"@ =~= seq!['-', '-', 'h', 'e', 'l', 'p']);
    assert("-h"@ =~= seq!['-', 'h']);
    assert("--"@ =~= seq!['-', '-']);
    assert("help"@ =~= seq!['h', 'e', 'l', 'p']);
    assert("info"@ =~= seq!['i', 'n', 'f', 'o']);
    assert("status"@ =~= seq!['s', 't', 'a', 't', 'u', 's']);
    assert("reboot"@ =~= seq!['r', 'e', 'b', 'o', 'o', 't']);
    assert("mode"@ =~= seq!['m', 'o', 'd', 'e']);
    assert("wifi"@ =~= seq!['w', 'i', 'f', 'i']);
    assert("motor"@ =~= seq!['m', 'o', 't', 'o', 'r']);
    assert("run"@ =~= seq!['r', 'u', 'n']);
    assert("get"@ =~= seq!['g', 'e', 't']);
    assert("set"@ =~= seq!['s', 'e', 't']);
    assert("clear"@ =~= seq!['c', 'l', 'e', 'a', 'r']);
    assert("validate"@ =~= seq!['v', 'a', 'l', 'i', 'd', 'a', 't', 'e']);
    assert("calibrate"@ =~= seq!['c', 'a', 'l', 'i', 'b', 'r', 'a', 't', 'e']);
    assert("start"@ =~= seq!['s', 't', 'a', 'r', 't']);
    assert("stop"@ =~= seq!['s', 't', 'o', 'p']);
    assert("manufacturing"@ =~= seq!['m', 'a', 'n', 'u', 'f', 'a', 'c', 't', 'u', 'r', 'i', 'n', 'g']);
    assert("production"@ =~= seq!['p', 'r', 'o', 'd', 'u', 'c', 't', 'i', 'o', 'n']);
}

/// The command words of the canonical form parse back to the command.
proof fn lemma_command_round_trip(args: Seq<Seq<char>>, k: int, c: CommandModel)
    requires
        0 <= k,
        k + render_command(c).len() == args.len(),
        args.subrange(k, args.len() as int) == render_command(c),
    ensures
        command_spec(args, k) == Ok::<CommandModel, CliError>(c),
{
    reveal_keywords();
    let r = render_command(c);
    assert forall|j: int| 0 <= j < r.len() implies args[k + j] == #[trigger] r[j] by {
        assert(args.subrange(k, args.len() as int)[j] == args[k + j]);
    }
    assert(r[0] == args[k]);
    if r.len() > 1 {
        assert(r[1] == args[k + 1]);
        assert(!is_flag(args[k + 1]));
        assert(!is_help(args[k + 1]));
        assert(args[k + 1] != "help"@);
    }
    if r.len() > 2 {
        assert(r[2] == args[k + 2]);
    }
    match c {
        CommandModel::ModeSet(m) => {
            assert(!is_flag(args[k + 2]));
            assert(!is_help(args[k + 2]));
            assert(args[k + 2] != "--"@);
            assert(values_spec(args, k + 3, false, seq![k + 2], 1) == Ok::<Seq<int>, CliError>(
                seq![k + 2],
            ));
        },
        CommandModel::WifiSet(ssid, password) => {
            assert(r[3] == args[k + 3]);
            assert(r[4] == args[k + 4]);
            assert(values_spec(args, k + 5, true, seq![k + 3, k + 4], 2) == Ok::<
                Seq<int>,
                CliError,
            >(seq![k + 3, k + 4]));
            assert(seq![k + 3].push(k + 4) =~= seq![k + 3, k + 4]);
            assert(Seq::<int>::empty().push(k + 3) =~= seq![k + 3]);
            assert(values_spec(args, k + 4, true, seq![k + 3], 2) == Ok::<Seq<int>, CliError>(
                seq![k + 3, k + 4],
            ));
            assert(values_spec(args, k + 3, true, Seq::empty(), 2) == Ok::<Seq<int>, CliError>(
                seq![k + 3, k + 4],
            ));
        },
        _ => {},
    }
}

/// Parsing the canonical command line of any parsed command line gives it
/// back: port, baud rate and command, whatever the program name.
pub proof fn lemma_cli_round_trip(program: Seq<char>, m: CliModel)
    ensures
        parse_cli_spec(render_cli(program, m)) == Ok::<CliModel, CliError>(m),
{
    reveal_keywords();
    let args = render_cli(program, m);
    let pa = "--port="@ + m.port;
    let dec = decimal_chars(m.baud as nat);
    let ba = "--baud="@ + dec;
    assert(args[1] == pa);
    assert(args[2] == ba);
    assert(pa.subrange(0, 7) =~= "--port="@);
    assert(pa.skip(7) =~= m.port);
    assert(pa != "--port"@) by {
        assert(pa.len() != "--port"@.len());
    }
    assert(ba.subrange(0, 7) =~= "--baud="@);
    assert(ba.skip(7) =~= dec);
    assert(ba != "--port"@) by {
        assert(ba.len() != "--port"@.len());
    }
    assert(ba != "--baud"@) by {
        assert(ba.len() != "--baud"@.len());
    }
    assert(!has_prefix(ba, "--port="@)) by {
        assert(ba[2] != "--port="@[2]);
        assert(ba.subrange(0, 7)[2] == ba[2]);
    }
    lemma_parse_u32_of_decimal(m.baud);
    let r = render_command(m.command);
    assert(args.subrange(3, args.len() as int) =~= r);
    let w = args[3];
    assert(w == r[0]);
    assert(!has_prefix(w, "--port="@)) by {
        if w.len() >= 7 {
            assert(w.subrange(0, 7)[0] == w[0]);
        }
    }
    assert(!has_prefix(w, "--baud="@)) by {
        if w.len() >= 7 {
            assert(w.subrange(0, 7)[0] == w[0]);
        }
    }
    lemma_command_round_trip(args, 3, m.command);
    assert(!is_flag(w));
    assert(!is_help(w));
    assert(w != "--port"@ && w != "--baud"@);
    assert(options_spec(args, 3, Some(m.port), Some(m.baud)) == Ok::<CliModel, CliError>(m));
    assert(options_spec(args, 2, Some(m.port), None) == Ok::<CliModel, CliError>(m));
    assert(options_spec(args, 1, None, None) == Ok::<CliModel, CliError>(m));
}

/// Without options, the command is sent on the default serial port at the
/// default baud rate.
pub proof fn lemma_cli_defaults(program: Seq<char>, c: CommandModel)
    ensures
        parse_cli_spec(seq![program] + render_command(c)) == Ok::<CliModel, CliError>(
            CliModel {
                port: DEFAULT_SERIAL_PORT@,
                baud: DEFAULT_SENSOR_TELEMETRY_BAUD,
                command: c,
            },
        ),
{
    reveal_keywords();
    let args = seq![program] + render_command(c);
    let r = render_command(c);
    assert(args.subrange(1, args.len() as int) =~= r);
    let w = args[1];
    assert(w == r[0]);
    assert(!has_prefix(w, "--port="@)) by {
        if w.len() >= 7 {
            assert(w.subrange(0, 7)[0] == w[0]);
        }
    }
    assert(!has_prefix(w, "--baud="@)) by {
        if w.len() >= 7 {
            assert(w.subrange(0, 7)[0] == w[0]);
        }
    }
    lemma_command_round_trip(args, 1, c);
    assert(!is_flag(w));
    assert(!is_help(w));
    assert(w != "--port"@ && w != "--baud"@);
}

/// The `--port` option with its value, as one `--port=<P>` argument or as the
/// two arguments `--port <P>`.
pub open spec fn port_tokens(port: Seq<char>, joined: bool) -> Seq<Seq<char>> {
    if joined {
        seq!["--port="@ + port]
    } else {
        seq!["--port"@, port]
    }
}

/// The `--baud` option with its value text, joined or as two arguments.
pub open spec fn baud_tokens(text: Seq<char>, joined: bool) -> Seq<Seq<char>> {
    if joined {
        seq!["--baud="@ + text]
    } else {
        seq!["--baud"@, text]
    }
}

proof fn lemma_port_option_step(
    args: Seq<Seq<char>>,
    i: int,
    port: Seq<char>,
    joined: bool,
    baud: Option<u32>,
)
    requires
        1 <= i,
        i + port_tokens(port, joined).len() <= args.len(),
        args.subrange(i, i + port_tokens(port, joined).len()) == port_tokens(port, joined),
        !joined ==> !is_flag(port),
    ensures
        options_spec(args, i, None, baud) == options_spec(
            args,
            i + port_tokens(port, joined).len(),
            Some(port),
            baud,
        ),
{
    reveal_keywords();
    let tk = port_tokens(port, joined);
    assert(args[i] == tk[0]) by {
        assert(args.subrange(i, i + tk.len())[0] == args[i]);
    }
    if joined {
        let t = "--port="@ + port;
        assert(t != "--port"@) by {
            assert(t.len() != "--port"@.len());
        }
        assert(t.subrange(0, 7) =~= "--port="@);
        assert(t.skip(7) =~= port);
    } else {
        assert(args[i + 1] == tk[1]) by {
            assert(args.subrange(i, i + tk.len())[1] == args[i + 1]);
        }
    }
}

proof fn lemma_baud_option_step(
    args: Seq<Seq<char>>,
    i: int,
    text: Seq<char>,
    joined: bool,
    b: u32,
    port: Option<Seq<char>>,
)
    requires
        1 <= i,
        i + baud_tokens(text, joined).len() <= args.len(),
        args.subrange(i, i + baud_tokens(text, joined).len()) == baud_tokens(text, joined),
        parse_u32_spec(text) == Some(b),
        !joined ==> !is_flag(text),
    ensures
        options_spec(args, i, port, None) == options_spec(
            args,
            i + baud_tokens(text, joined).len(),
            port,
            Some(b),
        ),
{
    reveal_keywords();
    let tk = baud_tokens(text, joined);
    assert(args[i] == tk[0]) by {
        assert(args.subrange(i, i + tk.len())[0] == args[i]);
    }
    if joined {
        let t = "--baud="@ + text;
        assert(t != "--port"@) by {
            assert(t.len() != "--port"@.len());
        }
        assert(t != "--baud"@) by {
            assert(t.len() != "--baud"@.len());
        }
        assert(!has_prefix(t, "--port="@)) by {
            assert(t.subrange(0, 7)[2] == t[2]);
        }
        assert(t.subrange(0, 7) =~= "--baud="@);
        assert(t.skip(7) =~= text);
    } else {
        let t = "--baud"@;
        assert(t != "--port"@) by {
            assert(t[2] != "--port"@[2]);
        }
        assert(!has_prefix(t, "--port="@));
        assert(args[i + 1] == tk[1]) by {
            assert(args.subrange(i, i + tk.len())[1] == args[i + 1]);
        }
    }
}

proof fn lemma_command_after_options(
    args: Seq<Seq<char>>,
    i: int,
    port: Option<Seq<char>>,
    baud: Option<u32>,
    c: CommandModel,
)
    requires
        1 <= i,
        i + render_command(c).len() == args.len(),
        args.subrange(i, args.len() as int) == render_command(c),
    ensures
        options_spec(args, i, port, baud) == Ok::<CliModel, CliError>(
            CliModel {
                port: match port {
                    Some(p) => p,
                    None => DEFAULT_SERIAL_PORT@,
                },
                baud: match baud {
                    Some(b) => b,
                    None => DEFAULT_SENSOR_TELEMETRY_BAUD,
                },
                command: c,
            },
        ),
{
    reveal_keywords();
    let r = render_command(c);
    let w = args[i];
    assert(w == r[0]) by {
        assert(args.subrange(i, args.len() as int)[0] == args[i]);
    }
    assert(!has_prefix(w, "--port="@)) by {
        if w.len() >= 7 {
            assert(w.subrange(0, 7)[0] == w[0]);
        }
    }
    assert(!has_prefix(w, "--baud="@)) by {
        if w.len() >= 7 {
            assert(w.subrange(0, 7)[0] == w[0]);
        }
    }
    lemma_command_round_trip(args, i, c);
    assert(!is_flag(w));
    assert(!is_help(w));
    assert(w != "--port"@ && w != "--baud"@);
}

/// The two options are independent of each other, of their order and of their
/// spelling (`--name <V>` or `--name=<V>`): before any command, `--port <P>`
/// and `--baud <B>` in either order give port `P` and the baud rate that `B`
/// denotes; with only one of them, the other takes its default.
pub proof fn lemma_cli_options_any_order(
    program: Seq<char>,
    port: Seq<char>,
    port_joined: bool,
    text: Seq<char>,
    baud_joined: bool,
    b: u32,
    c: CommandModel,
)
    requires
        parse_u32_spec(text) == Some(b),
        !port_joined ==> !is_flag(port),
        !baud_joined ==> !is_flag(text),
    ensures
        parse_cli_spec(
            seq![program] + port_tokens(port, port_joined) + baud_tokens(text, baud_joined)
                + render_command(c),
        ) == Ok::<CliModel, CliError>(CliModel { port, baud: b, command: c }),
        parse_cli_spec(
            seq![program] + baud_tokens(text, baud_joined) + port_tokens(port, port_joined)
                + render_command(c),
        ) == Ok::<CliModel, CliError>(CliModel { port, baud: b, command: c }),
        parse_cli_spec(seq![program] + port_tokens(port, port_joined) + render_command(c)) == Ok::<
            CliModel,
            CliError,
        >(CliModel { port, baud: DEFAULT_SENSOR_TELEMETRY_BAUD, command: c }),
        parse_cli_spec(seq![program] + baud_tokens(text, baud_joined) + render_command(c)) == Ok::<
            CliModel,
            CliError,
        >(CliModel { port: DEFAULT_SERIAL_PORT@, baud: b, command: c }),
{
    let pt = port_tokens(port, port_joined);
    let bt = baud_tokens(text, baud_joined);
    let r = render_command(c);
    let pre = seq![program];
    let pl = pt.len() as int;
    let bl = bt.len() as int;

    let a1 = pre + pt + bt + r;
    assert(a1.subrange(1, 1 + pl) =~= pt);
    assert(a1.subrange(1 + pl, 1 + pl + bl) =~= bt);
    assert(a1.subrange(1 + pl + bl, a1.len() as int) =~= r);
    lemma_command_after_options(a1, 1 + pl + bl, Some(port), Some(b), c);
    lemma_baud_option_step(a1, 1 + pl, text, baud_joined, b, Some(port));
    lemma_port_option_step(a1, 1, port, port_joined, None);

    let a2 = pre + bt + pt + r;
    assert(a2.subrange(1, 1 + bl) =~= bt);
    assert(a2.subrange(1 + bl, 1 + bl + pl) =~= pt);
    assert(a2.subrange(1 + bl + pl, a2.len() as int) =~= r);
    lemma_command_after_options(a2, 1 + bl + pl, Some(port), Some(b), c);
    lemma_port_option_step(a2, 1 + bl, port, port_joined, Some(b));
    lemma_baud_option_step(a2, 1, text, baud_joined, b, None);

    let a3 = pre + pt + r;
    assert(a3.subrange(1, 1 + pl) =~= pt);
    assert(a3.subrange(1 + pl, a3.len() as int) =~= r);
    lemma_command_after_options(a3, 1 + pl, Some(port), None, c);
    lemma_port_option_step(a3, 1, port, port_joined, None);

    let a4 = pre + bt + r;
    assert(a4.subrange(1, 1 + bl) =~= bt);
    assert(a4.subrange(1 + bl, a4.len() as int) =~= r);
    lemma_command_after_options(a4, 1 + bl, None, Some(b), c);
    lemma_baud_option_step(a4, 1, text, baud_joined, b, None);
}

/// Each option may be given once: a second `--port`, in either spelling, is
/// refused whatever follows it.
pub proof fn lemma_cli_port_given_twice(
    program: Seq<char>,
    port: Seq<char>,
    port_joined: bool,
    port2: Seq<char>,
    port2_joined: bool,
    rest: Seq<Seq<char>>,
)
    requires
        !port_joined ==> !is_flag(port),
        !port2_joined ==> !is_flag(port2),
    ensures
        parse_cli_spec(
            seq![program] + port_tokens(port, port_joined) + port_tokens(port2, port2_joined) + rest,
        ) == Err::<CliModel, CliError>(CliError::DuplicateArgument),
{
    let pt = port_tokens(port, port_joined);
    let pt2 = port_tokens(port2, port2_joined);
    let pl = pt.len() as int;
    let a1 = seq![program] + pt + pt2 + rest;
    assert(a1.subrange(1, 1 + pl) =~= pt);
    lemma_port_option_step(a1, 1, port, port_joined, None);
    assert(a1.subrange(1 + pl, 1 + pl + pt2.len()) =~= pt2);
    lemma_second_port_refused(a1, 1 + pl, port2, port2_joined, port);
}

proof fn lemma_second_port_refused(
    args: Seq<Seq<char>>,
    i: int,
    port2: Seq<char>,
    joined: bool,
    port: Seq<char>,
)
    requires
        1 <= i,
        i + port_tokens(port2, joined).len() <= args.len(),
        args.subrange(i, i + port_tokens(port2, joined).len()) == port_tokens(port2, joined),
        !joined ==> !is_flag(port2),
    ensures
        forall|baud: Option<u32>|
            options_spec(args, i, Some(port), baud) == Err::<CliModel, CliError>(
                CliError::DuplicateArgument,
            ),
{
    reveal_keywords();
    let tk = port_tokens(port2, joined);
    assert(args[i] == tk[0]) by {
        assert(args.subrange(i, i + tk.len())[0] == args[i]);
    }
    if joined {
        let t = "--port="@ + port2;
        assert(t != "--port"@) by {
            assert(t.len() != "--port"@.len());
        }
        assert(t.subrange(0, 7) =~= "--port="@);
    } else {
        assert(args[i + 1] == tk[1]) by {
            assert(args.subrange(i, i + tk.len())[1] == args[i + 1]);
        }
    }
}

/// Each option may be given once: a second `--baud`, in either spelling, is
/// refused whatever follows it.
pub proof fn lemma_cli_baud_given_twice(
    program: Seq<char>,
    text: Seq<char>,
    baud_joined: bool,
    text2: Seq<char>,
    baud2_joined: bool,
    b: u32,
    rest: Seq<Seq<char>>,
)
    requires
        parse_u32_spec(text) == Some(b),
        !baud_joined ==> !is_flag(text),
        !baud2_joined ==> !is_flag(text2),
    ensures
        parse_cli_spec(
            seq![program] + baud_tokens(text, baud_joined) + baud_tokens(text2, baud2_joined) + rest,
        ) == Err::<CliModel, CliError>(CliError::DuplicateArgument),
{
    let bt = baud_tokens(text, baud_joined);
    let bt2 = baud_tokens(text2, baud2_joined);
    let bl = bt.len() as int;
    let a2 = seq![program] + bt + bt2 + rest;
    assert(a2.subrange(1, 1 + bl) =~= bt);
    lemma_baud_option_step(a2, 1, text, baud_joined, b, None);
    assert(a2.subrange(1 + bl, 1 + bl + bt2.len()) =~= bt2);
    lemma_second_baud_refused(a2, 1 + bl, text2, baud2_joined, b);
}

proof fn lemma_second_baud_refused(
    args: Seq<Seq<char>>,
    i: int,
    text2: Seq<char>,
    joined: bool,
    b: u32,
)
    requires
        1 <= i,
        i + baud_tokens(text2, joined).len() <= args.len(),
        args.subrange(i, i + baud_tokens(text2, joined).len()) == baud_tokens(text2, joined),
        !joined ==> !is_flag(text2),
    ensures
        forall|port: Option<Seq<char>>|
            options_spec(args, i, port, Some(b)) == Err::<CliModel, CliError>(
                CliError::DuplicateArgument,
            ),
{
    reveal_keywords();
    let tk = baud_tokens(text2, joined);
    assert(args[i] == tk[0]) by {
        assert(args.subrange(i, i + tk.len())[0] == args[i]);
    }
    if joined {
        let t = "--baud="@ + text2;
        assert(t != "--port"@) by {
            assert(t.len() != "--port"@.len());
        }
        assert(t != "--baud"@) by {
            assert(t.len() != "--baud"@.len());
        }
        assert(!has_prefix(t, "--port="@)) by {
            assert(t.subrange(0, 7)[2] == t[2]);
        }
        assert(t.subrange(0, 7) =~= "--baud="@);
    } else {
        assert("--baud"@ != "--port"@) by {
            assert("--baud"@[2] != "--port"@[2]);
        }
        assert(args[i + 1] == tk[1]) by {
            assert(args.subrange(i, i + tk.len())[1] == args[i + 1]);
        }
    }
}

/// `mode set` takes exactly the words `manufacturing` and `production`, each
/// naming its own mode, and refuses any other value.
pub proof fn lemma_cli_mode_words(program: Seq<char>, w: Seq<char>)
    requires
        !is_flag(w),
        w != "--"@,
    ensures
        parse_cli_spec(seq![program, "mode"@, "set"@, w]) == (if w == "manufacturing"@ {
            Ok::<CliModel, CliError>(
                CliModel {
                    port: DEFAULT_SERIAL_PORT@,
                    baud: DEFAULT_SENSOR_TELEMETRY_BAUD,
                    command: CommandModel::ModeSet(ModeArg::Manufacturing),
                },
            )
        } else if w == "production"@ {
            Ok::<CliModel, CliError>(
                CliModel {
                    port: DEFAULT_SERIAL_PORT@,
                    baud: DEFAULT_SENSOR_TELEMETRY_BAUD,
                    command: CommandModel::ModeSet(ModeArg::Production),
                },
            )
        } else {
            Err::<CliModel, CliError>(CliError::InvalidValue)
        }),
{
    reveal_keywords();
    let args = seq![program, "mode"@, "set"@, w];
    assert(!is_help(w)) by {
        if w == "--help"@ || w == "-h"@ {
            assert(w[0] == '-');
        }
    }
    assert(!has_prefix("mode"@, "--port="@));
    assert(!has_prefix("mode"@, "--baud="@));
    assert(values_spec(args, 4, false, seq![3], 1) == Ok::<Seq<int>, CliError>(seq![3]));
    assert(Seq::<int>::empty().push(3) =~= seq![3int]);
    assert(values_spec(args, 3, false, Seq::empty(), 1) == Ok::<Seq<int>, CliError>(seq![3]));
    assert(mode_spec(args, 2) == (match mode_arg_spec(w) {
        Some(m) => Ok::<CommandModel, CliError>(CommandModel::ModeSet(m)),
        None => Err::<CommandModel, CliError>(CliError::InvalidValue),
    }));
}

/// Seconds to wait for the device's answer to a command: long for Wi-Fi
/// credential changes and validation (association and DHCP) and longer still
/// for motor calibration, short otherwise.
pub open spec fn command_timeout_spec(command: CommandModel) -> u64 {
    match command {
        CommandModel::WifiSet(_, _) => 20,
        CommandModel::WifiValidate => 20,
        CommandModel::MotorCalibrate => 120,
        _ => 5,
    }
}

/// Seconds to wait for the device's answer to `command`.
pub fn command_timeout(command: &Command) -> (secs: u64)
    ensures
        secs == command_timeout_spec(command@),
{
    match command {
        Command::Wifi { command } => match command {
            WifiCommand::SetCredentials { .. } | WifiCommand::Validate => 20,
            _ => 5,
        },
        Command::Motor { .. } => 120,
        _ => 5,
    }
}

} // verus!

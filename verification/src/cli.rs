//! The values that the command line carries, and how each is written and read.

use crate::numeral::{
    decimal, decimal_reads_back, numeral_value, parse_decimal, to_decimal, NumeralError,
};
use crate::text::{begins_with, chars_of, spells};
use vstd::prelude::*;
use vstd::string::{StrSliceExecFns, StringExecFns};

verus! {

/// A command-line value that was refused.
#[derive(Debug)]
pub enum CliError {
    /// An environment variable was not given as `KEY=value`.
    InvalidEnvVar { specification: String },
}

impl CliError {
    /// The text that describes the error to the user.
    pub open spec fn message(&self) -> Seq<char> {
        match self {
            CliError::InvalidEnvVar { specification } => "Invalid KEY=value formatting in '"@
                + specification@ + "'"@,
        }
    }

    /// Describes the error to the user.
    pub fn to_string(&self) -> (text: String)
        ensures
            text@ == self.message(),
    {
        match self {
            CliError::InvalidEnvVar { specification } => {
                let mut text = String::from_str("Invalid KEY=value formatting in '");
                text.append(specification.as_str());
                text.append("'");
                text
            },
        }
    }
}

/// The scheduling priority class of the supervised command.
#[derive(Clone, Copy, Debug, PartialEq, Eq, Structural)]
pub enum Priority {
    Realtime,
    High,
    AboveNormal,
    Normal,
    BelowNormal,
    Idle,
}

impl Default for Priority {
    fn default() -> (priority: Priority)
        ensures
            priority == Priority::Normal,
    {
        Priority::Normal
    }
}

impl Priority {
    /// The names that the command line accepts.
    pub const ALL: [&'static str; 6] = [
        "realtime",
        "high",
        "above-normal",
        "normal",
        "below-normal",
        "idle",
    ];

    /// The name of the priority on the command line.
    pub open spec fn cli_name(self) -> Seq<char> {
        match self {
            Priority::Realtime => "realtime"@,
            Priority::High => "high"@,
            Priority::AboveNormal => "above-normal"@,
            Priority::Normal => "normal"@,
            Priority::BelowNormal => "below-normal"@,
            Priority::Idle => "idle"@,
        }
    }

    /// The priority that a name denotes, if any. Names are matched exactly.
    pub open spec fn named(name: Seq<char>) -> Option<Priority> {
        if name == "realtime"@ {
            Some(Priority::Realtime)
        } else if name == "high"@ {
            Some(Priority::High)
        } else if name == "above-normal"@ {
            Some(Priority::AboveNormal)
        } else if name == "normal"@ {
            Some(Priority::Normal)
        } else if name == "below-normal"@ {
            Some(Priority::BelowNormal)
        } else if name == "idle"@ {
            Some(Priority::Idle)
        } else {
            None
        }
    }

    /// The priority class value that the host's process interface takes.
    pub open spec fn class_value(self) -> u32 {
        match self {
            Priority::Realtime => 0x0000_0100,
            Priority::High => 0x0000_0080,
            Priority::AboveNormal => 0x0000_8000,
            Priority::Normal => 0x0000_0020,
            Priority::BelowNormal => 0x0000_4000,
            Priority::Idle => 0x0000_0040,
        }
    }

    /// Writes the priority as the command line names it.
    pub fn to_cli(self) -> (name: String)
        ensures
            name@ == self.cli_name(),
    {
        let name = match self {
            Priority::Realtime => "realtime",
            Priority::High => "high",
            Priority::AboveNormal => "above-normal",
            Priority::Normal => "normal",
            Priority::BelowNormal => "below-normal",
            Priority::Idle => "idle",
        };
        String::from_str(name)
    }

    /// The priority class that is handed to the host when the command is started.
    pub fn to_winapi(self) -> (class: u32)
        ensures
            class == self.class_value(),
    {
        match self {
            Priority::Realtime => 0x0000_0100,
            Priority::High => 0x0000_0080,
            Priority::AboveNormal => 0x0000_8000,
            Priority::Normal => 0x0000_0020,
            Priority::BelowNormal => 0x0000_4000,
            Priority::Idle => 0x0000_0040,
        }
    }

    /// Reads a priority from its command-line name.
    pub fn from_str(s: &str) -> (r: Result<Priority, String>)
        ensures
            match Priority::named(s@) {
                Some(priority) => r == Ok::<Priority, String>(priority),
                None => r matches Err(text) && text@ == "invalid priority: "@ + s@,
            },
    {
        let chars = chars_of(s);
        if spells(&chars, "realtime") {
            Ok(Priority::Realtime)
        } else if spells(&chars, "high") {
            Ok(Priority::High)
        } else if spells(&chars, "above-normal") {
            Ok(Priority::AboveNormal)
        } else if spells(&chars, "normal") {
            Ok(Priority::Normal)
        } else if spells(&chars, "below-normal") {
            Ok(Priority::BelowNormal)
        } else if spells(&chars, "idle") {
            Ok(Priority::Idle)
        } else {
            let mut text = String::from_str("invalid priority: ");
            text.append(s);
            Err(text)
        }
    }
}

impl std::str::FromStr for Priority {
    type Err = String;

    /// Reads a priority from its command-line name, as `Priority::from_str` does.
    fn from_str(s: &str) -> (r: Result<Priority, String>)
        ensures
            match Priority::named(s@) {
                Some(priority) => r == Ok::<Priority, String>(priority),
                None => r matches Err(text) && text@ == "invalid priority: "@ + s@,
            },
    {
        Priority::from_str(s)
    }
}

/// Reading the name that `to_cli` writes gives the priority back, and a name
/// that is read denotes no other priority.
pub proof fn priority_name_reads_back(priority: Priority, name: Seq<char>)
    ensures
        Priority::named(priority.cli_name()) == Some(priority),
        Priority::named(name) == Some(priority) <==> name == priority.cli_name(),
{
    reveal_strlit("realtime");
    reveal_strlit("high");
    reveal_strlit("above-normal");
    reveal_strlit("normal");
    reveal_strlit("below-normal");
    reveal_strlit("idle");
    assert("realtime"@.len() == 8 && "normal"@.len() == 6);
    assert("high"@.len() == 4 && "idle"@.len() == 4);
    assert("above-normal"@.len() == 12 && "below-normal"@.len() == 12);
    assert("high"@[0] == 'h' && "idle"@[0] == 'i');
    assert("above-normal"@[0] == 'a' && "below-normal"@[0] == 'b');
}

/// Two priorities with the same class value are the same priority.
pub proof fn priority_classes_differ(a: Priority, b: Priority)
    ensures
        a.class_value() == b.class_value() <==> a == b,
{
}

/// The threshold at which a log file is closed and a new one begun.
#[derive(Clone, Copy, Debug, PartialEq, Eq, Structural)]
pub enum LogRotation {
    /// When the file has grown to this many bytes.
    Bytes(u64),
    /// At the start of each day.
    Daily,
    /// At the start of each hour.
    Hourly,
}

impl Default for LogRotation {
    fn default() -> (rotation: LogRotation)
        ensures
            rotation == LogRotation::Bytes(2097152),
    {
        LogRotation::Bytes(1024 * 1024 * 2)
    }
}

/// How a numeral error is shown in a message.
pub open spec fn numeral_error_text(e: NumeralError) -> Seq<char> {
    match e {
        NumeralError::Empty => "ParseIntError { kind: Empty }"@,
        NumeralError::InvalidDigit => "ParseIntError { kind: InvalidDigit }"@,
        NumeralError::PosOverflow => "ParseIntError { kind: PosOverflow }"@,
    }
}

impl LogRotation {
    /// The rotation as the command line writes it.
    pub open spec fn cli_text(self) -> Seq<char> {
        match self {
            LogRotation::Bytes(bytes) => "bytes="@ + decimal(bytes as nat),
            LogRotation::Daily => "daily"@,
            LogRotation::Hourly => "hourly"@,
        }
    }

    /// What a text denotes as a rotation: `daily`, `hourly`, or `bytes=` followed
    /// by a numeral. The error is the message for the user.
    pub open spec fn denoted(text: Seq<char>) -> Result<LogRotation, Seq<char>> {
        if text == "daily"@ {
            Ok(LogRotation::Daily)
        } else if text == "hourly"@ {
            Ok(LogRotation::Hourly)
        } else if "bytes="@.is_prefix_of(text) {
            match numeral_value(text.subrange("bytes="@.len() as int, text.len() as int)) {
                Ok(bytes) => Ok(LogRotation::Bytes(bytes as u64)),
                Err(e) => Err("Unable to parse log rotation as bytes: "@ + numeral_error_text(e)),
            }
        } else {
            Err("Unable to parse log rotation: "@ + text)
        }
    }

    /// Writes the rotation as the command line takes it.
    pub fn to_cli(self) -> (text: String)
        ensures
            text@ == self.cli_text(),
    {
        match self {
            LogRotation::Bytes(bytes) => {
                let mut text = String::from_str("bytes=");
                let digits = to_decimal(bytes);
                text.append(digits.as_str());
                text
            },
            LogRotation::Daily => String::from_str("daily"),
            LogRotation::Hourly => String::from_str("hourly"),
        }
    }

    /// Reads a rotation from its command-line text.
    pub fn from_str(s: &str) -> (r: Result<LogRotation, String>)
        ensures
            match LogRotation::denoted(s@) {
                Ok(rotation) => r == Ok::<LogRotation, String>(rotation),
                Err(message) => r matches Err(text) && text@ == message,
            },
    {
        let chars = chars_of(s);
        if spells(&chars, "daily") {
            return Ok(LogRotation::Daily);
        }
        if spells(&chars, "hourly") {
            return Ok(LogRotation::Hourly);
        }
        if begins_with(&chars, "bytes=") {
            proof {
                reveal_strlit("bytes=");
            }
            return match parse_decimal(&chars, 6) {
                Ok(bytes) => Ok(LogRotation::Bytes(bytes)),
                Err(e) => {
                    let mut text = String::from_str("Unable to parse log rotation as bytes: ");
                    text.append(numeral_error_name(e));
                    Err(text)
                },
            };
        }
        let mut text = String::from_str("Unable to parse log rotation: ");
        text.append(s);
        Err(text)
    }
}

impl std::str::FromStr for LogRotation {
    type Err = String;

    /// Reads a rotation from its command-line text, as `LogRotation::from_str`
    /// does.
    fn from_str(s: &str) -> (r: Result<LogRotation, String>)
        ensures
            match LogRotation::denoted(s@) {
                Ok(rotation) => r == Ok::<LogRotation, String>(rotation),
                Err(message) => r matches Err(text) && text@ == message,
            },
    {
        LogRotation::from_str(s)
    }
}

/// Shows a numeral error as it stands in a message.
fn numeral_error_name(e: NumeralError) -> (text: &'static str)
    ensures
        text@ == numeral_error_text(e),
{
    match e {
        NumeralError::Empty => "ParseIntError { kind: Empty }",
        NumeralError::InvalidDigit => "ParseIntError { kind: InvalidDigit }",
        NumeralError::PosOverflow => "ParseIntError { kind: PosOverflow }",
    }
}

/// Reading the text that `to_cli` writes gives the rotation back.
pub proof fn rotation_text_reads_back(rotation: LogRotation)
    ensures
        LogRotation::denoted(rotation.cli_text()) == Ok::<LogRotation, Seq<char>>(rotation),
{
    reveal_strlit("daily");
    reveal_strlit("hourly");
    reveal_strlit("bytes=");
    assert("daily"@.len() == 5 && "hourly"@.len() == 6 && "bytes="@.len() == 6);
    assert("daily"@[0] == 'd' && "hourly"@[0] == 'h' && "bytes="@[0] == 'b');
    match rotation {
        LogRotation::Bytes(bytes) => {
            let text = rotation.cli_text();
            decimal_reads_back(bytes as nat);
            assert(text[0] == 'b');
            assert(text.subrange(0, 6) =~= "bytes="@);
            assert(text.subrange(6, text.len() as int) =~= decimal(bytes as nat));
        },
        LogRotation::Daily => {},
        LogRotation::Hourly => {},
    }
}

/// Splits `KEY=value` at its first equals sign. The key may be empty and the
/// value may hold further equals signs; a text without one is refused.
pub fn parse_env_var(value: &str) -> (r: Result<(String, String), CliError>)
    ensures
        match r {
            Ok((key, rest)) => !key@.contains('=') && value@ == key@ + seq!['='] + rest@,
            Err(CliError::InvalidEnvVar { specification }) => !value@.contains('=')
                && specification@ == value@,
        },
{
    let chars = chars_of(value);
    let mut i: usize = 0;
    while i < chars.len()
        invariant
            i <= chars.len(),
            chars@ == value@,
            forall|j: int| 0 <= j < i ==> chars@[j] != '=',
        decreases chars.len() - i,
    {
        if chars[i] == '=' {
            let key = String::from_str(value.substring_char(0, i));
            let rest = String::from_str(value.substring_char(i + 1, chars.len()));
            assert(value@ =~= key@ + seq!['='] + rest@);
            return Ok((key, rest));
        }
        i += 1;
    }
    Err(CliError::InvalidEnvVar { specification: String::from_str(value) })
}

/// The options that every subcommand shares.
#[derive(Clone, Debug, PartialEq, Eq)]
pub struct CommonOpts {
    /// Exit codes that count as a successful stop.
    pub pass: Option<Vec<i32>>,
    /// Always restart the command.
    pub restart: bool,
    /// Never restart the command.
    pub no_restart: bool,
    /// Restart the command after one of these exit codes.
    pub restart_if: Vec<i32>,
    /// Restart the command after any exit code but these.
    pub restart_if_not: Vec<i32>,
    /// Milliseconds between asking the command to stop and killing it.
    pub stop_timeout: Option<u64>,
    /// Write no log at all.
    pub no_log: bool,
    /// Do not log what the command prints.
    pub no_log_cmd: bool,
    /// The directory of the log files.
    pub log_dir: Option<String>,
    /// The base name of the main log file.
    pub log_as: Option<String>,
    /// The base name of a separate log file for what the command prints.
    pub log_cmd_as: Option<String>,
    /// When log files are rotated.
    pub log_rotate: Option<LogRotation>,
    /// How many old log files are kept.
    pub log_retain: Option<usize>,
    /// Append the service's start arguments to the command.
    pub pass_start_args: bool,
    /// Additional environment variables, as pairs of key and value.
    pub env: Vec<(String, String)>,
    /// Additional directories for the search path.
    pub path: Vec<String>,
    /// The priority of the command's process.
    pub priority: Option<Priority>,
    /// The command and its arguments.
    pub command: Vec<String>,
}

impl Default for CommonOpts {
    fn default() -> (opts: CommonOpts)
        ensures
            opts.pass is None,
            !opts.restart,
            !opts.no_restart,
            opts.restart_if@.len() == 0,
            opts.restart_if_not@.len() == 0,
            opts.stop_timeout is None,
            !opts.no_log,
            !opts.no_log_cmd,
            opts.log_dir is None,
            opts.log_as is None,
            opts.log_cmd_as is None,
            opts.log_rotate is None,
            opts.log_retain is None,
            !opts.pass_start_args,
            opts.env@.len() == 0,
            opts.path@.len() == 0,
            opts.priority is None,
            opts.command@.len() == 0,
    {
        CommonOpts {
            pass: None,
            restart: false,
            no_restart: false,
            restart_if: Vec::new(),
            restart_if_not: Vec::new(),
            stop_timeout: None,
            no_log: false,
            no_log_cmd: false,
            log_dir: None,
            log_as: None,
            log_cmd_as: None,
            log_rotate: None,
            log_retain: None,
            pass_start_args: false,
            env: Vec::new(),
            path: Vec::new(),
            priority: None,
            command: Vec::new(),
        }
    }
}

/// What the program is asked to do.
#[derive(Clone, Debug, PartialEq, Eq)]
pub enum Subcommand {
    /// Register a new service with the host.
    Add {
        common: CommonOpts,
        /// The directory in which the command runs.
        cwd: Option<String>,
        /// Services that the host starts first.
        dependencies: Vec<String>,
        /// The name of the service to create.
        name: String,
    },
    /// Run a command as a service, when started by the host's service manager.
    Run {
        common: CommonOpts,
        /// The directory in which the command runs.
        cwd: Option<String>,
        /// The name of the service, as the log shows it.
        name: String,
    },
}

/// A whole command line.
#[derive(Clone, Debug, PartialEq, Eq)]
pub struct Cli {
    pub sub: Subcommand,
}

} // verus!

//! The settings of one service, resolved from the command line's options.

use crate::cli::{CommonOpts, LogRotation, Priority};
use crate::environment::{effective, effective_env, effective_keys_differ};
use crate::policy::{PolicyModel, RestartPolicy};
use vstd::prelude::*;
use vstd::string::StringExecFns;

verus! {

/// How long a command is given to stop when the options do not say.
pub const DEFAULT_STOP_TIMEOUT_MS: u64 = 3000;

/// The settings of one service. They are fixed once resolved.
#[derive(Clone, Debug)]
pub struct ServiceConfig {
    /// The command and its arguments; never empty.
    pub command: Vec<String>,
    /// The directory in which the command runs.
    pub cwd: Option<String>,
    /// Environment variables added to the inherited ones; no key occurs twice.
    pub env: Vec<(String, String)>,
    /// Directories put in front of the search path.
    pub path: Vec<String>,
    /// The priority of the command's process, where one was asked for.
    pub priority: Option<Priority>,
    /// Milliseconds between asking the command to stop and killing it.
    pub stop_timeout_ms: u64,
    /// When the command is started again after it has exited.
    pub policy: RestartPolicy,
    /// Exit codes that count as a successful stop.
    pub pass_codes: Vec<i32>,
    /// Whether what the command prints is logged.
    pub log_command_output: bool,
    /// Whether the arguments that the service is started with go to the command.
    pub pass_start_args: bool,
}

/// Why options do not describe a service.
#[derive(Clone, Copy, Debug, PartialEq, Eq, Structural)]
pub enum ConfigError {
    /// No command was given.
    MissingCommand,
    /// More than one restart rule was given.
    ConflictingRestartRules,
}

/// How many of the four restart rules the options select.
pub open spec fn restart_rules_given(opts: CommonOpts) -> nat {
    let always: nat = if opts.restart { 1 } else { 0 };
    let never: nat = if opts.no_restart { 1 } else { 0 };
    let listed: nat = if opts.restart_if@.len() > 0 { 1 } else { 0 };
    let unlisted: nat = if opts.restart_if_not@.len() > 0 { 1 } else { 0 };
    always + never + listed + unlisted
}

/// The policy that the options select, given that they select at most one rule.
pub open spec fn selected_policy(opts: CommonOpts) -> PolicyModel {
    if opts.restart {
        PolicyModel::Always
    } else if opts.no_restart {
        PolicyModel::Never
    } else if opts.restart_if@.len() > 0 {
        PolicyModel::IfCodeIn(opts.restart_if@.to_set())
    } else if opts.restart_if_not@.len() > 0 {
        PolicyModel::IfCodeNotIn(opts.restart_if_not@.to_set())
    } else {
        PolicyModel::Default
    }
}

/// Appends copies of the texts in `from` to `into`.
fn append_texts(into: &mut Vec<String>, from: &Vec<String>)
    ensures
        final(into).deep_view() == old(into).deep_view() + from.deep_view(),
{
    let ghost start = into.deep_view();
    let mut i: usize = 0;
    assert(start + from.deep_view().take(0) =~= start);
    while i < from.len()
        invariant
            i <= from.len(),
            into.deep_view() == start + from.deep_view().take(i as int),
        decreases from.len() - i,
    {
        let ghost before = into.deep_view();
        into.push(from[i].clone());
        assert(into.deep_view() =~= before.push(from@[i as int]@));
        assert(start + from.deep_view().take(i + 1) =~= before.push(from@[i as int]@));
        i += 1;
    }
    assert(from.deep_view().take(i as int) =~= from.deep_view());
}

impl ServiceConfig {
    /// What holds of every resolved configuration.
    pub open spec fn wf(&self) -> bool {
        &&& self.command@.len() > 0
        &&& forall|a: int, b: int|
            0 <= a < b < self.env@.len() ==> self.env.deep_view()[a].0 != self.env.deep_view()[b].0
    }

    /// The command line of the command, given the arguments that the service
    /// was started with.
    pub open spec fn command_line(&self, start_args: Seq<Seq<char>>) -> Seq<Seq<char>> {
        if self.pass_start_args {
            self.command.deep_view() + start_args
        } else {
            self.command.deep_view()
        }
    }

    /// The command and its arguments, followed by the arguments that the
    /// service was started with where the settings ask for them.
    pub fn argv(&self, start_args: &Vec<String>) -> (argv: Vec<String>)
        ensures
            argv.deep_view() == self.command_line(start_args.deep_view()),
    {
        let mut argv: Vec<String> = Vec::new();
        append_texts(&mut argv, &self.command);
        if self.pass_start_args {
            append_texts(&mut argv, start_args);
        }
        assert(argv.deep_view() =~= self.command_line(start_args.deep_view()));
        argv
    }

    /// Resolves the options of a service into its settings. Options without a
    /// command are refused, then options with more than one restart rule.
    pub fn resolve(opts: CommonOpts, cwd: Option<String>) -> (r: Result<ServiceConfig, ConfigError>)
        ensures
            r matches Err(e) ==> e == if opts.command@.len() == 0 {
                ConfigError::MissingCommand
            } else {
                ConfigError::ConflictingRestartRules
            },
            r is Ok <==> opts.command@.len() > 0 && restart_rules_given(opts) <= 1,
            r matches Ok(config) ==> {
                &&& config.wf()
                &&& config.command == opts.command
                &&& config.cwd == cwd
                &&& config.env.deep_view() == effective(opts.env.deep_view())
                &&& config.path == opts.path
                &&& config.priority == opts.priority
                &&& config.stop_timeout_ms == match opts.stop_timeout {
                    Some(ms) => ms,
                    None => DEFAULT_STOP_TIMEOUT_MS,
                }
                &&& config.policy@ == selected_policy(opts)
                &&& config.pass_codes@ == match opts.pass {
                    Some(codes) => codes@,
                    None => Seq::<i32>::empty(),
                }
                &&& config.log_command_output == !opts.no_log_cmd
                &&& config.pass_start_args == opts.pass_start_args
            },
    {
        if opts.command.len() == 0 {
            return Err(ConfigError::MissingCommand);
        }
        let listed = opts.restart_if.len() > 0;
        let unlisted = opts.restart_if_not.len() > 0;
        let mut given: u8 = 0;
        if opts.restart {
            given += 1;
        }
        if opts.no_restart {
            given += 1;
        }
        if listed {
            given += 1;
        }
        if unlisted {
            given += 1;
        }
        if given > 1 {
            return Err(ConfigError::ConflictingRestartRules);
        }
        let policy = if opts.restart {
            RestartPolicy::Always
        } else if opts.no_restart {
            RestartPolicy::Never
        } else if listed {
            RestartPolicy::IfCodeIn(opts.restart_if)
        } else if unlisted {
            RestartPolicy::IfCodeNotIn(opts.restart_if_not)
        } else {
            RestartPolicy::Default
        };
        let stop_timeout_ms = match opts.stop_timeout {
            Some(ms) => ms,
            None => DEFAULT_STOP_TIMEOUT_MS,
        };
        let pass_codes = match opts.pass {
            Some(codes) => codes,
            None => Vec::new(),
        };
        let env = effective_env(&opts.env);
        proof {
            assert forall|a: int, b: int| 0 <= a < b < env@.len() implies env.deep_view()[a].0
                != env.deep_view()[b].0 by {
                effective_keys_differ(opts.env.deep_view(), a, b);
            }
        }
        Ok(
            ServiceConfig {
                command: opts.command,
                cwd,
                env,
                path: opts.path,
                priority: opts.priority,
                stop_timeout_ms,
                policy,
                pass_codes,
                log_command_output: !opts.no_log_cmd,
                pass_start_args: opts.pass_start_args,
            },
        )
    }
}

/// How many old log files are kept when the options do not say.
pub const DEFAULT_LOG_RETAIN: usize = 2;

/// Where and how the log is written.
#[derive(Clone, Debug)]
pub struct LogConfig {
    /// Whether a log is written at all.
    pub enabled: bool,
    /// Whether what the command prints is logged.
    pub command_output: bool,
    /// The directory of the log files, where one was chosen.
    pub dir: Option<String>,
    /// The base name of the main log file.
    pub base_name: String,
    /// The base name of a separate log file for what the command prints.
    pub command_base_name: Option<String>,
    /// When log files are rotated.
    pub rotation: LogRotation,
    /// How many old log files are kept.
    pub retain: usize,
}

/// The base name of the main log file: the chosen one, or one made from the
/// name of the service.
pub open spec fn main_log_name(chosen: Option<Seq<char>>, service: Seq<char>) -> Seq<char> {
    match chosen {
        Some(name) => name,
        None => "shawl_for_"@ + service,
    }
}

/// The name of the log file that is being written, for a base name.
pub open spec fn current_log_file(base_name: Seq<char>) -> Seq<char> {
    base_name + "_rCURRENT.log"@
}

impl LogConfig {
    /// Resolves the log settings of the service called `service`.
    pub fn resolve(opts: &CommonOpts, service: &str) -> (config: LogConfig)
        ensures
            config.enabled == !opts.no_log,
            config.command_output == !opts.no_log_cmd,
            config.dir.deep_view() == opts.log_dir.deep_view(),
            config.base_name@ == main_log_name(opts.log_as.deep_view(), service@),
            config.command_base_name.deep_view() == opts.log_cmd_as.deep_view(),
            config.rotation == match opts.log_rotate {
                Some(rotation) => rotation,
                None => LogRotation::Bytes(2097152),
            },
            config.retain == match opts.log_retain {
                Some(retain) => retain,
                None => DEFAULT_LOG_RETAIN,
            },
    {
        let base_name = match &opts.log_as {
            Some(name) => name.clone(),
            None => {
                let mut name = String::from_str("shawl_for_");
                name.append(service);
                name
            },
        };
        LogConfig {
            enabled: !opts.no_log,
            command_output: !opts.no_log_cmd,
            dir: copy_of(&opts.log_dir),
            base_name,
            command_base_name: copy_of(&opts.log_cmd_as),
            rotation: match opts.log_rotate {
                Some(rotation) => rotation,
                None => LogRotation::default(),
            },
            retain: match opts.log_retain {
                Some(retain) => retain,
                None => DEFAULT_LOG_RETAIN,
            },
        }
    }

    /// The name of the main log file that is being written.
    pub fn current_file(&self) -> (name: String)
        ensures
            name@ == current_log_file(self.base_name@),
    {
        let mut name = self.base_name.clone();
        name.append("_rCURRENT.log");
        name
    }
}

/// A copy of an optional text.
fn copy_of(text: &Option<String>) -> (copy: Option<String>)
    ensures
        copy.deep_view() == text.deep_view(),
{
    match text {
        Some(text) => Some(text.clone()),
        None => None,
    }
}

} // verus!

//! The configuration: the commands to run and how often.

use vstd::prelude::*;
use vstd::string::StringExecFns;

verus! {

/// One command of the bar, together with the output that was cached for it.
#[derive(Debug)]
pub struct ActiveCommand {
    /// The shell command line.
    pub command: String,
    /// What the command printed when it last ran and was cached.
    pub output: String,
    /// Milliseconds between two runs; `None` takes the configuration's
    /// default, zero stands for a command that runs once.
    pub update_delay: Option<u64>,
    /// `Some(false)` asks that a failed re-run be dropped and tried again.
    pub ignore_status_code: Option<bool>,
}

/// Mathematical model of an [`ActiveCommand`].
pub struct CommandView {
    pub command: Seq<char>,
    pub output: Seq<char>,
    pub update_delay: Option<u64>,
    pub ignore_status_code: Option<bool>,
}

impl CommandView {
    /// The delay between two runs, in milliseconds: the command's own where
    /// it names one, else `default_update_delay`.
    pub open spec fn effective_delay(self, default_update_delay: u64) -> u64 {
        match self.update_delay {
            Some(delay) => delay,
            None => default_update_delay,
        }
    }

    /// Whether a failed run of this command is dropped and tried again: only
    /// where `ignore_status_code` is set, and set to `false`.
    pub open spec fn retries_failure(self) -> bool {
        self.ignore_status_code == Some(false)
    }

    /// The same command with `output` as its cached output.
    pub open spec fn with_output(self, output: Seq<char>) -> CommandView {
        CommandView { output, ..self }
    }
}

impl View for ActiveCommand {
    type V = CommandView;

    open spec fn view(&self) -> CommandView {
        CommandView {
            command: self.command@,
            output: self.output@,
            update_delay: self.update_delay,
            ignore_status_code: self.ignore_status_code,
        }
    }
}

impl Default for ActiveCommand {
    /// The empty command: no text, no cached output, nothing set.
    fn default() -> (c: Self)
        ensures
            c@ == (CommandView {
                command: Seq::empty(),
                output: Seq::empty(),
                update_delay: None,
                ignore_status_code: None,
            }),
    {
        ActiveCommand {
            command: String::new(),
            output: String::new(),
            update_delay: None,
            ignore_status_code: None,
        }
    }
}

impl Clone for ActiveCommand {
    fn clone(&self) -> (c: Self)
        ensures
            c == *self,
    {
        ActiveCommand {
            command: self.command.clone(),
            output: self.output.clone(),
            update_delay: self.update_delay,
            ignore_status_code: self.ignore_status_code,
        }
    }
}

impl ActiveCommand {
    /// A command with the given text and nothing else set.
    pub fn new(command: &str) -> (c: Self)
        ensures
            c@ == (CommandView {
                command: command@,
                output: Seq::empty(),
                update_delay: None,
                ignore_status_code: None,
            }),
    {
        ActiveCommand {
            command: String::from_str(command),
            output: String::new(),
            update_delay: None,
            ignore_status_code: None,
        }
    }

    /// The delay between two runs of this command, in milliseconds.
    pub fn effective_delay(&self, default_update_delay: u64) -> (delay: u64)
        ensures
            delay == self@.effective_delay(default_update_delay),
    {
        match self.update_delay {
            Some(delay) => delay,
            None => default_update_delay,
        }
    }

    /// Whether a failed run of this command is dropped and tried again.
    pub fn retries_failure(&self) -> (retries: bool)
        ensures
            retries == self@.retries_failure(),
    {
        match self.ignore_status_code {
            Some(ignore) => !ignore,
            None => false,
        }
    }
}

/// The whole configuration.
#[derive(Debug)]
pub struct Config {
    /// Milliseconds between two runs of a command that names no delay.
    pub default_update_delay: u64,
    /// Milliseconds between two publications of the status line.
    pub thread_polling_delay: u64,
    /// Text that follows each command's field in the status line.
    pub delimiter: String,
    /// The commands, in the order of their fields.
    pub commands: Vec<ActiveCommand>,
}

/// Mathematical model of a [`Config`].
pub struct ConfigView {
    pub default_update_delay: u64,
    pub thread_polling_delay: u64,
    pub delimiter: Seq<char>,
    pub commands: Seq<CommandView>,
}

/// The models of a vector of commands, in order.
pub open spec fn command_views(commands: Seq<ActiveCommand>) -> Seq<CommandView> {
    Seq::new(commands.len(), |i: int| commands[i]@)
}

impl View for Config {
    type V = ConfigView;

    open spec fn view(&self) -> ConfigView {
        ConfigView {
            default_update_delay: self.default_update_delay,
            thread_polling_delay: self.thread_polling_delay,
            delimiter: self.delimiter@,
            commands: command_views(self.commands@),
        }
    }
}

/// The configuration that is used where none was written yet: the date,
/// refreshed at the default rate, and a greeting that runs once.
pub open spec fn default_config() -> ConfigView {
    ConfigView {
        default_update_delay: 990,
        thread_polling_delay: 500,
        delimiter: " "@,
        commands: seq![
            CommandView {
                command: "date"@,
                output: Seq::empty(),
                update_delay: None,
                ignore_status_code: None,
            },
            CommandView {
                command: "echo \"The bar is working\""@,
                output: Seq::empty(),
                update_delay: Some(0u64),
                ignore_status_code: None,
            },
        ],
    }
}

impl Default for Config {
    fn default() -> (config: Self)
        ensures
            config@ == default_config(),
    {
        let date = ActiveCommand::new("date");
        let mut greeting = ActiveCommand::new("echo \"The bar is working\"");
        greeting.update_delay = Some(0);
        let mut commands: Vec<ActiveCommand> = Vec::new();
        commands.push(date);
        commands.push(greeting);
        let config = Config {
            default_update_delay: 990,
            thread_polling_delay: 500,
            delimiter: String::from_str(" "),
            commands,
        };
        assert(config@.commands =~= default_config().commands);
        config
    }
}

impl Clone for Config {
    fn clone(&self) -> (config: Self)
        ensures
            config@ == self@,
    {
        let mut commands: Vec<ActiveCommand> = Vec::new();
        let mut i: usize = 0;
        while i < self.commands.len()
            invariant
                i <= self.commands.len(),
                commands.len() == i,
                forall|j: int| 0 <= j < i ==> commands[j] == self.commands[j],
            decreases self.commands.len() - i,
        {
            commands.push(self.commands[i].clone());
            i = i + 1;
        }
        let config = Config {
            default_update_delay: self.default_update_delay,
            thread_polling_delay: self.thread_polling_delay,
            delimiter: self.delimiter.clone(),
            commands,
        };
        assert(config@.commands =~= self@.commands);
        config
    }
}

} // verus!

use std::time::Duration;
use vstd::prelude::*;

use crate::executor::{CommandExecutorConfig, InputDeliveryMode};
use crate::text::{push_str_chars, string_from_chars};

verus! {

/// How a command-line target receives the fuzz input.
#[derive(Debug, Clone)]
pub enum ConfigInputDelivery {
    /// Through standard input (the default).
    StdIn,
    /// Through a temporary file whose path replaces each `{}` of `template`
    /// in an extra argument.
    File { template: String },
}

impl Default for ConfigInputDelivery {
    fn default() -> (d: Self)
        ensures
            d is StdIn,
    {
        ConfigInputDelivery::StdIn
    }
}

/// Settings of the command executor.
#[derive(Debug, Clone)]
pub struct CommandExecutorSettings {
    /// The program, then its arguments.
    pub command: Vec<String>,
    pub input_delivery: ConfigInputDelivery,
    /// Timeout of one execution, in milliseconds.
    pub timeout_ms: u64,
    /// The directory to run the target in; `None` keeps the fuzzer's.
    pub working_dir: Option<String>,
}

impl Default for CommandExecutorSettings {
    /// No command, standard-input delivery, a zero timeout and no working
    /// directory (a configuration file that names the table but omits the
    /// timeout gets `default_timeout_ms()` instead).
    fn default() -> (s: Self)
        ensures
            s.command@.len() == 0,
            s.input_delivery is StdIn,
            s.timeout_ms == 0,
            s.working_dir is None,
    {
        CommandExecutorSettings {
            command: Vec::new(),
            input_delivery: ConfigInputDelivery::StdIn,
            timeout_ms: 0,
            working_dir: None,
        }
    }
}

/// The timeout, in milliseconds, that a configuration file gets when it omits one.
pub fn default_timeout_ms() -> (t: u64)
    ensures
        t == 2000,
{
    2000
}

/// Which executor runs the target.
#[derive(Debug, Clone, Copy, PartialEq, Eq, Structural)]
pub enum ExecutorType {
    /// A harness function inside the fuzzer's process.
    InProcess,
    /// An external program (the default).
    Command,
}

impl Default for ExecutorType {
    fn default() -> (t: Self)
        ensures
            t == ExecutorType::Command,
    {
        ExecutorType::Command
    }
}

/// Settings of the in-process executor.
#[derive(Debug, Clone)]
pub struct InProcessExecutorSettings {
    /// Which registered harness to run.
    pub harness_key: String,
}

impl Default for InProcessExecutorSettings {
    fn default() -> (s: Self)
        ensures
            s.harness_key@.len() == 0,
    {
        InProcessExecutorSettings { harness_key: String::new() }
    }
}

/// Configuration of the executor.
#[derive(Debug, Clone)]
pub struct ExecutorConfig {
    pub executor_type: ExecutorType,
    pub command_settings: Option<CommandExecutorSettings>,
    pub in_process_settings: Option<InProcessExecutorSettings>,
}

/// Where the corpus is kept.
#[derive(Debug, Clone, Copy, PartialEq, Eq, Structural)]
pub enum CorpusType {
    /// In memory (the default).
    InMemory,
    /// In a directory on disk.
    OnDisk,
}

impl Default for CorpusType {
    fn default() -> (t: Self)
        ensures
            t == CorpusType::InMemory,
    {
        CorpusType::InMemory
    }
}

impl CorpusType {
    /// The name of the corpus type: `"InMemory"` or `"OnDisk"`.
    pub fn to_string(&self) -> (s: &'static str)
        ensures
            s@ == (match self {
                CorpusType::InMemory => "InMemory"@,
                CorpusType::OnDisk => "OnDisk"@,
            }),
    {
        match self {
            CorpusType::InMemory => "InMemory",
            CorpusType::OnDisk => "OnDisk",
        }
    }
}

/// Configuration of the corpus.
#[derive(Debug, Clone)]
pub struct CorpusConfig {
    pub corpus_type: CorpusType,
    /// Files or directories to load initial seeds from.
    pub initial_seed_paths: Option<Vec<String>>,
    /// The directory of an on-disk corpus.
    pub on_disk_path: String,
}

/// The directory of an on-disk corpus when none is configured.
pub fn default_on_disk_path() -> (p: String)
    ensures
        p@ == "./.drifter_corpus"@,
{
    "./.drifter_corpus".to_owned()
}

/// The corpus type when none is configured.
pub fn default_corpus_type() -> (t: CorpusType)
    ensures
        t == CorpusType::InMemory,
{
    CorpusType::InMemory
}

impl Default for CorpusConfig {
    fn default() -> (c: Self)
        ensures
            c.corpus_type == CorpusType::InMemory,
            c.initial_seed_paths is None,
            c.on_disk_path@ == "./.drifter_corpus"@,
    {
        CorpusConfig {
            corpus_type: default_corpus_type(),
            initial_seed_paths: None,
            on_disk_path: default_on_disk_path(),
        }
    }
}

/// General settings of the fuzzer.
#[derive(Debug, Clone)]
pub struct FuzzerSettings {
    /// How many iterations to run before stopping.
    pub max_iterations: u64,
    /// How many threads to fuzz with.
    pub threads: usize,
}

/// The number of iterations when none is configured.
pub fn default_iterations() -> (n: u64)
    ensures
        n == 1_000_000,
{
    1_000_000
}

/// The number of threads when none is configured.
pub fn default_threads() -> (n: usize)
    ensures
        n == 1,
{
    1
}

impl Default for FuzzerSettings {
    fn default() -> (s: Self)
        ensures
            s.max_iterations == 1_000_000,
            s.threads == 1,
    {
        FuzzerSettings { max_iterations: default_iterations(), threads: default_threads() }
    }
}

/// The whole configuration of the fuzzer.
#[derive(Debug, Clone)]
pub struct DrifterConfig {
    pub fuzzer: Option<FuzzerSettings>,
    pub executor: ExecutorConfig,
    pub corpus: Option<CorpusConfig>,
}

impl Default for DrifterConfig {
    /// Default fuzzer settings; a command executor with no command settings
    /// and default in-process settings; the default corpus configuration.
    fn default() -> (c: Self)
        ensures
            c.fuzzer matches Some(f) && f.max_iterations == 1_000_000 && f.threads == 1,
            c.executor.executor_type == ExecutorType::Command,
            c.executor.command_settings is None,
            c.executor.in_process_settings matches Some(s) && s.harness_key@.len() == 0,
            c.corpus matches Some(k) && k.corpus_type == CorpusType::InMemory
                && k.initial_seed_paths is None && k.on_disk_path@ == "./.drifter_corpus"@,
    {
        DrifterConfig {
            fuzzer: Some(FuzzerSettings::default()),
            executor: ExecutorConfig {
                executor_type: ExecutorType::default(),
                command_settings: None,
                in_process_settings: Some(InProcessExecutorSettings::default()),
            },
            corpus: Some(CorpusConfig::default()),
        }
    }
}

/// `std::time::Duration::from_millis(ms)`: a function of `ms` alone.
pub uninterp spec fn duration_of_millis(ms: u64) -> Duration;

/// Builds a `Duration` of `ms` milliseconds with `Duration::from_millis`.
#[verifier::external_body]
pub(crate) fn duration_from_millis(ms: u64) -> (d: Duration)
    ensures
        d == duration_of_millis(ms),
{
    Duration::from_millis(ms)
}

/// The in-process harnesses that the fuzzer can select by key.
#[derive(Debug, Clone, Copy, PartialEq, Eq, Structural)]
pub enum HarnessChoice {
    /// Key `rohcstar_decompressor`: the ROHC decompressor of the Rohcstar project.
    RohcstarDecompressor,
    /// Key `default_dummy` or the empty key: `dummy_harness`.
    DefaultDummy,
}

/// The error text for a harness key that names no harness.
pub open spec fn unknown_harness_text(key: Seq<char>) -> Seq<char> {
    "Unknown in-process harness_key specified in config: '"@ + key
        + "'. Available keys: 'rohcstar_decompressor', 'default_dummy' (or empty)."@
}

impl DrifterConfig {
    /// Applies a command-line override of the number of iterations: the
    /// fuzzer settings (created with their defaults if missing) get it.
    pub fn apply_iterations_override(&mut self, iterations: Option<u64>)
        ensures
            final(self).executor == old(self).executor,
            final(self).corpus == old(self).corpus,
            match iterations {
                Some(n) => final(self).fuzzer matches Some(f) && f.max_iterations == n
                    && f.threads == (match old(self).fuzzer {
                    Some(g) => g.threads,
                    None => 1,
                }),
                None => final(self).fuzzer == old(self).fuzzer,
            },
    {
        if let Some(n) = iterations {
            let mut settings = match self.fuzzer.take() {
                Some(f) => f,
                None => FuzzerSettings::default(),
            };
            settings.max_iterations = n;
            self.fuzzer = Some(settings);
        }
    }

    /// Applies a command-line override of the target program. It applies
    /// only to the command executor (returns `false`, changing nothing,
    /// otherwise): the command settings (created with their defaults if
    /// missing) get the program as the first element of the command,
    /// replacing the one there or starting an empty command.
    pub fn apply_target_command_override(&mut self, program: Option<String>) -> (applied: bool)
        ensures
            applied == (program is Some && old(self).executor.executor_type
                == ExecutorType::Command),
            !applied ==> *final(self) == *old(self),
            applied ==> {
                &&& final(self).fuzzer == old(self).fuzzer
                &&& final(self).corpus == old(self).corpus
                &&& final(self).executor.executor_type == old(self).executor.executor_type
                &&& final(self).executor.in_process_settings
                    == old(self).executor.in_process_settings
                &&& final(self).executor.command_settings matches Some(s) && {
                    let before = match old(self).executor.command_settings {
                        Some(b) => b.command@,
                        None => Seq::empty(),
                    };
                    &&& s.command@ == (if before.len() == 0 {
                        seq![program->Some_0]
                    } else {
                        before.update(0, program->Some_0)
                    })
                    &&& match old(self).executor.command_settings {
                        Some(b) => s.input_delivery == b.input_delivery && s.timeout_ms
                            == b.timeout_ms && s.working_dir == b.working_dir,
                        None => s.input_delivery is StdIn && s.timeout_ms == 0
                            && s.working_dir is None,
                    }
                }
            },
    {
        match program {
            Some(p) => {
                if self.executor.executor_type != ExecutorType::Command {
                    return false;
                }
                let mut settings = match self.executor.command_settings.take() {
                    Some(s) => s,
                    None => CommandExecutorSettings::default(),
                };
                if settings.command.len() > 0 {
                    settings.command.set(0, p);
                } else {
                    settings.command.push(p);
                }
                self.executor.command_settings = Some(settings);
                true
            },
            None => false,
        }
    }

    /// An in-process executor without settings gets the default settings.
    pub fn ensure_in_process_settings(&mut self)
        ensures
            final(self).fuzzer == old(self).fuzzer,
            final(self).corpus == old(self).corpus,
            final(self).executor.executor_type == old(self).executor.executor_type,
            final(self).executor.command_settings == old(self).executor.command_settings,
            if old(self).executor.executor_type == ExecutorType::InProcess
                && old(self).executor.in_process_settings is None {
                final(self).executor.in_process_settings matches Some(s) && s.harness_key@.len()
                    == 0
            } else {
                final(self).executor.in_process_settings == old(self).executor.in_process_settings
            },
    {
        if self.executor.executor_type == ExecutorType::InProcess
            && self.executor.in_process_settings.is_none() {
            self.executor.in_process_settings = Some(InProcessExecutorSettings::default());
        }
    }

    /// The number of iterations to run: the configured one, or the default.
    pub fn effective_max_iterations(&self) -> (n: u64)
        ensures
            n == (match self.fuzzer {
                Some(f) => f.max_iterations,
                None => 1_000_000,
            }),
    {
        match &self.fuzzer {
            Some(f) => f.max_iterations,
            None => default_iterations(),
        }
    }
}

/// Chooses the in-process harness for a key: `rohcstar_decompressor`,
/// `default_dummy` or the empty key; any other key is refused.
pub fn resolve_harness_key(key: &str) -> (r: Result<HarnessChoice, String>)
    ensures
        match r {
            Ok(h) => (h == HarnessChoice::RohcstarDecompressor && key@ == "rohcstar_decompressor"@)
                || (h == HarnessChoice::DefaultDummy && (key@ == "default_dummy"@ || key@.len()
                == 0)),
            Err(m) => m@ == unknown_harness_text(key@) && key@ != "rohcstar_decompressor"@
                && key@ != "default_dummy"@ && key@.len() != 0,
        },
        key@ == "rohcstar_decompressor"@ ==> r == Ok::<HarnessChoice, String>(
            HarnessChoice::RohcstarDecompressor,
        ),
        (key@ == "default_dummy"@ || key@.len() == 0) ==> r == Ok::<HarnessChoice, String>(
            HarnessChoice::DefaultDummy,
        ),
{
    proof {
        reveal_strlit("rohcstar_decompressor");
        reveal_strlit("default_dummy");
        assert("rohcstar_decompressor"@.len() == 21);
        assert("default_dummy"@.len() == 13);
    }
    if crate::feedback::str_equal(key, "rohcstar_decompressor") {
        Ok(HarnessChoice::RohcstarDecompressor)
    } else if key.unicode_len() == 0 || crate::feedback::str_equal(key, "default_dummy") {
        Ok(HarnessChoice::DefaultDummy)
    } else {
        let mut chars: Vec<char> = Vec::new();
        push_str_chars("Unknown in-process harness_key specified in config: '", &mut chars);
        push_str_chars(key, &mut chars);
        push_str_chars(
            "'. Available keys: 'rohcstar_decompressor', 'default_dummy' (or empty).",
            &mut chars,
        );
        let m = string_from_chars(&chars);
        assert(m@ =~= unknown_harness_text(key@));
        Err(m)
    }
}

/// The runtime configuration of the command executor built from its
/// settings: the same command and working directory, the delivery mode
/// carried over, and the timeout in milliseconds as a `Duration`.
pub fn command_executor_config(settings: CommandExecutorSettings) -> (c: CommandExecutorConfig)
    ensures
        c.command_with_args == settings.command,
        c.working_directory == settings.working_dir,
        c.execution_timeout == duration_of_millis(settings.timeout_ms),
        match settings.input_delivery {
            ConfigInputDelivery::StdIn => c.input_delivery_mode is StdIn,
            ConfigInputDelivery::File { template } => c.input_delivery_mode == InputDeliveryMode::File(
                template,
            ),
        },
{
    let mode = match settings.input_delivery {
        ConfigInputDelivery::StdIn => InputDeliveryMode::StdIn,
        ConfigInputDelivery::File { template } => InputDeliveryMode::File(template),
    };
    CommandExecutorConfig {
        command_with_args: settings.command,
        input_delivery_mode: mode,
        execution_timeout: duration_from_millis(settings.timeout_ms),
        working_directory: settings.working_dir,
    }
}

} // verus!

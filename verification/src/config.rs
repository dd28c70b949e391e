//! The configuration of a fuzzing session and its builder.

use crate::mutator_options::MutatorOptions;
use crate::utils::FuzzMode;
use crate::utils::InputFormat;
use crate::utils::TimeSpan;
use vstd::prelude::*;

verus! {

/// Bit pattern of the default corpus sampling rate, `0.1`.
pub const DEFAULT_SAMPLING_RATE: u64 = 0x3fb999999999999a;

/// Which sanitizers the targets were built with. The engine carries these
/// switches; it does not act on them.
#[derive(Debug, Clone, Copy, PartialEq, Eq, Structural)]
pub struct SanitizerOptions {
    pub address: bool,
    pub thread: bool,
    pub memory: bool,
    pub undefined_behavior: bool,
    pub leak: bool,
}

/// Everything a fuzzing session is told before it starts.
///
/// The engine decides by the settings gathered in [`RunPolicy`], by the
/// input format, the seed and the mutator options. The size bounds, the
/// retry settings, the corpus settings, the sanitizer switches and the
/// directories are carried for the caller; no decision of the engine reads
/// them. `corpus_sampling_rate` is the IEEE-754 binary64 bit pattern of the
/// rate.
#[derive(Debug, Clone)]
pub struct FuzzerConfig {
    pub input_format: InputFormat,
    pub fuzz_mode: FuzzMode,
    pub timeout: TimeSpan,
    pub max_iterations: u64,
    pub seed: Option<u64>,
    pub mutator_options: MutatorOptions,
    pub stop_on_first_crash: bool,
    pub stats_interval: usize,
    pub max_input_size: usize,
    pub min_input_size: usize,
    pub enable_logging: bool,
    pub log_file: Option<String>,
    pub save_crashes: bool,
    pub crash_directory: Option<String>,
    pub thread_count: usize,
    pub corpus_directory: Option<String>,
    pub dictionary_file: Option<String>,
    pub max_total_time: Option<TimeSpan>,
    pub coverage_enabled: bool,
    pub coverage_directory: Option<String>,
    pub retry_on_timeout: bool,
    pub max_retries: usize,
    pub initial_inputs: Vec<Vec<u8>>,
    pub use_corpus: bool,
    pub corpus_sampling_rate: u64,
    pub sanitizer_enabled: bool,
    pub sanitizer_options: SanitizerOptions,
}

/// The settings that the fuzzing loop itself decides by.
#[derive(Debug, Clone, Copy, PartialEq, Eq, Structural)]
pub struct RunPolicy {
    pub fuzz_mode: FuzzMode,
    pub timeout: TimeSpan,
    pub max_iterations: u64,
    pub max_total_time: Option<TimeSpan>,
    pub stop_on_first_crash: bool,
    pub stats_interval: usize,
    pub save_crashes: bool,
}

impl FuzzerConfig {
    /// A builder that starts from the default configuration.
    pub fn builder() -> (b: FuzzerConfigBuilder)
        ensures
            b.config().is_default(),
    {
        FuzzerConfigBuilder::new()
    }

    /// The loop settings of this configuration.
    pub open spec fn policy_of(self) -> RunPolicy {
        RunPolicy {
            fuzz_mode: self.fuzz_mode,
            timeout: self.timeout,
            max_iterations: self.max_iterations,
            max_total_time: self.max_total_time,
            stop_on_first_crash: self.stop_on_first_crash,
            stats_interval: self.stats_interval,
            save_crashes: self.save_crashes,
        }
    }

    /// Executable form of [`FuzzerConfig::policy_of`].
    pub fn policy(&self) -> (p: RunPolicy)
        ensures
            p == self.policy_of(),
    {
        RunPolicy {
            fuzz_mode: self.fuzz_mode,
            timeout: self.timeout,
            max_iterations: self.max_iterations,
            max_total_time: self.max_total_time,
            stop_on_first_crash: self.stop_on_first_crash,
            stats_interval: self.stats_interval,
            save_crashes: self.save_crashes,
        }
    }

    /// Whether this is the configuration a fresh builder starts from:
    /// binary inputs, random mode, one second per run, a thousand
    /// iterations, statistics every hundred, every optional part absent and
    /// every switch off.
    pub open spec fn is_default(self) -> bool {
        &&& self.input_format == InputFormat::Binary
        &&& self.fuzz_mode == FuzzMode::Random
        &&& self.timeout == (TimeSpan { secs: 1, nanos: 0 })
        &&& self.max_iterations == 1000
        &&& self.seed is None
        &&& self.mutator_options.is_default()
        &&& !self.stop_on_first_crash
        &&& self.stats_interval == 100
        &&& self.max_input_size == 1024
        &&& self.min_input_size == 1
        &&& !self.enable_logging
        &&& self.log_file is None
        &&& !self.save_crashes
        &&& self.crash_directory is None
        &&& self.thread_count == 1
        &&& self.corpus_directory is None
        &&& self.dictionary_file is None
        &&& self.max_total_time is None
        &&& !self.coverage_enabled
        &&& self.coverage_directory is None
        &&& !self.retry_on_timeout
        &&& self.max_retries == 3
        &&& self.initial_inputs@.len() == 0
        &&& !self.use_corpus
        &&& self.corpus_sampling_rate == DEFAULT_SAMPLING_RATE
        &&& !self.sanitizer_enabled
        &&& self.sanitizer_options == (SanitizerOptions {
            address: false,
            thread: false,
            memory: false,
            undefined_behavior: false,
            leak: false,
        })
    }
}

/// Builds a [`FuzzerConfig`] one setting at a time.
pub struct FuzzerConfigBuilder {
    config: FuzzerConfig,
}

impl FuzzerConfigBuilder {
    /// The configuration built so far.
    pub closed spec fn config(self) -> FuzzerConfig {
        self.config
    }

    /// A builder holding the default configuration.
    pub fn new() -> (b: FuzzerConfigBuilder)
        ensures
            b.config().is_default(),
    {
        FuzzerConfigBuilder {
            config: FuzzerConfig {
                input_format: InputFormat::Binary,
                fuzz_mode: FuzzMode::Random,
                timeout: TimeSpan::from_secs(1),
                max_iterations: 1000,
                seed: None,
                mutator_options: MutatorOptions::default(),
                stop_on_first_crash: false,
                stats_interval: 100,
                max_input_size: 1024,
                min_input_size: 1,
                enable_logging: false,
                log_file: None,
                save_crashes: false,
                crash_directory: None,
                thread_count: 1,
                corpus_directory: None,
                dictionary_file: None,
                max_total_time: None,
                coverage_enabled: false,
                coverage_directory: None,
                retry_on_timeout: false,
                max_retries: 3,
                initial_inputs: Vec::new(),
                use_corpus: false,
                corpus_sampling_rate: DEFAULT_SAMPLING_RATE,
                sanitizer_enabled: false,
                sanitizer_options: SanitizerOptions {
                    address: false,
                    thread: false,
                    memory: false,
                    undefined_behavior: false,
                    leak: false,
                },
            },
        }
    }

    pub fn input_format(self, format: InputFormat) -> (b: FuzzerConfigBuilder)
        ensures
            b.config() == (FuzzerConfig { input_format: format, ..self.config() }),
    {
        let mut b = self;
        b.config.input_format = format;
        b
    }

    pub fn fuzz_mode(self, mode: FuzzMode) -> (b: FuzzerConfigBuilder)
        ensures
            b.config() == (FuzzerConfig { fuzz_mode: mode, ..self.config() }),
    {
        let mut b = self;
        b.config.fuzz_mode = mode;
        b
    }

    pub fn timeout(self, timeout: TimeSpan) -> (b: FuzzerConfigBuilder)
        ensures
            b.config() == (FuzzerConfig { timeout: timeout, ..self.config() }),
    {
        let mut b = self;
        b.config.timeout = timeout;
        b
    }

    pub fn max_iterations(self, iterations: u64) -> (b: FuzzerConfigBuilder)
        ensures
            b.config() == (FuzzerConfig { max_iterations: iterations, ..self.config() }),
    {
        let mut b = self;
        b.config.max_iterations = iterations;
        b
    }

    pub fn seed(self, seed: u64) -> (b: FuzzerConfigBuilder)
        ensures
            b.config() == (FuzzerConfig { seed: Some(seed), ..self.config() }),
    {
        let mut b = self;
        b.config.seed = Some(seed);
        b
    }

    pub fn mutator_options(self, options: MutatorOptions) -> (b: FuzzerConfigBuilder)
        ensures
            b.config() == (FuzzerConfig { mutator_options: options, ..self.config() }),
    {
        let mut b = self;
        b.config.mutator_options = options;
        b
    }

    pub fn stop_on_first_crash(self, stop: bool) -> (b: FuzzerConfigBuilder)
        ensures
            b.config() == (FuzzerConfig { stop_on_first_crash: stop, ..self.config() }),
    {
        let mut b = self;
        b.config.stop_on_first_crash = stop;
        b
    }

    pub fn stats_interval(self, interval: usize) -> (b: FuzzerConfigBuilder)
        ensures
            b.config() == (FuzzerConfig { stats_interval: interval, ..self.config() }),
    {
        let mut b = self;
        b.config.stats_interval = interval;
        b
    }

    pub fn max_input_size(self, size: usize) -> (b: FuzzerConfigBuilder)
        ensures
            b.config() == (FuzzerConfig { max_input_size: size, ..self.config() }),
    {
        let mut b = self;
        b.config.max_input_size = size;
        b
    }

    pub fn min_input_size(self, size: usize) -> (b: FuzzerConfigBuilder)
        ensures
            b.config() == (FuzzerConfig { min_input_size: size, ..self.config() }),
    {
        let mut b = self;
        b.config.min_input_size = size;
        b
    }

    pub fn enable_logging(self, enable: bool) -> (b: FuzzerConfigBuilder)
        ensures
            b.config() == (FuzzerConfig { enable_logging: enable, ..self.config() }),
    {
        let mut b = self;
        b.config.enable_logging = enable;
        b
    }

    pub fn log_file(self, file: String) -> (b: FuzzerConfigBuilder)
        ensures
            b.config() == (FuzzerConfig { log_file: Some(file), ..self.config() }),
    {
        let mut b = self;
        b.config.log_file = Some(file);
        b
    }

    pub fn save_crashes(self, save: bool) -> (b: FuzzerConfigBuilder)
        ensures
            b.config() == (FuzzerConfig { save_crashes: save, ..self.config() }),
    {
        let mut b = self;
        b.config.save_crashes = save;
        b
    }

    pub fn crash_directory(self, directory: String) -> (b: FuzzerConfigBuilder)
        ensures
            b.config() == (FuzzerConfig { crash_directory: Some(directory), ..self.config() }),
    {
        let mut b = self;
        b.config.crash_directory = Some(directory);
        b
    }

    pub fn thread_count(self, count: usize) -> (b: FuzzerConfigBuilder)
        ensures
            b.config() == (FuzzerConfig { thread_count: count, ..self.config() }),
    {
        let mut b = self;
        b.config.thread_count = count;
        b
    }

    pub fn corpus_directory(self, directory: String) -> (b: FuzzerConfigBuilder)
        ensures
            b.config() == (FuzzerConfig { corpus_directory: Some(directory), ..self.config() }),
    {
        let mut b = self;
        b.config.corpus_directory = Some(directory);
        b
    }

    pub fn dictionary_file(self, file: String) -> (b: FuzzerConfigBuilder)
        ensures
            b.config() == (FuzzerConfig { dictionary_file: Some(file), ..self.config() }),
    {
        let mut b = self;
        b.config.dictionary_file = Some(file);
        b
    }

    pub fn max_total_time(self, time: TimeSpan) -> (b: FuzzerConfigBuilder)
        ensures
            b.config() == (FuzzerConfig { max_total_time: Some(time), ..self.config() }),
    {
        let mut b = self;
        b.config.max_total_time = Some(time);
        b
    }

    pub fn coverage_enabled(self, enabled: bool) -> (b: FuzzerConfigBuilder)
        ensures
            b.config() == (FuzzerConfig { coverage_enabled: enabled, ..self.config() }),
    {
        let mut b = self;
        b.config.coverage_enabled = enabled;
        b
    }

    pub fn coverage_directory(self, directory: String) -> (b: FuzzerConfigBuilder)
        ensures
            b.config() == (FuzzerConfig { coverage_directory: Some(directory), ..self.config() }),
    {
        let mut b = self;
        b.config.coverage_directory = Some(directory);
        b
    }

    pub fn retry_on_timeout(self, retry: bool) -> (b: FuzzerConfigBuilder)
        ensures
            b.config() == (FuzzerConfig { retry_on_timeout: retry, ..self.config() }),
    {
        let mut b = self;
        b.config.retry_on_timeout = retry;
        b
    }

    pub fn max_retries(self, retries: usize) -> (b: FuzzerConfigBuilder)
        ensures
            b.config() == (FuzzerConfig { max_retries: retries, ..self.config() }),
    {
        let mut b = self;
        b.config.max_retries = retries;
        b
    }

    pub fn initial_inputs(self, inputs: Vec<Vec<u8>>) -> (b: FuzzerConfigBuilder)
        ensures
            b.config() == (FuzzerConfig { initial_inputs: inputs, ..self.config() }),
    {
        let mut b = self;
        b.config.initial_inputs = inputs;
        b
    }

    pub fn use_corpus(self, use_corpus: bool) -> (b: FuzzerConfigBuilder)
        ensures
            b.config() == (FuzzerConfig { use_corpus: use_corpus, ..self.config() }),
    {
        let mut b = self;
        b.config.use_corpus = use_corpus;
        b
    }

    /// Sets the corpus sampling rate, given as the bit pattern of the rate.
    pub fn corpus_sampling_rate(self, rate: u64) -> (b: FuzzerConfigBuilder)
        ensures
            b.config() == (FuzzerConfig { corpus_sampling_rate: rate, ..self.config() }),
    {
        let mut b = self;
        b.config.corpus_sampling_rate = rate;
        b
    }

    pub fn sanitizer_enabled(self, enabled: bool) -> (b: FuzzerConfigBuilder)
        ensures
            b.config() == (FuzzerConfig { sanitizer_enabled: enabled, ..self.config() }),
    {
        let mut b = self;
        b.config.sanitizer_enabled = enabled;
        b
    }

    pub fn sanitizer_options(self, options: SanitizerOptions) -> (b: FuzzerConfigBuilder)
        ensures
            b.config() == (FuzzerConfig { sanitizer_options: options, ..self.config() }),
    {
        let mut b = self;
        b.config.sanitizer_options = options;
        b
    }

    /// The configuration that was built.
    pub fn build(self) -> (config: FuzzerConfig)
        ensures
            config == self.config(),
    {
        self.config
    }
}

} // verus!

//! The local fuzzing loop as a state machine, and its statistics.
//!
//! Running a target means waiting, for the target or for its time budget.
//! The engine does not wait. Its caller asks [`Fuzzer::begin_iteration`]
//! what to do, runs every target on the input it is handed, reports each
//! outcome with [`Fuzzer::record_outcome`] and closes the iteration with
//! [`Fuzzer::end_iteration`]. Every decision of the loop is taken here.

use crate::analysis::Analyzer;
use crate::config::FuzzerConfig;
use crate::config::RunPolicy;
use crate::errors::FuzzerError;
use crate::input::InputGenerator;
use crate::input::well_formed_input;
use crate::mutator::baseline_outcome;
use crate::mutator::copy_bytes;
use crate::mutator::Mutation;
use crate::mutator::Mutator;
use crate::mutator_options::MutatorOptions;
use crate::tally::count_in;
use crate::tally::counted;
use crate::tally::counted_all;
use crate::tally::counted_times;
use crate::tally::lemma_distinct_keys_once;
use crate::tally::lemma_repeated_key;
use crate::tally::TextTally;
use crate::text::push_text;
use crate::utils::ExecutionResult;
use crate::utils::InputFormat;
use crate::utils::Outcome;
use crate::utils::TimeSpan;
use vstd::prelude::*;
use vstd::string::StringExecFns;
use vstd::utf8::*;

verus! {

/// Statistics as a mathematical value.
pub struct StatsView {
    pub total_runs: nat,
    pub successful_runs: nat,
    pub errors: nat,
    pub timeouts: nat,
    pub crashes: Map<Seq<char>, nat>,
    pub total_crashes: nat,
    pub total_time: TimeSpan,
    pub inputs_tested: nat,
}

/// One more than `n`, unless `n` is the largest machine word.
pub open spec fn bump_word(n: nat) -> nat {
    if n < usize::MAX {
        n + 1
    } else {
        n
    }
}

impl StatsView {
    /// The statistics of a session in which nothing has run.
    pub open spec fn fresh() -> StatsView {
        StatsView {
            total_runs: 0,
            successful_runs: 0,
            errors: 0,
            timeouts: 0,
            crashes: Map::empty(),
            total_crashes: 0,
            total_time: TimeSpan { secs: 0, nanos: 0 },
            inputs_tested: 0,
        }
    }

    /// These statistics after one more run with the given outcome. Every
    /// run counts as a run; a success, a timeout or a crash counts under
    /// its kind as well, and a crash also under its description.
    pub open spec fn recorded(self, outcome: Outcome) -> StatsView {
        let counted_run = StatsView { total_runs: bump_word(self.total_runs), ..self };
        match outcome {
            Outcome::Success => StatsView {
                successful_runs: bump_word(self.successful_runs),
                ..counted_run
            },
            Outcome::Crash(description) => StatsView {
                errors: bump_word(self.errors),
                total_crashes: bump_word(self.total_crashes),
                crashes: counted(self.crashes, description),
                ..counted_run
            },
            Outcome::Timeout => StatsView { timeouts: bump_word(self.timeouts), ..counted_run },
        }
    }

    /// These statistics after runs with the given outcomes, in order.
    pub open spec fn recorded_all(self, outcomes: Seq<Outcome>) -> StatsView
        decreases outcomes.len(),
    {
        if outcomes.len() == 0 {
            self
        } else {
            self.recorded_all(outcomes.drop_last()).recorded(outcomes.last())
        }
    }

    /// These statistics after one more input was handed out.
    pub open spec fn with_input(self) -> StatsView {
        StatsView { inputs_tested: bump_word(self.inputs_tested), ..self }
    }

    /// Whether no counter of `self` is larger than it is in `later`.
    pub open spec fn no_larger_than(self, later: StatsView) -> bool {
        &&& self.total_runs <= later.total_runs
        &&& self.successful_runs <= later.successful_runs
        &&& self.errors <= later.errors
        &&& self.timeouts <= later.timeouts
        &&& self.total_crashes <= later.total_crashes
        &&& self.inputs_tested <= later.inputs_tested
        &&& forall|d: Seq<char>| count_in(self.crashes, d) <= count_in(later.crashes, d)
    }
}

/// The statistics of a fuzzing session. Counters never go down; one that
/// reaches the largest machine word stays there.
#[derive(Clone, Debug)]
pub struct FuzzerStats {
    pub total_runs: usize,
    pub successful_runs: usize,
    pub errors: usize,
    pub timeouts: usize,
    /// How often each crash description was seen.
    pub unique_crashes: TextTally,
    pub total_crashes: usize,
    pub total_time: TimeSpan,
    pub inputs_tested: usize,
}

impl View for FuzzerStats {
    type V = StatsView;

    open spec fn view(&self) -> StatsView {
        StatsView {
            total_runs: self.total_runs as nat,
            successful_runs: self.successful_runs as nat,
            errors: self.errors as nat,
            timeouts: self.timeouts as nat,
            crashes: self.unique_crashes@,
            total_crashes: self.total_crashes as nat,
            total_time: self.total_time,
            inputs_tested: self.inputs_tested as nat,
        }
    }
}

impl Default for FuzzerStats {
    /// Statistics with every counter at zero and no crash seen.
    fn default() -> (stats: FuzzerStats)
        ensures
            stats@ == StatsView::fresh(),
    {
        FuzzerStats {
            total_runs: 0,
            successful_runs: 0,
            errors: 0,
            timeouts: 0,
            unique_crashes: TextTally::new(),
            total_crashes: 0,
            total_time: TimeSpan { secs: 0, nanos: 0 },
            inputs_tested: 0,
        }
    }
}

/// `n + 1`, or `n` where that does not fit.
fn next_word(n: usize) -> (m: usize)
    ensures
        m == bump_word(n as nat),
{
    if n < usize::MAX {
        n + 1
    } else {
        n
    }
}

impl FuzzerStats {
    /// Counts one run with the outcome `result`.
    pub fn record(&mut self, result: &ExecutionResult)
        ensures
            final(self)@ == old(self)@.recorded(result@),
    {
        self.total_runs = next_word(self.total_runs);
        match result {
            ExecutionResult::Success => {
                self.successful_runs = next_word(self.successful_runs);
            },
            ExecutionResult::Crash(description) => {
                self.errors = next_word(self.errors);
                self.total_crashes = next_word(self.total_crashes);
                self.unique_crashes.count(description);
            },
            ExecutionResult::Timeout => {
                self.timeouts = next_word(self.timeouts);
            },
        }
    }

    /// Counts one input that was handed out for running.
    pub fn note_input(&mut self)
        ensures
            final(self)@ == old(self)@.with_input(),
    {
        self.inputs_tested = next_word(self.inputs_tested);
    }

    /// A copy of these statistics.
    pub fn snapshot(&self) -> (copy: FuzzerStats)
        ensures
            copy@ == self@,
    {
        FuzzerStats {
            total_runs: self.total_runs,
            successful_runs: self.successful_runs,
            errors: self.errors,
            timeouts: self.timeouts,
            unique_crashes: self.unique_crashes.clone(),
            total_crashes: self.total_crashes,
            total_time: self.total_time,
            inputs_tested: self.inputs_tested,
        }
    }
}

/// Recording a run never lowers a counter.
pub proof fn lemma_counters_never_decrease(stats: StatsView, outcome: Outcome)
    ensures
        stats.no_larger_than(stats.recorded(outcome)),
        stats.no_larger_than(stats.with_input()),
{
}

/// As long as the count fits the machine word, the number of runs on
/// record in a session that started fresh is the number of outcomes that
/// were recorded, and without a crash among them no crash is on record.
pub proof fn lemma_every_run_counted(outcomes: Seq<Outcome>)
    requires
        outcomes.len() <= usize::MAX,
    ensures
        StatsView::fresh().recorded_all(outcomes).total_runs == outcomes.len(),
        (forall|i: int| 0 <= i < outcomes.len() ==> outcomes[i] is Success)
            ==> StatsView::fresh().recorded_all(outcomes).successful_runs == outcomes.len()
            && StatsView::fresh().recorded_all(outcomes).total_crashes == 0
            && StatsView::fresh().recorded_all(outcomes).crashes == Map::<Seq<char>, nat>::empty(),
    decreases outcomes.len(),
{
    if outcomes.len() > 0 {
        lemma_every_run_counted(outcomes.drop_last());
    }
}

/// The outcomes of crashes with the given descriptions, in order.
pub open spec fn crashes_of(descriptions: Seq<Seq<char>>) -> Seq<Outcome> {
    Seq::new(descriptions.len(), |i: int| Outcome::Crash(descriptions[i]))
}

/// The outcomes of `times` crashes with the same description.
pub open spec fn repeated_crash(description: Seq<char>, times: nat) -> Seq<Outcome> {
    Seq::new(times, |i: int| Outcome::Crash(description))
}

/// After crashes with pairwise different descriptions, a fresh session has
/// exactly one entry per description, each with the count one.
pub proof fn lemma_distinct_crashes(descriptions: Seq<Seq<char>>)
    requires
        descriptions.no_duplicates(),
    ensures
        ({
            let after = StatsView::fresh().recorded_all(crashes_of(descriptions));
            &&& after.crashes.dom() == descriptions.to_set()
            &&& after.crashes.dom().finite()
            &&& after.crashes.dom().len() == descriptions.len()
            &&& forall|i: int|
                0 <= i < descriptions.len() ==> after.crashes[#[trigger] descriptions[i]] == 1
        }),
{
    lemma_crash_counts(descriptions);
    lemma_distinct_keys_once(descriptions);
}

/// After `times` crashes with one description, a fresh session has that
/// description as its only entry, with the count `times`.
pub proof fn lemma_repeated_crash(description: Seq<char>, times: nat)
    requires
        1 <= times <= u64::MAX,
    ensures
        StatsView::fresh().recorded_all(repeated_crash(description, times)).crashes == Map::<
            Seq<char>,
            nat,
        >::empty().insert(description, times),
    decreases times,
{
    lemma_repeated_counts(description, times);
    lemma_repeated_key(description, times);
}

/// Crashes are counted under their descriptions, one after the other.
proof fn lemma_crash_counts(descriptions: Seq<Seq<char>>)
    ensures
        StatsView::fresh().recorded_all(crashes_of(descriptions)).crashes == counted_all(
            Map::<Seq<char>, nat>::empty(),
            descriptions,
        ),
    decreases descriptions.len(),
{
    if descriptions.len() > 0 {
        lemma_crash_counts(descriptions.drop_last());
        assert(crashes_of(descriptions).drop_last() == crashes_of(descriptions.drop_last()));
    }
}

/// Repeated crashes are counted under their one description.
proof fn lemma_repeated_counts(description: Seq<char>, times: nat)
    ensures
        StatsView::fresh().recorded_all(repeated_crash(description, times)).crashes
            == counted_times(Map::<Seq<char>, nat>::empty(), description, times),
    decreases times,
{
    if times > 0 {
        lemma_repeated_counts(description, (times - 1) as nat);
        assert(repeated_crash(description, times).drop_last() == repeated_crash(
            description,
            (times - 1) as nat,
        ));
    }
}

/// What became of one run of a target: it came back in time, with or
/// without a failure, or its time budget ran out first.
#[derive(Clone, Debug)]
pub enum TargetOutcome {
    Succeeded,
    Failed(FuzzerError),
    TimedOut,
}

/// The outcome that a run is recorded as: a clean return is a success, a
/// failure is a crash described by the failure's message, and a run that
/// did not return in time is a timeout.
pub open spec fn outcome_of(outcome: TargetOutcome) -> Outcome {
    match outcome {
        TargetOutcome::Succeeded => Outcome::Success,
        TargetOutcome::Failed(failure) => Outcome::Crash(failure.message_text()),
        TargetOutcome::TimedOut => Outcome::Timeout,
    }
}

/// Classifies one run of a target. A clean return in time is always a
/// success, never a timeout or a crash; a run that did not return in time
/// is always a timeout, never a success; a failure is always a crash with
/// exactly the failure's message as its description.
pub fn classify(outcome: TargetOutcome) -> (result: ExecutionResult)
    ensures
        result@ == outcome_of(outcome),
        outcome is Succeeded <==> result is Success,
        outcome is TimedOut <==> result is Timeout,
        outcome is Failed <==> result is Crash,
        outcome matches TargetOutcome::Failed(failure) ==> result->Crash_0@
            == failure.message_text(),
{
    match outcome {
        TargetOutcome::Succeeded => ExecutionResult::Success,
        TargetOutcome::Failed(failure) => ExecutionResult::Crash(failure.message()),
        TargetOutcome::TimedOut => ExecutionResult::Timeout,
    }
}

/// The bytes of a crash artifact: the input, a newline, and the failure
/// description.
pub open spec fn artifact_bytes(input: Seq<u8>, crash_info: Seq<char>) -> Seq<u8> {
    input + seq![10u8] + encode_utf8(crash_info)
}

/// Composes the artifact that is kept for a crash.
pub fn crash_artifact(input: &[u8], crash_info: &str) -> (artifact: Vec<u8>)
    ensures
        artifact@ == artifact_bytes(input@, crash_info@),
{
    let mut artifact: Vec<u8> = copy_bytes(input);
    artifact.push(10);
    push_text(&mut artifact, crash_info);
    artifact
}

/// The path of the artifact of a crash: the file `crash_<id>.bin` in the
/// directory `directory`.
pub open spec fn artifact_path(directory: Seq<char>, id: Seq<char>) -> Seq<char> {
    directory + "/crash_"@ + id + ".bin"@
}

/// Composes the path under which the artifact of a crash is kept, from the
/// crash directory and the identifier given to the crash.
pub fn crash_file_name(directory: &str, id: &str) -> (name: String)
    ensures
        name@ == artifact_path(directory@, id@),
{
    let mut name = String::from_str(directory);
    name.append("/crash_");
    name.append(id);
    name.append(".bin");
    name
}

/// Why the loop stopped.
#[derive(Clone, Copy, Debug, PartialEq, Eq, Structural)]
pub enum StopReason {
    MaxIterations,
    MaxTime,
    FirstCrash,
}

/// Where a session stands.
#[derive(Clone, Copy, Debug, PartialEq, Eq, Structural)]
pub enum Phase {
    Idle,
    Running,
    Stopped(StopReason),
    Reporting,
    Terminated,
}

impl Phase {
    /// Whether the loop may still begin an iteration.
    pub open spec fn active(self) -> bool {
        self is Idle || self is Running
    }

    /// Whether a session may move from this phase to `next` in one step.
    pub open spec fn leads_to(self, next: Phase) -> bool {
        match self {
            Phase::Idle => next is Running || next is Stopped,
            Phase::Running => next is Running || next is Stopped,
            Phase::Stopped(_) => next is Reporting,
            Phase::Reporting => next is Terminated,
            Phase::Terminated => false,
        }
    }
}

/// What the caller does next.
#[derive(Clone, Debug)]
pub enum Step {
    /// Run every target on this input.
    Run(Vec<u8>),
    /// This iteration produced no input; go on with the next one.
    Skip(FuzzerError),
    /// The loop is over.
    Stop(StopReason),
}

/// What the end of an iteration asks of the caller.
#[derive(Clone, Copy, Debug, PartialEq, Eq, Structural)]
pub struct IterationEnd {
    /// The statistics are due to be shown.
    pub report_stats: bool,
    /// The loop is over: a crash was seen and the session stops on the first.
    pub stop: bool,
}

/// The engine of a local fuzzing session.
///
/// An engine is the one owner of its statistics, so it cannot be cloned: a
/// second handle on the same session is for the caller to make, behind a
/// lock of its choosing.
#[derive(Debug)]
pub struct Fuzzer {
    policy: RunPolicy,
    pub input_generator: InputGenerator,
    pub mutator: Mutator,
    analyzer: Analyzer,
    targets: Vec<String>,
    stats: FuzzerStats,
    iteration: u64,
    phase: Phase,
}

/// Whether `input` is what one iteration may hand out: a freshly
/// generated input of the format, mutated by a baseline plan if the mode
/// asks for mutation.
pub open spec fn iteration_input(
    format: InputFormat,
    mutates: bool,
    options: MutatorOptions,
    input: Seq<u8>,
) -> bool {
    if mutates {
        exists|fresh: Seq<u8>, plan: Seq<Mutation>|
            well_formed_input(format, fresh) && #[trigger] baseline_outcome(
                options,
                fresh,
                plan,
                input,
            )
    } else {
        well_formed_input(format, input)
    }
}

impl Fuzzer {
    /// The settings the loop decides by.
    pub closed spec fn policy(&self) -> RunPolicy {
        self.policy
    }

    /// The statistics so far.
    pub closed spec fn stats(&self) -> StatsView {
        self.stats@
    }

    /// The number of iterations that were closed or skipped.
    pub closed spec fn iteration(&self) -> u64 {
        self.iteration
    }

    /// Where the session stands.
    pub closed spec fn phase(&self) -> Phase {
        self.phase
    }

    /// The names of the registered targets, in the order of registration.
    pub closed spec fn target_names(&self) -> Seq<Seq<char>> {
        Seq::new(self.targets@.len(), |i: int| self.targets@[i]@)
    }

    /// The input generator of the session.
    pub closed spec fn generator(&self) -> InputGenerator {
        self.input_generator
    }

    /// The mutator of the session.
    pub closed spec fn mutations(&self) -> Mutator {
        self.mutator
    }

    /// The outcome tally of the session.
    pub closed spec fn analyzer(&self) -> Analyzer {
        self.analyzer
    }

    /// An idle engine for `config`: no target, no run, generator and
    /// mutator seeded from the configuration.
    pub fn new(config: FuzzerConfig) -> (fuzzer: Fuzzer)
        ensures
            fuzzer.policy() == config.policy_of(),
            fuzzer.phase() == Phase::Idle,
            fuzzer.iteration() == 0,
            fuzzer.stats() == StatsView::fresh(),
            fuzzer.target_names() == Seq::<Seq<char>>::empty(),
            fuzzer.generator().format() == config.input_format,
            fuzzer.mutations().options() == config.mutator_options,
            fuzzer.mutations().corpus() == Seq::<Seq<u8>>::empty(),
    {
        let policy = config.policy();
        let seed = config.seed;
        let fuzzer = Fuzzer {
            policy,
            input_generator: InputGenerator::with_format(config.input_format, seed),
            mutator: Mutator::new(config.mutator_options, seed),
            analyzer: Analyzer::new(),
            targets: Vec::new(),
            stats: FuzzerStats::default(),
            iteration: 0,
            phase: Phase::Idle,
        };
        assert(fuzzer.target_names() =~= Seq::<Seq<char>>::empty());
        fuzzer
    }

    /// Registers a target under `name`.
    pub fn add_target(&mut self, name: &str)
        ensures
            final(self).target_names() == old(self).target_names().push(name@),
            final(self).policy() == old(self).policy(),
            final(self).stats() == old(self).stats(),
            final(self).iteration() == old(self).iteration(),
            final(self).phase() == old(self).phase(),
            final(self).generator() == old(self).generator(),
            final(self).mutations() == old(self).mutations(),
    {
        self.targets.push(name.to_owned());
        assert(self.target_names() =~= old(self).target_names().push(name@));
    }

    /// The number of registered targets.
    pub fn target_count(&self) -> (n: usize)
        ensures
            n == self.target_names().len(),
    {
        self.targets.len()
    }

    /// Where the session stands.
    pub fn current_phase(&self) -> (phase: Phase)
        ensures
            phase == self.phase(),
    {
        self.phase
    }

    /// The number of iterations that were closed or skipped.
    pub fn iterations_done(&self) -> (n: u64)
        ensures
            n == self.iteration(),
    {
        self.iteration
    }

    /// The settings the loop decides by.
    pub fn run_policy(&self) -> (policy: RunPolicy)
        ensures
            policy == self.policy(),
    {
        self.policy
    }

    /// A fork of the engine's input generator.
    pub fn fork_generator(&self) -> (copy: InputGenerator)
        ensures
            copy.format() == self.generator().format(),
    {
        self.input_generator.fork()
    }

    /// A fork of the engine's mutator.
    pub fn fork_mutator(&self) -> (copy: Mutator)
        ensures
            copy.options().same_as(self.mutations().options()),
            copy.corpus() == self.mutations().corpus(),
    {
        self.mutator.fork()
    }

    /// The outcome tally of the session.
    pub fn outcome_tally(&self) -> (tally: &Analyzer)
        ensures
            *tally == self.analyzer(),
    {
        &self.analyzer
    }

    /// A copy of the statistics so far.
    pub fn statistics(&self) -> (stats: FuzzerStats)
        ensures
            stats@ == self.stats(),
    {
        self.stats.snapshot()
    }

    /// Opens the next iteration, `elapsed` after the session started.
    ///
    /// The loop stops once `max_iterations` iterations were closed or
    /// skipped, or once `elapsed` has reached the time budget, if there is
    /// one. Otherwise the engine generates an input, mutates it if the mode
    /// asks for mutation, counts it and hands it out. If the mutator cannot
    /// mutate, the iteration is skipped: it is counted as an iteration, no
    /// input is counted, and nothing is run.
    pub fn begin_iteration(&mut self, elapsed: TimeSpan) -> (step: Step)
        requires
            old(self).phase().active(),
        ensures
            final(self).policy() == old(self).policy(),
            final(self).target_names() == old(self).target_names(),
            final(self).analyzer() == old(self).analyzer(),
            final(self).generator().format() == old(self).generator().format(),
            final(self).mutations().options() == old(self).mutations().options(),
            final(self).mutations().corpus() == old(self).mutations().corpus(),
            old(self).phase().leads_to(final(self).phase()),
            old(self).iteration() >= old(self).policy().max_iterations ==> {
                &&& step matches Step::Stop(StopReason::MaxIterations)
                &&& final(self).phase() == Phase::Stopped(StopReason::MaxIterations)
                &&& final(self).iteration() == old(self).iteration()
                &&& final(self).stats() == old(self).stats()
            },
            old(self).iteration() < old(self).policy().max_iterations && out_of_time(
                old(self).policy(),
                elapsed,
            ) ==> {
                &&& step matches Step::Stop(StopReason::MaxTime)
                &&& final(self).phase() == Phase::Stopped(StopReason::MaxTime)
                &&& final(self).iteration() == old(self).iteration()
                &&& final(self).stats() == old(self).stats()
            },
            old(self).iteration() < old(self).policy().max_iterations && !out_of_time(
                old(self).policy(),
                elapsed,
            ) ==> {
                &&& final(self).phase() == Phase::Running
                &&& if old(self).policy().fuzz_mode.mutates() && old(
                    self,
                ).mutations().options().max_mutations == 0 {
                    &&& step matches Step::Skip(FuzzerError::MutationError(_))
                    &&& final(self).iteration() == old(self).iteration() + 1
                    &&& final(self).stats() == old(self).stats()
                } else {
                    &&& step matches Step::Run(input)
                    &&& iteration_input(
                        old(self).generator().format(),
                        old(self).policy().fuzz_mode.mutates(),
                        old(self).mutations().options(),
                        input@,
                    )
                    &&& final(self).iteration() == old(self).iteration()
                    &&& final(self).stats() == old(self).stats().with_input()
                }
            },
    {
        if self.iteration >= self.policy.max_iterations {
            self.phase = Phase::Stopped(StopReason::MaxIterations);
            return Step::Stop(StopReason::MaxIterations);
        }
        if let Some(budget) = self.policy.max_total_time {
            if elapsed.at_least(&budget) {
                self.phase = Phase::Stopped(StopReason::MaxTime);
                return Step::Stop(StopReason::MaxTime);
            }
        }
        self.phase = Phase::Running;
        let fresh: Vec<u8> = match self.input_generator.generate_input() {
            Ok(input) => input,
            Err(failure) => {
                self.iteration = self.iteration + 1;
                return Step::Skip(failure);
            },
        };
        if !self.policy.fuzz_mode.includes_mutation() {
            self.stats.note_input();
            return Step::Run(fresh);
        }
        match self.mutator.mutate(fresh.as_slice()) {
            Ok(input) => {
                self.stats.note_input();
                let step = Step::Run(input);
                proof {
                    let plan = choose|plan: Seq<Mutation>| #[trigger]
                        baseline_outcome(old(self).mutations().options(), fresh@, plan, input@);
                    assert(baseline_outcome(
                        old(self).mutations().options(),
                        fresh@,
                        plan,
                        step->Run_0@,
                    ));
                }
                step
            },
            Err(failure) => {
                self.iteration = self.iteration + 1;
                Step::Skip(failure)
            },
        }
    }

    /// Takes in the outcome of one run of one target: classifies it and
    /// counts it in the statistics.
    pub fn record_outcome(&mut self, outcome: TargetOutcome) -> (result: ExecutionResult)
        ensures
            result@ == outcome_of(outcome),
            final(self).stats() == old(self).stats().recorded(result@),
            final(self).policy() == old(self).policy(),
            final(self).target_names() == old(self).target_names(),
            final(self).analyzer() == old(self).analyzer(),
            final(self).iteration() == old(self).iteration(),
            final(self).phase() == old(self).phase(),
            final(self).generator() == old(self).generator(),
            final(self).mutations() == old(self).mutations(),
    {
        let result = classify(outcome);
        self.stats.record(&result);
        result
    }

    /// Whether the input of a run with the outcome `result` is to be kept
    /// as a crash artifact: crashes are, if the session saves crashes.
    pub fn should_save(&self, result: &ExecutionResult) -> (save: bool)
        ensures
            save == (self.policy().save_crashes && *result is Crash),
    {
        self.policy.save_crashes && result.is_crash()
    }

    /// Closes the iteration after every target has reported.
    ///
    /// The statistics are due whenever the number of closed iterations is
    /// a multiple of the interval; an interval of zero never asks for
    /// them. If the session stops on the first crash and a crash was
    /// counted, the loop is over, whatever the iteration and time budgets.
    pub fn end_iteration(&mut self) -> (end: IterationEnd)
        requires
            old(self).phase() == Phase::Running,
        ensures
            final(self).policy() == old(self).policy(),
            final(self).target_names() == old(self).target_names(),
            final(self).analyzer() == old(self).analyzer(),
            final(self).stats() == old(self).stats(),
            final(self).generator() == old(self).generator(),
            final(self).mutations() == old(self).mutations(),
            old(self).phase().leads_to(final(self).phase()),
            final(self).iteration() == next_iteration(old(self).iteration()),
            end.report_stats == stats_due(old(self).policy(), final(self).iteration()),
            end.stop == (old(self).policy().stop_on_first_crash && old(self).stats().total_crashes
                > 0),
            final(self).phase() == if end.stop {
                Phase::Stopped(StopReason::FirstCrash)
            } else {
                Phase::Running
            },
    {
        if self.iteration < u64::MAX {
            self.iteration = self.iteration + 1;
        }
        let interval: u64 = self.policy.stats_interval as u64;
        let report_stats: bool = interval > 0 && self.iteration % interval == 0;
        let stop: bool = self.policy.stop_on_first_crash && self.stats.total_crashes > 0;
        if stop {
            self.phase = Phase::Stopped(StopReason::FirstCrash);
        }
        IterationEnd { report_stats, stop }
    }

    /// Moves a stopped session on to reporting and hands out the
    /// statistics for the final summary.
    pub fn report(&mut self) -> (summary: FuzzerStats)
        requires
            old(self).phase() is Stopped,
        ensures
            final(self).phase() == Phase::Reporting,
            old(self).phase().leads_to(final(self).phase()),
            summary@ == old(self).stats(),
            final(self).stats() == old(self).stats(),
            final(self).iteration() == old(self).iteration(),
            final(self).policy() == old(self).policy(),
            final(self).target_names() == old(self).target_names(),
    {
        self.phase = Phase::Reporting;
        self.stats.snapshot()
    }

    /// Ends a session whose final summary was produced.
    pub fn terminate(&mut self)
        requires
            old(self).phase() == Phase::Reporting,
        ensures
            final(self).phase() == Phase::Terminated,
            old(self).phase().leads_to(final(self).phase()),
            final(self).stats() == old(self).stats(),
            final(self).iteration() == old(self).iteration(),
            final(self).policy() == old(self).policy(),
            final(self).target_names() == old(self).target_names(),
    {
        self.phase = Phase::Terminated;
    }
}

/// Whether the time budget of `policy`, if it has one, is used up after
/// `elapsed`.
pub open spec fn out_of_time(policy: RunPolicy, elapsed: TimeSpan) -> bool {
    policy.max_total_time matches Some(budget) && elapsed.total_nanos() >= budget.total_nanos()
}

/// The iteration count after one more iteration.
pub open spec fn next_iteration(iteration: u64) -> u64 {
    if iteration < u64::MAX {
        (iteration + 1) as u64
    } else {
        iteration
    }
}

/// Whether the statistics are due after `iteration` closed iterations.
pub open spec fn stats_due(policy: RunPolicy, iteration: u64) -> bool {
    policy.stats_interval > 0 && iteration as int % policy.stats_interval as int == 0
}

} // verus!

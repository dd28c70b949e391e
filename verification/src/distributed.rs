//! The coordinator of a distributed fuzzing session.
//!
//! Workers are remote processes behind long-lived connections. The
//! coordinator hands each of them tasks and takes in their results. What is
//! sent and what is done with an answer is decided here; connecting,
//! encoding messages and moving bytes is the caller's part.

use crate::config::FuzzerConfig;
use crate::config::RunPolicy;
use crate::coverage::CoverageData;
use crate::coverage::CoverageTracker;
use crate::coverage::CoverageView;
use crate::errors::FuzzerError;
use crate::fuzz_engine::Fuzzer;
use crate::fuzz_engine::FuzzerStats;
use crate::fuzz_engine::iteration_input;
use crate::fuzz_engine::StatsView;
use crate::input::InputGenerator;
use crate::mutator::baseline_outcome;
use crate::mutator::Mutation;
use crate::mutator::Mutator;
use crate::utils::ExecutionResult;
use crate::utils::FuzzMode;
use vstd::prelude::*;
use vstd::string::StringExecFns;

verus! {

/// What the coordinator believes a worker is doing. The tag is kept for
/// the record; no decision reads it.
#[derive(Clone, Copy, Debug, PartialEq, Eq, Structural)]
pub enum WorkerStatus {
    Idle,
    Busy,
    Offline,
}

/// A worker: where to reach it, and its status tag.
#[derive(Clone, Debug)]
pub struct WorkerInfo {
    address: String,
    _status: WorkerStatus,
}

impl WorkerInfo {
    /// The network address of the worker.
    pub closed spec fn address_text(&self) -> Seq<char> {
        self.address@
    }

    /// The status tag of the worker.
    pub closed spec fn status_tag(&self) -> WorkerStatus {
        self._status
    }

    /// The network address of the worker.
    pub fn address(&self) -> (address: &String)
        ensures
            address@ == self.address_text(),
    {
        &self.address
    }

    /// The status tag of the worker.
    pub fn status(&self) -> (status: WorkerStatus)
        ensures
            status == self.status_tag(),
    {
        self._status
    }
}

/// A task for a worker: one input to run.
#[derive(Debug)]
pub struct FuzzTask {
    pub input: Vec<u8>,
}

/// A worker's answer: the input it ran, what came of it, and the coverage
/// it measured, if it measured any.
#[derive(Debug)]
pub struct FuzzResult {
    pub input: Vec<u8>,
    pub result: ExecutionResult,
    pub coverage: Option<CoverageData>,
}

/// The two messages of the wire protocol.
#[derive(Debug)]
pub enum DistributedMessage {
    Task(FuzzTask),
    Result(FuzzResult),
}

/// Detail of the error for a message that has no place on the response path.
pub const UNEXPECTED_MESSAGE: &'static str = "protocol error: expected a result message";

/// What one read from a worker's connection delivered: `None` if the
/// worker closed the connection, else the bytes of one message.
pub open spec fn frame_of(buffer: Seq<u8>, received: int) -> Option<Seq<u8>> {
    if received == 0 {
        None
    } else {
        Some(buffer.subrange(0, received))
    }
}

/// Cuts the message out of a receive buffer of which the first `received`
/// bytes were filled. A read of nothing means that the worker closed the
/// connection.
pub fn read_frame(buffer: &[u8], received: usize) -> (frame: Option<Vec<u8>>)
    requires
        received <= buffer@.len(),
    ensures
        frame is Some == frame_of(buffer@, received as int) is Some,
        frame matches Some(bytes) ==> Some(bytes@) == frame_of(buffer@, received as int),
{
    if received == 0 {
        return None;
    }
    let mut bytes: Vec<u8> = Vec::new();
    let mut i: usize = 0;
    while i < received
        invariant
            i <= received <= buffer@.len(),
            bytes@ == buffer@.subrange(0, i as int),
        decreases received - i,
    {
        bytes.push(buffer[i]);
        i += 1;
    }
    Some(bytes)
}

/// Takes a decoded message from the response path. Only results are
/// expected there; a task is a protocol error.
pub fn expect_result(message: DistributedMessage) -> (answer: Result<FuzzResult, FuzzerError>)
    ensures
        match message {
            DistributedMessage::Result(result) => answer == Ok::<FuzzResult, FuzzerError>(result),
            DistributedMessage::Task(_) => answer matches Err(FuzzerError::CustomError(text))
                && text@ == UNEXPECTED_MESSAGE@,
        },
{
    match message {
        DistributedMessage::Result(result) => Ok(result),
        DistributedMessage::Task(_) => Err(
            FuzzerError::CustomError(String::from_str(UNEXPECTED_MESSAGE)),
        ),
    }
}

/// The generating side of one worker's loop: it owns a generator and a
/// mutator of its own, whose random streams no other worker shares.
#[derive(Clone, Debug)]
pub struct WorkerSession {
    mode: FuzzMode,
    input_generator: InputGenerator,
    mutator: Mutator,
}

impl WorkerSession {
    /// The mode in which tasks are derived.
    pub closed spec fn mode(&self) -> FuzzMode {
        self.mode
    }

    /// The input generator of this worker.
    pub closed spec fn generator(&self) -> InputGenerator {
        self.input_generator
    }

    /// The mutator of this worker.
    pub closed spec fn mutations(&self) -> Mutator {
        self.mutator
    }

    /// A session that derives its tasks from the given generator and mutator.
    pub fn new(mode: FuzzMode, input_generator: InputGenerator, mutator: Mutator) -> (session:
        WorkerSession)
        ensures
            session.mode() == mode,
            session.generator() == input_generator,
            session.mutations() == mutator,
    {
        WorkerSession { mode, input_generator, mutator }
    }

    /// Derives the next task: a fresh input, mutated if the mode asks for
    /// mutation. The only failure is a mutator that cannot mutate.
    pub fn next_task(&mut self) -> (task: Result<FuzzTask, FuzzerError>)
        ensures
            final(self).mode() == old(self).mode(),
            final(self).generator().format() == old(self).generator().format(),
            final(self).mutations().options() == old(self).mutations().options(),
            final(self).mutations().corpus() == old(self).mutations().corpus(),
            if old(self).mode().mutates() && old(self).mutations().options().max_mutations == 0 {
                task matches Err(FuzzerError::MutationError(_))
            } else {
                &&& task matches Ok(t)
                &&& iteration_input(
                    old(self).generator().format(),
                    old(self).mode().mutates(),
                    old(self).mutations().options(),
                    t.input@,
                )
            },
    {
        let fresh: Vec<u8> = match self.input_generator.generate_input() {
            Ok(input) => input,
            Err(failure) => {
                return Err(failure);
            },
        };
        if !self.mode.includes_mutation() {
            return Ok(FuzzTask { input: fresh });
        }
        match self.mutator.mutate(fresh.as_slice()) {
            Ok(input) => {
                let task = FuzzTask { input };
                proof {
                    let plan = choose|plan: Seq<Mutation>| #[trigger]
                        baseline_outcome(old(self).mutator.options(), fresh@, plan, input@);
                    assert(baseline_outcome(
                        old(self).mutator.options(),
                        fresh@,
                        plan,
                        task.input@,
                    ));
                }
                Ok(task)
            },
            Err(failure) => Err(failure),
        }
    }
}

/// The coordinator: the worker list, and the statistics and the coverage
/// of the whole session.
///
/// A coordinator is the one owner of its statistics and its coverage, so
/// it cannot be cloned: tasks that share a session share one coordinator,
/// behind a lock of the caller's choosing.
#[derive(Debug)]
pub struct DistributedFuzzer {
    policy: RunPolicy,
    fuzzer: Fuzzer,
    workers: Vec<WorkerInfo>,
    coverage_tracker: CoverageTracker,
    stats: FuzzerStats,
}

impl DistributedFuzzer {
    /// The loop settings of the session.
    pub closed spec fn policy(&self) -> RunPolicy {
        self.policy
    }

    /// The engine whose generator and mutator the workers start from.
    pub closed spec fn engine(&self) -> Fuzzer {
        self.fuzzer
    }

    /// The addresses of the workers, in the order in which they were added.
    pub closed spec fn worker_addresses(&self) -> Seq<Seq<char>> {
        Seq::new(self.workers@.len(), |i: int| self.workers@[i].address@)
    }

    /// Whether every worker is tagged idle.
    pub closed spec fn all_idle(&self) -> bool {
        forall|i: int| 0 <= i < self.workers@.len() ==> self.workers@[i]._status == WorkerStatus::Idle
    }

    /// The statistics of the session.
    pub closed spec fn stats(&self) -> StatsView {
        self.stats@
    }

    /// The coverage of the session.
    pub closed spec fn coverage(&self) -> CoverageView {
        self.coverage_tracker@
    }

    /// A coordinator without workers, with fresh statistics and no coverage.
    pub fn new(config: FuzzerConfig, fuzzer: Fuzzer) -> (coordinator: DistributedFuzzer)
        ensures
            coordinator.policy() == config.policy_of(),
            coordinator.engine() == fuzzer,
            coordinator.worker_addresses() == Seq::<Seq<char>>::empty(),
            coordinator.all_idle(),
            coordinator.stats() == StatsView::fresh(),
            coordinator.coverage() == CoverageView::empty(),
    {
        let coordinator = DistributedFuzzer {
            policy: config.policy(),
            fuzzer,
            workers: Vec::new(),
            coverage_tracker: CoverageTracker::new(),
            stats: FuzzerStats::default(),
        };
        assert(coordinator.worker_addresses() =~= Seq::<Seq<char>>::empty());
        coordinator
    }

    /// Adds the worker at `address` to the list, tagged idle.
    pub fn add_worker(&mut self, address: &str)
        ensures
            final(self).worker_addresses() == old(self).worker_addresses().push(address@),
            old(self).all_idle() ==> final(self).all_idle(),
            final(self).policy() == old(self).policy(),
            final(self).engine() == old(self).engine(),
            final(self).stats() == old(self).stats(),
            final(self).coverage() == old(self).coverage(),
    {
        let worker = WorkerInfo { address: address.to_owned(), _status: WorkerStatus::Idle };
        self.workers.push(worker);
        assert(self.worker_addresses() =~= old(self).worker_addresses().push(address@));
    }

    /// The generating side for one worker: the mode of the session, and a
    /// generator and a mutator forked from the engine's. Every worker's
    /// session starts from the same state of the random sources and draws
    /// on its own from there.
    pub fn worker_session(&self) -> (session: WorkerSession)
        ensures
            session.mode() == self.policy().fuzz_mode,
            session.generator().format() == self.engine().generator().format(),
            session.mutations().options().same_as(self.engine().mutations().options()),
            session.mutations().corpus() == self.engine().mutations().corpus(),
    {
        WorkerSession::new(
            self.policy.fuzz_mode,
            self.fuzzer.fork_generator(),
            self.fuzzer.fork_mutator(),
        )
    }

    /// The workers, in the order in which they were added.
    pub fn workers(&self) -> (workers: &Vec<WorkerInfo>)
        ensures
            workers@.len() == self.worker_addresses().len(),
            forall|i: int|
                0 <= i < workers@.len() ==> #[trigger] workers@[i].address_text()
                    == self.worker_addresses()[i],
            self.all_idle() ==> forall|i: int|
                0 <= i < workers@.len() ==> #[trigger] workers@[i].status_tag()
                    == WorkerStatus::Idle,
    {
        &self.workers
    }

    /// The engine whose generator and mutator the workers start from.
    pub fn fuzzer(&self) -> (fuzzer: &Fuzzer)
        ensures
            *fuzzer == self.engine(),
    {
        &self.fuzzer
    }

    /// The loop settings of the session.
    pub fn run_policy(&self) -> (policy: RunPolicy)
        ensures
            policy == self.policy(),
    {
        self.policy
    }

    /// A copy of the statistics of the session.
    pub fn statistics(&self) -> (stats: FuzzerStats)
        ensures
            stats@ == self.stats(),
    {
        self.stats.snapshot()
    }

    /// A copy of the coverage of the session.
    pub fn coverage_snapshot(&self) -> (coverage: CoverageData)
        ensures
            coverage@ == self.coverage(),
    {
        self.coverage_tracker.get_coverage()
    }

    /// Takes in one result of a worker: its outcome is counted once, and
    /// the coverage that came with it is merged into the session's. The
    /// answer says whether coverage that came with the result was left out
    /// because a hit count would have left the range of the machine word.
    pub fn update_stats_with_result(&mut self, result: &FuzzResult) -> (left_out: bool)
        ensures
            final(self).stats() == old(self).stats().recorded(result.result@),
            left_out == (result.coverage matches Some(theirs) && !old(self).coverage().admits(
                theirs@,
            )),
            final(self).coverage() == match result.coverage {
                Some(theirs) => if old(self).coverage().admits(theirs@) {
                    old(self).coverage().merged(theirs@)
                } else {
                    old(self).coverage()
                },
                None => old(self).coverage(),
            },
            final(self).policy() == old(self).policy(),
            final(self).engine() == old(self).engine(),
            final(self).worker_addresses() == old(self).worker_addresses(),
            final(self).all_idle() == old(self).all_idle(),
    {
        Self::update_stats_internal(&mut self.stats, &result.result);
        match &result.coverage {
            Some(theirs) => {
                if self.coverage_tracker.data.can_merge(theirs) {
                    self.coverage_tracker.data.merge(theirs);
                    false
                } else {
                    true
                }
            },
            None => false,
        }
    }

    /// Counts one outcome in `stats`.
    pub fn update_stats_internal(stats: &mut FuzzerStats, result: &ExecutionResult)
        ensures
            final(stats)@ == old(stats)@.recorded(result@),
    {
        stats.record(result);
    }
}

} // verus!

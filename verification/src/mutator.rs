//! Byte-level mutation of inputs.
//!
//! A call of [`Mutator::mutate`] or [`Mutator::mutate_with_feedback`] draws a
//! *plan*, a sequence of [`Mutation`] steps, from the random source and
//! applies it to the input. What a step does to the bytes is fixed by
//! [`Mutation::applied`]; which steps a mutator may draw is fixed by
//! [`baseline_step`] and [`feedback_step`]. The random source only picks
//! among the permitted steps.

use crate::errors::FuzzerError;
use crate::mutator_options::copy_byte_strings;
use crate::mutator_options::MutationType;
use crate::mutator_options::MutatorOptions;
use crate::random::draw_byte;
use crate::random::draw_index;
use crate::random::draw_index_inclusive;
use crate::random::draw_signed_inclusive;
use crate::random::draw_small;
use crate::random::entropy_seed;
use crate::random::seeded_rng;
use rand::rngs::StdRng;
use vstd::prelude::*;
use vstd::string::StringExecFns;

verus! {

/// One transformation of a byte string, with every random choice already made.
#[derive(Clone, Debug, PartialEq, Eq)]
pub enum Mutation {
    /// Leaves the input as it is.
    Keep,
    /// Inverts bit `bit` of the byte at `index`.
    FlipBit { index: usize, bit: u8 },
    /// Overwrites the byte at `index` with `value`.
    SetByte { index: usize, value: u8 },
    /// Inserts `value` before position `index`.
    InsertByte { index: usize, value: u8 },
    /// Removes the byte at `index`.
    DeleteByte { index: usize },
    /// Overwrites the bytes from `start` on with `bytes`.
    OverwriteBlock { start: usize, bytes: Vec<u8> },
    /// Adds `delta` to the byte at `index`, wrapping around.
    AddDelta { index: usize, delta: i64 },
    /// Keeps the first `point` bytes and continues with `tail`.
    Crossover { point: usize, tail: Vec<u8> },
    /// Inserts a piece of a corpus entry before position `point`.
    Splice { point: usize, bytes: Vec<u8> },
    /// Replaces the bytes from `start` up to `end` with `word`.
    ReplaceWindow { start: usize, end: usize, word: Vec<u8> },
    /// Exchanges the bytes at `first` and `second`.
    SwapBytes { first: usize, second: usize },
    /// Inserts `bytes` before position `index`.
    InsertValue { index: usize, bytes: Vec<u8> },
}

/// `data` with the bytes from `start` up to `end` replaced by `bytes`.
pub open spec fn splice(data: Seq<u8>, start: int, end: int, bytes: Seq<u8>) -> Seq<u8> {
    data.subrange(0, start) + bytes + data.subrange(end, data.len() as int)
}

/// `byte` with bit number `bit` inverted.
pub open spec fn flip_bit(byte: u8, bit: u8) -> u8 {
    byte ^ (1u8 << bit)
}

/// `byte + delta`, reduced into the range of a byte.
pub open spec fn add_wrapping(byte: u8, delta: int) -> u8 {
    ((byte + delta) % 256) as u8
}

impl Mutation {
    /// Whether this step is meaningful on an input of `len` bytes: every
    /// position it names exists.
    pub open spec fn fits(self, len: nat) -> bool {
        match self {
            Mutation::Keep => true,
            Mutation::FlipBit { index, bit } => index < len && bit < 8,
            Mutation::SetByte { index, value } => index < len,
            Mutation::InsertByte { index, value } => index <= len,
            Mutation::DeleteByte { index } => index < len,
            Mutation::OverwriteBlock { start, bytes } => start + bytes@.len() <= len,
            Mutation::AddDelta { index, delta } => index < len,
            Mutation::Crossover { point, tail } => point <= len,
            Mutation::Splice { point, bytes } => point <= len,
            Mutation::ReplaceWindow { start, end, word } => start <= end <= len,
            Mutation::SwapBytes { first, second } => first < len && second < len,
            Mutation::InsertValue { index, bytes } => index <= len,
        }
    }

    /// The bytes that this step makes of `data`. A step that does not fit
    /// leaves `data` unchanged.
    pub open spec fn applied(self, data: Seq<u8>) -> Seq<u8> {
        if !self.fits(data.len()) {
            data
        } else {
            match self {
                Mutation::Keep => data,
                Mutation::FlipBit { index, bit } => data.update(
                    index as int,
                    flip_bit(data[index as int], bit),
                ),
                Mutation::SetByte { index, value } => data.update(index as int, value),
                Mutation::InsertByte { index, value } => data.insert(index as int, value),
                Mutation::DeleteByte { index } => data.remove(index as int),
                Mutation::OverwriteBlock { start, bytes } => splice(
                    data,
                    start as int,
                    start + bytes@.len(),
                    bytes@,
                ),
                Mutation::AddDelta { index, delta } => data.update(
                    index as int,
                    add_wrapping(data[index as int], delta as int),
                ),
                Mutation::Crossover { point, tail } => splice(
                    data,
                    point as int,
                    data.len() as int,
                    tail@,
                ),
                Mutation::Splice { point, bytes } => splice(
                    data,
                    point as int,
                    point as int,
                    bytes@,
                ),
                Mutation::ReplaceWindow { start, end, word } => splice(
                    data,
                    start as int,
                    end as int,
                    word@,
                ),
                Mutation::SwapBytes { first, second } => data.update(
                    first as int,
                    data[second as int],
                ).update(second as int, data[first as int]),
                Mutation::InsertValue { index, bytes } => splice(
                    data,
                    index as int,
                    index as int,
                    bytes@,
                ),
            }
        }
    }

    /// By how much this step changes the length of an input of `len` bytes.
    pub open spec fn length_change(self, len: nat) -> int {
        if !self.fits(len) {
            0
        } else {
            match self {
                Mutation::InsertByte { index, value } => 1,
                Mutation::DeleteByte { index } => -1,
                Mutation::Crossover { point, tail } => point + tail@.len() - len,
                Mutation::Splice { point, bytes } => bytes@.len() as int,
                Mutation::ReplaceWindow { start, end, word } => word@.len() - (end - start),
                Mutation::InsertValue { index, bytes } => bytes@.len() as int,
                _ => 0,
            }
        }
    }

    /// Whether this step inserts or deletes a single byte.
    pub open spec fn resizes_by_one(self) -> bool {
        self is InsertByte || self is DeleteByte
    }

    /// Applies this step to `data`.
    pub fn apply_to(&self, data: &mut Vec<u8>)
        ensures
            final(data)@ == self.applied(old(data)@),
    {
        let len: usize = data.len();
        match self {
            Mutation::Keep => {},
            Mutation::FlipBit { index, bit } => {
                if *index < len && *bit < 8 {
                    let byte: u8 = data[*index];
                    data[*index] = byte ^ (1u8 << *bit);
                }
            },
            Mutation::SetByte { index, value } => {
                if *index < len {
                    data[*index] = *value;
                }
            },
            Mutation::InsertByte { index, value } => {
                if *index <= len {
                    data.insert(*index, *value);
                }
            },
            Mutation::DeleteByte { index } => {
                if *index < len {
                    data.remove(*index);
                }
            },
            Mutation::OverwriteBlock { start, bytes } => {
                if bytes.len() <= len && *start <= len - bytes.len() {
                    *data = spliced(data, *start, *start + bytes.len(), bytes);
                }
            },
            Mutation::AddDelta { index, delta } => {
                if *index < len {
                    let byte: u8 = data[*index];
                    let low: u8 = low_byte(*delta);
                    let sum: u16 = byte as u16 + low as u16;
                    data[*index] = (sum % 256) as u8;
                }
            },
            Mutation::Crossover { point, tail } => {
                if *point <= len {
                    *data = spliced(data, *point, len, tail);
                }
            },
            Mutation::Splice { point, bytes } => {
                if *point <= len {
                    *data = spliced(data, *point, *point, bytes);
                }
            },
            Mutation::ReplaceWindow { start, end, word } => {
                if *start <= *end && *end <= len {
                    *data = spliced(data, *start, *end, word);
                }
            },
            Mutation::SwapBytes { first, second } => {
                if *first < len && *second < len {
                    let a: u8 = data[*first];
                    let b: u8 = data[*second];
                    data[*first] = b;
                    data[*second] = a;
                }
            },
            Mutation::InsertValue { index, bytes } => {
                if *index <= len {
                    *data = spliced(data, *index, *index, bytes);
                }
            },
        }
    }
}

/// The remainder of `delta` modulo 256, between 0 and 255.
fn low_byte(delta: i64) -> (low: u8)
    ensures
        low == delta % 256,
{
    if delta >= 0 {
        (delta % 256) as u8
    } else {
        let below: i64 = -(delta + 1);
        (255 - below % 256) as u8
    }
}

/// A copy of `data` with the bytes from `start` up to `end` replaced by `bytes`.
fn spliced(data: &Vec<u8>, start: usize, end: usize, bytes: &Vec<u8>) -> (out: Vec<u8>)
    requires
        start <= end <= data.len(),
    ensures
        out@ == splice(data@, start as int, end as int, bytes@),
{
    let mut out: Vec<u8> = Vec::new();
    let mut i: usize = 0;
    while i < start
        invariant
            i <= start <= data.len(),
            out@ == data@.subrange(0, i as int),
        decreases start - i,
    {
        out.push(data[i]);
        i += 1;
    }
    let mut j: usize = 0;
    while j < bytes.len()
        invariant
            j <= bytes.len(),
            start <= data.len(),
            out@ == data@.subrange(0, start as int) + bytes@.subrange(0, j as int),
        decreases bytes.len() - j,
    {
        out.push(bytes[j]);
        j += 1;
    }
    let mut k: usize = end;
    while k < data.len()
        invariant
            start <= end <= k <= data.len(),
            out@ == data@.subrange(0, start as int) + bytes@ + data@.subrange(
                end as int,
                k as int,
            ),
        decreases data.len() - k,
    {
        out.push(data[k]);
        k += 1;
    }
    out
}

/// The bytes that the steps of `plan`, applied in order, make of `data`.
pub open spec fn apply_plan(data: Seq<u8>, plan: Seq<Mutation>) -> Seq<u8>
    decreases plan.len(),
{
    if plan.len() == 0 {
        data
    } else {
        plan.last().applied(apply_plan(data, plan.drop_last()))
    }
}

/// Applies the steps of `plan` to a copy of `data`, in order.
pub fn run_plan(data: &[u8], plan: &Vec<Mutation>) -> (out: Vec<u8>)
    ensures
        out@ == apply_plan(data@, plan@),
{
    let mut out: Vec<u8> = copy_bytes(data);
    let mut i: usize = 0;
    while i < plan.len()
        invariant
            i <= plan.len(),
            out@ == apply_plan(data@, plan@.take(i as int)),
        decreases plan.len() - i,
    {
        proof {
            assert(plan@.take(i + 1).drop_last() == plan@.take(i as int));
        }
        plan[i].apply_to(&mut out);
        i += 1;
    }
    assert(plan@.take(plan@.len() as int) == plan@);
    out
}

/// A vector holding the bytes of `data`.
pub(crate) fn copy_bytes(data: &[u8]) -> (out: Vec<u8>)
    ensures
        out@ == data@,
{
    let mut out: Vec<u8> = Vec::new();
    let mut i: usize = 0;
    while i < data.len()
        invariant
            i <= data.len(),
            out@ == data@.subrange(0, i as int),
        decreases data.len() - i,
    {
        out.push(data[i]);
        i += 1;
    }
    out
}

/// A copy of the bytes of `source` from `from` up to `to`.
fn copy_range(source: &Vec<u8>, from: usize, to: usize) -> (out: Vec<u8>)
    requires
        from <= to <= source.len(),
    ensures
        out@ == source@.subrange(from as int, to as int),
{
    let mut out: Vec<u8> = Vec::new();
    let mut i: usize = from;
    while i < to
        invariant
            from <= i <= to <= source.len(),
            out@ == source@.subrange(from as int, i as int),
        decreases to - i,
    {
        out.push(source[i]);
        i += 1;
    }
    out
}

/// Whether some entry of the corpus holds no byte.
pub open spec fn has_empty_entry(corpus: Seq<Seq<u8>>) -> bool {
    exists|e: int| 0 <= e < corpus.len() && #[trigger] corpus[e].len() == 0
}

/// The entries of a corpus as byte sequences.
pub open spec fn corpus_view(corpus: Seq<Vec<u8>>) -> Seq<Seq<u8>> {
    Seq::new(corpus.len(), |i: int| corpus[i]@)
}

/// Whether the operator `kind` cannot act on `data`: it is switched off,
/// it lacks what it draws from, or the input is too short for it. For
/// crossover and splicing that is also so where the corpus holds an empty
/// entry, which may be the one that is drawn.
pub open spec fn idle(
    options: MutatorOptions,
    corpus: Seq<Seq<u8>>,
    data: Seq<u8>,
    kind: MutationType,
) -> bool {
    match kind {
        MutationType::BitFlip => !options.enable_bit_flip || data.len() == 0,
        MutationType::ByteFlip => !options.enable_byte_flip || data.len() == 0,
        MutationType::BlockMutation => !options.enable_block_mutation || data.len()
            < options.block_mutation_size,
        MutationType::Arithmetic => !options.enable_arithmetics || data.len() == 0
            || options.arithmetics_range < 0,
        MutationType::Crossover => !options.enable_crossover || corpus.len() == 0 || data.len()
            == 0 || has_empty_entry(corpus),
        MutationType::Splicing => !options.enable_splicing || corpus.len() == 0 || data.len() == 0
            || has_empty_entry(corpus),
        MutationType::Replacement => !options.enable_replacement || options.words().len() == 0
            || data.len() == 0,
        MutationType::Shuffling => !options.enable_shuffling || data.len() < 2,
        MutationType::InterestingValueInsertion => !options.enable_interesting_value_insertion
            || options.values().len() == 0,
    }
}

/// Whether the baseline path may leave `data` as it is in one step: a flip
/// is switched off, or the input is empty, so that a flip or a deletion
/// finds nothing to work on.
pub open spec fn baseline_idle(options: MutatorOptions, data: Seq<u8>) -> bool {
    !options.enable_bit_flip || !options.enable_byte_flip || data.len() == 0
}

/// Whether `step` is one that the baseline path may take on `data`: it
/// fits, and it is a bit flip or a byte flip that the options enable, an
/// insertion or a deletion of a single byte, or no change where one of
/// the four operators cannot act.
pub open spec fn baseline_step(options: MutatorOptions, data: Seq<u8>, step: Mutation) -> bool {
    &&& step.fits(data.len())
    &&& match step {
        Mutation::Keep => baseline_idle(options, data),
        Mutation::FlipBit { index, bit } => options.enable_bit_flip,
        Mutation::SetByte { index, value } => options.enable_byte_flip,
        Mutation::InsertByte { index, value } => true,
        Mutation::DeleteByte { index } => true,
        _ => false,
    }
}

/// Whether `step` is one that the corpus-aware path may take on `data`: it
/// fits, its operator is on the menu and enabled, and whatever bytes it
/// brings in come from the corpus, the dictionary or the interesting
/// values. No change is such a step only where an operator on the menu
/// cannot act.
pub open spec fn feedback_step(
    options: MutatorOptions,
    corpus: Seq<Seq<u8>>,
    data: Seq<u8>,
    step: Mutation,
) -> bool {
    &&& step.fits(data.len())
    &&& match step {
        Mutation::Keep => exists|kind: MutationType|
            options.lists(kind) && #[trigger] idle(options, corpus, data, kind),
        Mutation::FlipBit { index, bit } => options.enable_bit_flip && options.lists(
            MutationType::BitFlip,
        ),
        Mutation::SetByte { index, value } => options.enable_byte_flip && options.lists(
            MutationType::ByteFlip,
        ),
        Mutation::OverwriteBlock { start, bytes } => {
            &&& options.enable_block_mutation
            &&& options.lists(MutationType::BlockMutation)
            &&& bytes@.len() == options.block_mutation_size
        },
        Mutation::AddDelta { index, delta } => {
            &&& options.enable_arithmetics
            &&& options.lists(MutationType::Arithmetic)
            &&& -options.arithmetics_range <= delta <= options.arithmetics_range
        },
        Mutation::Crossover { point, tail } => {
            &&& options.enable_crossover
            &&& options.lists(MutationType::Crossover)
            &&& point < data.len()
            &&& exists|e: int|
                0 <= e < corpus.len() && point < corpus[e].len() && tail@
                    == #[trigger] corpus[e].subrange(point as int, corpus[e].len() as int)
        },
        Mutation::Splice { point, bytes } => {
            &&& options.enable_splicing
            &&& options.lists(MutationType::Splicing)
            &&& point < data.len()
            &&& exists|e: int, n: int|
                0 <= e < corpus.len() && 1 <= n <= corpus[e].len() && bytes@
                    == #[trigger] corpus[e].subrange(0, n)
        },
        Mutation::ReplaceWindow { start, end, word } => {
            &&& options.enable_replacement
            &&& options.lists(MutationType::Replacement)
            &&& start < data.len()
            &&& end == if start + word@.len() <= data.len() {
                start + word@.len()
            } else {
                data.len() as int
            }
            &&& exists|w: int|
                0 <= w < options.words().len() && word@ == #[trigger] options.words()[w]
        },
        Mutation::SwapBytes { first, second } => options.enable_shuffling && options.lists(
            MutationType::Shuffling,
        ),
        Mutation::InsertValue { index, bytes } => {
            &&& options.enable_interesting_value_insertion
            &&& options.lists(MutationType::InterestingValueInsertion)
            &&& exists|v: int|
                0 <= v < options.values().len() && bytes@ == #[trigger] options.values()[v]
        },
        _ => false,
    }
}

/// Whether every step of `plan` is a baseline step on the bytes it meets.
pub open spec fn baseline_plan(options: MutatorOptions, data: Seq<u8>, plan: Seq<Mutation>) -> bool
    decreases plan.len(),
{
    plan.len() == 0 || {
        &&& baseline_plan(options, data, plan.drop_last())
        &&& baseline_step(options, apply_plan(data, plan.drop_last()), plan.last())
    }
}

/// Whether every step of `plan` is a corpus-aware step on the bytes it meets.
pub open spec fn feedback_plan(
    options: MutatorOptions,
    corpus: Seq<Seq<u8>>,
    data: Seq<u8>,
    plan: Seq<Mutation>,
) -> bool
    decreases plan.len(),
{
    plan.len() == 0 || {
        &&& feedback_plan(options, corpus, data, plan.drop_last())
        &&& feedback_step(options, corpus, apply_plan(data, plan.drop_last()), plan.last())
    }
}

/// Whether `out` is what the baseline path can make of `data` by `plan`:
/// between one and `max_mutations` baseline steps, applied in order.
pub open spec fn baseline_outcome(
    options: MutatorOptions,
    data: Seq<u8>,
    plan: Seq<Mutation>,
    out: Seq<u8>,
) -> bool {
    &&& 1 <= plan.len() <= options.max_mutations
    &&& baseline_plan(options, data, plan)
    &&& out == apply_plan(data, plan)
}

/// Whether `out` is what the corpus-aware path can make of `data` by
/// `plan`: between one and `max_mutations` permitted steps, applied in order.
pub open spec fn feedback_outcome(
    options: MutatorOptions,
    corpus: Seq<Seq<u8>>,
    data: Seq<u8>,
    plan: Seq<Mutation>,
    out: Seq<u8>,
) -> bool {
    &&& 1 <= plan.len() <= options.max_mutations
    &&& feedback_plan(options, corpus, data, plan)
    &&& out == apply_plan(data, plan)
}

/// The number of steps of `plan` that insert or delete a single byte.
pub open spec fn resizing_steps(plan: Seq<Mutation>) -> nat
    decreases plan.len(),
{
    if plan.len() == 0 {
        0
    } else {
        resizing_steps(plan.drop_last()) + if plan.last().resizes_by_one() {
            1nat
        } else {
            0nat
        }
    }
}

/// The length of what a baseline plan returns differs from the length of
/// the input by at most the number of insertions and deletions in the
/// plan, whatever the input, the empty one included.
pub proof fn lemma_baseline_length(options: MutatorOptions, data: Seq<u8>, plan: Seq<Mutation>)
    requires
        baseline_plan(options, data, plan),
    ensures
        data.len() - resizing_steps(plan) <= apply_plan(data, plan).len() <= data.len()
            + resizing_steps(plan),
        resizing_steps(plan) <= plan.len(),
    decreases plan.len(),
{
    if plan.len() > 0 {
        lemma_baseline_length(options, data, plan.drop_last());
    }
}

/// Whether every operator that has a switch is switched off.
pub open spec fn all_switched_off(options: MutatorOptions) -> bool {
    &&& !options.enable_bit_flip
    &&& !options.enable_byte_flip
    &&& !options.enable_block_mutation
    &&& !options.enable_arithmetics
    &&& !options.enable_crossover
    &&& !options.enable_splicing
    &&& !options.enable_replacement
    &&& !options.enable_shuffling
    &&& !options.enable_interesting_value_insertion
}

/// An operator that is switched off changes nothing even when it is
/// selected: with every switch off, whatever the corpus-aware path draws
/// leaves the input as it is.
pub proof fn lemma_switched_off_changes_nothing(
    options: MutatorOptions,
    corpus: Seq<Seq<u8>>,
    data: Seq<u8>,
    plan: Seq<Mutation>,
)
    requires
        all_switched_off(options),
        feedback_plan(options, corpus, data, plan),
    ensures
        apply_plan(data, plan) == data,
    decreases plan.len(),
{
    if plan.len() > 0 {
        lemma_switched_off_changes_nothing(options, corpus, data, plan.drop_last());
    }
}

/// With both flips switched off, a baseline plan only inserts and deletes
/// single bytes.
pub proof fn lemma_baseline_without_flips(
    options: MutatorOptions,
    data: Seq<u8>,
    plan: Seq<Mutation>,
    at: int,
)
    requires
        !options.enable_bit_flip,
        !options.enable_byte_flip,
        baseline_plan(options, data, plan),
        0 <= at < plan.len(),
    ensures
        plan[at] is Keep || plan[at] is InsertByte || plan[at] is DeleteByte,
    decreases plan.len(),
{
    if at < plan.len() - 1 {
        lemma_baseline_without_flips(options, data, plan.drop_last(), at);
    }
}

/// The steps of the corpus-aware path that keep the length of the input:
/// all but crossover, splicing, replacement and the insertion of an
/// interesting value.
pub proof fn lemma_feedback_length(
    options: MutatorOptions,
    corpus: Seq<Seq<u8>>,
    data: Seq<u8>,
    plan: Seq<Mutation>,
)
    requires
        !options.enable_crossover,
        !options.enable_splicing,
        !options.enable_replacement,
        !options.enable_interesting_value_insertion,
        feedback_plan(options, corpus, data, plan),
    ensures
        apply_plan(data, plan).len() == data.len(),
    decreases plan.len(),
{
    if plan.len() > 0 {
        lemma_feedback_length(options, corpus, data, plan.drop_last());
    }
}

/// Detail of the error of a mutator that may not apply a single step.
pub const NO_STEPS: &'static str = "max_mutations is zero";

/// Detail of the error of a corpus-aware call with nothing on the menu.
pub const NO_OPERATORS: &'static str = "mutation_types is empty";

/// Applies randomized transformations to inputs.
///
/// The generator is seeded once, when the mutator is made. A clone carries
/// a copy of the generator's state: from then on the two draw the same
/// stream independently of each other.
#[derive(Debug, Clone)]
pub struct Mutator {
    options: MutatorOptions,
    rng: StdRng,
    corpus: Vec<Vec<u8>>,
}

impl Mutator {
    /// The options this mutator was made with.
    pub closed spec fn options(&self) -> MutatorOptions {
        self.options
    }

    /// The corpus, oldest entry first.
    pub closed spec fn corpus(&self) -> Seq<Seq<u8>> {
        corpus_view(self.corpus@)
    }

    /// A mutator with an empty corpus. With a seed the generator's stream is
    /// fixed by it; without one the seed is taken from the system.
    pub fn new(options: MutatorOptions, seed: Option<u64>) -> (mutator: Mutator)
        ensures
            mutator.options() == options,
            mutator.corpus() == Seq::<Seq<u8>>::empty(),
    {
        let seed: u64 = match seed {
            Some(s) => s,
            None => entropy_seed(),
        };
        let mutator = Mutator { options, rng: seeded_rng(seed), corpus: Vec::new() };
        assert(mutator.corpus() =~= Seq::<Seq<u8>>::empty());
        mutator
    }

    /// Appends `data` to the corpus. Nothing is ever removed, and an entry
    /// that is already there is added again.
    pub fn add_to_corpus(&mut self, data: Vec<u8>)
        ensures
            final(self).corpus() == old(self).corpus().push(data@),
            final(self).options() == old(self).options(),
    {
        self.corpus.push(data);
        assert(self.corpus() =~= old(self).corpus().push(data@));
    }

    /// A mutator of its own for another consumer: the same options, the
    /// same corpus, and a copy of the generator in its present
    /// state. From here on the two draw the same stream independently of
    /// each other; what one draws does not advance the other.
    pub fn fork(&self) -> (copy: Mutator)
        ensures
            copy.options().same_as(self.options()),
            copy.corpus() == self.corpus(),
    {
        let copy = Mutator {
            options: self.options.duplicate(),
            rng: self.rng.clone(),
            corpus: copy_byte_strings(&self.corpus),
        };
        assert(copy.corpus() =~= self.corpus());
        copy
    }

    /// The upper bound of the number of steps per call.
    pub fn max_mutations(&self) -> (n: usize)
        ensures
            n == self.options().max_mutations,
    {
        self.options.max_mutations
    }

    /// The number of operators on the menu of the corpus-aware path.
    pub fn menu_len(&self) -> (n: usize)
        ensures
            n == self.options().mutation_types@.len(),
    {
        self.options.mutation_types.len()
    }

    /// Applies between one and `max_mutations` baseline steps to a copy of
    /// `data`. Each step is a bit flip, a byte flip, the insertion of one
    /// byte or the deletion of one byte, chosen uniformly; a step that finds
    /// nothing to work on, or whose operator is disabled, changes nothing.
    ///
    /// The only failure is a mutator whose `max_mutations` is zero: it has
    /// no number of steps to choose and reports a mutation error.
    pub fn mutate(&mut self, data: &[u8]) -> (result: Result<Vec<u8>, FuzzerError>)
        ensures
            final(self).options() == old(self).options(),
            final(self).corpus() == old(self).corpus(),
            old(self).options().max_mutations == 0 ==> result is Err && (result->Err_0
                matches FuzzerError::MutationError(text) && text@ == NO_STEPS@),
            old(self).options().max_mutations >= 1 ==> {
                &&& result is Ok
                &&& exists|plan: Seq<Mutation>| #[trigger]
                    baseline_outcome(old(self).options(), data@, plan, result->Ok_0@)
                        && data@.len() - resizing_steps(plan) <= result->Ok_0@.len()
                        <= data@.len() + resizing_steps(plan)
                &&& data@.len() - old(self).options().max_mutations <= result->Ok_0@.len()
                    <= data@.len() + old(self).options().max_mutations
            },
    {
        if self.options.max_mutations == 0 {
            return Err(FuzzerError::MutationError(String::from_str(NO_STEPS)));
        }
        let mut mutated: Vec<u8> = copy_bytes(data);
        let count: usize = draw_index_inclusive(&mut self.rng, 1, self.options.max_mutations);
        let ghost mut plan: Seq<Mutation> = Seq::empty();
        let mut done: usize = 0;
        while done < count
            invariant
                done <= count,
                plan.len() == done,
                self.options == old(self).options,
                self.corpus == old(self).corpus,
                baseline_plan(self.options, data@, plan),
                mutated@ == apply_plan(data@, plan),
            decreases count - done,
        {
            let choice: i32 = draw_small(&mut self.rng, 0, 4);
            let step: Mutation = match choice {
                0 => Self::bit_flip(&mut self.rng, &self.options, &mutated),
                1 => Self::byte_flip(&mut self.rng, &self.options, &mutated),
                2 => Self::insert_byte(&mut self.rng, &mutated),
                3 => Self::delete_byte(&mut self.rng, &mutated),
                _ => Mutation::Keep,
            };
            proof {
                assert(plan.push(step).drop_last() == plan);
                plan = plan.push(step);
            }
            step.apply_to(&mut mutated);
            done += 1;
        }
        proof {
            lemma_baseline_length(self.options, data@, plan);
        }
        let result: Result<Vec<u8>, FuzzerError> = Ok(mutated);
        assert(baseline_outcome(old(self).options(), data@, plan, result->Ok_0@));
        result
    }

    /// Applies between one and `max_mutations` steps to a copy of `data`,
    /// each by an operator drawn uniformly from the menu `mutation_types`.
    /// An operator that is disabled, lacks its corpus, dictionary or values,
    /// or finds the input too short changes nothing.
    ///
    /// The call fails with a mutation error if `max_mutations` is zero or
    /// the menu is empty, and only then.
    pub fn mutate_with_feedback(&mut self, data: &[u8]) -> (result: Result<Vec<u8>, FuzzerError>)
        ensures
            final(self).options() == old(self).options(),
            final(self).corpus() == old(self).corpus(),
            old(self).options().max_mutations == 0 ==> result is Err && (result->Err_0
                matches FuzzerError::MutationError(text) && text@ == NO_STEPS@),
            old(self).options().max_mutations >= 1 && old(self).options().mutation_types@.len()
                == 0 ==> result is Err && (result->Err_0 matches FuzzerError::MutationError(text)
                && text@ == NO_OPERATORS@),
            old(self).options().max_mutations >= 1 && old(self).options().mutation_types@.len()
                >= 1 ==> {
                &&& result is Ok
                &&& exists|plan: Seq<Mutation>| #[trigger]
                    feedback_outcome(
                        old(self).options(),
                        old(self).corpus(),
                        data@,
                        plan,
                        result->Ok_0@,
                    )
            },
    {
        if self.options.max_mutations == 0 {
            return Err(FuzzerError::MutationError(String::from_str(NO_STEPS)));
        }
        if self.options.mutation_types.len() == 0 {
            return Err(FuzzerError::MutationError(String::from_str(NO_OPERATORS)));
        }
        let mut mutated: Vec<u8> = copy_bytes(data);
        let count: usize = draw_index_inclusive(&mut self.rng, 1, self.options.max_mutations);
        let ghost mut plan: Seq<Mutation> = Seq::empty();
        let mut done: usize = 0;
        while done < count
            invariant
                done <= count,
                plan.len() == done,
                self.options == old(self).options,
                self.corpus == old(self).corpus,
                self.options.mutation_types@.len() >= 1,
                feedback_plan(self.options, corpus_view(self.corpus@), data@, plan),
                mutated@ == apply_plan(data@, plan),
            decreases count - done,
        {
            let kind: MutationType = Self::select_mutation_type(&mut self.rng, &self.options);
            let step: Mutation = match kind {
                MutationType::BitFlip => Self::bit_flip(&mut self.rng, &self.options, &mutated),
                MutationType::ByteFlip => Self::byte_flip(&mut self.rng, &self.options, &mutated),
                MutationType::BlockMutation => Self::block_mutation(
                    &mut self.rng,
                    &self.options,
                    &mutated,
                ),
                MutationType::Arithmetic => Self::arithmetic_mutation(
                    &mut self.rng,
                    &self.options,
                    &mutated,
                ),
                MutationType::Crossover => Self::crossover(
                    &mut self.rng,
                    &self.options,
                    &self.corpus,
                    &mutated,
                ),
                MutationType::Splicing => Self::splicing(
                    &mut self.rng,
                    &self.options,
                    &self.corpus,
                    &mutated,
                ),
                MutationType::Replacement => Self::replacement(
                    &mut self.rng,
                    &self.options,
                    &mutated,
                ),
                MutationType::Shuffling => Self::shuffling(&mut self.rng, &self.options, &mutated),
                MutationType::InterestingValueInsertion => Self::insert_interesting_value(
                    &mut self.rng,
                    &self.options,
                    &mutated,
                ),
            };
            proof {
                assert(step is Keep ==> idle(
                    self.options,
                    corpus_view(self.corpus@),
                    mutated@,
                    kind,
                ));
                assert(plan.push(step).drop_last() == plan);
                plan = plan.push(step);
            }
            step.apply_to(&mut mutated);
            done += 1;
        }
        let result: Result<Vec<u8>, FuzzerError> = Ok(mutated);
        assert(feedback_outcome(
            old(self).options(),
            old(self).corpus(),
            data@,
            plan,
            result->Ok_0@,
        ));
        result
    }

    /// Draws one operator from the menu, uniformly.
    fn select_mutation_type(rng: &mut StdRng, options: &MutatorOptions) -> (kind: MutationType)
        requires
            options.mutation_types@.len() >= 1,
        ensures
            options.lists(kind),
    {
        let index: usize = draw_index(rng, options.mutation_types.len());
        options.mutation_types[index]
    }

    /// Draws a bit flip: a random bit of a random byte. The operator does
    /// nothing if it is switched off or the input is empty, and flips a bit
    /// in every other case.
    fn bit_flip(rng: &mut StdRng, options: &MutatorOptions, data: &Vec<u8>) -> (step: Mutation)
        ensures
            step.fits(data@.len()),
            if options.enable_bit_flip && data@.len() > 0 {
                step is FlipBit
            } else {
                step is Keep
            },
    {
        if !options.enable_bit_flip || data.len() == 0 {
            return Mutation::Keep;
        }
        let index: usize = draw_index(rng, data.len());
        let bit: i32 = draw_small(rng, 0, 8);
        Mutation::FlipBit { index, bit: bit as u8 }
    }

    /// Draws a byte flip: a random byte gets a fresh random value. The
    /// operator does nothing if it is switched off or the input is empty,
    /// and overwrites a byte in every other case.
    fn byte_flip(rng: &mut StdRng, options: &MutatorOptions, data: &Vec<u8>) -> (step: Mutation)
        ensures
            step.fits(data@.len()),
            if options.enable_byte_flip && data@.len() > 0 {
                step is SetByte
            } else {
                step is Keep
            },
    {
        if !options.enable_byte_flip || data.len() == 0 {
            return Mutation::Keep;
        }
        let index: usize = draw_index(rng, data.len());
        let value: u8 = draw_byte(rng);
        Mutation::SetByte { index, value }
    }

    /// Draws an insertion: a random byte at a random position, the end included.
    fn insert_byte(rng: &mut StdRng, data: &Vec<u8>) -> (step: Mutation)
        ensures
            step.fits(data@.len()),
            step is InsertByte,
    {
        let index: usize = draw_index_inclusive(rng, 0, data.len());
        let value: u8 = draw_byte(rng);
        Mutation::InsertByte { index, value }
    }

    /// Draws a deletion of a random byte; nothing on an empty input, and a
    /// deletion on every other.
    fn delete_byte(rng: &mut StdRng, data: &Vec<u8>) -> (step: Mutation)
        ensures
            step.fits(data@.len()),
            if data@.len() > 0 {
                step is DeleteByte
            } else {
                step is Keep
            },
    {
        if data.len() == 0 {
            return Mutation::Keep;
        }
        let index: usize = draw_index(rng, data.len());
        Mutation::DeleteByte { index }
    }

    /// Draws an arithmetic mutation: a delta within the configured range,
    /// to be added to a random byte. The operator does nothing if it is
    /// switched off, the input is empty or the range is negative, and adds
    /// a delta in every other case.
    fn arithmetic_mutation(rng: &mut StdRng, options: &MutatorOptions, data: &Vec<u8>) -> (step:
        Mutation)
        ensures
            step.fits(data@.len()),
            if options.enable_arithmetics && data@.len() > 0 && options.arithmetics_range >= 0 {
                &&& step matches Mutation::AddDelta { index, delta }
                &&& -options.arithmetics_range <= delta <= options.arithmetics_range
            } else {
                step is Keep
            },
    {
        if !options.enable_arithmetics || data.len() == 0 || options.arithmetics_range < 0 {
            return Mutation::Keep;
        }
        let index: usize = draw_index(rng, data.len());
        let range: i64 = options.arithmetics_range;
        let delta: i64 = draw_signed_inclusive(rng, -range, range);
        Mutation::AddDelta { index, delta }
    }

    /// Draws a block mutation: `block_mutation_size` fresh random bytes over
    /// a random run of the input. The operator does nothing if it is
    /// switched off or the input is shorter than a block, and overwrites a
    /// block in every other case; on an input of exactly one block that is
    /// the whole input.
    fn block_mutation(rng: &mut StdRng, options: &MutatorOptions, data: &Vec<u8>) -> (step:
        Mutation)
        ensures
            step.fits(data@.len()),
            if options.enable_block_mutation && data@.len() >= options.block_mutation_size {
                &&& step matches Mutation::OverwriteBlock { start, bytes }
                &&& bytes@.len() == options.block_mutation_size
                &&& data@.len() == options.block_mutation_size ==> start == 0
            } else {
                step is Keep
            },
    {
        if !options.enable_block_mutation {
            return Mutation::Keep;
        }
        let size: usize = options.block_mutation_size;
        if data.len() < size {
            return Mutation::Keep;
        }
        let start: usize = if data.len() == size {
            0
        } else {
            draw_index(rng, data.len() - size)
        };
        let mut bytes: Vec<u8> = Vec::new();
        let mut i: usize = 0;
        while i < size
            invariant
                i <= size,
                bytes@.len() == i,
            decreases size - i,
        {
            bytes.push(draw_byte(rng));
            i += 1;
        }
        Mutation::OverwriteBlock { start, bytes }
    }

    /// Draws a crossover: the input up to a random point, continued with a
    /// random corpus entry from that point on. The operator does nothing if
    /// it is switched off, the corpus is empty or the input is empty; it
    /// also does nothing when the entry it drew is empty, and crosses over
    /// in every other case.
    fn crossover(
        rng: &mut StdRng,
        options: &MutatorOptions,
        corpus: &Vec<Vec<u8>>,
        data: &Vec<u8>,
    ) -> (step: Mutation)
        ensures
            step.fits(data@.len()),
            step is Keep || {
                &&& step matches Mutation::Crossover { point, tail }
                &&& options.enable_crossover
                &&& point < data@.len()
                &&& exists|e: int|
                    0 <= e < corpus@.len() && point < corpus_view(corpus@)[e].len() && tail@
                        == #[trigger] corpus_view(corpus@)[e].subrange(
                        point as int,
                        corpus_view(corpus@)[e].len() as int,
                    )
            },
            !options.enable_crossover || corpus@.len() == 0 || data@.len() == 0 ==> step is Keep,
            step is Keep ==> !options.enable_crossover || corpus@.len() == 0 || data@.len() == 0
                || has_empty_entry(corpus_view(corpus@)),
    {
        if !options.enable_crossover || corpus.len() == 0 {
            return Mutation::Keep;
        }
        let entry: usize = draw_index(rng, corpus.len());
        let other: &Vec<u8> = &corpus[entry];
        let shorter: usize = if data.len() <= other.len() {
            data.len()
        } else {
            other.len()
        };
        if shorter == 0 {
            assert(data@.len() > 0 ==> corpus_view(corpus@)[entry as int].len() == 0);
            return Mutation::Keep;
        }
        let point: usize = draw_index(rng, shorter);
        let tail: Vec<u8> = copy_range(other, point, other.len());
        proof {
            let e = entry as int;
            assert(tail@ == corpus_view(corpus@)[e].subrange(
                point as int,
                corpus_view(corpus@)[e].len() as int,
            ));
        }
        Mutation::Crossover { point, tail }
    }

    /// Draws a splice: a random-length prefix of a random corpus entry, to
    /// be inserted at a random position. The operator does nothing if it
    /// is switched off, the corpus is empty or the input is empty; it also
    /// does nothing when the entry it drew is empty, and splices in every
    /// other case.
    fn splicing(
        rng: &mut StdRng,
        options: &MutatorOptions,
        corpus: &Vec<Vec<u8>>,
        data: &Vec<u8>,
    ) -> (step: Mutation)
        ensures
            step.fits(data@.len()),
            step is Keep || {
                &&& step matches Mutation::Splice { point, bytes }
                &&& options.enable_splicing
                &&& point < data@.len()
                &&& exists|e: int, n: int|
                    0 <= e < corpus@.len() && 1 <= n <= corpus_view(corpus@)[e].len() && bytes@
                        == #[trigger] corpus_view(corpus@)[e].subrange(0, n)
            },
            !options.enable_splicing || corpus@.len() == 0 || data@.len() == 0 ==> step is Keep,
            step is Keep ==> !options.enable_splicing || corpus@.len() == 0 || data@.len() == 0
                || has_empty_entry(corpus_view(corpus@)),
    {
        if !options.enable_splicing || corpus.len() == 0 {
            return Mutation::Keep;
        }
        let entry: usize = draw_index(rng, corpus.len());
        let other: &Vec<u8> = &corpus[entry];
        if other.len() == 0 {
            assert(corpus_view(corpus@)[entry as int].len() == 0);
            return Mutation::Keep;
        }
        let taken: usize = draw_index_inclusive(rng, 1, other.len());
        if data.len() == 0 {
            return Mutation::Keep;
        }
        let point: usize = draw_index(rng, data.len());
        let bytes: Vec<u8> = copy_range(other, 0, taken);
        proof {
            let e = entry as int;
            let n = taken as int;
            assert(bytes@ == corpus_view(corpus@)[e].subrange(0, n));
        }
        Mutation::Splice { point, bytes }
    }

    /// Draws a replacement: a random word of the dictionary over the window
    /// of its size at a random position, cut off at the end of the input.
    /// The operator does nothing if it is switched off, there is no word in
    /// the dictionary or the input is empty, and replaces a window in every
    /// other case.
    fn replacement(rng: &mut StdRng, options: &MutatorOptions, data: &Vec<u8>) -> (step: Mutation)
        ensures
            step.fits(data@.len()),
            if options.enable_replacement && options.words().len() > 0 && data@.len() > 0 {
                step is ReplaceWindow
            } else {
                step is Keep
            },
            step is Keep || {
                &&& step matches Mutation::ReplaceWindow { start, end, word }
                &&& options.enable_replacement
                &&& start < data@.len()
                &&& end == if start + word@.len() <= data@.len() {
                    start + word@.len()
                } else {
                    data@.len() as int
                }
                &&& exists|w: int|
                    0 <= w < options.words().len() && word@ == #[trigger] options.words()[w]
            },
    {
        if !options.enable_replacement {
            return Mutation::Keep;
        }
        match &options.dictionary {
            None => Mutation::Keep,
            Some(dictionary) => {
                if dictionary.len() == 0 {
                    return Mutation::Keep;
                }
                let chosen: usize = draw_index(rng, dictionary.len());
                if data.len() == 0 {
                    return Mutation::Keep;
                }
                let start: usize = draw_index(rng, data.len());
                let source: &Vec<u8> = &dictionary[chosen];
                let end: usize = if source.len() <= data.len() - start {
                    start + source.len()
                } else {
                    data.len()
                };
                let word: Vec<u8> = copy_range(source, 0, source.len());
                proof {
                    let w = chosen as int;
                    assert(source@.subrange(0, source@.len() as int) == source@);
                    assert(word@ == options.words()[w]);
                }
                Mutation::ReplaceWindow { start, end, word }
            },
        }
    }

    /// Draws a shuffle: two random positions whose bytes change places. The
    /// operator does nothing if it is switched off or the input has fewer
    /// than two bytes, and swaps in every other case.
    fn shuffling(rng: &mut StdRng, options: &MutatorOptions, data: &Vec<u8>) -> (step: Mutation)
        ensures
            step.fits(data@.len()),
            if options.enable_shuffling && data@.len() >= 2 {
                step is SwapBytes
            } else {
                step is Keep
            },
    {
        if !options.enable_shuffling || data.len() < 2 {
            return Mutation::Keep;
        }
        let first: usize = draw_index(rng, data.len());
        let second: usize = draw_index(rng, data.len());
        Mutation::SwapBytes { first, second }
    }

    /// Draws an insertion of a random interesting value at a random
    /// position, the end included. The operator does nothing if it is
    /// switched off or there is no interesting value, and inserts one in
    /// every other case.
    fn insert_interesting_value(rng: &mut StdRng, options: &MutatorOptions, data: &Vec<u8>) -> (step:
        Mutation)
        ensures
            step.fits(data@.len()),
            if options.enable_interesting_value_insertion && options.values().len() > 0 {
                step is InsertValue
            } else {
                step is Keep
            },
            step is Keep || {
                &&& step matches Mutation::InsertValue { index, bytes }
                &&& options.enable_interesting_value_insertion
                &&& exists|v: int|
                    0 <= v < options.values().len() && bytes@ == #[trigger] options.values()[v]
            },
    {
        if !options.enable_interesting_value_insertion || options.interesting_values.len() == 0 {
            return Mutation::Keep;
        }
        let chosen: usize = draw_index(rng, options.interesting_values.len());
        let index: usize = draw_index_inclusive(rng, 0, data.len());
        let source: &Vec<u8> = &options.interesting_values[chosen];
        let bytes: Vec<u8> = copy_range(source, 0, source.len());
        proof {
            let v = chosen as int;
            assert(source@.subrange(0, source@.len() as int) == source@);
            assert(bytes@ == options.values()[v]);
        }
        Mutation::InsertValue { index, bytes }
    }
}

/// `StdRng`'s `Clone::clone`: a generator in the same state as `rng`.
/// Nothing is claimed of the copy.
pub assume_specification[ <StdRng as Clone>::clone ](rng: &StdRng) -> (copy: StdRng);

} // verus!

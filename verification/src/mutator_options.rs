//! Configuration of the mutation engine.

use vstd::prelude::*;

verus! {

/// The mutation operators that the corpus-aware path can choose from.
#[derive(Debug, Clone, Copy, PartialEq, Eq, Structural)]
pub enum MutationType {
    BitFlip,
    ByteFlip,
    BlockMutation,
    Arithmetic,
    Crossover,
    Splicing,
    Replacement,
    Shuffling,
    InterestingValueInsertion,
}

/// Bit pattern of the rate `0.1`.
pub const RATE_ONE_TENTH: u64 = 0x3fb999999999999a;

/// Bit pattern of the rate `0.05`.
pub const RATE_ONE_TWENTIETH: u64 = 0x3fa999999999999a;

/// Bit pattern of the rate `0.01`.
pub const RATE_ONE_HUNDREDTH: u64 = 0x3f847ae147ae147b;

/// What a [`crate::mutator::Mutator`] may do to an input.
///
/// Rates and probabilities are carried as the IEEE-754 binary64 bit pattern
/// of the fraction they stand for; no decision of the engine reads them.
#[derive(Debug, Clone)]
pub struct MutatorOptions {
    pub mutation_rate: u64,
    /// Upper bound of the number of operators applied per call.
    pub max_mutations: usize,
    /// The operators the corpus-aware path picks from, uniformly.
    pub mutation_types: Vec<MutationType>,
    pub enable_crossover: bool,
    pub crossover_rate: u64,
    /// Words that replacement writes into an input.
    pub dictionary: Option<Vec<Vec<u8>>>,
    pub preserve_semantics: bool,
    pub enable_splicing: bool,
    pub splicing_rate: u64,
    pub enable_replacement: bool,
    pub replacement_rate: u64,
    pub enable_shuffling: bool,
    pub shuffling_rate: u64,
    pub max_mutation_depth: usize,
    pub enable_arithmetics: bool,
    /// Arithmetic mutation adds a delta between `-arithmetics_range` and
    /// `arithmetics_range`.
    pub arithmetics_range: i64,
    pub enable_block_mutation: bool,
    /// Number of bytes that block mutation overwrites.
    pub block_mutation_size: usize,
    pub enable_bit_flip: bool,
    pub bit_flip_probability: u64,
    pub enable_byte_flip: bool,
    pub byte_flip_probability: u64,
    pub enable_interesting_value_insertion: bool,
    /// Byte strings that interesting-value insertion places into an input.
    pub interesting_values: Vec<Vec<u8>>,
}

impl MutatorOptions {
    /// The words of the dictionary, as byte sequences; empty without one.
    pub open spec fn words(self) -> Seq<Seq<u8>> {
        match self.dictionary {
            Some(d) => Seq::new(d@.len(), |i: int| d@[i]@),
            None => Seq::empty(),
        }
    }

    /// The interesting values, as byte sequences.
    pub open spec fn values(self) -> Seq<Seq<u8>> {
        Seq::new(self.interesting_values@.len(), |i: int| self.interesting_values@[i]@)
    }

    /// Whether these are the default options: every operator on the menu,
    /// the two flips enabled, every corpus-aware operator disabled, at most
    /// five operators per call.
    pub open spec fn is_default(self) -> bool {
        &&& self.mutation_rate == RATE_ONE_TENTH
        &&& self.max_mutations == 5
        &&& self.mutation_types@ =~= seq![
                MutationType::BitFlip,
                MutationType::ByteFlip,
                MutationType::BlockMutation,
                MutationType::Arithmetic,
                MutationType::Crossover,
                MutationType::Splicing,
                MutationType::Replacement,
                MutationType::Shuffling,
                MutationType::InterestingValueInsertion,
            ]
        &&& !self.enable_crossover
        &&& self.crossover_rate == RATE_ONE_TWENTIETH
        &&& self.dictionary is None
        &&& !self.preserve_semantics
        &&& !self.enable_splicing
        &&& self.splicing_rate == RATE_ONE_TWENTIETH
        &&& !self.enable_replacement
        &&& self.replacement_rate == RATE_ONE_TWENTIETH
        &&& !self.enable_shuffling
        &&& self.shuffling_rate == RATE_ONE_TWENTIETH
        &&& self.max_mutation_depth == 3
        &&& !self.enable_arithmetics
        &&& self.arithmetics_range == 10
        &&& !self.enable_block_mutation
        &&& self.block_mutation_size == 4
        &&& self.enable_bit_flip
        &&& self.bit_flip_probability == RATE_ONE_HUNDREDTH
        &&& self.enable_byte_flip
        &&& self.byte_flip_probability == RATE_ONE_HUNDREDTH
        &&& !self.enable_interesting_value_insertion
        &&& self.interesting_values@.len() == 0
    }

    /// Whether these options and `other` say the same: every switch and
    /// number agrees, and the menu, the dictionary and the interesting
    /// values hold the same entries in the same order.
    pub open spec fn same_as(self, other: MutatorOptions) -> bool {
        &&& self.mutation_rate == other.mutation_rate
        &&& self.max_mutations == other.max_mutations
        &&& self.mutation_types@ == other.mutation_types@
        &&& self.enable_crossover == other.enable_crossover
        &&& self.crossover_rate == other.crossover_rate
        &&& self.dictionary is Some == other.dictionary is Some
        &&& self.words() == other.words()
        &&& self.preserve_semantics == other.preserve_semantics
        &&& self.enable_splicing == other.enable_splicing
        &&& self.splicing_rate == other.splicing_rate
        &&& self.enable_replacement == other.enable_replacement
        &&& self.replacement_rate == other.replacement_rate
        &&& self.enable_shuffling == other.enable_shuffling
        &&& self.shuffling_rate == other.shuffling_rate
        &&& self.max_mutation_depth == other.max_mutation_depth
        &&& self.enable_arithmetics == other.enable_arithmetics
        &&& self.arithmetics_range == other.arithmetics_range
        &&& self.enable_block_mutation == other.enable_block_mutation
        &&& self.block_mutation_size == other.block_mutation_size
        &&& self.enable_bit_flip == other.enable_bit_flip
        &&& self.bit_flip_probability == other.bit_flip_probability
        &&& self.enable_byte_flip == other.enable_byte_flip
        &&& self.byte_flip_probability == other.byte_flip_probability
        &&& self.enable_interesting_value_insertion == other.enable_interesting_value_insertion
        &&& self.values() == other.values()
    }

    /// A copy of these options.
    pub fn duplicate(&self) -> (copy: MutatorOptions)
        ensures
            copy.same_as(*self),
    {
        let mut kinds: Vec<MutationType> = Vec::new();
        let mut i: usize = 0;
        while i < self.mutation_types.len()
            invariant
                i <= self.mutation_types.len(),
                kinds@ == self.mutation_types@.subrange(0, i as int),
            decreases self.mutation_types.len() - i,
        {
            kinds.push(self.mutation_types[i]);
            i += 1;
        }
        assert(self.mutation_types@.subrange(0, self.mutation_types@.len() as int)
            == self.mutation_types@);
        let dictionary: Option<Vec<Vec<u8>>> = match &self.dictionary {
            Some(words) => Some(copy_byte_strings(words)),
            None => None,
        };
        let copy = MutatorOptions {
            mutation_rate: self.mutation_rate,
            max_mutations: self.max_mutations,
            mutation_types: kinds,
            enable_crossover: self.enable_crossover,
            crossover_rate: self.crossover_rate,
            dictionary,
            preserve_semantics: self.preserve_semantics,
            enable_splicing: self.enable_splicing,
            splicing_rate: self.splicing_rate,
            enable_replacement: self.enable_replacement,
            replacement_rate: self.replacement_rate,
            enable_shuffling: self.enable_shuffling,
            shuffling_rate: self.shuffling_rate,
            max_mutation_depth: self.max_mutation_depth,
            enable_arithmetics: self.enable_arithmetics,
            arithmetics_range: self.arithmetics_range,
            enable_block_mutation: self.enable_block_mutation,
            block_mutation_size: self.block_mutation_size,
            enable_bit_flip: self.enable_bit_flip,
            bit_flip_probability: self.bit_flip_probability,
            enable_byte_flip: self.enable_byte_flip,
            byte_flip_probability: self.byte_flip_probability,
            enable_interesting_value_insertion: self.enable_interesting_value_insertion,
            interesting_values: copy_byte_strings(&self.interesting_values),
        };
        assert(copy.words() =~= self.words());
        assert(copy.values() =~= self.values());
        copy
    }

    /// Whether `kind` is on the menu of the corpus-aware path.
    pub open spec fn lists(self, kind: MutationType) -> bool {
        self.mutation_types@.contains(kind)
    }
}

/// A copy of a list of byte strings.
pub fn copy_byte_strings(source: &Vec<Vec<u8>>) -> (copy: Vec<Vec<u8>>)
    ensures
        copy@.len() == source@.len(),
        forall|i: int| 0 <= i < source@.len() ==> #[trigger] copy@[i]@ == source@[i]@,
{
    let mut copy: Vec<Vec<u8>> = Vec::new();
    let mut i: usize = 0;
    while i < source.len()
        invariant
            i <= source.len(),
            copy@.len() == i,
            forall|j: int| 0 <= j < i ==> #[trigger] copy@[j]@ == source@[j]@,
        decreases source.len() - i,
    {
        let entry: &Vec<u8> = &source[i];
        let mut bytes: Vec<u8> = Vec::new();
        let mut k: usize = 0;
        while k < entry.len()
            invariant
                k <= entry.len(),
                bytes@ == entry@.subrange(0, k as int),
            decreases entry.len() - k,
        {
            bytes.push(entry[k]);
            k += 1;
        }
        assert(entry@.subrange(0, entry@.len() as int) == entry@);
        copy.push(bytes);
        i += 1;
    }
    copy
}

impl Default for MutatorOptions {
    /// Every operator on the menu, the two flips enabled, every
    /// corpus-aware operator disabled, at most five operators per call.
    fn default() -> (o: MutatorOptions)
        ensures
            o.is_default(),
    {
        let mut kinds: Vec<MutationType> = Vec::new();
        kinds.push(MutationType::BitFlip);
        kinds.push(MutationType::ByteFlip);
        kinds.push(MutationType::BlockMutation);
        kinds.push(MutationType::Arithmetic);
        kinds.push(MutationType::Crossover);
        kinds.push(MutationType::Splicing);
        kinds.push(MutationType::Replacement);
        kinds.push(MutationType::Shuffling);
        kinds.push(MutationType::InterestingValueInsertion);
        MutatorOptions {
            mutation_rate: RATE_ONE_TENTH,
            max_mutations: 5,
            mutation_types: kinds,
            enable_crossover: false,
            crossover_rate: RATE_ONE_TWENTIETH,
            dictionary: None,
            preserve_semantics: false,
            enable_splicing: false,
            splicing_rate: RATE_ONE_TWENTIETH,
            enable_replacement: false,
            replacement_rate: RATE_ONE_TWENTIETH,
            enable_shuffling: false,
            shuffling_rate: RATE_ONE_TWENTIETH,
            max_mutation_depth: 3,
            enable_arithmetics: false,
            arithmetics_range: 10,
            enable_block_mutation: false,
            block_mutation_size: 4,
            enable_bit_flip: true,
            bit_flip_probability: RATE_ONE_HUNDREDTH,
            enable_byte_flip: true,
            byte_flip_probability: RATE_ONE_HUNDREDTH,
            enable_interesting_value_insertion: false,
            interesting_values: Vec::new(),
        }
    }
}

} // verus!

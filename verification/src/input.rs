//! Generation of fresh inputs in the configured format.
//!
//! Every generated input is a function of a handful of random draws. The
//! functions that turn draws into bytes ([`json_document`],
//! [`xml_document`], [`custom_document`]) are exact; the generator only
//! decides which values they are called with.

use crate::config::FuzzerConfig;
use crate::errors::FuzzerError;
use crate::random::draw_byte;
use crate::random::draw_byte_between;
use crate::random::draw_flag;
use crate::random::draw_small;
use crate::random::draw_word;
use crate::random::entropy_seed;
use crate::random::seeded_rng;
use crate::text::decimal_digits;
use crate::text::flag_text;
use crate::text::fraction_text;
use crate::text::push_decimal;
use crate::text::push_flag;
use crate::text::push_fraction;
use crate::text::push_text;
use crate::utils::InputFormat;
use rand::rngs::StdRng;
use vstd::prelude::*;
use vstd::utf8::*;

verus! {

/// Exclusive upper bound of the length of binary and text inputs.
pub const MAX_GENERATED_LEN: i32 = 1024;

/// Denominator of the fraction in a structured document, `2^53`.
pub const FRACTION_SCALE: u64 = 0x20_0000_0000_0000;

/// The bytes of the fixed-shape JSON document for the given field values:
/// an object with the keys `array`, `key`, `nested` and `value`, in that
/// order, where `value` is the fraction `fraction / 2^53` written out exactly.
pub open spec fn json_bytes(key: u64, fraction: u64, first: bool, second: bool, a: u8, b: u8) -> Seq<
    u8,
> {
    encode_utf8("{\"array\":["@) + flag_text(first) + encode_utf8(","@) + flag_text(second)
        + encode_utf8("],\"key\":"@) + decimal_digits(key as nat) + encode_utf8(
        ",\"nested\":{\"a\":"@,
    ) + decimal_digits(a as nat) + encode_utf8(",\"b\":\"str"@) + decimal_digits(b as nat)
        + encode_utf8("\"},\"value\":"@) + fraction_text(fraction as nat) + encode_utf8("}"@)
}

/// The bytes of the fixed-shape XML document for the given field values.
pub open spec fn xml_bytes(value: u64, flag: bool) -> Seq<u8> {
    encode_utf8("<root><value>"@) + decimal_digits(value as nat) + encode_utf8("</value><flag>"@)
        + flag_text(flag) + encode_utf8("</flag></root>"@)
}

/// The bytes of the placeholder document of the custom format `name`.
pub open spec fn custom_bytes(name: Seq<char>) -> Seq<u8> {
    encode_utf8("Custom format: "@) + encode_utf8(name)
}

/// Whether `bytes` is an input that a generator of `format` can produce.
pub open spec fn well_formed_input(format: InputFormat, bytes: Seq<u8>) -> bool {
    match format {
        InputFormat::Text => {
            &&& 1 <= bytes.len() < MAX_GENERATED_LEN
            &&& forall|i: int| 0 <= i < bytes.len() ==> 32 <= #[trigger] bytes[i] < 127
        },
        InputFormat::JSON => exists|
            key: u64,
            fraction: u64,
            first: bool,
            second: bool,
            a: u8,
            b: u8,
        |
            fraction < FRACTION_SCALE && bytes == #[trigger] json_bytes(
                key,
                fraction,
                first,
                second,
                a,
                b,
            ),
        InputFormat::XML => exists|value: u64, flag: bool|
            bytes == #[trigger] xml_bytes(value, flag),
        InputFormat::Custom(name) => bytes == custom_bytes(name@),
        InputFormat::Binary => 1 <= bytes.len() < MAX_GENERATED_LEN,
        InputFormat::Unspecified => 1 <= bytes.len() < MAX_GENERATED_LEN,
    }
}

/// Writes the fixed-shape JSON document for the given field values.
pub fn json_document(key: u64, fraction: u64, first: bool, second: bool, a: u8, b: u8) -> (out: Vec<
    u8,
>)
    requires
        fraction < FRACTION_SCALE,
    ensures
        out@ == json_bytes(key, fraction, first, second, a, b),
{
    let mut out: Vec<u8> = Vec::new();
    push_text(&mut out, "{\"array\":[");
    push_flag(&mut out, first);
    push_text(&mut out, ",");
    push_flag(&mut out, second);
    push_text(&mut out, "],\"key\":");
    push_decimal(&mut out, key);
    push_text(&mut out, ",\"nested\":{\"a\":");
    push_decimal(&mut out, a as u64);
    push_text(&mut out, ",\"b\":\"str");
    push_decimal(&mut out, b as u64);
    push_text(&mut out, "\"},\"value\":");
    push_fraction(&mut out, fraction);
    push_text(&mut out, "}");
    out
}

/// Writes the fixed-shape XML document for the given field values.
pub fn xml_document(value: u64, flag: bool) -> (out: Vec<u8>)
    ensures
        out@ == xml_bytes(value, flag),
{
    let mut out: Vec<u8> = Vec::new();
    push_text(&mut out, "<root><value>");
    push_decimal(&mut out, value);
    push_text(&mut out, "</value><flag>");
    push_flag(&mut out, flag);
    push_text(&mut out, "</flag></root>");
    out
}

/// Writes the placeholder document of the custom format `name`.
pub fn custom_document(name: &str) -> (out: Vec<u8>)
    ensures
        out@ == custom_bytes(name@),
{
    let mut out: Vec<u8> = Vec::new();
    push_text(&mut out, "Custom format: ");
    push_text(&mut out, name);
    out
}

/// Produces randomized seed inputs in one format.
///
/// The generator is seeded once, when it is made. A clone carries a copy of
/// the generator's state: from then on the two draw the same stream
/// independently of each other.
#[derive(Clone, Debug)]
pub struct InputGenerator {
    format: InputFormat,
    rng: StdRng,
}

impl InputGenerator {
    /// The format of the inputs.
    pub closed spec fn format(&self) -> InputFormat {
        self.format
    }

    /// A generator for the format and the seed of `config`. Without a seed
    /// one is taken from the system.
    pub fn new(config: FuzzerConfig) -> (generator: InputGenerator)
        ensures
            generator.format() == config.input_format,
    {
        InputGenerator::with_format(config.input_format, config.seed)
    }

    /// A generator for `format`. With a seed the generator's stream is fixed
    /// by it; without one the seed is taken from the system.
    pub fn with_format(format: InputFormat, seed: Option<u64>) -> (generator: InputGenerator)
        ensures
            generator.format() == format,
    {
        let seed: u64 = match seed {
            Some(s) => s,
            None => entropy_seed(),
        };
        InputGenerator { format, rng: seeded_rng(seed) }
    }

    /// A generator of its own for another consumer: the same format, and a
    /// copy of the random source in its present state. From here on the two
    /// draw the same stream independently of each other; what one draws
    /// does not advance the other.
    pub fn fork(&self) -> (copy: InputGenerator)
        ensures
            copy.format() == self.format(),
    {
        InputGenerator { format: self.format.duplicate(), rng: self.rng.clone() }
    }

    /// Generates one input in the generator's format. An unspecified format
    /// is treated as binary. Generation advances the random source and does
    /// nothing else; it succeeds for every format.
    pub fn generate_input(&mut self) -> (result: Result<Vec<u8>, FuzzerError>)
        ensures
            final(self).format() == old(self).format(),
            result is Ok,
            well_formed_input(old(self).format(), result->Ok_0@),
    {
        let out: Vec<u8> = match &self.format {
            InputFormat::Binary => Self::generate_binary(&mut self.rng),
            InputFormat::Text => Self::generate_text(&mut self.rng),
            InputFormat::JSON => Self::generate_json(&mut self.rng),
            InputFormat::XML => Self::generate_xml(&mut self.rng),
            InputFormat::Custom(name) => Self::generate_custom(name.as_str()),
            InputFormat::Unspecified => Self::generate_binary(&mut self.rng),
        };
        Ok(out)
    }

    /// Between 1 and 1023 bytes, each drawn uniformly.
    fn generate_binary(rng: &mut StdRng) -> (out: Vec<u8>)
        ensures
            1 <= out@.len() < MAX_GENERATED_LEN,
    {
        let size: i32 = draw_small(rng, 1, MAX_GENERATED_LEN);
        let mut out: Vec<u8> = Vec::new();
        let mut i: i32 = 0;
        while i < size
            invariant
                0 <= i <= size,
                out@.len() == i,
            decreases size - i,
        {
            out.push(draw_byte(rng));
            i += 1;
        }
        out
    }

    /// Between 1 and 1023 bytes, each a printable ASCII character.
    fn generate_text(rng: &mut StdRng) -> (out: Vec<u8>)
        ensures
            1 <= out@.len() < MAX_GENERATED_LEN,
            forall|i: int| 0 <= i < out@.len() ==> 32 <= #[trigger] out@[i] < 127,
    {
        let size: i32 = draw_small(rng, 1, MAX_GENERATED_LEN);
        let mut out: Vec<u8> = Vec::new();
        let mut i: i32 = 0;
        while i < size
            invariant
                0 <= i <= size,
                out@.len() == i,
                forall|j: int| 0 <= j < out@.len() ==> 32 <= #[trigger] out@[j] < 127,
            decreases size - i,
        {
            out.push(draw_byte_between(rng, 32, 127));
            i += 1;
        }
        out
    }

    /// The JSON document for freshly drawn field values. The fraction is the
    /// upper 53 bits of one random word, over `2^53`.
    fn generate_json(rng: &mut StdRng) -> (out: Vec<u8>)
        ensures
            well_formed_input(InputFormat::JSON, out@),
    {
        let key: u64 = draw_word(rng);
        let word: u64 = draw_word(rng);
        let fraction: u64 = word >> 11;
        assert(fraction < FRACTION_SCALE) by (bit_vector)
            requires
                fraction == word >> 11,
        ;
        let first: bool = draw_flag(rng);
        let second: bool = draw_flag(rng);
        let a: u8 = draw_byte(rng);
        let b: u8 = draw_byte(rng);
        json_document(key, fraction, first, second, a, b)
    }

    /// The XML document for freshly drawn field values.
    fn generate_xml(rng: &mut StdRng) -> (out: Vec<u8>)
        ensures
            well_formed_input(InputFormat::XML, out@),
    {
        let value: u64 = draw_word(rng);
        let flag: bool = draw_flag(rng);
        xml_document(value, flag)
    }

    /// The placeholder document of a custom format.
    fn generate_custom(format: &str) -> (out: Vec<u8>)
        ensures
            out@ == custom_bytes(format@),
    {
        custom_document(format)
    }
}

} // verus!

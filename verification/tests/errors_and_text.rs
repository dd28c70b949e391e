use fuzzer::errors::FuzzerError;
use fuzzer::text::contains_bytes;
use fuzzer::text::push_decimal;
use fuzzer::text::push_flag;
use fuzzer::text::push_fraction;
use fuzzer::text::push_text;
use fuzzer::text::text_mentions;
use fuzzer::utils::ExecutionResult;

fn decimal(n: u64) -> String {
    let mut out = b"n=".to_vec();
    push_decimal(&mut out, n);
    String::from_utf8(out).unwrap()
}

fn fraction(numerator: u64) -> String {
    let mut out = Vec::new();
    push_fraction(&mut out, numerator);
    String::from_utf8(out).unwrap()
}

#[test]
fn every_error_has_its_message() {
    assert_eq!(
        FuzzerError::InputGenerationError("bad".to_string()).message(),
        "Input generation error: bad"
    );
    assert_eq!(FuzzerError::MutationError("bad".to_string()).message(), "Mutation error: bad");
    assert_eq!(FuzzerError::ExecutionError("bad".to_string()).message(), "Execution error: bad");
    assert_eq!(FuzzerError::TimeoutError.message(), "Timeout occurred");
    assert_eq!(FuzzerError::CustomError("bad".to_string()).message(), "Custom error: bad");
    assert_eq!(
        FuzzerError::ReproductionFailed("bad".to_string()).message(),
        "Reproduction failled: bad"
    );
    assert_eq!(FuzzerError::CustomError(String::new()).message(), "Custom error: ");
}

#[test]
fn outcomes_are_compared_by_kind_and_description() {
    let a = ExecutionResult::Crash("a".to_string());
    let b = ExecutionResult::Crash("b".to_string());
    assert!(a.matches_result(&a.duplicate()));
    assert!(!a.matches_result(&b));
    assert!(!a.matches_result(&ExecutionResult::Success));
    assert!(ExecutionResult::Success.matches_result(&ExecutionResult::Success));
    assert!(!ExecutionResult::Success.matches_result(&ExecutionResult::Timeout));
    assert!(ExecutionResult::Timeout.matches_result(&ExecutionResult::Timeout));
    assert!(a.is_crash());
    assert!(!ExecutionResult::Timeout.is_crash());
    assert_eq!(a.duplicate(), a);
}

#[test]
fn numbers_are_written_in_decimal() {
    assert_eq!(decimal(0), "n=0");
    assert_eq!(decimal(7), "n=7");
    assert_eq!(decimal(10), "n=10");
    assert_eq!(decimal(1234567890), "n=1234567890");
    assert_eq!(decimal(u64::MAX), "n=18446744073709551615");
    for n in [9u64, 99, 100, 101, 999_999, 1 << 40] {
        assert_eq!(decimal(n), format!("n={}", n));
    }
}

#[test]
fn fractions_are_written_exactly() {
    assert_eq!(fraction(0), "0.0");
    assert_eq!(fraction(1 << 52), "0.5");
    assert_eq!(fraction(1 << 51), "0.25");
    assert_eq!(fraction(3 << 51), "0.75");
    assert_eq!(fraction(1 << 50), "0.125");
    assert_eq!(fraction((1 << 53) - (1 << 43)), "0.9990234375");
    assert_eq!(fraction(1), "0.00000000000000011102230246251565404236316680908203125");
}

#[test]
fn text_and_flags_are_appended() {
    let mut out = b"<".to_vec();
    push_text(&mut out, "é=");
    push_flag(&mut out, true);
    push_text(&mut out, "");
    push_flag(&mut out, false);
    assert_eq!(String::from_utf8(out).unwrap(), "<é=truefalse");
}

#[test]
fn bytes_are_searched_for_runs() {
    assert!(contains_bytes(b"hello world", b"o w"));
    assert!(contains_bytes(b"hello world", b"hello world"));
    assert!(contains_bytes(b"hello world", b"h"));
    assert!(contains_bytes(b"hello world", b"d"));
    assert!(contains_bytes(b"hello world", b""));
    assert!(contains_bytes(b"", b""));
    assert!(!contains_bytes(b"", b"a"));
    assert!(!contains_bytes(b"hello world", b"hello world!"));
    assert!(!contains_bytes(b"hello world", b"wor1"));
    assert!(!contains_bytes(b"aaab", b"aab "));
    assert!(contains_bytes(b"aaab", b"aab"));
}

#[test]
fn search_agrees_with_the_standard_library() {
    let hays = ["", "a", "abcabc", "null pointer", "a null  pointer", "grüße aus köln"];
    let needles = ["", "a", "bc", "cab", "null pointer", "ü", "ße a", "x"];
    for hay in hays {
        for needle in needles {
            assert_eq!(text_mentions(hay, needle), hay.contains(needle));
        }
    }
}

#[test]
fn fraction_digits_spell_the_fraction() {
    for numerator in [1u64, 5, 1 << 30, (1 << 53) - 1, 0x0F_0F0F_0F0F_0F0F] {
        let text = fraction(numerator);
        let digits = text.strip_prefix("0.").unwrap();
        let mut value: u128 = 0;
        let mut scale: u128 = 1;
        for digit in digits.bytes().take(30) {
            value = value * 10 + (digit - b'0') as u128;
            scale *= 10;
        }
        let exact = numerator as u128 * scale;
        let spelled = value << 53;
        assert!(spelled <= exact && exact - spelled < (1u128 << 53));
    }
}

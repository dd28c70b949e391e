use fuzzer::crash_analysis::CrashAnalysis;
use fuzzer::crash_analysis::CrashInfo;
use fuzzer::crash_analysis::CrashSeverity;
use fuzzer::crash_analysis::Exploitability;

const SHA256_OF_ABC: &str = "ba7816bf8f01cfea414140de5dae2223b00361a396177a9cb410ff61f20015ad";
const SHA256_OF_NOTHING: &str = "e3b0c44298fc1c149afbf4c8996fb92427ae41e4649b934ca495991b7852b855";

#[test]
fn a_new_catalogue_is_empty() {
    let analysis = CrashAnalysis::new();
    assert_eq!(analysis.len(), 0);
    assert!(analysis.crashes().is_empty());
}

#[test]
fn a_crash_is_filed_under_the_digest_of_its_description() {
    let mut analysis = CrashAnalysis::new();
    assert!(analysis.analyze_crash(&[1, 2, 3], "abc").is_ok());
    assert_eq!(analysis.len(), 1);
    let info = &analysis.crashes()[0];
    assert_eq!(info.crash_hash, SHA256_OF_ABC);
    assert_ne!(info.crash_hash, "abc");
    assert_eq!(info.input, vec![1, 2, 3]);
    assert_eq!(info.stack_trace.as_deref(), Some("abc"));
    assert_eq!(info.severity, CrashSeverity::Medium);
    assert_eq!(info.exploitability, Exploitability::Potential);
    assert!(analysis.contains_hash(&SHA256_OF_ABC.to_string()));
    assert!(!analysis.contains_hash(&SHA256_OF_NOTHING.to_string()));
}

#[test]
fn the_empty_description_has_a_digest_too() {
    let mut analysis = CrashAnalysis::new();
    analysis.analyze_crash(&[], "").unwrap();
    assert_eq!(analysis.crashes()[0].crash_hash, SHA256_OF_NOTHING);
    assert!(analysis.crashes()[0].input.is_empty());
}

#[test]
fn the_first_input_of_a_description_is_kept() {
    let mut analysis = CrashAnalysis::new();
    analysis.analyze_crash(&[1], "abc").unwrap();
    analysis.analyze_crash(&[2], "abd").unwrap();
    analysis.analyze_crash(&[3], "abc").unwrap();
    assert_eq!(analysis.len(), 2);
    assert_eq!(analysis.crashes()[0].input, vec![1]);
    assert_eq!(analysis.crashes()[1].input, vec![2]);
    assert_eq!(analysis.crashes()[1].stack_trace.as_deref(), Some("abd"));
}

#[test]
fn records_can_be_filed_under_a_given_digest() {
    let mut analysis = CrashAnalysis::new();
    analysis.record_crash("h1".to_string(), &[1], "null pointer in parser");
    analysis.record_crash("h2".to_string(), &[2], "heap corruption");
    analysis.record_crash("h1".to_string(), &[3], "something else");
    assert_eq!(analysis.len(), 2);
    assert_eq!(analysis.crashes()[0].crash_hash, "h1");
    assert_eq!(analysis.crashes()[0].input, vec![1]);
    assert_eq!(analysis.crashes()[0].severity, CrashSeverity::High);
    assert_eq!(analysis.crashes()[1].exploitability, Exploitability::Probable);
}

#[test]
fn severity_is_read_off_the_description() {
    assert_eq!(CrashAnalysis::determine_severity("stack buffer overflow"), CrashSeverity::Critical);
    assert_eq!(
        CrashAnalysis::determine_severity("null pointer after buffer overflow"),
        CrashSeverity::Critical
    );
    assert_eq!(CrashAnalysis::determine_severity("null pointer dereference"), CrashSeverity::High);
    assert_eq!(CrashAnalysis::determine_severity("division by zero"), CrashSeverity::Medium);
    assert_eq!(CrashAnalysis::determine_severity(""), CrashSeverity::Medium);
    assert_eq!(CrashAnalysis::determine_severity("Buffer Overflow"), CrashSeverity::Medium);
    assert_eq!(CrashAnalysis::determine_severity("buffer  overflow"), CrashSeverity::Medium);
    assert_eq!(CrashAnalysis::determine_severity("buffer overflo"), CrashSeverity::Medium);
}

#[test]
fn exploitability_is_read_off_the_description() {
    assert_eq!(
        CrashAnalysis::determine_exploitability("attacker has control over EIP"),
        Exploitability::Proven
    );
    assert_eq!(
        CrashAnalysis::determine_exploitability("heap corruption, control over EIP"),
        Exploitability::Proven
    );
    assert_eq!(
        CrashAnalysis::determine_exploitability("heap corruption detected"),
        Exploitability::Probable
    );
    assert_eq!(CrashAnalysis::determine_exploitability("assertion failed"), Exploitability::Potential);
    assert_eq!(
        CrashAnalysis::determine_exploitability("control over eip"),
        Exploitability::Potential
    );
}

#[test]
fn a_cloned_catalogue_is_independent() {
    let mut analysis = CrashAnalysis::new();
    analysis.analyze_crash(&[1], "abc").unwrap();
    let copy = analysis.clone();
    analysis.analyze_crash(&[2], "xyz").unwrap();
    assert_eq!(copy.len(), 1);
    assert_eq!(copy.crashes()[0].crash_hash, SHA256_OF_ABC);
    assert_eq!(copy.crashes()[0].input, vec![1]);
    assert_eq!(copy.crashes()[0].stack_trace.as_deref(), Some("abc"));
    assert_eq!(analysis.len(), 2);
}

fn record(crash_hash: &str, input: &[u8]) -> CrashInfo {
    CrashInfo {
        crash_hash: crash_hash.to_string(),
        input: input.to_vec(),
        stack_trace: None,
        severity: CrashSeverity::Low,
        exploitability: Exploitability::NotExploitable,
    }
}

#[test]
fn a_catalogue_of_given_records_keeps_them_as_they_are() {
    let analysis =
        CrashAnalysis::from_records(vec![record("b", &[2]), record("a", &[1])]).unwrap();
    assert_eq!(analysis.len(), 2);
    assert_eq!(analysis.crashes()[0].crash_hash, "b");
    assert_eq!(analysis.crashes()[0].input, vec![2]);
    assert_eq!(analysis.crashes()[0].stack_trace, None);
    assert_eq!(analysis.crashes()[0].severity, CrashSeverity::Low);
    assert_eq!(analysis.crashes()[0].exploitability, Exploitability::NotExploitable);
    assert_eq!(analysis.crashes()[1].crash_hash, "a");
    assert!(analysis.contains_hash(&"a".to_string()));
    assert_eq!(CrashAnalysis::from_records(Vec::new()).unwrap().len(), 0);
}

#[test]
fn records_with_one_digest_make_no_catalogue() {
    assert!(CrashAnalysis::from_records(vec![record("a", &[1]), record("a", &[1])]).is_none());
    assert!(CrashAnalysis::from_records(vec![
        record("a", &[1]),
        record("b", &[2]),
        record("c", &[3]),
        record("b", &[4]),
    ])
    .is_none());
    assert!(CrashAnalysis::from_records(vec![
        record("a", &[1]),
        record("b", &[1]),
        record("c", &[1]),
    ])
    .is_some());
}

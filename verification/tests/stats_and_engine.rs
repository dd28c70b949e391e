use fuzzer::analysis::Analyzer;
use fuzzer::config::FuzzerConfig;
use fuzzer::errors::FuzzerError;
use fuzzer::fuzz_engine::classify;
use fuzzer::fuzz_engine::crash_artifact;
use fuzzer::fuzz_engine::crash_file_name;
use fuzzer::fuzz_engine::Fuzzer;
use fuzzer::fuzz_engine::FuzzerStats;
use fuzzer::fuzz_engine::Phase;
use fuzzer::fuzz_engine::Step;
use fuzzer::fuzz_engine::StopReason;
use fuzzer::fuzz_engine::TargetOutcome;
use fuzzer::mutator_options::MutatorOptions;
use fuzzer::tally::TextTally;
use fuzzer::utils::ExecutionResult;
use fuzzer::utils::FuzzMode;
use fuzzer::utils::InputFormat;
use fuzzer::utils::TimeSpan;

fn crash(description: &str) -> ExecutionResult {
    ExecutionResult::Crash(description.to_string())
}

/// Drives the engine the way a caller does, with targets that answer at once.
fn drive(fuzzer: &mut Fuzzer, targets: &[fn(&[u8]) -> TargetOutcome]) -> (StopReason, usize) {
    let mut skipped = 0;
    loop {
        match fuzzer.begin_iteration(TimeSpan::from_secs(0)) {
            Step::Stop(reason) => return (reason, skipped),
            Step::Skip(_) => skipped += 1,
            Step::Run(input) => {
                for target in targets {
                    fuzzer.record_outcome(target(&input));
                }
                if fuzzer.end_iteration().stop {
                    return (StopReason::FirstCrash, skipped);
                }
            }
        }
    }
}

fn always_ok(_input: &[u8]) -> TargetOutcome {
    TargetOutcome::Succeeded
}

fn always_crashing(_input: &[u8]) -> TargetOutcome {
    TargetOutcome::Failed(FuzzerError::ExecutionError("boom".to_string()))
}

fn never_returning(_input: &[u8]) -> TargetOutcome {
    TargetOutcome::TimedOut
}

#[test]
fn a_clean_run_is_a_success() {
    assert_eq!(classify(TargetOutcome::Succeeded), ExecutionResult::Success);
}

#[test]
fn a_run_out_of_time_is_a_timeout() {
    assert_eq!(classify(TargetOutcome::TimedOut), ExecutionResult::Timeout);
}

#[test]
fn a_failure_is_a_crash_with_the_failure_message() {
    assert_eq!(
        classify(TargetOutcome::Failed(FuzzerError::ExecutionError("bad byte".to_string()))),
        crash("Execution error: bad byte")
    );
    assert_eq!(
        classify(TargetOutcome::Failed(FuzzerError::CustomError("x".to_string()))),
        crash("Custom error: x")
    );
    assert_eq!(
        classify(TargetOutcome::Failed(FuzzerError::TimeoutError)),
        crash("Timeout occurred")
    );
}

#[test]
fn a_target_under_a_generous_timeout_is_a_success() {
    let runtime = tokio::runtime::Builder::new_current_thread().enable_time().build().unwrap();
    let outcome = runtime.block_on(async {
        let run = async { Ok::<(), FuzzerError>(()) };
        match tokio::time::timeout(std::time::Duration::from_secs(5), run).await {
            Ok(Ok(())) => TargetOutcome::Succeeded,
            Ok(Err(failure)) => TargetOutcome::Failed(failure),
            Err(_) => TargetOutcome::TimedOut,
        }
    });
    assert_eq!(classify(outcome), ExecutionResult::Success);
}

#[test]
fn a_target_that_sleeps_past_its_timeout_is_a_timeout() {
    let runtime = tokio::runtime::Builder::new_current_thread().enable_time().build().unwrap();
    let outcome = runtime.block_on(async {
        let run = async {
            tokio::time::sleep(std::time::Duration::from_millis(500)).await;
            Ok::<(), FuzzerError>(())
        };
        match tokio::time::timeout(std::time::Duration::from_millis(20), run).await {
            Ok(Ok(())) => TargetOutcome::Succeeded,
            Ok(Err(failure)) => TargetOutcome::Failed(failure),
            Err(_) => TargetOutcome::TimedOut,
        }
    });
    assert_eq!(classify(outcome), ExecutionResult::Timeout);
}

#[test]
fn fresh_statistics_are_all_zero() {
    let stats = FuzzerStats::default();
    assert_eq!(stats.total_runs, 0);
    assert_eq!(stats.successful_runs, 0);
    assert_eq!(stats.errors, 0);
    assert_eq!(stats.timeouts, 0);
    assert_eq!(stats.total_crashes, 0);
    assert_eq!(stats.inputs_tested, 0);
    assert_eq!(stats.total_time, TimeSpan { secs: 0, nanos: 0 });
    assert_eq!(stats.unique_crashes.len(), 0);
}

#[test]
fn every_kind_of_outcome_is_counted_under_its_kind() {
    let mut stats = FuzzerStats::default();
    stats.record(&ExecutionResult::Success);
    stats.record(&ExecutionResult::Success);
    stats.record(&ExecutionResult::Timeout);
    stats.record(&crash("a"));
    assert_eq!(stats.total_runs, 4);
    assert_eq!(stats.successful_runs, 2);
    assert_eq!(stats.timeouts, 1);
    assert_eq!(stats.errors, 1);
    assert_eq!(stats.total_crashes, 1);
    assert_eq!(stats.unique_crashes.get(&"a".to_string()), 1);
    assert_eq!(stats.inputs_tested, 0);
    stats.note_input();
    assert_eq!(stats.inputs_tested, 1);
    assert_eq!(stats.total_runs, 4);
}

#[test]
fn distinct_crashes_have_one_entry_each() {
    let mut stats = FuzzerStats::default();
    for n in 0..25 {
        stats.record(&crash(&format!("crash {}", n)));
    }
    assert_eq!(stats.unique_crashes.len(), 25);
    assert_eq!(stats.total_crashes, 25);
    for n in 0..25 {
        assert_eq!(stats.unique_crashes.get(&format!("crash {}", n)), 1);
    }
    assert_eq!(stats.unique_crashes.get(&"crash 25".to_string()), 0);
    let keys: Vec<&str> = stats.unique_crashes.entries().iter().map(|e| e.key.as_str()).collect();
    assert_eq!(keys[0], "crash 0");
    assert_eq!(keys[24], "crash 24");
}

#[test]
fn repeated_crashes_share_one_entry() {
    let mut stats = FuzzerStats::default();
    for _ in 0..25 {
        stats.record(&crash("same"));
    }
    assert_eq!(stats.unique_crashes.len(), 1);
    assert_eq!(stats.unique_crashes.get(&"same".to_string()), 25);
    assert_eq!(stats.total_crashes, 25);
    assert_eq!(stats.errors, 25);
    assert_eq!(stats.total_runs, 25);
}

#[test]
fn crashes_with_different_messages_are_different_crashes() {
    let mut stats = FuzzerStats::default();
    stats.record(&crash("overflow at 0x10"));
    stats.record(&crash("overflow at 0x20"));
    stats.record(&crash("overflow at 0x10 "));
    assert_eq!(stats.unique_crashes.len(), 3);
}

#[test]
fn counters_stop_at_the_largest_word() {
    let mut stats = FuzzerStats::default();
    stats.total_runs = usize::MAX;
    stats.timeouts = usize::MAX - 1;
    stats.record(&ExecutionResult::Timeout);
    stats.record(&ExecutionResult::Timeout);
    assert_eq!(stats.total_runs, usize::MAX);
    assert_eq!(stats.timeouts, usize::MAX);
    stats.inputs_tested = usize::MAX;
    stats.note_input();
    assert_eq!(stats.inputs_tested, usize::MAX);
}

#[test]
fn a_snapshot_of_statistics_is_a_copy() {
    let mut stats = FuzzerStats::default();
    stats.record(&crash("a"));
    let copy = stats.snapshot();
    stats.record(&crash("a"));
    assert_eq!(copy.total_runs, 1);
    assert_eq!(copy.unique_crashes.get(&"a".to_string()), 1);
    assert_eq!(stats.unique_crashes.get(&"a".to_string()), 2);
    let clone = stats.clone();
    assert_eq!(clone.unique_crashes.get(&"a".to_string()), 2);
}

#[test]
fn a_text_tally_counts_by_key() {
    let mut tally = TextTally::new();
    tally.count(&"x".to_string());
    tally.count(&"y".to_string());
    tally.count(&"x".to_string());
    assert_eq!(tally.len(), 2);
    assert_eq!(tally.get(&"x".to_string()), 2);
    assert_eq!(tally.get(&"y".to_string()), 1);
    assert_eq!(tally.get(&"".to_string()), 0);
}

#[test]
fn the_analyzer_counts_outcomes() {
    let mut analyzer = Analyzer::new();
    assert_eq!(analyzer.results.len(), 0);
    analyzer.record_result(ExecutionResult::Success);
    analyzer.record_result(crash("a"));
    analyzer.record_result(ExecutionResult::Success);
    analyzer.record_result(crash("b"));
    analyzer.record_result(ExecutionResult::Timeout);
    analyzer.record_result(crash("a"));
    assert_eq!(analyzer.results.len(), 4);
    assert_eq!(analyzer.results.get(&ExecutionResult::Success), 2);
    assert_eq!(analyzer.results.get(&ExecutionResult::Timeout), 1);
    assert_eq!(analyzer.results.get(&crash("a")), 2);
    assert_eq!(analyzer.results.get(&crash("b")), 1);
    assert_eq!(analyzer.results.get(&crash("c")), 0);
}

#[test]
fn a_new_engine_is_idle() {
    let fuzzer = Fuzzer::new(FuzzerConfig::builder().build());
    assert_eq!(fuzzer.current_phase(), Phase::Idle);
    assert_eq!(fuzzer.iterations_done(), 0);
    assert_eq!(fuzzer.target_count(), 0);
    assert_eq!(fuzzer.statistics().total_runs, 0);
    assert_eq!(fuzzer.run_policy().max_iterations, 1000);
}

#[test]
fn the_loop_stops_on_the_first_crash() {
    let config = FuzzerConfig::builder().max_iterations(10).stop_on_first_crash(true).seed(1).build();
    let mut fuzzer = Fuzzer::new(config);
    fuzzer.add_target("crasher");
    let (reason, skipped) = drive(&mut fuzzer, &[always_crashing]);
    assert_eq!(reason, StopReason::FirstCrash);
    assert_eq!(skipped, 0);
    assert_eq!(fuzzer.iterations_done(), 1);
    assert_eq!(fuzzer.current_phase(), Phase::Stopped(StopReason::FirstCrash));
    let stats = fuzzer.statistics();
    assert!(stats.total_crashes >= 1);
    assert_eq!(stats.total_crashes, 1);
    assert_eq!(stats.inputs_tested, 1);
    assert_eq!(stats.total_runs, 1);
    assert_eq!(stats.unique_crashes.get(&"Execution error: boom".to_string()), 1);
}

#[test]
fn without_stop_on_first_crash_the_loop_runs_to_the_end() {
    let config = FuzzerConfig::builder().max_iterations(10).seed(1).build();
    let mut fuzzer = Fuzzer::new(config);
    fuzzer.add_target("crasher");
    fuzzer.add_target("fine");
    fuzzer.add_target("slow");
    assert_eq!(fuzzer.target_count(), 3);
    let (reason, _) = drive(&mut fuzzer, &[always_crashing, always_ok, never_returning]);
    assert_eq!(reason, StopReason::MaxIterations);
    assert_eq!(fuzzer.iterations_done(), 10);
    let stats = fuzzer.statistics();
    assert_eq!(stats.inputs_tested, 10);
    assert_eq!(stats.total_runs, 30);
    assert_eq!(stats.successful_runs, 10);
    assert_eq!(stats.timeouts, 10);
    assert_eq!(stats.errors, 10);
    assert_eq!(stats.total_crashes, 10);
    assert_eq!(stats.unique_crashes.len(), 1);
}

#[test]
fn zero_iterations_stop_at_once() {
    let mut fuzzer = Fuzzer::new(FuzzerConfig::builder().max_iterations(0).build());
    assert!(matches!(
        fuzzer.begin_iteration(TimeSpan::from_secs(0)),
        Step::Stop(StopReason::MaxIterations)
    ));
    assert_eq!(fuzzer.current_phase(), Phase::Stopped(StopReason::MaxIterations));
    assert_eq!(fuzzer.statistics().inputs_tested, 0);
}

#[test]
fn the_time_budget_stops_the_loop() {
    let config = FuzzerConfig::builder().max_total_time(TimeSpan::from_secs(3)).seed(1).build();
    let mut fuzzer = Fuzzer::new(config);
    assert!(matches!(fuzzer.begin_iteration(TimeSpan { secs: 2, nanos: 999_999_999 }), Step::Run(_)));
    assert!(!fuzzer.end_iteration().stop);
    assert!(matches!(
        fuzzer.begin_iteration(TimeSpan::from_secs(3)),
        Step::Stop(StopReason::MaxTime)
    ));
    assert_eq!(fuzzer.current_phase(), Phase::Stopped(StopReason::MaxTime));
    assert_eq!(fuzzer.iterations_done(), 1);
}

#[test]
fn the_iteration_budget_is_checked_before_the_time_budget() {
    let config = FuzzerConfig::builder()
        .max_iterations(0)
        .max_total_time(TimeSpan::from_secs(1))
        .build();
    let mut fuzzer = Fuzzer::new(config);
    assert!(matches!(
        fuzzer.begin_iteration(TimeSpan::from_secs(5)),
        Step::Stop(StopReason::MaxIterations)
    ));
}

#[test]
fn random_mode_hands_out_generated_inputs_unchanged() {
    let config = FuzzerConfig::builder().input_format(InputFormat::Text).seed(3).build();
    let mut fuzzer = Fuzzer::new(config);
    for _ in 0..20 {
        match fuzzer.begin_iteration(TimeSpan::from_secs(0)) {
            Step::Run(input) => {
                assert!((1..1024).contains(&input.len()));
                assert!(input.iter().all(|&b| (32..127).contains(&b)));
            }
            _ => panic!("expected an input"),
        }
        fuzzer.end_iteration();
    }
}

#[test]
fn mutation_mode_hands_out_mutated_inputs() {
    let config = FuzzerConfig::builder()
        .input_format(InputFormat::Custom("x".to_string()))
        .fuzz_mode(FuzzMode::Mutation)
        .seed(3)
        .build();
    let mut fuzzer = Fuzzer::new(config);
    let fresh = b"Custom format: x".to_vec();
    let mut changed = false;
    for _ in 0..50 {
        match fuzzer.begin_iteration(TimeSpan::from_secs(0)) {
            Step::Run(input) => {
                assert!((input.len() as i64 - fresh.len() as i64).abs() <= 5);
                changed = changed || input != fresh;
            }
            _ => panic!("expected an input"),
        }
        fuzzer.end_iteration();
    }
    assert!(changed);
}

#[test]
fn successive_iterations_draw_successive_inputs() {
    let config = FuzzerConfig::builder().seed(3).build();
    let mut fuzzer = Fuzzer::new(config);
    let mut inputs = Vec::new();
    for _ in 0..5 {
        if let Step::Run(input) = fuzzer.begin_iteration(TimeSpan::from_secs(0)) {
            inputs.push(input);
        }
        fuzzer.end_iteration();
    }
    assert_eq!(inputs.len(), 5);
    assert_ne!(inputs[0], inputs[1]);
}

#[test]
fn a_mutator_without_steps_skips_every_iteration() {
    let mut options = MutatorOptions::default();
    options.max_mutations = 0;
    let config = FuzzerConfig::builder()
        .fuzz_mode(FuzzMode::Hybrid)
        .mutator_options(options)
        .max_iterations(4)
        .seed(3)
        .build();
    let mut fuzzer = Fuzzer::new(config);
    fuzzer.add_target("fine");
    let (reason, skipped) = drive(&mut fuzzer, &[always_ok]);
    assert_eq!(reason, StopReason::MaxIterations);
    assert_eq!(skipped, 4);
    assert_eq!(fuzzer.iterations_done(), 4);
    assert_eq!(fuzzer.statistics().inputs_tested, 0);
    assert_eq!(fuzzer.statistics().total_runs, 0);
}

#[test]
fn statistics_are_due_at_every_interval() {
    let config = FuzzerConfig::builder().stats_interval(3).max_iterations(10).seed(3).build();
    let mut fuzzer = Fuzzer::new(config);
    let mut due = Vec::new();
    for _ in 0..10 {
        assert!(matches!(fuzzer.begin_iteration(TimeSpan::from_secs(0)), Step::Run(_)));
        if fuzzer.end_iteration().report_stats {
            due.push(fuzzer.iterations_done());
        }
    }
    assert_eq!(due, vec![3, 6, 9]);
}

#[test]
fn an_interval_of_zero_never_asks_for_statistics() {
    let config = FuzzerConfig::builder().stats_interval(0).max_iterations(5).seed(3).build();
    let mut fuzzer = Fuzzer::new(config);
    for _ in 0..5 {
        assert!(matches!(fuzzer.begin_iteration(TimeSpan::from_secs(0)), Step::Run(_)));
        assert!(!fuzzer.end_iteration().report_stats);
    }
}

#[test]
fn crashes_are_saved_only_when_asked() {
    let saving = Fuzzer::new(FuzzerConfig::builder().save_crashes(true).build());
    assert!(saving.should_save(&crash("x")));
    assert!(!saving.should_save(&ExecutionResult::Success));
    assert!(!saving.should_save(&ExecutionResult::Timeout));
    let plain = Fuzzer::new(FuzzerConfig::builder().build());
    assert!(!plain.should_save(&crash("x")));
}

#[test]
fn a_stopped_session_reports_and_terminates() {
    let mut fuzzer = Fuzzer::new(FuzzerConfig::builder().max_iterations(2).seed(1).build());
    fuzzer.add_target("fine");
    let (reason, _) = drive(&mut fuzzer, &[always_ok]);
    assert_eq!(reason, StopReason::MaxIterations);
    let summary = fuzzer.report();
    assert_eq!(fuzzer.current_phase(), Phase::Reporting);
    assert_eq!(summary.total_runs, 2);
    assert_eq!(summary.successful_runs, 2);
    fuzzer.terminate();
    assert_eq!(fuzzer.current_phase(), Phase::Terminated);
}

#[test]
fn time_spans_compare_by_their_length() {
    let short = TimeSpan { secs: 1, nanos: 999_999_999 };
    let long = TimeSpan { secs: 2, nanos: 0 };
    assert!(long.at_least(&short));
    assert!(!short.at_least(&long));
    assert!(short.at_least(&short));
    assert!(TimeSpan { secs: 1, nanos: 2_000_000_000 }.at_least(&TimeSpan { secs: 3, nanos: 0 }));
    assert!(TimeSpan { secs: u64::MAX, nanos: u32::MAX }.at_least(&long));
    assert_eq!(TimeSpan::from_secs(7), TimeSpan { secs: 7, nanos: 0 });
}

#[test]
fn a_crash_artifact_is_input_newline_description() {
    assert_eq!(crash_artifact(&[1, 2, 3], "boom"), vec![1, 2, 3, b'\n', b'b', b'o', b'o', b'm']);
    assert_eq!(crash_artifact(&[], ""), vec![b'\n']);
    assert_eq!(crash_artifact(b"\n", "\n"), b"\n\n\n".to_vec());
}

#[test]
fn the_engine_tally_starts_empty() {
    let fuzzer = Fuzzer::new(FuzzerConfig::builder().build());
    assert_eq!(fuzzer.outcome_tally().results.len(), 0);
    assert!(fuzzer.fork_generator().generate_input().is_ok());
    assert!(fuzzer.fork_mutator().mutate(&[1, 2, 3]).is_ok());
}

#[test]
fn a_crash_file_is_named_after_its_identifier() {
    assert_eq!(crash_file_name("crashes", "7f3a"), "crashes/crash_7f3a.bin");
    assert_eq!(crash_file_name("", ""), "/crash_.bin");
    assert_eq!(crash_file_name("/tmp/out/", "x"), "/tmp/out//crash_x.bin");
}

#[test]
fn a_blocking_target_on_a_thread_of_its_own_times_out() {
    let runtime = tokio::runtime::Builder::new_current_thread().enable_time().build().unwrap();
    let outcome = runtime.block_on(async {
        let run = tokio::task::spawn_blocking(|| {
            let start = std::time::Instant::now();
            while start.elapsed() < std::time::Duration::from_millis(300) {
                std::hint::spin_loop();
            }
            Ok::<(), FuzzerError>(())
        });
        match tokio::time::timeout(std::time::Duration::from_millis(20), run).await {
            Ok(Ok(Ok(()))) => TargetOutcome::Succeeded,
            Ok(Ok(Err(failure))) => TargetOutcome::Failed(failure),
            _ => TargetOutcome::TimedOut,
        }
    });
    assert_eq!(classify(outcome), ExecutionResult::Timeout);
}

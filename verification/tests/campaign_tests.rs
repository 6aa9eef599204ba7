use drifter::campaign::{
    crash_description, prime_coverage_feedback, prime_unique_feedback, schedule_step, CampaignStats,
    ScheduleStep,
};
use drifter::config::{resolve_harness_key, command_executor_config, ConfigInputDelivery, CommandExecutorSettings, ExecutorType, HarnessChoice};
use drifter::{Corpus, CorpusError, DrifterConfig, SchedulerError, Feedback, InMemoryCorpus, InputDeliveryMode, MockBitmapCoverageFeedback, OnDiskCorpusEntryMetadata, UniqueInputFeedback};
use std::time::Duration;

#[test]
fn primed_feedback_finds_corpus_inputs_uninteresting() {
    let mut corpus: InMemoryCorpus<Vec<u8>, OnDiskCorpusEntryMetadata> = InMemoryCorpus::new();
    corpus
        .add(b"INIT".to_vec(), OnDiskCorpusEntryMetadata { source_description: "seed".to_string() })
        .unwrap();
    let mut unique = UniqueInputFeedback::new();
    prime_unique_feedback(&mut unique, &mut corpus);
    let data: Vec<(&'static str, Option<Vec<u8>>)> = Vec::new();
    assert!(!unique.is_interesting(&b"INIT".to_vec(), &data, &corpus).unwrap());
    assert!(unique.is_interesting(&b"INIU".to_vec(), &data, &corpus).unwrap());

    let mut coverage = MockBitmapCoverageFeedback::new("MockCoverageObserver".to_string());
    prime_coverage_feedback(&mut coverage, &mut corpus);
    let data = vec![("MockCoverageObserver", Some(md5::compute(b"INIT").0.to_vec()))];
    assert!(!coverage.is_interesting(&b"INIT".to_vec(), &data, &corpus).unwrap());
}

#[test]
fn crash_description_text() {
    assert_eq!(crash_description(2, "boom", 17), "Crash #2: boom (Exec: 17)");
}

#[test]
fn harness_keys() {
    assert_eq!(resolve_harness_key("rohcstar_decompressor"), Ok(HarnessChoice::RohcstarDecompressor));
    assert_eq!(resolve_harness_key(""), Ok(HarnessChoice::DefaultDummy));
    assert_eq!(resolve_harness_key("default_dummy"), Ok(HarnessChoice::DefaultDummy));
    assert_eq!(
        resolve_harness_key("nope"),
        Err("Unknown in-process harness_key specified in config: 'nope'. Available keys: 'rohcstar_decompressor', 'default_dummy' (or empty).".to_string())
    );
}

#[test]
fn cli_overrides() {
    let mut c = DrifterConfig::default();
    c.apply_iterations_override(Some(5));
    assert_eq!(c.effective_max_iterations(), 5);
    assert_eq!(c.fuzzer.as_ref().unwrap().threads, 1);
    c.fuzzer = None;
    assert_eq!(c.effective_max_iterations(), 1_000_000);

    assert!(c.apply_target_command_override(Some("./app".to_string())));
    let s = c.executor.command_settings.as_ref().unwrap();
    assert_eq!(s.command, vec!["./app".to_string()]);
    assert_eq!(s.timeout_ms, 0);
    assert!(c.apply_target_command_override(Some("./other".to_string())));
    assert_eq!(c.executor.command_settings.as_ref().unwrap().command, vec!["./other".to_string()]);

    c.executor.executor_type = ExecutorType::InProcess;
    assert!(!c.apply_target_command_override(Some("./x".to_string())));
    c.executor.in_process_settings = None;
    c.ensure_in_process_settings();
    assert_eq!(c.executor.in_process_settings.as_ref().unwrap().harness_key, "");
}

#[test]
fn runtime_command_config() {
    let settings = CommandExecutorSettings {
        command: vec!["./t".to_string()],
        input_delivery: ConfigInputDelivery::File { template: "--f {}".to_string() },
        timeout_ms: 1500,
        working_dir: Some("/w".to_string()),
    };
    let c = command_executor_config(settings);
    assert_eq!(c.command_with_args, vec!["./t".to_string()]);
    assert_eq!(c.execution_timeout, Duration::from_millis(1500));
    assert_eq!(c.working_directory, Some("/w".to_string()));
    match c.input_delivery_mode {
        InputDeliveryMode::File(t) => assert_eq!(t, "--f {}"),
        _ => panic!("expected file delivery"),
    }
}

#[test]
fn schedule_steps() {
    assert_eq!(schedule_step(&Ok(3), false), ScheduleStep::Fuzz(3));
    assert_eq!(schedule_step(&Err(SchedulerError::CorpusEmpty), true), ScheduleStep::GenerateSeed);
    assert_eq!(schedule_step(&Err(SchedulerError::CorpusEmpty), false), ScheduleStep::Skip);
    let failure = Err(SchedulerError::CorpusInteractionError(CorpusError::CorpusIsEmpty));
    assert_eq!(schedule_step(&failure, true), ScheduleStep::Stop);
}

#[test]
fn campaign_counts_and_crash_metadata() {
    let mut stats = CampaignStats::new();
    assert_eq!((stats.total_executions, stats.solutions_found), (0, 0));
    stats.count_execution();
    stats.count_execution();
    let meta = stats.count_bug("boom", false).unwrap();
    assert_eq!(meta.source_description, "Crash #1: boom (Exec: 2)");
    stats.count_execution();
    assert!(stats.count_bug("again", true).is_none());
    assert_eq!((stats.total_executions, stats.solutions_found), (3, 2));
}

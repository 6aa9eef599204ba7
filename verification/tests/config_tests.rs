use drifter::config::{
    default_corpus_type, default_iterations, default_on_disk_path, default_threads,
    default_timeout_ms, CommandExecutorSettings, ConfigInputDelivery, CorpusType, DrifterConfig,
    ExecutorType,
};

#[test]
fn drifter_config_default_values_are_sensible() {
    let config = DrifterConfig::default();

    let fuzzer_settings = config
        .fuzzer
        .expect("Default DrifterConfig.fuzzer should be Some");
    assert_eq!(
        fuzzer_settings.max_iterations,
        default_iterations(),
        "Default max_iterations mismatch"
    );
    assert_eq!(
        fuzzer_settings.threads,
        default_threads(),
        "Default threads mismatch"
    );

    assert_eq!(
        config.executor.executor_type,
        ExecutorType::Command,
        "Default executor_type should be Command"
    );
    assert!(
        config.executor.command_settings.is_none(),
        "Default command_settings should be None"
    );
    let in_process_settings = config
        .executor
        .in_process_settings
        .expect("Default in_process_settings should be Some");
    assert_eq!(
        in_process_settings.harness_key, "",
        "Default harness_key should be empty"
    );

    let corpus_config = config
        .corpus
        .expect("Default DrifterConfig.corpus should be Some");
    assert_eq!(
        corpus_config.corpus_type,
        default_corpus_type(),
        "Default corpus_type should be InMemory"
    );
    assert!(
        corpus_config.initial_seed_paths.is_none(),
        "Default initial_seed_paths should be None"
    );
    assert_eq!(
        corpus_config.on_disk_path,
        default_on_disk_path(),
        "Default on_disk_path mismatch"
    );
}

#[test]
fn default_helper_values_are_exact() {
    assert_eq!(default_iterations(), 1_000_000);
    assert_eq!(default_threads(), 1);
    assert_eq!(default_timeout_ms(), 2000);
    assert_eq!(default_on_disk_path(), "./.drifter_corpus");
    assert_eq!(default_corpus_type(), CorpusType::InMemory);
}

#[test]
fn corpus_type_names() {
    assert_eq!(CorpusType::InMemory.to_string(), "InMemory");
    assert_eq!(CorpusType::OnDisk.to_string(), "OnDisk");
}

#[test]
fn command_settings_default_has_zero_timeout_and_stdin() {
    let s = CommandExecutorSettings::default();
    assert!(s.command.is_empty());
    assert!(matches!(s.input_delivery, ConfigInputDelivery::StdIn));
    assert_eq!(s.timeout_ms, 0);
    assert!(s.working_dir.is_none());
}

use drifter::{Corpus, InMemoryCorpus, RandomScheduler, Scheduler, SchedulerError};
use rand_chacha::ChaCha8Rng;
use rand_core::SeedableRng;

#[test]
fn random_scheduler_next_from_empty_corpus_returns_corpus_empty_error() {
    let mut scheduler = RandomScheduler::new();
    let mut corpus: InMemoryCorpus<Vec<u8>, String> = InMemoryCorpus::new();
    let mut rng = ChaCha8Rng::from_seed([0; 32]);

    match Scheduler::<Vec<u8>>::next(&mut scheduler, &mut corpus, &mut rng) {
        Err(SchedulerError::CorpusEmpty) => {}
        Err(e) => panic!(
            "Expected SchedulerError::CorpusEmpty, but got different error: {:?}. Corpus length: {}",
            e,
            corpus.len()
        ),
        Ok(id) => panic!(
            "Expected an error when scheduling from an empty corpus, but got Ok with id {}",
            id
        ),
    }
}

#[test]
fn random_scheduler_next_from_non_empty_corpus_returns_valid_id() {
    let mut scheduler = RandomScheduler::new();
    let mut corpus: InMemoryCorpus<Vec<u8>, String> = InMemoryCorpus::new();
    let mut rng = ChaCha8Rng::from_seed([1; 32]);

    corpus
        .add(vec![1, 0, 1], "meta_data_for_input_1".to_string())
        .expect("Failed to add input 1 to corpus");
    corpus
        .add(vec![2, 1, 2], "meta_data_for_input_2".to_string())
        .expect("Failed to add input 2 to corpus");

    let mut selected_ids_set = std::collections::HashSet::new();
    let number_of_selections = 50;

    for i in 0..number_of_selections {
        match Scheduler::<Vec<u8>>::next(&mut scheduler, &mut corpus, &mut rng) {
            Ok(id) => {
                assert!(
                    id < corpus.len(),
                    "Selected ID {} is out of bounds for corpus of length {}. Iteration: {}",
                    id,
                    corpus.len(),
                    i
                );
                selected_ids_set.insert(id);
            }
            Err(e) => panic!("scheduler.next() failed on iteration {}: {:?}", i, e),
        }
    }
    assert_eq!(
        selected_ids_set.len(),
        corpus.len(),
        "Scheduler should have selected all unique items from a small corpus over {} selections. Selected IDs: {:?}",
        number_of_selections,
        selected_ids_set
    );
    assert!(
        selected_ids_set.contains(&0),
        "ID 0 should have been selected at least once"
    );
    assert!(
        selected_ids_set.contains(&1),
        "ID 1 should have been selected at least once"
    );
}

#[test]
fn random_scheduler_report_feedback_method_is_a_noop_and_compiles() {
    let mut scheduler = RandomScheduler::new();
    let dummy_feedback_value: i32 = 42;

    <RandomScheduler as Scheduler<Vec<u8>>>::report_feedback(
        &mut scheduler,
        0,
        &dummy_feedback_value,
        false,
    );
}

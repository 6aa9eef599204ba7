use drifter::ondisk::{
    decode_input_file, entry_metadata, filename_stem, input_file_name,
    is_own_index_file, is_skipped_seed_file_name, Lookup, MetadataSource, OnDiskIndex,
};
use drifter::{CorpusError, OnDiskCorpusEntryMetadata};
use rand_chacha::ChaCha8Rng;
use rand_core::SeedableRng;

fn meta(s: &str) -> OnDiskCorpusEntryMetadata {
    OnDiskCorpusEntryMetadata {
        source_description: s.to_string(),
    }
}

#[test]
fn stems_are_zero_padded_ids() {
    assert_eq!(filename_stem(0), "input_00000000");
    assert_eq!(filename_stem(42), "input_00000042");
    assert_eq!(filename_stem(123456789), "input_123456789");
    assert_eq!(input_file_name("input_00000007"), "input_00000007.fuzzinput");
}

#[test]
fn encoding_matches_bincode_and_round_trips() {
    let index = OnDiskIndex::new();
    let input: Vec<u8> = vec![1, 2, 3];
    let pending = index.prepare_add(&input, MetadataSource::Other);
    assert_eq!(pending.bytes, vec![3, 0, 0, 0, 0, 0, 0, 0, 1, 2, 3]);
    assert_eq!(decode_input_file(&pending.bytes, "\"f\"").unwrap(), input);
    let empty: Vec<u8> = vec![];
    let pending = index.prepare_add(&empty, MetadataSource::Other);
    assert_eq!(pending.bytes, vec![0, 0, 0, 0, 0, 0, 0, 0]);
    assert_eq!(decode_input_file(&pending.bytes, "\"f\"").unwrap(), empty);
}

#[test]
fn decoding_bad_files_fails() {
    match decode_input_file(&[], "\"a.fuzzinput\"") {
        Err(CorpusError::Deserialization(m)) => {
            assert_eq!(m, "Input file \"a.fuzzinput\" is empty, cannot deserialize.")
        }
        other => panic!("unexpected {:?}", other),
    }
    match decode_input_file(&[1, 2, 3], "\"b\"") {
        Err(CorpusError::Deserialization(m)) => {
            assert_eq!(
                m,
                "Bincode deserialization failed for input file \"b\": UnexpectedEnd { additional: 5 }"
            )
        }
        other => panic!("unexpected {:?}", other),
    }
    match decode_input_file(&[9, 0, 0, 0, 0, 0, 0, 0, 1], "\"c\"") {
        Err(CorpusError::Deserialization(m)) => assert_eq!(
            m,
            "Bincode deserialization failed for input file \"c\": UnexpectedEnd { additional: 8 }"
        ),
        other => panic!("unexpected {:?}", other),
    }
}

#[test]
fn seed_files_skipped() {
    assert!(is_skipped_seed_file_name("corpus_index.json"));
    assert!(is_skipped_seed_file_name(".hid"));
    assert!(!is_skipped_seed_file_name("good_seed.fuzzinput"));
    assert!(!is_skipped_seed_file_name(""));
}

#[test]
fn metadata_conversion() {
    assert_eq!(
        entry_metadata(MetadataSource::Entry(meta("m2_st")), 3).source_description,
        "m2_st"
    );
    assert_eq!(
        entry_metadata(MetadataSource::Text("m1_s".to_string()), 3).source_description,
        "m1_s"
    );
    assert_eq!(
        entry_metadata(MetadataSource::Other, 3).source_description,
        "Input entry #3"
    );
}

#[test]
fn index_records_entries_and_caches_reads() {
    let mut index = OnDiskIndex::new();
    assert_eq!(index.len(), 0);
    let (id0, stem0) = index.next_entry();
    assert_eq!((id0, stem0.as_str()), (0, "input_00000000"));
    assert_eq!(index.record_added(stem0, meta("m1_s")), 0);
    let (id1, stem1) = index.next_entry();
    assert_eq!(id1, 1);
    assert_eq!(index.record_added(stem1, meta("m2_st")), 1);
    assert_eq!(index.len(), 2);

    match index.lookup(1) {
        Lookup::Load { stem, metadata } => {
            assert_eq!(stem, "input_00000001");
            assert_eq!(metadata.source_description, "m2_st");
        }
        other => panic!("unexpected {:?}", other),
    }
    assert!(index.store_in_cache(1, vec![2, 2]));
    assert_eq!(index.cached().unwrap().metadata.source_description, "m2_st");
    assert!(matches!(index.lookup(1), Lookup::Cached));
    assert_eq!(index.cached().unwrap().input, vec![2, 2]);
    assert!(matches!(index.lookup(0), Lookup::Load { .. }));
    assert!(index.cached().is_none());
    assert!(matches!(index.lookup(5), Lookup::Missing));

    assert!(index.store_in_cache(0, vec![1]));
    let (id2, stem2) = index.next_entry();
    assert_eq!(id2, 2);
    index.record_added(stem2, meta("x"));
    assert_eq!(index.cached().unwrap().id, 0);
    index.forget_cache();
    assert!(index.cached().is_none());
}

#[test]
fn recording_a_reused_stem_drops_its_cache() {
    let mut index = OnDiskIndex::from_parts(
        vec!["input_00000000".to_string()],
        vec![("input_00000000".to_string(), meta("old"))],
    );
    assert!(index.store_in_cache(0, vec![9]));
    index.record_added("input_00000000".to_string(), meta("new"));
    assert!(index.cached().is_none());
}

#[test]
fn index_with_missing_metadata_is_inconsistent() {
    let mut index = OnDiskIndex::from_parts(vec!["input_00000000".to_string()], vec![]);
    match index.lookup(0) {
        Lookup::Inconsistent { stem } => assert_eq!(stem, "input_00000000"),
        other => panic!("unexpected {:?}", other),
    }
}

#[test]
fn index_select() {
    let mut rng = ChaCha8Rng::from_seed([0; 32]);
    let mut index = OnDiskIndex::new();
    assert!(index.select(&mut rng).is_none());
    let (_, s) = index.next_entry();
    index.record_added(s, meta("a"));
    let (_, s) = index.next_entry();
    index.record_added(s, meta("b"));
    for _ in 0..20 {
        assert!(index.select(&mut rng).unwrap() < 2);
    }
}

#[test]
fn prepare_add_names_the_next_entry() {
    let mut index = OnDiskIndex::new();
    let first = index.prepare_add(&vec![7u8], MetadataSource::Text("seed".to_string()));
    assert_eq!(first.id, 0);
    assert_eq!(first.stem, "input_00000000");
    assert_eq!(first.file_name, "input_00000000.fuzzinput");
    assert_eq!(first.metadata.source_description, "seed");
    assert_eq!(index.record_added(first.stem, first.metadata), 0);
    let second = index.prepare_add(&vec![], MetadataSource::Other);
    assert_eq!(second.id, 1);
    assert_eq!(second.stem, "input_00000001");
    assert_eq!(second.metadata.source_description, "Input entry #1");
    assert_eq!(
        index.prepare_add(&vec![], MetadataSource::Entry(meta("kept"))).metadata.source_description,
        "kept"
    );
}

#[test]
fn stems_sort_in_id_order() {
    assert!(filename_stem(9) < filename_stem(10));
    assert!(filename_stem(99) < filename_stem(100));
    assert!(filename_stem(12345) < filename_stem(99_999_999));
    assert_ne!(filename_stem(1), filename_stem(10));
    assert_eq!(filename_stem(99_999_999).len(), 14);
}

#[test]
fn recorded_entry_is_found_again() {
    let mut index = OnDiskIndex::from_parts(
        vec!["input_00000000".to_string()],
        vec![("input_00000000".to_string(), meta("old"))],
    );
    let pending = index.prepare_add(&vec![5, 6], MetadataSource::Text("new".to_string()));
    let id = index.record_added(pending.stem, pending.metadata);
    assert_eq!(id, 1);
    match index.lookup(id) {
        Lookup::Load { stem, metadata } => {
            assert_eq!(stem, "input_00000001");
            assert_eq!(metadata.source_description, "new");
        }
        other => panic!("unexpected {:?}", other),
    }
    assert_eq!(decode_input_file(&pending.bytes, "\"p\"").unwrap(), vec![5, 6]);
}

#[test]
fn cache_only_holds_real_entries() {
    let mut index = OnDiskIndex::new();
    assert!(!index.store_in_cache(5, vec![1, 2]));
    assert!(index.cached().is_none());
    assert!(matches!(index.lookup(5), Lookup::Missing));
    let mut index = OnDiskIndex::from_parts(vec!["input_00000000".to_string()], vec![]);
    assert!(!index.store_in_cache(0, vec![1]));
    assert!(index.cached().is_none());
}

#[test]
fn decode_error_texts_match_bincode() {
    let config = bincode::config::standard().with_little_endian().with_fixed_int_encoding();
    for content in [vec![1u8, 2, 3], vec![9u8, 0, 0, 0, 0, 0, 0, 0, 1]] {
        let detail = bincode::decode_from_slice::<Vec<u8>, _>(&content, config)
            .unwrap_err()
            .to_string();
        match decode_input_file(&content, "\"f\"") {
            Err(CorpusError::Deserialization(m)) => assert_eq!(
                m,
                format!("Bincode deserialization failed for input file \"f\": {}", detail)
            ),
            other => panic!("unexpected {:?}", other),
        }
    }
}

#[test]
fn own_index_file_is_recognised() {
    assert!(is_own_index_file(Some("corpus_index.json"), true));
    assert!(!is_own_index_file(Some("corpus_index.json"), false));
    assert!(!is_own_index_file(Some("seed.bin"), true));
    assert!(!is_own_index_file(None, true));
}

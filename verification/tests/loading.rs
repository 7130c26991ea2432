use harmony_loader::catalog::{resolve_encoding, ReservedRangePolicy};
use harmony_loader::{
    load_harmony_encoding_offline, load_harmony_encoding_safe, GlobalLoadGuard, LoadError,
};

#[test]
fn test_thread_safe_loading() {
    let guard = GlobalLoadGuard::new();
    let result = load_harmony_encoding_safe(&guard, "o200k_harmony");
    assert!(result.is_ok(), "Should load encoding successfully");
}

#[test]
fn test_offline_loading_api() {
    let vocab = vec![(b"a".to_vec(), 0u64), (b"ab".to_vec(), 1u64)];
    let result = load_harmony_encoding_offline("o200k_harmony", Ok(vocab));
    assert!(result.is_ok(), "Should load from file successfully");
}

#[test]
fn resolve_known_names() {
    let d = resolve_encoding("o200k_harmony").unwrap();
    assert_eq!(d.name.as_str(), "o200k_harmony");
    assert_eq!(d.base_specials.len(), 9);
    assert_eq!(d.reserved, ReservedRangePolicy::Reserved { lo: 200014, hi: 201088 });

    let d = resolve_encoding("o200k_base").unwrap();
    assert_eq!(d.base_specials.len(), 0);
    assert_eq!(d.reserved, ReservedRangePolicy::Reserved { lo: 199998, hi: 201088 });

    let d = resolve_encoding("cl100k_base").unwrap();
    assert_eq!(d.base_specials.len(), 5);
    assert_eq!(d.reserved, ReservedRangePolicy::NoReserved);
}

#[test]
fn resolve_unknown_name_fails() {
    match resolve_encoding("o200k_unheard_of") {
        Err(LoadError::UnknownEncodingName(n)) => assert_eq!(n.as_str(), "o200k_unheard_of"),
        _ => panic!("an unknown name must fail with UnknownEncodingName"),
    }
}

#[test]
fn unknown_name_fails_before_vocabulary() {
    // The name gate fires first: even when vocabulary acquisition already
    // failed (here: a nonexistent file), the unknown name is what is
    // reported, and nothing else is consulted.
    let result = load_harmony_encoding_offline(
        "not_a_real_encoding",
        Err("no such file or directory".to_string()),
    );
    match result {
        Err(LoadError::UnknownEncodingName(n)) => assert_eq!(n.as_str(), "not_a_real_encoding"),
        _ => panic!("expected UnknownEncodingName, not a file error"),
    }
}

#[test]
fn parse_failure_is_reported_as_invalid_vocab_file() {
    let result =
        load_harmony_encoding_offline("o200k_harmony", Err("bad line at 7".to_string()));
    match result {
        Err(LoadError::InvalidVocabFile(details)) => assert_eq!(details.as_str(), "bad line at 7"),
        _ => panic!("expected InvalidVocabFile"),
    }
}

#[test]
fn colliding_vocab_rank_fails_construction() {
    // 200014 is a reserved special-token ID of o200k_harmony; a vocabulary
    // rank equal to it must be rejected, and no tokenizer returned.
    let vocab = vec![(b"x".to_vec(), 3u64), (b"y".to_vec(), 200014u64)];
    let result = load_harmony_encoding_offline("o200k_harmony", Ok(vocab));
    match result {
        Err(LoadError::CoreConstructionFailed(details)) => {
            assert_eq!(details.as_str(), "special token id collides with a vocabulary rank");
        }
        _ => panic!("expected CoreConstructionFailed"),
    }
}

#[test]
fn duplicate_vocab_rank_fails_construction() {
    let vocab = vec![(b"x".to_vec(), 3u64), (b"y".to_vec(), 3u64)];
    let result = load_harmony_encoding_offline("o200k_harmony", Ok(vocab));
    match result {
        Err(LoadError::CoreConstructionFailed(details)) => {
            assert_eq!(details.as_str(), "duplicate rank in vocabulary");
        }
        _ => panic!("expected CoreConstructionFailed"),
    }
}

#[test]
fn online_loads_agree() {
    let guard = GlobalLoadGuard::new();
    let a = load_harmony_encoding_safe(&guard, "o200k_harmony").unwrap();
    let b = load_harmony_encoding_safe(&guard, "o200k_harmony").unwrap();
    assert_eq!(a.special_tokens(), b.special_tokens());
    assert_eq!(a.split_pattern(), b.split_pattern());
    assert_eq!(a.vocabulary(), b.vocabulary());
}

#[test]
fn online_load_of_unknown_name_fails_identically() {
    let guard = GlobalLoadGuard::new();
    let a = load_harmony_encoding_safe(&guard, "mystery");
    let b = load_harmony_encoding_safe(&guard, "mystery");
    match (a, b) {
        (Err(LoadError::UnknownEncodingName(n1)), Err(LoadError::UnknownEncodingName(n2))) => {
            assert_eq!(n1, n2);
            assert_eq!(n1.as_str(), "mystery");
        }
        _ => panic!("both calls must fail with the same UnknownEncodingName"),
    }
}

#[test]
fn offline_load_keeps_the_vocabulary() {
    let vocab = vec![(b"lo".to_vec(), 7u64), (b"hi".to_vec(), 9u64)];
    let t = load_harmony_encoding_offline("cl100k_base", Ok(vocab.clone())).unwrap();
    assert_eq!(t.vocabulary(), &vocab);
}

#[test]
fn online_load_of_default_style_variant() {
    let guard = GlobalLoadGuard::new();
    let t = load_harmony_encoding_safe(&guard, "cl100k_base").unwrap();
    assert_eq!(t.special_token_count(), 5);
    assert!(t.vocabulary().is_empty());
}

#[test]
fn duplicate_special_id_fails_construction() {
    let specials = vec![
        ("<|one|>".to_string(), 5u64),
        ("<|two|>".to_string(), 5u64),
    ];
    let result = harmony_loader::tokenizer::build_tokenizer(
        Vec::new(),
        specials,
        "pattern".to_string(),
    );
    match result {
        Err(LoadError::CoreConstructionFailed(details)) => {
            assert_eq!(details.as_str(), "duplicate special token id");
        }
        _ => panic!("expected CoreConstructionFailed"),
    }
}

use std::collections::BTreeSet;

use harmony_loader::catalog::resolve_encoding;
use harmony_loader::specials::{assemble_special_tokens, reserved_token_name};
use harmony_loader::load_harmony_encoding_offline;

#[test]
fn reserved_token_names_follow_the_template() {
    assert_eq!(reserved_token_name(200014).as_str(), "<|reserved_200014|>");
    assert_eq!(reserved_token_name(201088).as_str(), "<|reserved_201088|>");
    assert_eq!(reserved_token_name(0).as_str(), "<|reserved_0|>");
    assert_eq!(reserved_token_name(10).as_str(), "<|reserved_10|>");
}

#[test]
fn harmony_id_set_is_base_union_reserved_range() {
    let d = resolve_encoding("o200k_harmony").unwrap();
    let base_ids: BTreeSet<u64> = d.base_specials.iter().map(|p| p.1).collect();
    let table = assemble_special_tokens(&d);
    let ids: BTreeSet<u64> = table.iter().map(|p| p.1).collect();

    // No duplicate: the set is as large as the table.
    assert_eq!(ids.len(), table.len());
    // Exactly the base IDs together with the closed interval.
    let mut expected = base_ids.clone();
    expected.extend(200014u64..=201088u64);
    assert_eq!(ids, expected);
    // Spot checks at the edges of the interval.
    assert!(ids.contains(&200014));
    assert!(ids.contains(&201088));
    assert!(!ids.contains(&200013));
    assert!(!ids.contains(&201089));
}

#[test]
fn harmony_table_lists_base_then_range_in_order() {
    let d = resolve_encoding("o200k_harmony").unwrap();
    let table = assemble_special_tokens(&d);
    assert_eq!(table[0].0.as_str(), "<|startoftext|>");
    assert_eq!(table[0].1, 199998);
    assert_eq!(table[8].0.as_str(), "<|call|>");
    assert_eq!(table[8].1, 200012);
    assert_eq!(table[9].0.as_str(), "<|reserved_200014|>");
    assert_eq!(table[9].1, 200014);
    let last = table.last().unwrap();
    assert_eq!(last.0.as_str(), "<|reserved_201088|>");
    assert_eq!(last.1, 201088);
}

#[test]
fn harmony_special_count_is_base_plus_range() {
    // The o200k_harmony descriptor reserves 200014..=201088: 1075 values.
    let d = resolve_encoding("o200k_harmony").unwrap();
    let vocab = vec![(b"the".to_vec(), 0u64), (b"cat".to_vec(), 1u64)];
    let t = load_harmony_encoding_offline("o200k_harmony", Ok(vocab)).unwrap();
    assert_eq!(t.special_token_count(), d.base_specials.len() + 1075);
    assert_eq!(t.special_token_count(), 1084);
}

#[test]
fn o200k_base_special_count_covers_its_range() {
    // 199998..=201088 holds 1091 values and o200k_base has no base token.
    let t = load_harmony_encoding_offline("o200k_base", Ok(Vec::new())).unwrap();
    assert_eq!(t.special_token_count(), 1091);
}

#[test]
fn cl100k_base_has_no_reserved_range() {
    let t = load_harmony_encoding_offline("cl100k_base", Ok(Vec::new())).unwrap();
    assert_eq!(t.special_token_count(), 5);
    let names: Vec<&str> = t.special_tokens().iter().map(|p| p.0.as_str()).collect();
    assert!(names.contains(&"<|endoftext|>"));
    assert!(!names.iter().any(|n| n.starts_with("<|reserved_")));
}

#[test]
fn tokenizer_keeps_the_split_pattern() {
    let d = resolve_encoding("o200k_harmony").unwrap();
    let t = load_harmony_encoding_offline("o200k_harmony", Ok(Vec::new())).unwrap();
    assert_eq!(t.split_pattern(), &d.pattern);
    assert!(d.pattern.contains("\\p{L}"));
}

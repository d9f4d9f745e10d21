use std::collections::hash_map::DefaultHasher;
use std::hash::Hasher;

use etag::{push_decimal, Entry, Taggable};

fn entry(id: u64, name: &str, score: u64) -> Entry {
    Entry::new(id, name.to_string(), score)
}

fn expected_get(id: u64, name: &str, score: u64) -> u64 {
    let mut h = DefaultHasher::new();
    h.write(&id.to_le_bytes());
    h.write(name.as_bytes());
    h.write(&[0xff]);
    h.write(&score.to_le_bytes());
    h.finish()
}

fn expected_patch(id: u64, name: &str) -> u64 {
    let mut h = DefaultHasher::new();
    h.write(&id.to_le_bytes());
    h.write(name.as_bytes());
    h.write(&[0xff]);
    h.finish()
}

fn decimal(n: u64) -> String {
    let mut s = String::new();
    push_decimal(&mut s, n);
    s
}

#[test]
fn get_part_is_deterministic() {
    let e = entry(1, "abc", 10);
    assert_eq!(e.get_part(), e.get_part());
    assert_eq!(e.patch_part(), e.patch_part());
    assert_eq!(e.etag_string(), e.etag_string());
    assert_eq!(e.get_part(), entry(1, "abc", 10).get_part());
}

#[test]
fn get_part_hashes_every_field() {
    let e = entry(1, "abc", 10);
    assert_eq!(e.get_part(), expected_get(1, "abc", 10));
    assert_eq!(e.patch_part(), expected_patch(1, "abc"));
}

#[test]
fn get_part_sensitive_to_each_field() {
    let base = entry(1, "abc", 10).get_part();
    assert_ne!(base, entry(2, "abc", 10).get_part());
    assert_ne!(base, entry(1, "abd", 10).get_part());
    assert_ne!(base, entry(1, "", 10).get_part());
    assert_ne!(base, entry(1, "abc", 11).get_part());
    assert_ne!(entry(0, "", 0).get_part(), entry(0, "", 1).get_part());
}

#[test]
fn patch_part_sensitive_to_patchable_fields() {
    let base = entry(1, "abc", 10).patch_part();
    assert_ne!(base, entry(2, "abc", 10).patch_part());
    assert_ne!(base, entry(1, "ab", 10).patch_part());
}

#[test]
fn score_change_keeps_patch_part() {
    let before = entry(1, "abc", 10);
    let after = entry(1, "abc", 20);
    assert_eq!(before.patch_part(), after.patch_part());
    assert_ne!(before.get_part(), after.get_part());
    assert_ne!(before.etag_string(), after.etag_string());
}

#[test]
fn patch_part_ignores_score_entirely() {
    let p = entry(7, "name", 0).patch_part();
    assert_eq!(p, entry(7, "name", u64::MAX).patch_part());
    assert_eq!(p, entry(7, "name", 12345).patch_part());
}

#[test]
fn tag_string_has_two_numeric_parts() {
    for e in [entry(1, "abc", 10), entry(0, "", 0), entry(u64::MAX, "żółw", u64::MAX)] {
        let tag = e.etag_string();
        let parts: Vec<&str> = tag.split(';').collect();
        assert_eq!(parts.len(), 2);
        for part in &parts {
            assert!(!part.is_empty());
            assert!(part.chars().all(|c| c.is_ascii_digit()));
        }
        assert_eq!(parts[0].parse::<u64>().unwrap(), e.patch_part());
        assert_eq!(parts[1].parse::<u64>().unwrap(), e.get_part());
        assert_eq!(tag, format!("{};{}", e.patch_part(), e.get_part()));
    }
}

#[test]
fn decimal_rendering() {
    assert_eq!(decimal(0), "0");
    assert_eq!(decimal(7), "7");
    assert_eq!(decimal(10), "10");
    assert_eq!(decimal(8021756423495913112), "8021756423495913112");
    assert_eq!(decimal(u64::MAX), "18446744073709551615");
}

#[test]
fn decimal_appends_to_existing_text() {
    let mut s = String::from("x=");
    push_decimal(&mut s, 405);
    assert_eq!(s, "x=405");
}

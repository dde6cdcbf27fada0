use poli_page::idempotency::{auto_idempotency_key, idempotency_key_for, new_v4_string};

#[test]
fn new_v4_string_returns_36_chars() {
    let id = new_v4_string();
    assert_eq!(id.len(), 36, "got {id}");
}

#[test]
fn new_v4_string_uses_canonical_format() {
    // 8-4-4-4-12 hex with the version-4 nibble in position 14.
    let id = new_v4_string();
    let parts: Vec<&str> = id.split('-').collect();
    assert_eq!(parts.len(), 5, "got {id}");
    assert_eq!(parts[0].len(), 8);
    assert_eq!(parts[1].len(), 4);
    assert_eq!(parts[2].len(), 4);
    assert_eq!(parts[3].len(), 4);
    assert_eq!(parts[4].len(), 12);
    assert!(
        parts[2].starts_with('4'),
        "v4 version nibble missing in {id}"
    );
}

#[test]
fn new_v4_string_returns_distinct_values() {
    // 100 draws should produce 100 distinct strings.
    let mut set = std::collections::HashSet::new();
    for _ in 0..100 {
        assert!(set.insert(new_v4_string()), "v4 collision in 100 draws");
    }
}

#[test]
fn auto_idempotency_key_returns_uuid_v4() {
    let k = auto_idempotency_key();
    assert_eq!(k.len(), 36);
}

#[test]
fn idempotency_key_prefers_the_callers_own() {
    assert_eq!(idempotency_key_for(Some("idem-caller-supplied")), "idem-caller-supplied");
    let generated = idempotency_key_for(None);
    assert_eq!(generated.len(), 36);
    assert!(generated
        .chars()
        .enumerate()
        .all(|(i, c)| if [8, 13, 18, 23].contains(&i) { c == '-' } else { c.is_ascii_hexdigit() && !c.is_ascii_uppercase() }));
    assert!(matches!(generated.as_bytes()[19], b'8' | b'9' | b'a' | b'b'));
}

use log_collector::generator::{format_event_id, format_log_id, generate_event_id, generate_log_id};

#[test]
fn event_id_of_small_numbers() {
    assert_eq!(format_event_id(0), "0");
    assert_eq!(format_event_id(9), "9");
    assert_eq!(format_event_id(10), "A");
    assert_eq!(format_event_id(35), "Z");
    assert_eq!(format_event_id(36), "a");
    assert_eq!(format_event_id(61), "z");
    assert_eq!(format_event_id(62), "10");
    assert_eq!(format_event_id(1337), "LZ");
}

#[test]
fn event_id_of_largest_number_has_22_digits() {
    let id = format_event_id(u128::MAX);
    assert_eq!(id, "7n42DGM5Tflk9n8mt7Fhc7");
    assert_eq!(id.len(), 22);
}

#[test]
fn log_id_of_known_bits() {
    assert_eq!(
        format_log_id(0xa1a2a3a4_b1b2_41c2_91d2_d3d4d5d6d7d8),
        "a1a2a3a4-b1b2-41c2-91d2-d3d4d5d6d7d8"
    );
    assert_eq!(format_log_id(0), "00000000-0000-0000-0000-000000000000");
    assert_eq!(format_log_id(u128::MAX), "ffffffff-ffff-ffff-ffff-ffffffffffff");
}

#[test]
fn generated_log_id_has_canonical_shape() {
    for _ in 0..1000 {
        let id = generate_log_id();
        assert_eq!(id.len(), 36);
        for (p, c) in id.chars().enumerate() {
            if p == 8 || p == 13 || p == 18 || p == 23 {
                assert_eq!(c, '-');
            } else {
                assert!(matches!(c, '0'..='9' | 'a'..='f'));
            }
        }
        assert_eq!(id.as_bytes()[14], b'4');
        assert!(matches!(id.as_bytes()[19], b'8' | b'9' | b'a' | b'b'));
    }
}

#[test]
fn generated_log_ids_do_not_collide() {
    let mut seen = std::collections::HashSet::new();
    for _ in 0..100_000 {
        assert!(seen.insert(generate_log_id()));
    }
}

#[test]
fn generated_event_id_is_short_base62() {
    for _ in 0..1000 {
        let id = generate_event_id();
        assert!(!id.is_empty());
        assert!(id.len() <= 22);
        assert!(id.len() < 36);
        assert!(id.chars().all(|c| c.is_ascii_alphanumeric()));
    }
}

use flight_data_generator::identity::generate_plane_id;

#[test]
fn plane_id_offset_zero_keeps_start() {
    assert_eq!(generate_plane_id("AA00", 0), Some("AA00".to_string()));
}

#[test]
fn plane_id_is_zero_padded_to_two_digits() {
    assert_eq!(generate_plane_id("AA00", 5), Some("AA05".to_string()));
    assert_eq!(generate_plane_id("XY3", 4), Some("XY07".to_string()));
}

#[test]
fn plane_id_adds_offset_to_suffix() {
    assert_eq!(generate_plane_id("AA00", 12), Some("AA12".to_string()));
    assert_eq!(generate_plane_id("AB98", 3), Some("AB101".to_string()));
    assert_eq!(generate_plane_id("QF0007", 10), Some("QF17".to_string()));
}

#[test]
fn plane_ids_are_distinct_across_offsets() {
    let ids: Vec<String> = (0..50u32).map(|k| generate_plane_id("AA00", k).unwrap()).collect();
    for i in 0..ids.len() {
        for j in (i + 1)..ids.len() {
            assert_ne!(ids[i], ids[j]);
        }
    }
}

#[test]
fn plane_id_rejects_malformed_start() {
    assert_eq!(generate_plane_id("", 0), None);
    assert_eq!(generate_plane_id("AA", 0), None);
    assert_eq!(generate_plane_id("AAx1", 0), None);
    assert_eq!(generate_plane_id("AA1-", 0), None);
}

#[test]
fn plane_id_rejects_overflow() {
    assert_eq!(generate_plane_id("AA4294967295", 0), Some("AA4294967295".to_string()));
    assert_eq!(generate_plane_id("AA4294967295", 1), None);
    assert_eq!(generate_plane_id("AA99999999999", 0), None);
}

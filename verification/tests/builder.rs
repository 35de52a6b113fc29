use resonance_client::SendEventRequest;
use resonance_client::send_event::keys_are_unique;

#[test]
fn valid_timestamp_is_canonicalized_to_utc() {
    let b = SendEventRequest::builder("signup".to_string(), "u-7".to_string());
    let req = b.event_at("2024-01-01T00:00:00Z").unwrap().build();
    assert_eq!(req.event_at.as_deref(), Some("2024-01-01T00:00:00+00:00"));
}

#[test]
fn offset_timestamp_is_normalized_to_utc() {
    let b = SendEventRequest::builder("signup".to_string(), "u-7".to_string());
    let req = b.event_at("2024-01-01T05:30:00+05:30").unwrap().build();
    assert_eq!(req.event_at.as_deref(), Some("2024-01-01T00:00:00+00:00"));
}

#[test]
fn negative_offset_timestamp_is_normalized_to_utc() {
    let b = SendEventRequest::builder("login".to_string(), "u-8".to_string());
    let req = b.event_at("1996-12-19T16:39:57-08:00").unwrap().build();
    assert_eq!(req.event_at.as_deref(), Some("1996-12-20T00:39:57+00:00"));
}

#[test]
fn canonical_timestamp_is_kept_verbatim() {
    let b = SendEventRequest::builder("login".to_string(), "u-8".to_string());
    let req = b.event_at("2024-06-30T12:00:00+00:00").unwrap().build();
    assert_eq!(req.event_at.as_deref(), Some("2024-06-30T12:00:00+00:00"));
}

#[test]
fn canonicalization_is_idempotent() {
    let first = SendEventRequest::builder("e".to_string(), "u".to_string())
        .event_at("2024-01-01T05:30:00+05:30")
        .unwrap()
        .build();
    let stored = first.event_at.clone().unwrap();
    let second = SendEventRequest::builder("e".to_string(), "u".to_string())
        .event_at(&stored)
        .unwrap()
        .build();
    assert_eq!(second.event_at.as_deref(), Some(stored.as_str()));
}

#[test]
fn unparsable_timestamp_is_rejected() {
    let b = SendEventRequest::builder("signup".to_string(), "u-7".to_string());
    let err = b.event_at("not-a-date").unwrap_err();
    assert!(err.contains("Failed to parse timestamp not-a-date"));
}

#[test]
fn empty_timestamp_is_rejected() {
    let b = SendEventRequest::builder("signup".to_string(), "u-7".to_string());
    assert!(b.event_at("").is_err());
}

#[test]
fn out_of_range_timestamp_is_rejected() {
    let b = SendEventRequest::builder("signup".to_string(), "u-7".to_string());
    assert!(b.event_at("2024-13-40T00:00:00Z").is_err());
}

#[test]
fn builder_without_event_at_leaves_it_absent() {
    let req = SendEventRequest::builder("page_view".to_string(), "u-1".to_string()).build();
    assert!(req.event_at.is_none());
    assert_eq!(req.name, "page_view");
    assert_eq!(req.user_id, "u-1");
    assert!(req.data.is_empty());
}

#[test]
fn data_replaces_the_mapping_wholesale() {
    let first = vec![("a".to_string(), "1".to_string())];
    let second = vec![("b".to_string(), "2".to_string()), ("c".to_string(), "3".to_string())];
    let req = SendEventRequest::builder("e".to_string(), "u".to_string())
        .data(first)
        .data(second)
        .build();
    assert_eq!(req.data.len(), 2);
    assert_eq!(req.data[0], ("b".to_string(), "2".to_string()));
    assert_eq!(req.data[1], ("c".to_string(), "3".to_string()));
}

#[test]
fn keys_are_unique_accepts_distinct_keys() {
    let pairs = vec![
        ("a".to_string(), "1".to_string()),
        ("b".to_string(), "1".to_string()),
        ("c".to_string(), "2".to_string()),
    ];
    assert!(keys_are_unique(&pairs));
    assert!(keys_are_unique(&Vec::new()));
}

#[test]
fn keys_are_unique_rejects_a_repeated_key() {
    let pairs = vec![
        ("a".to_string(), "1".to_string()),
        ("b".to_string(), "2".to_string()),
        ("a".to_string(), "3".to_string()),
    ];
    assert!(!keys_are_unique(&pairs));
}

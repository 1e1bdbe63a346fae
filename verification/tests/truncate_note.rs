use kuberator::events::note::truncate_note;

#[test]
fn truncate_note_short_message_unchanged() {
    let message = "Short message".to_string();

    let result = truncate_note(message.clone(), 1024);

    assert_eq!(result, message);
}

#[test]
fn truncate_note_exact_limit_unchanged() {
    let message = "a".repeat(1024);

    let result = truncate_note(message.clone(), 1024);

    assert_eq!(result, message);
}

#[test]
fn truncate_note_over_limit_adds_ellipsis() {
    let message = "a".repeat(1025);

    let result = truncate_note(message, 1024);

    assert_eq!(result.len(), 1024);
    assert!(result.ends_with("..."));
}

#[test]
fn truncate_note_preserves_char_boundaries() {
    let message = format!("{}ä{}", "a".repeat(1022), "b".repeat(10));

    let result = truncate_note(message, 1024);

    assert!(result.len() <= 1024);
    assert!(result.ends_with("..."));
}

#[test]
fn truncate_note_exact_values() {
    // 1022 'a' then a two-byte 'ä' starting at byte 1022 > 1021: cut before it.
    let message = format!("{}ä{}", "a".repeat(1022), "b".repeat(10));
    let result = truncate_note(message, 1024);
    assert_eq!(result, format!("{}...", "a".repeat(1021)));

    // A two-byte character that starts exactly at the cut point is dropped whole.
    let message = format!("{}ää", "a".repeat(1021));
    let result = truncate_note(message, 1024);
    assert_eq!(result, format!("{}...", "a".repeat(1021)));

    // A two-byte character that ends at the cut point is kept.
    let message = format!("{}ä{}", "a".repeat(1019), "b".repeat(10));
    let result = truncate_note(message, 1024);
    assert_eq!(result, format!("{}ä...", "a".repeat(1019)));
    assert_eq!(result.len(), 1024);

    // Small limits.
    assert_eq!(truncate_note("abcdef".to_string(), 5), "ab...");
    assert_eq!(truncate_note("abcdef".to_string(), 3), "...");
    assert_eq!(truncate_note("abc".to_string(), 3), "abc");
    assert_eq!(truncate_note(String::new(), 0), "");
    assert_eq!(truncate_note("€€€".to_string(), 7), "€...");
    assert_eq!(truncate_note("€€€".to_string(), 5), "...");
}

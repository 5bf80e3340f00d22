use background_process_manager::log_buffer::{LogBuffer, LogInstance};

#[test]
fn test_log_buffer_indexing() {
    let mut buffer = LogBuffer::new();

    // Create first instance
    buffer.new_instance();
    buffer.append("first-1".to_string());

    // Create second instance
    buffer.new_instance();
    buffer.append("second-1".to_string());

    // Create third instance
    buffer.new_instance();
    buffer.append("third-1".to_string());

    // Test negative indexing (Python-style)
    assert_eq!(buffer.get_instance(Some(-1)).unwrap().lines[0], "third-1");
    assert_eq!(buffer.get_instance(Some(-2)).unwrap().lines[0], "second-1");
    assert_eq!(buffer.get_instance(Some(-3)).unwrap().lines[0], "first-1");

    // Test positive indexing
    assert_eq!(buffer.get_instance(Some(0)).unwrap().lines[0], "first-1");
    assert_eq!(buffer.get_instance(Some(1)).unwrap().lines[0], "second-1");
    assert_eq!(buffer.get_instance(Some(2)).unwrap().lines[0], "third-1");

    // Test default (should be -1, most recent)
    assert_eq!(buffer.get_instance(None).unwrap().lines[0], "third-1");
}

#[test]
fn log_search_with_context() {
    let mut inst = LogInstance::new();
    for line in ["a", "hit1", "b", "c", "hit2", "d"] {
        inst.append(line.to_string());
    }
    let result = inst.search(Some("hit"), Some(1), None, None);
    assert_eq!(
        result,
        vec![
            "   a".to_string(),
            " * hit1".to_string(),
            "   b".to_string(),
            "   c".to_string(),
            " * hit2".to_string(),
            "   d".to_string(),
        ]
    );
}

#[test]
fn log_ring_overflow() {
    let mut buffer = LogBuffer::new();
    for i in 0..11 {
        buffer.new_instance();
        buffer.append(format!("line-{}", i));
    }
    // Only the most recent 10 instances remain; the oldest retained is the
    // second one ever opened.
    assert!(buffer.get_instance(Some(10)).is_none());
    assert_eq!(buffer.get_instance(Some(0)).unwrap().lines[0], "line-1");
    assert_eq!(buffer.get_instance(Some(-1)).unwrap().lines[0], "line-10");
    let result = buffer.search(Some(0), None, None, None, None);
    assert_eq!(result, vec!["line-1".to_string()]);
}

#[test]
fn line_eviction_keeps_order() {
    let mut inst = LogInstance::new();
    for i in 0..10001 {
        inst.append(format!("l{}", i));
    }
    assert_eq!(inst.lines.len(), 10000);
    assert_eq!(inst.lines[0], "l1");
    assert_eq!(inst.lines[9999], "l10000");
}

#[test]
fn tail_wins_over_head() {
    let mut inst = LogInstance::new();
    for line in ["a", "b", "c", "d"] {
        inst.append(line.to_string());
    }
    let result = inst.search(None, None, Some(1), Some(2));
    assert_eq!(result, vec!["c".to_string(), "d".to_string()]);
}

#[test]
fn head_limits_result() {
    let mut inst = LogInstance::new();
    for line in ["a", "b", "c", "d"] {
        inst.append(line.to_string());
    }
    let result = inst.search(None, None, Some(2), None);
    assert_eq!(result, vec!["a".to_string(), "b".to_string()]);
}

#[test]
fn empty_result_becomes_empty_marker() {
    let mut inst = LogInstance::new();
    inst.append("a".to_string());
    let result = inst.search(None, None, Some(0), None);
    assert_eq!(result, vec!["(empty)".to_string()]);
    let empty = LogInstance::new().search(None, None, None, None);
    assert_eq!(empty, vec!["(empty)".to_string()]);
}

#[test]
fn invalid_regex_degrades_to_synthetic_line() {
    let mut inst = LogInstance::new();
    inst.append("a".to_string());
    let result = inst.search(Some("("), None, None, None);
    assert_eq!(result, vec!["Invalid regex pattern: (".to_string()]);
}

#[test]
fn no_matches_line() {
    let mut inst = LogInstance::new();
    inst.append("alpha".to_string());
    let result = inst.search(Some("zebra"), Some(3), None, None);
    assert_eq!(result, vec!["No matches found".to_string()]);
}

#[test]
fn regex_matching_is_not_literal() {
    let mut inst = LogInstance::new();
    for line in ["hit", "hat", "hot", "bob"] {
        inst.append(line.to_string());
    }
    let result = inst.search(Some("h.t"), None, None, None);
    assert_eq!(
        result,
        vec![" * hit".to_string(), " * hat".to_string(), " * hot".to_string()]
    );
    // Anchors and alternation go through the real regex engine.
    let result = inst.search(Some("^b|t$"), None, None, None);
    assert_eq!(
        result,
        vec![
            " * hit".to_string(),
            " * hat".to_string(),
            " * hot".to_string(),
            " * bob".to_string(),
        ]
    );
}

#[test]
fn out_of_range_index_is_a_line_not_an_error() {
    let buffer = LogBuffer::new();
    let result = buffer.search(Some(5), None, None, None, None);
    assert_eq!(
        result,
        vec!["Log instance 5 not found (have 0 instances)".to_string()]
    );
    let mut buffer = LogBuffer::new();
    buffer.new_instance();
    let result = buffer.search(Some(-2), None, None, None, None);
    assert_eq!(
        result,
        vec!["Log instance -2 not found (have 1 instances)".to_string()]
    );
}

#[test]
fn no_match_line_still_goes_through_slicing() {
    let mut inst = LogInstance::new();
    inst.append("alpha".to_string());
    // The synthetic no-match line is subject to head/tail slicing; an empty
    // slice then becomes the empty marker.
    let kept = inst.search(Some("zzz"), None, None, Some(5));
    assert_eq!(kept, vec!["No matches found".to_string()]);
    let sliced_away = inst.search(Some("zzz"), None, Some(0), None);
    assert_eq!(sliced_away, vec!["(empty)".to_string()]);
}

#[test]
fn context_without_pattern_is_ignored() {
    let mut inst = LogInstance::new();
    for line in ["a", "b"] {
        inst.append(line.to_string());
    }
    let result = inst.search(None, Some(3), None, None);
    assert_eq!(result, vec!["a".to_string(), "b".to_string()]);
}

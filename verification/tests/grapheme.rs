use xetex_layout::grapheme::{
    embedding_levels_buffer, finish_embedding_levels, finish_paragraph_state,
    finish_reordered_line, paragraph_state_buffer, reordered_line_buffer, BidiDirection,
};

#[test]
fn direction_codes_match_libgrapheme() {
    assert_eq!(BidiDirection::Neutral.to_raw(), 0);
    assert_eq!(BidiDirection::LeftToRight.to_raw(), 1);
    assert_eq!(BidiDirection::RightToLeft.to_raw(), 2);
}

#[test]
fn direction_codes_read_back() {
    for d in [BidiDirection::Neutral, BidiDirection::LeftToRight, BidiDirection::RightToLeft] {
        assert_eq!(BidiDirection::from_raw(d.to_raw()), Some(d));
    }
    assert_eq!(BidiDirection::from_raw(3), None);
    assert_eq!(BidiDirection::from_raw(-1), None);
}

#[test]
fn paragraph_state_has_one_zero_slot_per_code_point() {
    assert_eq!(paragraph_state_buffer(7), vec![0u32; 7]);
    assert!(paragraph_state_buffer(0).is_empty());
}

#[test]
fn embedding_levels_get_a_sentinel_slot() {
    assert_eq!(embedding_levels_buffer(7), vec![0i8; 8]);
    assert_eq!(embedding_levels_buffer(0), vec![0i8; 1]);
}

#[test]
fn reordered_line_gets_a_sentinel_slot() {
    assert_eq!(reordered_line_buffer(3, 3), vec![0u32; 4]);
}

#[test]
fn paragraph_state_keeps_what_was_required() {
    assert_eq!(finish_paragraph_state(vec![1, 2, 3, 4], 2), vec![1, 2]);
    assert_eq!(finish_paragraph_state(vec![1, 2, 3, 4], 9), vec![1, 2, 3, 4]);
    assert_eq!(finish_paragraph_state(vec![1, 2, 3, 4], 0), Vec::<u32>::new());
}

#[test]
fn embedding_levels_never_keep_the_sentinel() {
    // Seven code points as in "abc אבג": four left-to-right levels, three right-to-left.
    let levels = vec![0, 0, 0, 0, 1, 1, 1, 9];
    assert_eq!(finish_embedding_levels(levels.clone(), 7, 7), [0, 0, 0, 0, 1, 1, 1]);
    assert_eq!(finish_embedding_levels(levels.clone(), 7, 8), [0, 0, 0, 0, 1, 1, 1]);
    assert_eq!(finish_embedding_levels(levels, 7, 3), [0, 0, 0]);
}

#[test]
fn reordered_line_keeps_what_was_required() {
    let output = vec![97, 98, 99, 32, 0x5d2, 0x5d1, 0x5d0, 0];
    let kept = finish_reordered_line(output, 7);
    let text: String = kept.into_iter().filter_map(char::from_u32).collect();
    assert_eq!(text, "abc גבא");
    assert_eq!(finish_reordered_line(vec![1, 2], 5), vec![1, 2]);
}

//! Behaviour of the name sanitizer on whole components: the documented
//! scenarios, the literal classes, collapse de-duplication, the period and
//! en-dash rules, and malformed byte sequences.

use notox::clean_name;
use notox::check_similar;
use notox::table::Fold;
use notox::table::fold_scalar;
use notox::decode::convert_four_to_u32;
use notox::decode::convert_three_to_u32;
use notox::decode::convert_two_to_u32;

fn clean(s: &[u8]) -> Vec<u8> {
    clean_name(&s.to_vec())
}

#[test]
fn scenario_naive_file() {
    assert_eq!(
        clean("naïve_file:test.txt".as_bytes()),
        b"naive_file_test.txt".to_vec()
    );
}

#[test]
fn scenario_question_marks_collapse() {
    assert_eq!(clean(b"a???b"), b"a_b".to_vec());
}

#[test]
fn scenario_cafe() {
    assert_eq!(clean("café.txt".as_bytes()), b"cafe.txt".to_vec());
}

#[test]
fn scenario_oeuvre() {
    assert_eq!(clean("Œuvre".as_bytes()), b"OEuvre".to_vec());
}

#[test]
fn literal_component_is_unchanged() {
    let name = b"Already-clean.name.42".to_vec();
    assert_eq!(clean_name(&name), name);
}

#[test]
fn empty_component_stays_empty() {
    assert_eq!(clean(b""), b"".to_vec());
}

#[test]
fn sanitizing_is_deterministic() {
    let name = "un départ: à l'heure?.txt".as_bytes().to_vec();
    let first = clean_name(&name);
    let second = clean_name(&name);
    assert_eq!(first, second);
}

#[test]
fn sanitizing_twice_changes_nothing_more() {
    let once = clean("un départ: à l'heure?.txt".as_bytes());
    let twice = clean_name(&once);
    assert_eq!(twice, once);
}

#[test]
fn collapse_runs_of_any_length_give_one_underscore() {
    for k in 1..6usize {
        let mut name: Vec<u8> = b"a".to_vec();
        for _ in 0..k {
            name.push(b':');
        }
        name.push(b'b');
        assert_eq!(clean_name(&name), b"a_b".to_vec());
    }
}

#[test]
fn mixed_collapse_classes_merge_into_one_underscore() {
    // 0x07 (0-44), '/' (47), ':' (58-64), '`' (91-96), 0x7f (123-127)
    assert_eq!(clean(b"a\x07/:`\x7fb"), b"a_b".to_vec());
}

#[test]
fn unrecognized_scalar_joins_the_collapse_run() {
    // U+262E is not in the table: it collapses together with ':'.
    assert_eq!(clean("a:\u{262E}:b".as_bytes()), b"a_b".to_vec());
}

#[test]
fn period_stays_literal_and_resets_collapse() {
    assert_eq!(clean(b"a:.:b"), b"a_._b".to_vec());
    assert_eq!(clean(b".hidden"), b".hidden".to_vec());
    assert_eq!(clean(b"a..b"), b"a..b".to_vec());
}

#[test]
fn en_dash_becomes_hyphen() {
    assert_eq!(clean("a\u{2013}b".as_bytes()), b"a-b".to_vec());
}

#[test]
fn en_dash_never_merges_with_collapse_placeholders() {
    assert_eq!(clean("a:\u{2013}:b".as_bytes()), b"a_-_b".to_vec());
}

#[test]
fn combining_marks_are_dropped_silently() {
    // 'e' followed by a combining acute accent: the mark vanishes.
    assert_eq!(clean("cafe\u{0301}.txt".as_bytes()), b"cafe.txt".to_vec());
}

#[test]
fn combining_mark_does_not_break_a_collapse_run() {
    // ':' then a combining mark then ':' still collapse to one underscore.
    assert_eq!(clean("a:\u{0301}:b".as_bytes()), b"a_b".to_vec());
}

#[test]
fn surrogate_half_collapses() {
    // 0xED 0xA0 0x80 decodes to the surrogate value 0xD800, not a scalar.
    assert_eq!(clean(b"a\xED\xA0\x80b"), b"a_b".to_vec());
}

#[test]
fn overlong_encoding_collapses() {
    // 0xC0 0x80 decodes to 0, which is not in the table.
    assert_eq!(clean(b"a\xC0\x80b"), b"a_b".to_vec());
}

#[test]
fn truncated_trailing_sequence_emits_nothing() {
    // 0xF0 announces four bytes but only two remain.
    assert_eq!(clean(b"ab\xF0\x9F"), b"ab".to_vec());
}

#[test]
fn ascii_absorbed_as_continuation() {
    // 0xC3 absorbs the following 'A' as a continuation byte: the pair
    // decodes to 0xC1, which the table folds to a plain letter.
    assert_eq!(clean(b"\xC3Ab"), b"Ab".to_vec());
}

#[test]
fn ligatures_and_fullwidth_letters_fold() {
    assert_eq!(clean("Æon".as_bytes()), b"Aon".to_vec());
    assert_eq!(clean("ﬁle".as_bytes()), b"_le".to_vec());
    assert_eq!(clean("Ｇｏ".as_bytes()), b"Go".to_vec());
    assert_eq!(clean("ǆungla".as_bytes()), b"dzungla".to_vec());
}

#[test]
fn accented_vowels_fold_to_plain_letters() {
    assert_eq!(clean("ÀÉÎÕÜ".as_bytes()), b"AEIOU".to_vec());
    assert_eq!(clean("àéîõü".as_bytes()), b"aeiou".to_vec());
}

#[test]
fn check_similar_emits_table_entries() {
    let mut acc: Vec<u8> = b"x".to_vec();
    let was_under = check_similar(Some('Œ'), &mut acc, false);
    assert!(!was_under);
    assert_eq!(acc, b"xOE".to_vec());
}

#[test]
fn check_similar_collapses_unknown_and_undecodable() {
    let mut acc: Vec<u8> = Vec::new();
    let was_under = check_similar(Some('\u{262E}'), &mut acc, false);
    assert!(was_under);
    assert_eq!(acc, b"_".to_vec());
    // A second collapse, and the undecodable sentinel, are de-duplicated.
    let was_under = check_similar(None, &mut acc, was_under);
    assert!(was_under);
    assert_eq!(acc, b"_".to_vec());
}

#[test]
fn check_similar_keeps_state_across_silent_marks() {
    let mut acc: Vec<u8> = b"_".to_vec();
    let was_under = check_similar(Some('\u{0301}'), &mut acc, true);
    assert!(was_under);
    assert_eq!(acc, b"_".to_vec());
}

#[test]
fn check_similar_en_dash_clears_state() {
    let mut acc: Vec<u8> = Vec::new();
    let was_under = check_similar(Some('\u{2013}'), &mut acc, true);
    assert!(!was_under);
    assert_eq!(acc, b"-".to_vec());
}

#[test]
fn fold_scalar_matches_table() {
    assert_eq!(fold_scalar('A' as u32), Fold::One(b'A'));
    assert_eq!(fold_scalar(0xC6), Fold::One(b'A'));
    assert_eq!(fold_scalar(0x152), Fold::Two(b'O', b'E'));
    assert_eq!(fold_scalar(0x2013), Fold::Hyphen);
    assert_eq!(fold_scalar(0x0301), Fold::Silent);
    assert_eq!(fold_scalar(0x262E), Fold::Collapse);
    assert_eq!(fold_scalar(0xD800), Fold::Collapse);
}

#[test]
fn convert_two_assembles_bits() {
    assert_eq!(convert_two_to_u32(0xC3, 0xA9), 0xE9);
    assert_eq!(convert_two_to_u32(0xC0, 0x80), 0);
}

#[test]
fn convert_three_assembles_bits() {
    assert_eq!(convert_three_to_u32(0xE2, 0x80, 0x93), 0x2013);
}

#[test]
fn convert_four_assembles_bits() {
    assert_eq!(convert_four_to_u32(0xF0, 0x9F, 0x98, 0x80), 0x1F600);
}

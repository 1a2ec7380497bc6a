use vocal_analyzer::utils::{append_decimal, midi_note_number_to_str, Elipsis};

#[test]
fn test_elipsis() {
    let mut s = "Hello, world!".to_string();
    s.elipsis(5);
    assert_eq!(s, "Hell…");

    let mut s2 = "Short".to_string();
    s2.elipsis(5);
    assert_eq!(s2, "Short");

    // "あいうえお".len() == 15
    let mut s3 = "あいうえお".to_string();
    s3.elipsis(5);
    assert_eq!(s3, "あ…");
}

#[test]
fn elipsis_keeps_a_string_that_fits_exactly() {
    let mut s = "あい".to_string();
    s.elipsis(6);
    assert_eq!(s, "あい");
    let mut empty = String::new();
    empty.elipsis(0);
    assert_eq!(empty, "");
}

#[test]
fn elipsis_with_no_budget_leaves_only_the_mark() {
    let mut s = "abc".to_string();
    s.elipsis(0);
    assert_eq!(s, "…");
    let mut t = "abc".to_string();
    t.elipsis(1);
    assert_eq!(t, "…");
}

#[test]
fn elipsis_cuts_before_the_character_that_crosses_the_budget() {
    // 'a' is one byte, 'é' two, '€' three, '𝄞' four.
    let mut s = "aé€𝄞".to_string();
    s.elipsis(9);
    assert_eq!(s, "aé€…");
    let mut t = "aé€𝄞".to_string();
    t.elipsis(6);
    assert_eq!(t, "aé…");
    let mut u = "aé€𝄞".to_string();
    u.elipsis(7);
    assert_eq!(u, "aé€…");
    let mut v = "aé€𝄞".to_string();
    v.elipsis(3);
    assert_eq!(v, "a…");
    let mut w = "aé€𝄞".to_string();
    w.elipsis(4);
    assert_eq!(w, "aé…");
}

#[test]
fn elipsis_may_lengthen_a_short_cut() {
    // The mark takes three bytes, whatever the budget.
    let mut s = "abcd".to_string();
    s.elipsis(3);
    assert_eq!(s, "ab…");
    assert_eq!(s.len(), 5);
}

#[test]
fn midi_notes_are_named_by_class_and_octave() {
    assert_eq!(midi_note_number_to_str(69), "A4");
    assert_eq!(midi_note_number_to_str(60), "C4");
    assert_eq!(midi_note_number_to_str(61), "C#4");
    assert_eq!(midi_note_number_to_str(0), "C-1");
    assert_eq!(midi_note_number_to_str(11), "B-1");
    assert_eq!(midi_note_number_to_str(12), "C0");
    assert_eq!(midi_note_number_to_str(40), "E2");
    assert_eq!(midi_note_number_to_str(79), "G5");
    assert_eq!(midi_note_number_to_str(132), "C10");
    assert_eq!(midi_note_number_to_str(150), "F#11");
}

#[test]
fn midi_notes_above_the_highest_have_no_name() {
    assert_eq!(midi_note_number_to_str(151), "");
    assert_eq!(midi_note_number_to_str(usize::MAX), "");
}

#[test]
fn numbers_are_written_in_decimal_without_leading_zeros() {
    let mut text = "n=".to_string();
    append_decimal(&mut text, 0);
    assert_eq!(text, "n=0");
    append_decimal(&mut text, 7);
    append_decimal(&mut text, 10);
    append_decimal(&mut text, 20345);
    assert_eq!(text, "n=071020345");
    let mut largest = String::new();
    append_decimal(&mut largest, usize::MAX);
    assert_eq!(largest, usize::MAX.to_string());
}

use hoi4_ui::portrait::portrait_initial;

#[test]
fn initial_falls_back_to_question() {
    assert_eq!(portrait_initial(None), "?");
    assert_eq!(portrait_initial(Some("")), "?");
    assert_eq!(portrait_initial(Some("   ")), "?");
}

#[test]
fn initial_takes_first_char() {
    assert_eq!(portrait_initial(Some("穆罕默德·梅齐亚纳")), "穆");
    assert_eq!(portrait_initial(Some("Franco")), "F");
    assert_eq!(portrait_initial(Some(" Lin Biao")), "L");
}

#[test]
fn initial_skips_unicode_white_space() {
    assert_eq!(portrait_initial(Some("\u{3000}\t毛泽东")), "毛");
    assert_eq!(portrait_initial(Some("\u{a0}\u{2003}\n")), "?");
}

use puzzle_house::{Cipher, CipherCriterion, CipherMode, ALPHABET_CNT, LETTER_CNT};

fn cipher_on(mode: CipherMode) -> Cipher {
    let mut c = Cipher::new();
    c.select_mode(mode);
    c
}

#[test]
fn every_code_has_the_scheme_width() {
    for mode in CipherMode::all() {
        if mode == CipherMode::A1Z26 {
            continue;
        }
        let list = mode.answer_list();
        for code in &list {
            assert_eq!(code.chars().count(), mode.width());
        }
    }
}

#[test]
fn table_sizes() {
    assert_eq!(CipherMode::Binary.answer_list().len(), ALPHABET_CNT);
    assert_eq!(CipherMode::Ternary.answer_list().len(), ALPHABET_CNT);
    assert_eq!(CipherMode::Braille.answer_list().len(), LETTER_CNT);
    assert_eq!(CipherMode::Morse.answer_list().len(), LETTER_CNT);
    assert_eq!(CipherMode::Semaphore.answer_list().len(), LETTER_CNT);
}

#[test]
fn sentinel_never_matches() {
    for c in [
        CipherCriterion::Blank,
        CipherCriterion::Yes,
        CipherCriterion::No,
        CipherCriterion::Two,
    ] {
        assert!(!c.matches('9', true));
        assert!(!c.matches('9', false));
    }
}

#[test]
fn criterion_matches_symbols() {
    assert!(CipherCriterion::Blank.matches('2', false));
    assert!(!CipherCriterion::Blank.matches('1', true));
    assert!(CipherCriterion::Blank.matches('0', true));
    assert!(CipherCriterion::Yes.matches('1', true));
    assert!(!CipherCriterion::Yes.matches('0', false));
    assert!(CipherCriterion::No.matches('0', false));
    assert!(CipherCriterion::Two.matches('2', true));
    assert!(!CipherCriterion::Two.matches('1', false));
}

#[test]
fn permissive_blank_returns_every_letter() {
    let c = cipher_on(CipherMode::Braille);
    let all: Vec<char> = "ABCDEFGHIJKLMNOPQRSTUVWXYZ".chars().collect();
    assert_eq!(c.match_result(false), all);
    let mut c = cipher_on(CipherMode::Semaphore);
    c.set_use_numbers(true);
    let all: Vec<char> = "ABCDEFGHIJKLMNOPQRSTUVWXYZ#0123456789".chars().collect();
    assert_eq!(c.match_result(false), all);
}

#[test]
fn permissive_blank_morse_digits_skip_hash() {
    let mut c = cipher_on(CipherMode::Morse);
    c.set_use_numbers(true);
    let expected: Vec<char> = "ABCDEFGHIJKLMNOPQRSTUVWXYZ0123456789".chars().collect();
    assert_eq!(c.match_result(false), expected);
}

#[test]
fn exact_blank_returns_all_zero_codes() {
    for mode in [
        CipherMode::Binary,
        CipherMode::Braille,
        CipherMode::Morse,
        CipherMode::Semaphore,
        CipherMode::Ternary,
    ] {
        let c = cipher_on(mode);
        assert_eq!(c.match_result(true), Vec::<char>::new());
    }
}

#[test]
fn binary_last_bit_exact_is_a() {
    let mut c = cipher_on(CipherMode::Binary);
    c.advance(4);
    assert_eq!(c.criterion(4), CipherCriterion::Yes);
    assert_eq!(c.match_result(true), vec!['A']);
}

#[test]
fn binary_last_bit_permissive() {
    let mut c = cipher_on(CipherMode::Binary);
    c.advance(4);
    let expected: Vec<char> = "ACEGIKMOQSUWY".chars().collect();
    assert_eq!(c.match_result(false), expected);
}

#[test]
fn morse_fifth_dash_permissive() {
    let mut c = cipher_on(CipherMode::Morse);
    c.advance(4);
    c.advance(4);
    assert_eq!(c.criterion(4), CipherCriterion::Two);
    assert_eq!(c.match_result(false), Vec::<char>::new());
    c.set_use_numbers(true);
    assert_eq!(c.match_result(false), vec!['0', '1', '2', '3', '4']);
}

#[test]
fn morse_exact_sos_letters() {
    let mut c = cipher_on(CipherMode::Morse);
    for p in 0..3 {
        c.advance(p);
    }
    assert_eq!(c.match_result(true), vec!['S']);
}

#[test]
fn ternary_duplicate_code_matches_both() {
    let mut c = cipher_on(CipherMode::Ternary);
    c.advance(0);
    c.advance(0);
    c.advance(1);
    c.advance(2);
    c.advance(2);
    assert_eq!(c.match_result(true), vec!['W', 'Z']);
}

#[test]
fn advance_negate_cycle_without_two() {
    let mut c = cipher_on(CipherMode::Binary);
    c.advance(0);
    assert_eq!(c.criterion(0), CipherCriterion::Yes);
    c.negate(0);
    assert_eq!(c.criterion(0), CipherCriterion::No);
    c.advance(0);
    assert_eq!(c.criterion(0), CipherCriterion::Yes);
    c.advance(0);
    assert_eq!(c.criterion(0), CipherCriterion::Blank);
    c.negate(0);
    c.negate(0);
    assert_eq!(c.criterion(0), CipherCriterion::Blank);
}

#[test]
fn four_advances_with_two() {
    let mut c = cipher_on(CipherMode::Ternary);
    let expected = [
        CipherCriterion::Yes,
        CipherCriterion::Two,
        CipherCriterion::Blank,
        CipherCriterion::Yes,
    ];
    for e in expected {
        c.advance(1);
        assert_eq!(c.criterion(1), e);
    }
}

#[test]
fn clicks_beyond_width_do_nothing() {
    let mut c = cipher_on(CipherMode::Ternary);
    c.advance(3);
    c.negate(5);
    assert_eq!(c.criterion(3), CipherCriterion::Blank);
    assert_eq!(c.criterion(5), CipherCriterion::Blank);
}

#[test]
fn switching_scheme_resets() {
    let mut c = cipher_on(CipherMode::Braille);
    c.advance(0);
    c.negate(2);
    c.set_use_numbers(true);
    let (width, two) = c.select_mode(CipherMode::Morse);
    assert_eq!((width, two), (5, true));
    assert_eq!(c.mode(), CipherMode::Morse);
    assert!(!c.use_numbers());
    for p in 0..10 {
        assert_eq!(c.criterion(p), CipherCriterion::Blank);
    }
    assert_eq!(c.select_mode(CipherMode::Semaphore), (8, false));
}

#[test]
fn binary_and_ternary_expose_only_letters() {
    let mut c = cipher_on(CipherMode::Ternary);
    c.set_use_numbers(true);
    assert_eq!(c.match_result(false).len(), 26);
}

#[test]
fn labels() {
    assert_eq!(CipherCriterion::Blank.label(CipherMode::Binary), ' ');
    assert_eq!(CipherCriterion::Yes.label(CipherMode::Binary), '1');
    assert_eq!(CipherCriterion::Two.label(CipherMode::Morse), '—');
    assert_eq!(CipherCriterion::Yes.label(CipherMode::Morse), '⚫');
    assert_eq!(CipherCriterion::No.label(CipherMode::Morse), '✖');
    assert_eq!(CipherCriterion::Yes.label(CipherMode::Braille), '⏺');
    assert_eq!(CipherCriterion::Yes.label(CipherMode::Semaphore), '🚩');
    assert_eq!(CipherCriterion::Two.label(CipherMode::Ternary), '2');
}

#[test]
fn names_and_layout() {
    assert_eq!(CipherMode::Morse.name(), "〰 Morse");
    assert_eq!(CipherMode::all().len(), 6);
    assert_eq!(CipherMode::Semaphore.row_ends(), vec![2, 4, 7]);
    assert_eq!(CipherMode::Semaphore.special_labels(), vec![(3, '☃')]);
    assert!(CipherMode::Binary.special_labels().is_empty());
    assert!(CipherMode::Morse.has_two());
    assert!(!CipherMode::Braille.has_two());
}

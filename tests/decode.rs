use puzzle_house::{decode_a1z26, decode_words, parse_number, Indexing, PuzzleHuntTools, Tool};

#[test]
fn a1z26_example() {
    let (tokens, oob) = decode_a1z26("5 27 k");
    assert_eq!(tokens, vec!["E".to_string(), "✖".to_string(), "k".to_string()]);
    assert!(oob);
}

#[test]
fn a1z26_in_range() {
    let (tokens, oob) = decode_a1z26("  1\t26\n 13 ");
    assert_eq!(tokens, vec!["A", "Z", "M"]);
    assert!(!oob);
}

#[test]
fn a1z26_zero_and_huge() {
    let (tokens, oob) = decode_a1z26("0 hello 99999999999999999999999");
    assert_eq!(tokens, vec!["✖", "hello", "99999999999999999999999"]);
    assert!(oob);
    let (tokens, oob) = decode_a1z26("");
    assert!(tokens.is_empty());
    assert!(!oob);
}

#[test]
fn decode_words_direct() {
    let (tokens, oob) = decode_words(&vec!["+3", "x1"]);
    assert_eq!(tokens, vec!["C", "x1"]);
    assert!(!oob);
}

#[test]
fn parse_numbers() {
    assert_eq!(parse_number("42"), Some(42));
    assert_eq!(parse_number("+7"), Some(7));
    assert_eq!(parse_number("+"), None);
    assert_eq!(parse_number(""), None);
    assert_eq!(parse_number("-1"), None);
    assert_eq!(parse_number("1a"), None);
    assert_eq!(parse_number("18446744073709551615"), Some(usize::MAX));
    assert_eq!(parse_number("18446744073709551616"), None);
}

fn indexing(input: &str, indices: &str, zero: bool) -> Indexing {
    let mut i = Indexing::new();
    i.input = input.to_string();
    i.indices = indices.to_string();
    i.use_0_indexing = zero;
    i
}

#[test]
fn indexing_extracts_upper_case() {
    let (len, s) = indexing("hello, world!", "1 5 8", false).get();
    assert_eq!(len, 10);
    assert_eq!(s, "HOR");
    let (_, s) = indexing("hello, world!", "0 4", true).get();
    assert_eq!(s, "HO");
}

#[test]
fn indexing_errors() {
    let (len, s) = indexing("abc", "1, 2", false).get();
    assert_eq!(len, 3);
    assert_eq!(s, "Please separate the indices by whitespaces only");
    let (_, s) = indexing("abc", "4", false).get();
    assert_eq!(s, "Out of bounds");
    let (_, s) = indexing("abc", "0", false).get();
    assert_eq!(s, "Out of bounds");
    let (_, s) = indexing("abc", "9 x", false).get();
    assert_eq!(s, "Please separate the indices by whitespaces only");
}

#[test]
fn indexing_empty() {
    let (len, s) = Indexing::new().get();
    assert_eq!(len, 0);
    assert_eq!(s, "");
}

#[test]
fn tools_start_on_links() {
    let t = PuzzleHuntTools::new();
    assert_eq!(t.tab, Tool::Links);
    assert_eq!(t.title(), "Puzzlehunt Tools");
    assert_eq!(t.cipher.input(), "");
}

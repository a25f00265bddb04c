use puzzle_house::EmojiPicker;

fn picker(search: &str) -> EmojiPicker {
    let mut p = EmojiPicker::new();
    p.search_string = search.to_string();
    p
}

#[test]
fn text_matches_name_or_shortcode() {
    let p = picker("rock");
    assert!(p.text_matches("rocket", &vec![]));
    assert!(p.text_matches("space ship", &vec!["x", "rocket"]));
    assert!(!p.text_matches("space ship", &vec!["ship"]));
    assert!(picker("").text_matches("", &vec![]));
}

#[test]
fn emoji_matches_through_the_table() {
    let rocket = emojis::get("🚀").unwrap();
    assert!(picker("rocket").matches(rocket));
    assert!(!picker("zebra").matches(rocket));
    let cool = emojis::get("😎").unwrap();
    assert!(picker("sunglasses").matches(cool));
    let thumbs = emojis::get("👍").unwrap();
    assert!(picker("thumbsup").matches(thumbs));
    assert_eq!(picker("").title(), "Emoji");
}

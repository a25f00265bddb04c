use vstd::prelude::*;

verus! {

#[verifier::external_type_specification]
#[verifier::external_body]
pub struct ExEmoji(emojis::Emoji);

/// `needle` occurs in `hay` as a contiguous run.
pub open spec fn contains(hay: Seq<char>, needle: Seq<char>) -> bool {
    exists|i: int| 0 <= i <= hay.len() - needle.len() && #[trigger] hay.subrange(i, i + needle.len()) == needle
}

/// Relies on `str::contains` with a `&str` pattern: whether `needle` occurs in `hay`.
#[verifier::external_body]
fn str_contains(hay: &str, needle: &str) -> (r: bool)
    ensures
        r == contains(hay@, needle@),
{
    hay.contains(needle)
}

/// Relies on `emojis::Emoji::name`: the emoji's CLDR name.
#[verifier::external_body]
fn emoji_name(emoji: &emojis::Emoji) -> (r: &str) {
    emoji.name()
}

/// Relies on `emojis::Emoji::shortcodes`: the emoji's GitHub shortcodes.
#[verifier::external_body]
fn emoji_shortcodes(emoji: &emojis::Emoji) -> (r: Vec<&str>) {
    emoji.shortcodes().collect()
}

/// Filters emojis by a search text and remembers the last one copied.
pub struct EmojiPicker {
    pub search_string: String,
    pub copied_emoji: String,
}

impl EmojiPicker {
    pub fn new() -> (r: EmojiPicker)
        ensures
            r.search_string@.len() == 0,
            r.copied_emoji@.len() == 0,
    {
        EmojiPicker { search_string: String::new(), copied_emoji: String::new() }
    }

    pub fn title(&self) -> (r: String)
        ensures
            r@ == "Emoji"@,
    {
        String::from_str("Emoji")
    }

    /// An emoji with this name and these shortcodes is shown: the search text
    /// occurs in the name or in one of the shortcodes.
    pub open spec fn spec_text_matches(&self, name: Seq<char>, shortcodes: Seq<Seq<char>>) -> bool {
        contains(name, self.search_string@) || exists|k: int|
            0 <= k < shortcodes.len() && #[trigger] contains(shortcodes[k], self.search_string@)
    }

    pub fn text_matches(&self, name: &str, shortcodes: &Vec<&str>) -> (r: bool)
        ensures
            r == self.spec_text_matches(name@, shortcodes@.map_values(|s: &str| s@)),
    {
        let ghost codes = shortcodes@.map_values(|s: &str| s@);
        if str_contains(name, self.search_string.as_str()) {
            return true;
        }
        let mut k: usize = 0;
        while k < shortcodes.len()
            invariant
                k <= shortcodes@.len(),
                codes == shortcodes@.map_values(|s: &str| s@),
                !contains(name@, self.search_string@),
                forall|j: int| 0 <= j < k ==> !#[trigger] contains(codes[j], self.search_string@),
            decreases shortcodes@.len() - k,
        {
            if str_contains(shortcodes[k], self.search_string.as_str()) {
                assert(contains(codes[k as int], self.search_string@));
                return true;
            }
            k = k + 1;
        }
        false
    }

    /// Whether `emoji` is shown under the current search text.
    pub fn matches(&self, emoji: &emojis::Emoji) -> bool {
        let name = emoji_name(emoji);
        let shortcodes = emoji_shortcodes(emoji);
        self.text_matches(name, &shortcodes)
    }
}

} // verus!

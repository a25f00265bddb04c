use vstd::prelude::*;

use crate::a1z26::{parse_number, parsed_number, split_words, words_of};

verus! {

/// Whether a character is alphabetic in Unicode's sense.
pub uninterp spec fn is_alpha(c: char) -> bool;

/// The upper-case form of a text, in Unicode's sense.
pub uninterp spec fn upper_of(s: Seq<char>) -> Seq<char>;

/// Relies on `char::is_alphabetic`: a property of the character alone, which
/// holds of the ASCII letters.
#[verifier::external_body]
fn alphabetic(c: char) -> (r: bool)
    ensures
        r == is_alpha(c),
        ('a' <= c && c <= 'z') || ('A' <= c && c <= 'Z') ==> r,
{
    c.is_alphabetic()
}

/// Relies on `str::to_uppercase`: the result depends on the characters alone.
#[verifier::external_body]
fn uppercase(chars: &Vec<char>) -> (r: String)
    ensures
        r@ == upper_of(chars@),
        chars@.len() == 0 ==> r@.len() == 0,
{
    chars.iter().collect::<String>().to_uppercase()
}

/// The alphabetic characters of `s`, in order.
pub open spec fn alphas(s: Seq<char>) -> Seq<char>
    decreases s.len(),
{
    if s.len() == 0 {
        seq![]
    } else if is_alpha(s.last()) {
        alphas(s.drop_last()).push(s.last())
    } else {
        alphas(s.drop_last())
    }
}

pub open spec fn whitespace_err() -> Seq<char> {
    "Please separate the indices by whitespaces only"@
}

pub open spec fn oob_err() -> Seq<char> {
    "Out of bounds"@
}

/// Every word is a number.
pub open spec fn all_numbers(words: Seq<Seq<char>>) -> bool {
    forall|i: int| 0 <= i < words.len() ==> (#[trigger] parsed_number(words[i])) is Some
}

/// Position named by index `n`, counting from 0 or from 1.
pub open spec fn position(n: nat, zero_based: bool) -> int {
    if zero_based {
        n as int
    } else {
        n - 1
    }
}

/// Each number names a character of `text`.
pub open spec fn all_in_bounds(words: Seq<Seq<char>>, text: Seq<char>, zero_based: bool) -> bool {
    forall|i: int|
        0 <= i < words.len() ==> {
            let p = #[trigger] position(parsed_number(words[i])->0, zero_based);
            0 <= p < text.len()
        }
}

/// The characters of `text` that the numbers name, in order.
pub open spec fn picked(words: Seq<Seq<char>>, text: Seq<char>, zero_based: bool) -> Seq<char> {
    Seq::new(words.len(), |i: int| text[position(parsed_number(words[i])->0, zero_based)])
}

/// Picks letters out of a text by their positions among its alphabetic characters.
pub struct Indexing {
    pub input: String,
    pub indices: String,
    pub use_0_indexing: bool,
}

impl Indexing {
    pub fn new() -> (r: Indexing)
        ensures
            r.input@.len() == 0,
            r.indices@.len() == 0,
            !r.use_0_indexing,
    {
        Indexing { input: String::new(), indices: String::new(), use_0_indexing: false }
    }

    /// The result of `get`, as a text.
    pub open spec fn spec_extracted(&self) -> Seq<char> {
        let text = alphas(self.input@);
        let words = words_of(self.indices@);
        if !all_numbers(words) {
            whitespace_err()
        } else if !all_in_bounds(words, text, self.use_0_indexing) {
            oob_err()
        } else {
            upper_of(picked(words, text, self.use_0_indexing))
        }
    }

    /// Returns the number of alphabetic characters of the input and the
    /// upper-cased characters that the indices name, or an error message.
    pub fn get(&self) -> (r: (usize, String))
        ensures
            r.0 == alphas(self.input@).len(),
            r.1@ == self.spec_extracted(),
    {
        let len = self.input.as_str().unicode_len();
        let mut alphabets: Vec<char> = Vec::new();
        let mut i: usize = 0;
        while i < len
            invariant
                len == self.input@.len(),
                i <= len,
                alphabets@ == alphas(self.input@.take(i as int)),
            decreases len - i,
        {
            let c = self.input.as_str().get_char(i);
            assert(self.input@.take(i + 1).drop_last() =~= self.input@.take(i as int));
            if alphabetic(c) {
                alphabets.push(c);
            }
            i = i + 1;
        }
        assert(self.input@.take(len as int) =~= self.input@);
        let ghost text = alphas(self.input@);

        let words = split_words(self.indices.as_str());
        let ghost ws = words_of(self.indices@);
        let mut extracted: Vec<char> = Vec::new();
        let mut in_bounds = true;
        let mut k: usize = 0;
        while k < words.len()
            invariant
                alphabets@ == text,
                text == alphas(self.input@),
                ws == words_of(self.indices@),
                words@.len() == ws.len(),
                forall|j: int| 0 <= j < words@.len() ==> #[trigger] words@[j]@ == ws[j],
                k <= words@.len(),
                forall|j: int| 0 <= j < k ==> (#[trigger] parsed_number(ws[j])) is Some,
                in_bounds ==> extracted@.len() == k,
                in_bounds ==> forall|j: int|
                    0 <= j < k ==> {
                        let p = #[trigger] position(parsed_number(ws[j])->0, self.use_0_indexing);
                        0 <= p < text.len() && extracted@[j] == text[p]
                    },
                !in_bounds ==> !all_in_bounds(ws, text, self.use_0_indexing),
            decreases words@.len() - k,
        {
            let word: &str = words[k];
            let n = match parse_number(word) {
                Some(n) => n,
                None => {
                    assert(parsed_number(ws[k as int]) is None);
                    proof {
                        reveal_strlit("Please separate the indices by whitespaces only");
                    }
                    return (alphabets.len(), String::from_str(
                        "Please separate the indices by whitespaces only",
                    ));
                },
            };
            if in_bounds {
                let p: Option<usize> = if self.use_0_indexing {
                    Some(n)
                } else if n >= 1 {
                    Some(n - 1)
                } else {
                    None
                };
                match p {
                    Some(p) if p < alphabets.len() => {
                        extracted.push(alphabets[p]);
                    },
                    _ => {
                        in_bounds = false;
                        assert(!({
                            let p = position(parsed_number(ws[k as int])->0, self.use_0_indexing);
                            0 <= p < text.len()
                        }));
                    },
                }
            }
            k = k + 1;
        }
        if !in_bounds {
            proof {
                reveal_strlit("Out of bounds");
            }
            return (alphabets.len(), String::from_str("Out of bounds"));
        }
        assert(extracted@ =~= picked(ws, text, self.use_0_indexing));
        (alphabets.len(), uppercase(&extracted))
    }
}

} // verus!

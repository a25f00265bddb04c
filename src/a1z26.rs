use vstd::prelude::*;

use crate::code_table::{letters, ALPHABET_CNT};

verus! {

/// Value of a string of decimal digits.
pub open spec fn digits_value(s: Seq<char>) -> nat
    decreases s.len(),
{
    if s.len() == 0 {
        0
    } else {
        digits_value(s.drop_last()) * 10 + (s.last() as nat - '0' as nat) as nat
    }
}

pub open spec fn is_digit(c: char) -> bool {
    '0' <= c && c <= '9'
}

/// The digits of a number token: an optional leading `+` is dropped.
pub open spec fn unsigned_digits(s: Seq<char>) -> Seq<char> {
    if s.len() > 0 && s[0] == '+' {
        s.drop_first()
    } else {
        s
    }
}

/// The value of `s` read as an unsigned decimal that fits in `usize`: one or more
/// digits, optionally after a `+`.
pub open spec fn parsed_number(s: Seq<char>) -> Option<nat> {
    let d = unsigned_digits(s);
    if d.len() > 0 && (forall|k: int| 0 <= k < d.len() ==> #[trigger] is_digit(d[k]))
        && digits_value(d) <= usize::MAX {
        Some(digits_value(d))
    } else {
        None
    }
}

/// The token shown for an out-of-range number.
pub open spec fn out_of_range_marker() -> Seq<char> {
    "✖"@
}

/// A number token names a letter only in `1..=26`.
pub open spec fn is_out_of_range(w: Seq<char>) -> bool {
    match parsed_number(w) {
        Some(n) => !(1 <= n && n <= ALPHABET_CNT),
        None => false,
    }
}

/// What a word becomes: a number in `1..=26` its letter, another number the
/// marker, anything else itself.
pub open spec fn decoded_word(w: Seq<char>) -> Seq<char> {
    match parsed_number(w) {
        Some(n) => if 1 <= n && n <= ALPHABET_CNT {
            seq![letters()[n - 1]]
        } else {
            out_of_range_marker()
        },
        None => w,
    }
}

/// The whitespace-separated words of a text, in order.
pub uninterp spec fn words_of(s: Seq<char>) -> Seq<Seq<char>>;

/// Relies on `str::split_whitespace`: the words of `s`, depending on its
/// characters alone.
#[verifier::external_body]
pub(crate) fn split_words(s: &str) -> (r: Vec<&str>)
    ensures
        r@.len() == words_of(s@).len(),
        forall|i: int| 0 <= i < r@.len() ==> #[trigger] r@[i]@ == words_of(s@)[i],
{
    s.split_whitespace().collect()
}

proof fn lemma_digits_grow(s: Seq<char>)
    requires
        s.len() > 0,
        is_digit(s.last()),
    ensures
        digits_value(s) >= digits_value(s.drop_last()),
{
}

/// Reads `s` as an unsigned decimal that fits in `usize`.
pub fn parse_number(s: &str) -> (r: Option<usize>)
    ensures
        r matches Some(n) ==> parsed_number(s@) == Some(n as nat),
        r is None ==> parsed_number(s@) is None,
{
    let len = s.unicode_len();
    let start: usize = if len > 0 && s.get_char(0) == '+' { 1 } else { 0 };
    let ghost d = unsigned_digits(s@);
    assert(d =~= s@.subrange(start as int, len as int));
    if start >= len {
        return None;
    }
    let mut acc: usize = 0;
    let mut overflow = false;
    let mut i: usize = start;
    while i < len
        invariant
            start <= i <= len,
            len == s@.len(),
            d == s@.subrange(start as int, len as int),
            d == unsigned_digits(s@),
            forall|k: int| start <= k < i ==> #[trigger] is_digit(s@[k]),
            !overflow ==> acc == digits_value(s@.subrange(start as int, i as int)),
            overflow ==> digits_value(s@.subrange(start as int, i as int)) > usize::MAX,
        decreases len - i,
    {
        let c = s.get_char(i);
        if !('0' <= c && c <= '9') {
            assert(d[i - start] == s@[i as int]);
            assert(!is_digit(d[i - start]));
            return None;
        }
        let digit = (c as u32 - '0' as u32) as usize;
        let ghost prev = s@.subrange(start as int, i as int);
        let ghost next = s@.subrange(start as int, i + 1);
        assert(next.drop_last() =~= prev);
        proof {
            lemma_digits_grow(next);
        }
        if !overflow {
            if acc > (usize::MAX - digit) / 10 {
                overflow = true;
                assert(acc * 10 + digit > usize::MAX) by (nonlinear_arith)
                    requires
                        acc > (usize::MAX - digit) / 10,
                        digit <= 9,
                ;
            } else {
                assert(acc * 10 + digit <= usize::MAX) by (nonlinear_arith)
                    requires
                        acc <= (usize::MAX - digit) / 10,
                        digit <= 9,
                ;
                acc = acc * 10 + digit;
            }
        }
        i = i + 1;
    }
    assert(s@.subrange(start as int, len as int) == d);
    if overflow {
        None
    } else {
        Some(acc)
    }
}

/// Decodes each word: a number in `1..=26` becomes its letter, another number the
/// marker `✖`, anything else stays as it is. The flag tells whether any number
/// was out of range.
pub fn decode_words(words: &Vec<&str>) -> (r: (Vec<String>, bool))
    ensures
        r.0@.len() == words@.len(),
        forall|i: int| 0 <= i < words@.len() ==> #[trigger] r.0@[i]@ == decoded_word(words@[i]@),
        r.1 == exists|i: int| 0 <= i < words@.len() && #[trigger] is_out_of_range(words@[i]@),
{
    proof {
        reveal_strlit("ABCDEFGHIJKLMNOPQRSTUVWXYZ#0123456789");
    }
    let all: &'static str = "ABCDEFGHIJKLMNOPQRSTUVWXYZ#0123456789";
    let mut out: Vec<String> = Vec::new();
    let mut warn_oob = false;
    let mut i: usize = 0;
    while i < words.len()
        invariant
            i <= words@.len(),
            all@ == letters(),
            letters().len() == 37,
            out@.len() == i,
            forall|k: int| 0 <= k < i ==> #[trigger] out@[k]@ == decoded_word(words@[k]@),
            warn_oob == exists|k: int| 0 <= k < i && #[trigger] is_out_of_range(words@[k]@),
        decreases words@.len() - i,
    {
        let word: &str = words[i];
        let ghost was_warned = warn_oob;
        match parse_number(word) {
            None => {
                out.push(String::from_str(word));
            },
            Some(num) => {
                if 1 <= num && num <= ALPHABET_CNT {
                    let letter = all.substring_char(num - 1, num);
                    assert(letter@ =~= seq![letters()[num - 1]]);
                    out.push(String::from_str(letter));
                } else {
                    proof {
                        reveal_strlit("✖");
                    }
                    out.push(String::from_str("✖"));
                    warn_oob = true;
                }
            },
        }
        proof {
            if was_warned {
                let k = choose|k: int| 0 <= k < i && #[trigger] is_out_of_range(words@[k]@);
                assert(0 <= k < i + 1 && is_out_of_range(words@[k]@));
            }
            if is_out_of_range(words@[i as int]@) {
                assert(0 <= i < i + 1 && is_out_of_range(words@[i as int]@));
            }
            if !warn_oob {
                assert forall|k: int| 0 <= k < i + 1 implies !#[trigger] is_out_of_range(
                    words@[k]@,
                ) by {
                    if k < i {
                        assert(!(0 <= k < i && is_out_of_range(words@[k]@)));
                    }
                }
            }
        }
        i = i + 1;
    }
    (out, warn_oob)
}

/// Decodes the whitespace-separated words of `text` as `decode_words` does.
pub fn decode_a1z26(text: &str) -> (r: (Vec<String>, bool))
    ensures
        r.0@.len() == words_of(text@).len(),
        forall|i: int| 0 <= i < words_of(text@).len() ==> #[trigger] r.0@[i]@ == decoded_word(
            words_of(text@)[i],
        ),
        r.1 == exists|i: int| 0 <= i < words_of(text@).len() && #[trigger] is_out_of_range(
            words_of(text@)[i],
        ),
{
    let words = split_words(text);
    let r = decode_words(&words);
    assert forall|i: int| 0 <= i < words_of(text@).len() && #[trigger] is_out_of_range(
        words_of(text@)[i],
    ) implies r.1 by {
        assert(is_out_of_range(words@[i]@));
    }
    r
}

} // verus!

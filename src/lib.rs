pub mod a1z26;
pub mod cipher;
pub mod code_table;
pub mod criterion;
pub mod emoji;
pub mod indexing;
pub mod tools;

pub use a1z26::{decode_a1z26, decode_words, parse_number};
pub use cipher::{Cipher, CRITERIA_CNT};
pub use code_table::{letter_at, CipherMode, ALPHABET_CNT, LETTER_CNT};
pub use criterion::CipherCriterion;
pub use emoji::EmojiPicker;
pub use indexing::Indexing;
pub use tools::{PuzzleHuntTools, Tool};

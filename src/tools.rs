use vstd::prelude::*;

use crate::cipher::Cipher;
use crate::code_table::CipherMode;
use crate::indexing::Indexing;

verus! {

/// The tabs of the puzzle-hunt window.
#[derive(Debug, Clone, Copy, PartialEq, Eq, Structural)]
pub enum Tool {
    Links,
    Indexing,
    Cipher,
}

/// The puzzle-hunt window: the open tab and the state of each tool.
pub struct PuzzleHuntTools {
    pub tab: Tool,
    pub indexing: Indexing,
    pub cipher: Cipher,
}

impl PuzzleHuntTools {
    /// Opens on the links tab, with empty tools and the cipher on `A1Z26`.
    pub fn new() -> (r: PuzzleHuntTools)
        ensures
            r.tab == Tool::Links,
            r.indexing.input@.len() == 0,
            r.indexing.indices@.len() == 0,
            !r.indexing.use_0_indexing,
            r.cipher.wf(),
            r.cipher.spec_mode() == CipherMode::A1Z26,
            !r.cipher.spec_use_numbers(),
            r.cipher.all_blank(),
            r.cipher.spec_input().len() == 0,
    {
        PuzzleHuntTools { tab: Tool::Links, indexing: Indexing::new(), cipher: Cipher::new() }
    }

    pub fn title(&self) -> (r: String)
        ensures
            r@ == "Puzzlehunt Tools"@,
    {
        String::from_str("Puzzlehunt Tools")
    }
}

} // verus!

use vstd::prelude::*;

verus! {

/// The characters a multi-symbol code can stand for: the alphabet, a separator
/// and the ten digits, in table order.
pub open spec fn letters() -> Seq<char> {
    "ABCDEFGHIJKLMNOPQRSTUVWXYZ#0123456789"@
}

/// Number of letters of the alphabet.
pub const ALPHABET_CNT: usize = 26;

/// Number of characters in `letters()`.
pub const LETTER_CNT: usize = 37;

/// The character at table index `i`.
pub fn letter_at(i: usize) -> (c: char)
    requires
        i < LETTER_CNT,
    ensures
        c == letters()[i as int],
{
    proof {
        reveal_strlit("ABCDEFGHIJKLMNOPQRSTUVWXYZ#0123456789");
    }
    let all: &'static str = "ABCDEFGHIJKLMNOPQRSTUVWXYZ#0123456789";
    all.get_char(i)
}

/// An encoding scheme. Every scheme but `A1Z26` is read from a fixed-width table.
#[derive(Debug, Clone, Copy, PartialEq, Eq, Structural)]
pub enum CipherMode {
    A1Z26,
    Binary,
    Braille,
    Morse,
    Semaphore,
    Ternary,
}

impl CipherMode {
    pub open spec fn has_table(self) -> bool {
        !(self is A1Z26)
    }

    /// The code table of the scheme; empty for `A1Z26`.
    pub open spec fn codes(self) -> Seq<Seq<char>> {
        match self {
            CipherMode::A1Z26 => seq![],
            CipherMode::Binary => binary_codes(),
            CipherMode::Braille => braille_codes(),
            CipherMode::Morse => morse_codes(),
            CipherMode::Semaphore => semaphore_codes(),
            CipherMode::Ternary => ternary_codes(),
        }
    }

    /// Length of every code of the scheme; 0 for `A1Z26`.
    pub open spec fn spec_width(self) -> nat {
        match self {
            CipherMode::A1Z26 => 0,
            CipherMode::Binary => 5,
            CipherMode::Braille => 6,
            CipherMode::Morse => 5,
            CipherMode::Semaphore => 8,
            CipherMode::Ternary => 3,
        }
    }

    /// Morse (dash) and ternary (digit 2) use a third symbol.
    pub open spec fn spec_has_two(self) -> bool {
        self is Morse || self is Ternary
    }

    pub open spec fn spec_name(self) -> Seq<char> {
        match self {
            CipherMode::A1Z26 => "🆎 A1Z26"@,
            CipherMode::Binary => "🔟 Binary"@,
            CipherMode::Braille => "✋ Braille"@,
            CipherMode::Morse => "〰 Morse"@,
            CipherMode::Semaphore => "🚩 Semaphore"@,
            CipherMode::Ternary => "３ Ternary"@,
        }
    }

    /// All schemes, in the order they are offered.
    pub fn all() -> (r: Vec<CipherMode>)
        ensures
            r@ == seq![
                CipherMode::A1Z26,
                CipherMode::Binary,
                CipherMode::Braille,
                CipherMode::Morse,
                CipherMode::Semaphore,
                CipherMode::Ternary,
            ],
    {
        vec![
            CipherMode::A1Z26,
            CipherMode::Binary,
            CipherMode::Braille,
            CipherMode::Morse,
            CipherMode::Semaphore,
            CipherMode::Ternary,
        ]
    }

    pub fn name(&self) -> (r: &'static str)
        ensures
            r@ == self.spec_name(),
    {
        match self {
            CipherMode::A1Z26 => "🆎 A1Z26",
            CipherMode::Binary => "🔟 Binary",
            CipherMode::Braille => "✋ Braille",
            CipherMode::Morse => "〰 Morse",
            CipherMode::Semaphore => "🚩 Semaphore",
            CipherMode::Ternary => "３ Ternary",
        }
    }

    /// The code table of a table-driven scheme.
    pub fn answer_list(&self) -> (r: Vec<&'static str>)
        requires
            self.has_table(),
        ensures
            r@.len() == self.codes().len(),
            forall|i: int| 0 <= i < r@.len() ==> #[trigger] r@[i]@ == self.codes()[i],
    {
        match self {
            CipherMode::Binary => binary_list(),
            CipherMode::Braille => braille_list(),
            CipherMode::Morse => morse_list(),
            CipherMode::Semaphore => semaphore_list(),
            CipherMode::Ternary => ternary_list(),
            CipherMode::A1Z26 => Vec::new(),
        }
    }

    pub fn width(&self) -> (r: usize)
        ensures
            r == self.spec_width(),
    {
        match self {
            CipherMode::A1Z26 => 0,
            CipherMode::Binary => 5,
            CipherMode::Braille => 6,
            CipherMode::Morse => 5,
            CipherMode::Semaphore => 8,
            CipherMode::Ternary => 3,
        }
    }

    pub fn has_two(&self) -> (r: bool)
        ensures
            r == self.spec_has_two(),
    {
        match self {
            CipherMode::Morse | CipherMode::Ternary => true,
            _ => false,
        }
    }
    /// The positions after which the input grid starts a new row; the last one
    /// closes the grid.
    pub open spec fn spec_row_ends(self) -> Seq<usize> {
        match self {
            CipherMode::A1Z26 => seq![],
            CipherMode::Binary => seq![4],
            CipherMode::Braille => seq![1, 3, 5],
            CipherMode::Morse => seq![4],
            CipherMode::Semaphore => seq![2, 4, 7],
            CipherMode::Ternary => seq![2],
        }
    }

    pub fn row_ends(&self) -> (r: Vec<usize>)
        ensures
            r@ == self.spec_row_ends(),
    {
        match self {
            CipherMode::A1Z26 => Vec::new(),
            CipherMode::Binary => vec![4],
            CipherMode::Braille => vec![1, 3, 5],
            CipherMode::Morse => vec![4],
            CipherMode::Semaphore => vec![2, 4, 7],
            CipherMode::Ternary => vec![2],
        }
    }

    /// Labels drawn between grid cells: after position 3 of the semaphore grid
    /// stands the signaller.
    pub fn special_labels(&self) -> (r: Vec<(usize, char)>)
        ensures
            self is Semaphore ==> r@ == seq![(3usize, '☃')],
            !(self is Semaphore) ==> r@.len() == 0,
    {
        match self {
            CipherMode::Semaphore => vec![(3, '☃')],
            _ => Vec::new(),
        }
    }
}

/// The input grid of a table-driven scheme has exactly one cell per symbol position.
pub proof fn lemma_grid_covers_width(mode: CipherMode)
    requires
        mode.has_table(),
    ensures
        mode.spec_row_ends().len() > 0,
        mode.spec_row_ends().last() + 1 == mode.spec_width(),
{
}

/// Every code of a table-driven scheme is exactly as long as the scheme's width.
pub proof fn lemma_code_width(mode: CipherMode, i: int)
    requires
        mode.has_table(),
        0 <= i < mode.codes().len(),
    ensures
        mode.codes()[i].len() == mode.spec_width(),
{
    match mode {
        CipherMode::Binary => lemma_binary_width(i),
        CipherMode::Braille => lemma_braille_width(i),
        CipherMode::Morse => lemma_morse_width(i),
        CipherMode::Semaphore => lemma_semaphore_width(i),
        CipherMode::Ternary => lemma_ternary_width(i),
        CipherMode::A1Z26 => {},
    }
}

/// The alphabet is covered by every table, and the extended tables cover all of `letters()`.
pub proof fn lemma_table_sizes(mode: CipherMode)
    requires
        mode.has_table(),
    ensures
        mode.codes().len() == if mode is Binary || mode is Ternary {
            ALPHABET_CNT as nat
        } else {
            LETTER_CNT as nat
        },
        letters().len() == LETTER_CNT,
{
    reveal_strlit("ABCDEFGHIJKLMNOPQRSTUVWXYZ#0123456789");
}

/// The binary code of each character, in the order of `letters()`.
pub open spec fn binary_codes() -> Seq<Seq<char>> {
    seq![
        "00001"@, "00010"@, "00011"@, "00100"@, "00101"@,
        "00110"@, "00111"@, "01000"@, "01001"@, "01010"@,
        "01011"@, "01100"@, "01101"@, "01110"@, "01111"@,
        "10000"@, "10001"@, "10010"@, "10011"@, "10100"@,
        "10101"@, "10110"@, "10111"@, "11000"@, "11001"@,
        "11010"@,
    ]
}

fn binary_list() -> (r: Vec<&'static str>)
    ensures
        r@.len() == binary_codes().len(),
        forall|i: int| 0 <= i < r@.len() ==> #[trigger] r@[i]@ == binary_codes()[i],
{
    vec![
        "00001", "00010", "00011", "00100", "00101",
        "00110", "00111", "01000", "01001", "01010",
        "01011", "01100", "01101", "01110", "01111",
        "10000", "10001", "10010", "10011", "10100",
        "10101", "10110", "10111", "11000", "11001",
        "11010",
    ]
}

/// The braille code of each character, in the order of `letters()`.
pub open spec fn braille_codes() -> Seq<Seq<char>> {
    seq![
        "100000"@, "101000"@, "110000"@, "110100"@, "100100"@,
        "111000"@, "111100"@, "101100"@, "011000"@, "011100"@,
        "100010"@, "101010"@, "110010"@, "110110"@, "100110"@,
        "111010"@, "111110"@, "101110"@, "011010"@, "011110"@,
        "100011"@, "101011"@, "011101"@, "110011"@, "110111"@,
        "100111"@, "010111"@, "011100"@, "100000"@, "101000"@,
        "110000"@, "110100"@, "100100"@, "111000"@, "111100"@,
        "101100"@, "011000"@,
    ]
}

fn braille_list() -> (r: Vec<&'static str>)
    ensures
        r@.len() == braille_codes().len(),
        forall|i: int| 0 <= i < r@.len() ==> #[trigger] r@[i]@ == braille_codes()[i],
{
    vec![
        "100000", "101000", "110000", "110100", "100100",
        "111000", "111100", "101100", "011000", "011100",
        "100010", "101010", "110010", "110110", "100110",
        "111010", "111110", "101110", "011010", "011110",
        "100011", "101011", "011101", "110011", "110111",
        "100111", "010111", "011100", "100000", "101000",
        "110000", "110100", "100100", "111000", "111100",
        "101100", "011000",
    ]
}

/// The morse code of each character, in the order of `letters()`.
pub open spec fn morse_codes() -> Seq<Seq<char>> {
    seq![
        "12000"@, "21110"@, "21210"@, "21100"@, "10000"@,
        "11210"@, "22100"@, "11110"@, "11000"@, "12220"@,
        "21200"@, "12110"@, "22000"@, "21000"@, "22200"@,
        "12210"@, "22120"@, "12100"@, "11100"@, "20000"@,
        "11200"@, "11120"@, "12200"@, "21120"@, "21220"@,
        "22110"@, "99999"@, "22222"@, "12222"@, "11222"@,
        "11122"@, "11112"@, "11111"@, "21111"@, "22111"@,
        "22211"@, "22221"@,
    ]
}

fn morse_list() -> (r: Vec<&'static str>)
    ensures
        r@.len() == morse_codes().len(),
        forall|i: int| 0 <= i < r@.len() ==> #[trigger] r@[i]@ == morse_codes()[i],
{
    vec![
        "12000", "21110", "21210", "21100", "10000",
        "11210", "22100", "11110", "11000", "12220",
        "21200", "12110", "22000", "21000", "22200",
        "12210", "22120", "12100", "11100", "20000",
        "11200", "11120", "12200", "21120", "21220",
        "22110", "99999", "22222", "12222", "11222",
        "11122", "11112", "11111", "21111", "22111",
        "22211", "22221",
    ]
}

/// The semaphore code of each character, in the order of `letters()`.
pub open spec fn semaphore_codes() -> Seq<Seq<char>> {
    seq![
        "00000110"@, "00010010"@, "10000010"@, "01000010"@,
        "00100010"@, "00001010"@, "00000011"@, "00010100"@,
        "10000100"@, "01001000"@, "01000100"@, "00100100"@,
        "00001100"@, "00000101"@, "10010000"@, "01010000"@,
        "00110000"@, "00011000"@, "00010001"@, "11000000"@,
        "10100000"@, "01000001"@, "00101000"@, "00100001"@,
        "10001000"@, "00001001"@, "01100000"@, "01001000"@,
        "00000110"@, "00010010"@, "10000010"@, "01000010"@,
        "00100010"@, "00001010"@, "00000011"@, "00010100"@,
        "10000100"@,
    ]
}

fn semaphore_list() -> (r: Vec<&'static str>)
    ensures
        r@.len() == semaphore_codes().len(),
        forall|i: int| 0 <= i < r@.len() ==> #[trigger] r@[i]@ == semaphore_codes()[i],
{
    vec![
        "00000110", "00010010", "10000010", "01000010",
        "00100010", "00001010", "00000011", "00010100",
        "10000100", "01001000", "01000100", "00100100",
        "00001100", "00000101", "10010000", "01010000",
        "00110000", "00011000", "00010001", "11000000",
        "10100000", "01000001", "00101000", "00100001",
        "10001000", "00001001", "01100000", "01001000",
        "00000110", "00010010", "10000010", "01000010",
        "00100010", "00001010", "00000011", "00010100",
        "10000100",
    ]
}

/// The ternary code of each letter, in the order of `letters()`. `Z` carries
/// the same code as `W`.
pub open spec fn ternary_codes() -> Seq<Seq<char>> {
    seq![
        "001"@, "002"@, "010"@, "011"@, "012"@,
        "020"@, "021"@, "022"@, "100"@, "101"@,
        "102"@, "110"@, "111"@, "112"@, "120"@,
        "121"@, "122"@, "200"@, "201"@, "202"@,
        "210"@, "211"@, "212"@, "220"@, "221"@,
        "212"@,
    ]
}

fn ternary_list() -> (r: Vec<&'static str>)
    ensures
        r@.len() == ternary_codes().len(),
        forall|i: int| 0 <= i < r@.len() ==> #[trigger] r@[i]@ == ternary_codes()[i],
{
    vec![
        "001", "002", "010", "011", "012",
        "020", "021", "022", "100", "101",
        "102", "110", "111", "112", "120",
        "121", "122", "200", "201", "202",
        "210", "211", "212", "220", "221",
        "212",
    ]
}
proof fn lemma_binary_width(i: int)
    requires
        0 <= i < binary_codes().len(),
    ensures
        binary_codes()[i].len() == 5,
{
    reveal_strlit("00001");
    reveal_strlit("00010");
    reveal_strlit("00011");
    reveal_strlit("00100");
    reveal_strlit("00101");
    reveal_strlit("00110");
    reveal_strlit("00111");
    reveal_strlit("01000");
    reveal_strlit("01001");
    reveal_strlit("01010");
    reveal_strlit("01011");
    reveal_strlit("01100");
    reveal_strlit("01101");
    reveal_strlit("01110");
    reveal_strlit("01111");
    reveal_strlit("10000");
    reveal_strlit("10001");
    reveal_strlit("10010");
    reveal_strlit("10011");
    reveal_strlit("10100");
    reveal_strlit("10101");
    reveal_strlit("10110");
    reveal_strlit("10111");
    reveal_strlit("11000");
    reveal_strlit("11001");
    reveal_strlit("11010");
}

proof fn lemma_braille_width(i: int)
    requires
        0 <= i < braille_codes().len(),
    ensures
        braille_codes()[i].len() == 6,
{
    reveal_strlit("100000");
    reveal_strlit("101000");
    reveal_strlit("110000");
    reveal_strlit("110100");
    reveal_strlit("100100");
    reveal_strlit("111000");
    reveal_strlit("111100");
    reveal_strlit("101100");
    reveal_strlit("011000");
    reveal_strlit("011100");
    reveal_strlit("100010");
    reveal_strlit("101010");
    reveal_strlit("110010");
    reveal_strlit("110110");
    reveal_strlit("100110");
    reveal_strlit("111010");
    reveal_strlit("111110");
    reveal_strlit("101110");
    reveal_strlit("011010");
    reveal_strlit("011110");
    reveal_strlit("100011");
    reveal_strlit("101011");
    reveal_strlit("011101");
    reveal_strlit("110011");
    reveal_strlit("110111");
    reveal_strlit("100111");
    reveal_strlit("010111");
}

proof fn lemma_morse_width(i: int)
    requires
        0 <= i < morse_codes().len(),
    ensures
        morse_codes()[i].len() == 5,
{
    reveal_strlit("12000");
    reveal_strlit("21110");
    reveal_strlit("21210");
    reveal_strlit("21100");
    reveal_strlit("10000");
    reveal_strlit("11210");
    reveal_strlit("22100");
    reveal_strlit("11110");
    reveal_strlit("11000");
    reveal_strlit("12220");
    reveal_strlit("21200");
    reveal_strlit("12110");
    reveal_strlit("22000");
    reveal_strlit("21000");
    reveal_strlit("22200");
    reveal_strlit("12210");
    reveal_strlit("22120");
    reveal_strlit("12100");
    reveal_strlit("11100");
    reveal_strlit("20000");
    reveal_strlit("11200");
    reveal_strlit("11120");
    reveal_strlit("12200");
    reveal_strlit("21120");
    reveal_strlit("21220");
    reveal_strlit("22110");
    reveal_strlit("99999");
    reveal_strlit("22222");
    reveal_strlit("12222");
    reveal_strlit("11222");
    reveal_strlit("11122");
    reveal_strlit("11112");
    reveal_strlit("11111");
    reveal_strlit("21111");
    reveal_strlit("22111");
    reveal_strlit("22211");
    reveal_strlit("22221");
}

proof fn lemma_semaphore_width(i: int)
    requires
        0 <= i < semaphore_codes().len(),
    ensures
        semaphore_codes()[i].len() == 8,
{
    reveal_strlit("00000110");
    reveal_strlit("00010010");
    reveal_strlit("10000010");
    reveal_strlit("01000010");
    reveal_strlit("00100010");
    reveal_strlit("00001010");
    reveal_strlit("00000011");
    reveal_strlit("00010100");
    reveal_strlit("10000100");
    reveal_strlit("01001000");
    reveal_strlit("01000100");
    reveal_strlit("00100100");
    reveal_strlit("00001100");
    reveal_strlit("00000101");
    reveal_strlit("10010000");
    reveal_strlit("01010000");
    reveal_strlit("00110000");
    reveal_strlit("00011000");
    reveal_strlit("00010001");
    reveal_strlit("11000000");
    reveal_strlit("10100000");
    reveal_strlit("01000001");
    reveal_strlit("00101000");
    reveal_strlit("00100001");
    reveal_strlit("10001000");
    reveal_strlit("00001001");
    reveal_strlit("01100000");
}

proof fn lemma_ternary_width(i: int)
    requires
        0 <= i < ternary_codes().len(),
    ensures
        ternary_codes()[i].len() == 3,
{
    reveal_strlit("001");
    reveal_strlit("002");
    reveal_strlit("010");
    reveal_strlit("011");
    reveal_strlit("012");
    reveal_strlit("020");
    reveal_strlit("021");
    reveal_strlit("022");
    reveal_strlit("100");
    reveal_strlit("101");
    reveal_strlit("102");
    reveal_strlit("110");
    reveal_strlit("111");
    reveal_strlit("112");
    reveal_strlit("120");
    reveal_strlit("121");
    reveal_strlit("122");
    reveal_strlit("200");
    reveal_strlit("201");
    reveal_strlit("202");
    reveal_strlit("210");
    reveal_strlit("211");
    reveal_strlit("212");
    reveal_strlit("220");
    reveal_strlit("221");
}


/// No code but Morse's entry for `#` holds the sentinel `9`.
pub proof fn lemma_no_sentinel(mode: CipherMode, i: int, p: int)
    requires
        mode.has_table(),
        0 <= i < mode.codes().len(),
        !(mode is Morse && i == 26),
        0 <= p < mode.spec_width(),
    ensures
        mode.codes()[i][p] != '9',
{
    match mode {
        CipherMode::Binary => lemma_binary_symbols(i, p),
        CipherMode::Braille => lemma_braille_symbols(i, p),
        CipherMode::Morse => lemma_morse_symbols(i, p),
        CipherMode::Semaphore => lemma_semaphore_symbols(i, p),
        CipherMode::Ternary => lemma_ternary_symbols(i, p),
        CipherMode::A1Z26 => {},
    }
}

proof fn lemma_binary_symbols(i: int, p: int)
    requires
        0 <= i < binary_codes().len(),
        0 <= p < 5,
    ensures
        binary_codes()[i][p] != '9',
{
    reveal_strlit("00001");
    reveal_strlit("00010");
    reveal_strlit("00011");
    reveal_strlit("00100");
    reveal_strlit("00101");
    reveal_strlit("00110");
    reveal_strlit("00111");
    reveal_strlit("01000");
    reveal_strlit("01001");
    reveal_strlit("01010");
    reveal_strlit("01011");
    reveal_strlit("01100");
    reveal_strlit("01101");
    reveal_strlit("01110");
    reveal_strlit("01111");
    reveal_strlit("10000");
    reveal_strlit("10001");
    reveal_strlit("10010");
    reveal_strlit("10011");
    reveal_strlit("10100");
    reveal_strlit("10101");
    reveal_strlit("10110");
    reveal_strlit("10111");
    reveal_strlit("11000");
    reveal_strlit("11001");
    reveal_strlit("11010");
}

proof fn lemma_braille_symbols(i: int, p: int)
    requires
        0 <= i < braille_codes().len(),
        0 <= p < 6,
    ensures
        braille_codes()[i][p] != '9',
{
    reveal_strlit("100000");
    reveal_strlit("101000");
    reveal_strlit("110000");
    reveal_strlit("110100");
    reveal_strlit("100100");
    reveal_strlit("111000");
    reveal_strlit("111100");
    reveal_strlit("101100");
    reveal_strlit("011000");
    reveal_strlit("011100");
    reveal_strlit("100010");
    reveal_strlit("101010");
    reveal_strlit("110010");
    reveal_strlit("110110");
    reveal_strlit("100110");
    reveal_strlit("111010");
    reveal_strlit("111110");
    reveal_strlit("101110");
    reveal_strlit("011010");
    reveal_strlit("011110");
    reveal_strlit("100011");
    reveal_strlit("101011");
    reveal_strlit("011101");
    reveal_strlit("110011");
    reveal_strlit("110111");
    reveal_strlit("100111");
    reveal_strlit("010111");
}

proof fn lemma_morse_symbols(i: int, p: int)
    requires
        0 <= i < morse_codes().len(),
        i != 26,
        0 <= p < 5,
    ensures
        morse_codes()[i][p] != '9',
{
    reveal_strlit("12000");
    reveal_strlit("21110");
    reveal_strlit("21210");
    reveal_strlit("21100");
    reveal_strlit("10000");
    reveal_strlit("11210");
    reveal_strlit("22100");
    reveal_strlit("11110");
    reveal_strlit("11000");
    reveal_strlit("12220");
    reveal_strlit("21200");
    reveal_strlit("12110");
    reveal_strlit("22000");
    reveal_strlit("21000");
    reveal_strlit("22200");
    reveal_strlit("12210");
    reveal_strlit("22120");
    reveal_strlit("12100");
    reveal_strlit("11100");
    reveal_strlit("20000");
    reveal_strlit("11200");
    reveal_strlit("11120");
    reveal_strlit("12200");
    reveal_strlit("21120");
    reveal_strlit("21220");
    reveal_strlit("22110");
    reveal_strlit("22222");
    reveal_strlit("12222");
    reveal_strlit("11222");
    reveal_strlit("11122");
    reveal_strlit("11112");
    reveal_strlit("11111");
    reveal_strlit("21111");
    reveal_strlit("22111");
    reveal_strlit("22211");
    reveal_strlit("22221");
}

proof fn lemma_semaphore_symbols(i: int, p: int)
    requires
        0 <= i < semaphore_codes().len(),
        0 <= p < 8,
    ensures
        semaphore_codes()[i][p] != '9',
{
    reveal_strlit("00000110");
    reveal_strlit("00010010");
    reveal_strlit("10000010");
    reveal_strlit("01000010");
    reveal_strlit("00100010");
    reveal_strlit("00001010");
    reveal_strlit("00000011");
    reveal_strlit("00010100");
    reveal_strlit("10000100");
    reveal_strlit("01001000");
    reveal_strlit("01000100");
    reveal_strlit("00100100");
    reveal_strlit("00001100");
    reveal_strlit("00000101");
    reveal_strlit("10010000");
    reveal_strlit("01010000");
    reveal_strlit("00110000");
    reveal_strlit("00011000");
    reveal_strlit("00010001");
    reveal_strlit("11000000");
    reveal_strlit("10100000");
    reveal_strlit("01000001");
    reveal_strlit("00101000");
    reveal_strlit("00100001");
    reveal_strlit("10001000");
    reveal_strlit("00001001");
    reveal_strlit("01100000");
}

proof fn lemma_ternary_symbols(i: int, p: int)
    requires
        0 <= i < ternary_codes().len(),
        0 <= p < 3,
    ensures
        ternary_codes()[i][p] != '9',
{
    reveal_strlit("001");
    reveal_strlit("002");
    reveal_strlit("010");
    reveal_strlit("011");
    reveal_strlit("012");
    reveal_strlit("020");
    reveal_strlit("021");
    reveal_strlit("022");
    reveal_strlit("100");
    reveal_strlit("101");
    reveal_strlit("102");
    reveal_strlit("110");
    reveal_strlit("111");
    reveal_strlit("112");
    reveal_strlit("120");
    reveal_strlit("121");
    reveal_strlit("122");
    reveal_strlit("200");
    reveal_strlit("201");
    reveal_strlit("202");
    reveal_strlit("210");
    reveal_strlit("211");
    reveal_strlit("212");
    reveal_strlit("220");
    reveal_strlit("221");
}

} // verus!

use vstd::prelude::*;

use crate::code_table::{
    lemma_code_width, lemma_no_sentinel, lemma_table_sizes, letter_at, letters, CipherMode,
    ALPHABET_CNT, LETTER_CNT,
};
use crate::criterion::CipherCriterion;

verus! {

/// Number of observation slots: enough for the widest scheme.
pub const CRITERIA_CNT: usize = 10;

/// The letters at table indices below `n` whose index satisfies `keep`, in table order.
pub open spec fn pick(n: nat, keep: spec_fn(int) -> bool) -> Seq<char>
    decreases n,
{
    if n == 0 {
        seq![]
    } else {
        let rest = pick((n - 1) as nat, keep);
        if keep(n - 1) {
            rest.push(letters()[n - 1])
        } else {
            rest
        }
    }
}

/// The code-matching state: the active scheme, whether digits are scanned, one
/// criterion per symbol position, and the text typed for `A1Z26`.
pub struct Cipher {
    mode: CipherMode,
    use_numbers: bool,
    criteria: Vec<CipherCriterion>,
    input: String,
}

impl Cipher {
    pub closed spec fn spec_mode(&self) -> CipherMode {
        self.mode
    }

    pub closed spec fn spec_use_numbers(&self) -> bool {
        self.use_numbers
    }

    pub closed spec fn spec_criteria(&self) -> Seq<CipherCriterion> {
        self.criteria@
    }

    pub closed spec fn spec_input(&self) -> Seq<char> {
        self.input@
    }

    pub open spec fn wf(&self) -> bool {
        self.spec_criteria().len() == CRITERIA_CNT
    }

    /// Every observation slot is blank.
    pub open spec fn all_blank(&self) -> bool {
        forall|p: int| 0 <= p < self.spec_criteria().len()
            ==> #[trigger] self.spec_criteria()[p] == CipherCriterion::Blank
    }

    /// How many table entries are scanned: the alphabet, or the whole table when
    /// digits are asked for and the scheme has them.
    pub open spec fn scan_count(&self) -> nat {
        let asked: nat = if self.spec_use_numbers() { LETTER_CNT as nat } else { ALPHABET_CNT as nat };
        let size = self.spec_mode().codes().len();
        if asked <= size { asked } else { size }
    }

    /// The letter at table index `i` agrees with every observed position.
    pub open spec fn letter_matches(&self, i: int, exact: bool) -> bool {
        let code = self.spec_mode().codes()[i];
        forall|p: int| 0 <= p < self.spec_mode().spec_width()
            ==> #[trigger] self.spec_criteria()[p].spec_matches(code[p], exact)
    }

    /// The letters that agree with the observation, in table order.
    pub open spec fn spec_match_result(&self, exact: bool) -> Seq<char> {
        pick(self.scan_count(), |i: int| self.letter_matches(i, exact))
    }

    fn blank_criteria() -> (r: Vec<CipherCriterion>)
        ensures
            r@.len() == CRITERIA_CNT,
            forall|p: int| 0 <= p < r@.len() ==> #[trigger] r@[p] == CipherCriterion::Blank,
    {
        let mut r: Vec<CipherCriterion> = Vec::new();
        let mut k: usize = 0;
        while k < CRITERIA_CNT
            invariant
                k <= CRITERIA_CNT,
                r@.len() == k,
                forall|p: int| 0 <= p < r@.len() ==> #[trigger] r@[p] == CipherCriterion::Blank,
            decreases CRITERIA_CNT - k,
        {
            r.push(CipherCriterion::Blank);
            k = k + 1;
        }
        r
    }

    /// A cipher on `A1Z26` with no observation, no digits and no input.
    pub fn new() -> (r: Cipher)
        ensures
            r.wf(),
            r.spec_mode() == CipherMode::A1Z26,
            !r.spec_use_numbers(),
            r.all_blank(),
            r.spec_input().len() == 0,
    {
        Cipher {
            mode: CipherMode::A1Z26,
            use_numbers: false,
            criteria: Self::blank_criteria(),
            input: String::new(),
        }
    }

    /// Switches to `mode`, clearing every observation and the digit flag.
    /// Returns the scheme's width and whether it has a third symbol.
    pub fn select_mode(&mut self, mode: CipherMode) -> (r: (usize, bool))
        ensures
            final(self).wf(),
            final(self).spec_mode() == mode,
            !final(self).spec_use_numbers(),
            final(self).all_blank(),
            final(self).spec_input() == old(self).spec_input(),
            r.0 == mode.spec_width(),
            r.1 == mode.spec_has_two(),
    {
        self.mode = mode;
        self.use_numbers = false;
        self.criteria = Self::blank_criteria();
        (mode.width(), mode.has_two())
    }

    /// Sets whether the digits after the alphabet are scanned.
    pub fn set_use_numbers(&mut self, use_numbers: bool)
        ensures
            final(self).spec_use_numbers() == use_numbers,
            final(self).spec_mode() == old(self).spec_mode(),
            final(self).spec_criteria() == old(self).spec_criteria(),
            final(self).spec_input() == old(self).spec_input(),
    {
        self.use_numbers = use_numbers;
    }

    /// Replaces the text read by `A1Z26`.
    pub fn set_input(&mut self, input: String)
        ensures
            final(self).spec_input() == input@,
            final(self).spec_mode() == old(self).spec_mode(),
            final(self).spec_use_numbers() == old(self).spec_use_numbers(),
            final(self).spec_criteria() == old(self).spec_criteria(),
    {
        self.input = input;
    }

    /// Whether the letter at table index `num` agrees with the observation.
    pub fn match_letter(&self, num: usize, exact: bool) -> (r: bool)
        requires
            self.wf(),
            self.spec_mode().has_table(),
            num < self.spec_mode().codes().len(),
        ensures
            r == self.letter_matches(num as int, exact),
    {
        let list = self.mode.answer_list();
        let answer: &str = list[num];
        let width = self.mode.width();
        proof {
            lemma_code_width(self.mode, num as int);
        }
        let mut p: usize = 0;
        while p < width
            invariant
                self.wf(),
                width == self.spec_mode().spec_width(),
                width <= CRITERIA_CNT,
                answer@ == self.spec_mode().codes()[num as int],
                answer@.len() == width,
                p <= width,
                forall|q: int| 0 <= q < p ==> #[trigger] self.spec_criteria()[q].spec_matches(
                    answer@[q],
                    exact,
                ),
            decreases width - p,
        {
            let ans = answer.get_char(p);
            if !self.criteria[p].matches(ans, exact) {
                return false;
            }
            p = p + 1;
        }
        true
    }

    /// The letters that agree with the observation, in table order.
    pub fn match_result(&self, exact: bool) -> (r: Vec<char>)
        requires
            self.wf(),
            self.spec_mode().has_table(),
        ensures
            r@ == self.spec_match_result(exact),
    {
        let size = self.mode.answer_list().len();
        let asked: usize = if self.use_numbers { LETTER_CNT } else { ALPHABET_CNT };
        let count: usize = if asked <= size { asked } else { size };
        proof {
            lemma_table_sizes(self.mode);
        }
        let ghost keep = |i: int| self.letter_matches(i, exact);
        let mut r: Vec<char> = Vec::new();
        let mut i: usize = 0;
        while i < count
            invariant
                self.wf(),
                self.spec_mode().has_table(),
                count == self.scan_count(),
                count <= LETTER_CNT,
                count <= self.spec_mode().codes().len(),
                letters().len() == LETTER_CNT,
                i <= count,
                keep == (|i: int| self.letter_matches(i, exact)),
                r@ == pick(i as nat, keep),
            decreases count - i,
        {
            if self.match_letter(i, exact) {
                r.push(letter_at(i));
            }
            i = i + 1;
        }
        r
    }

    /// Advances the criterion at `pos`; does nothing beyond the scheme's width.
    pub fn advance(&mut self, pos: usize)
        requires
            old(self).wf(),
        ensures
            final(self).wf(),
            final(self).spec_mode() == old(self).spec_mode(),
            final(self).spec_use_numbers() == old(self).spec_use_numbers(),
            final(self).spec_input() == old(self).spec_input(),
            final(self).spec_criteria() == if pos < old(self).spec_mode().spec_width() {
                old(self).spec_criteria().update(
                    pos as int,
                    old(self).spec_criteria()[pos as int].spec_left_click(old(self).spec_mode()),
                )
            } else {
                old(self).spec_criteria()
            },
    {
        if pos < self.mode.width() {
            let mode = self.mode;
            let mut c = self.criteria[pos];
            c.left_click(mode);
            self.criteria.set(pos, c);
        }
    }

    /// Negates the criterion at `pos`; does nothing beyond the scheme's width.
    pub fn negate(&mut self, pos: usize)
        requires
            old(self).wf(),
        ensures
            final(self).wf(),
            final(self).spec_mode() == old(self).spec_mode(),
            final(self).spec_use_numbers() == old(self).spec_use_numbers(),
            final(self).spec_input() == old(self).spec_input(),
            final(self).spec_criteria() == if pos < old(self).spec_mode().spec_width() {
                old(self).spec_criteria().update(
                    pos as int,
                    old(self).spec_criteria()[pos as int].spec_right_click(),
                )
            } else {
                old(self).spec_criteria()
            },
    {
        if pos < self.mode.width() {
            let mut c = self.criteria[pos];
            c.right_click();
            self.criteria.set(pos, c);
        }
    }

    pub fn mode(&self) -> (r: CipherMode)
        ensures
            r == self.spec_mode(),
    {
        self.mode
    }

    pub fn use_numbers(&self) -> (r: bool)
        ensures
            r == self.spec_use_numbers(),
    {
        self.use_numbers
    }

    pub fn criterion(&self, pos: usize) -> (r: CipherCriterion)
        requires
            pos < self.spec_criteria().len(),
        ensures
            r == self.spec_criteria()[pos as int],
    {
        self.criteria[pos]
    }

    pub fn input(&self) -> (r: &str)
        ensures
            r@ == self.spec_input(),
    {
        self.input.as_str()
    }
}

/// Two filters that agree below `n` pick the same letters.
proof fn lemma_pick_agree(n: nat, k1: spec_fn(int) -> bool, k2: spec_fn(int) -> bool)
    requires
        forall|i: int| 0 <= i < n ==> #[trigger] k1(i) == k2(i),
    ensures
        pick(n, k1) == pick(n, k2),
    decreases n,
{
    if n > 0 {
        lemma_pick_agree((n - 1) as nat, k1, k2);
    }
}

/// A filter that keeps every index below `n` picks the first `n` letters.
proof fn lemma_pick_every(n: nat, keep: spec_fn(int) -> bool)
    requires
        n <= letters().len(),
        forall|i: int| 0 <= i < n ==> #[trigger] keep(i),
    ensures
        pick(n, keep) == letters().take(n as int),
    decreases n,
{
    if n > 0 {
        lemma_pick_every((n - 1) as nat, keep);
        assert(letters().take(n as int) =~= letters().take(n - 1).push(letters()[n - 1]));
    }
}

/// With nothing observed and blanks taken as wildcards, every scanned letter
/// matches. The one exception is Morse with digits: `#` has no Morse code.
pub proof fn lemma_permissive_blank_matches_all(c: &Cipher)
    requires
        c.wf(),
        c.spec_mode().has_table(),
        c.all_blank(),
        !(c.spec_mode() is Morse && c.spec_use_numbers()),
    ensures
        c.spec_match_result(false) == letters().take(c.scan_count() as int),
{
    lemma_table_sizes(c.spec_mode());
    let keep = |i: int| c.letter_matches(i, false);
    assert forall|i: int| 0 <= i < c.scan_count() implies #[trigger] keep(i) by {
        assert forall|p: int| 0 <= p < c.spec_mode().spec_width() implies
            #[trigger] c.spec_criteria()[p].spec_matches(c.spec_mode().codes()[i][p], false) by {
            lemma_no_sentinel(c.spec_mode(), i, p);
        }
    }
    lemma_pick_every(c.scan_count(), keep);
}

/// With nothing observed and blanks taken as `No`, exactly the scanned letters
/// whose code is all `0` match.
pub proof fn lemma_exact_blank_matches_zeros(c: &Cipher)
    requires
        c.wf(),
        c.spec_mode().has_table(),
        c.all_blank(),
    ensures
        c.spec_match_result(true) == pick(
            c.scan_count(),
            |i: int|
                forall|p: int|
                    0 <= p < c.spec_mode().spec_width() ==> #[trigger] c.spec_mode().codes()[i][p]
                        == '0',
        ),
{
    let k1 = |i: int| c.letter_matches(i, true);
    let k2 = |i: int|
        forall|p: int|
            0 <= p < c.spec_mode().spec_width() ==> #[trigger] c.spec_mode().codes()[i][p] == '0';
    assert forall|i: int| 0 <= i < c.scan_count() implies #[trigger] k1(i) == k2(i) by {
        if k2(i) {
            assert forall|p: int| 0 <= p < c.spec_mode().spec_width() implies
                #[trigger] c.spec_criteria()[p].spec_matches(c.spec_mode().codes()[i][p], true) by {
                assert(c.spec_mode().codes()[i][p] == '0');
            }
        }
        if k1(i) {
            assert forall|p: int| 0 <= p < c.spec_mode().spec_width() implies
                #[trigger] c.spec_mode().codes()[i][p] == '0' by {
                assert(c.spec_criteria()[p].spec_matches(c.spec_mode().codes()[i][p], true));
            }
        }
    }
    lemma_pick_agree(c.scan_count(), k1, k2);
}

} // verus!

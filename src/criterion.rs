use vstd::prelude::*;

use crate::code_table::CipherMode;

verus! {

/// What is known of one symbol position of an unknown code.
#[derive(Debug, Clone, Copy, PartialEq, Eq, Structural)]
pub enum CipherCriterion {
    /// Nothing observed.
    Blank,
    /// The symbol is `1` (a raised dot, a flag, a Morse dot).
    Yes,
    /// The symbol is `0`.
    No,
    /// The symbol is `2`: a Morse dash or a ternary digit two.
    Two,
}

impl CipherCriterion {
    /// Whether the criterion has a label under `mode`: a scheme without a third
    /// symbol never shows `Two`, and `A1Z26` shows no grid at all.
    pub open spec fn has_label(self, mode: CipherMode) -> bool {
        match (self, mode) {
            (CipherCriterion::Blank, _) => true,
            (CipherCriterion::No, _) => true,
            (CipherCriterion::Yes, CipherMode::A1Z26) => false,
            (CipherCriterion::Two, CipherMode::A1Z26) => false,
            (CipherCriterion::Two, CipherMode::Binary) => false,
            _ => true,
        }
    }

    pub open spec fn spec_label(self, mode: CipherMode) -> char {
        match (self, mode) {
            (CipherCriterion::Blank, _) => ' ',
            (CipherCriterion::Yes, CipherMode::Binary) => '1',
            (CipherCriterion::No, CipherMode::Binary) => '0',
            (CipherCriterion::Two, CipherMode::Morse) => '—',
            (CipherCriterion::Yes, CipherMode::Morse) => '⚫',
            (CipherCriterion::Two, CipherMode::Ternary) => '2',
            (CipherCriterion::Yes, CipherMode::Ternary) => '1',
            (CipherCriterion::No, CipherMode::Ternary) => '0',
            (CipherCriterion::No, _) => '✖',
            (_, CipherMode::Braille) => '⏺',
            _ => '🚩',
        }
    }

    /// Whether table symbol `ans` agrees with the criterion. The symbol `9` marks
    /// a character without a code and agrees with nothing. Under `exact`, a blank
    /// position counts as `No`; otherwise it agrees with every other symbol.
    pub open spec fn spec_matches(self, ans: char, exact: bool) -> bool {
        ans != '9' && match self {
            CipherCriterion::Blank => !exact || ans == '0',
            CipherCriterion::Yes => ans == '1',
            CipherCriterion::No => ans == '0',
            CipherCriterion::Two => ans == '2',
        }
    }

    /// The state after a left click (advance).
    pub open spec fn spec_left_click(self, mode: CipherMode) -> CipherCriterion {
        match self {
            CipherCriterion::Blank | CipherCriterion::No => CipherCriterion::Yes,
            CipherCriterion::Yes => if mode.spec_has_two() {
                CipherCriterion::Two
            } else {
                CipherCriterion::Blank
            },
            CipherCriterion::Two => CipherCriterion::Blank,
        }
    }

    /// The state after a right click (negate).
    pub open spec fn spec_right_click(self) -> CipherCriterion {
        match self {
            CipherCriterion::No => CipherCriterion::Blank,
            _ => CipherCriterion::No,
        }
    }

    pub fn label(&self, mode: CipherMode) -> (r: char)
        requires
            self.has_label(mode),
        ensures
            r == self.spec_label(mode),
    {
        match (self, mode) {
            (CipherCriterion::Blank, _) => ' ',
            (CipherCriterion::Yes, CipherMode::Binary) => '1',
            (CipherCriterion::No, CipherMode::Binary) => '0',
            (CipherCriterion::Two, CipherMode::Morse) => '—',
            (CipherCriterion::Yes, CipherMode::Morse) => '⚫',
            (CipherCriterion::Two, CipherMode::Ternary) => '2',
            (CipherCriterion::Yes, CipherMode::Ternary) => '1',
            (CipherCriterion::No, CipherMode::Ternary) => '0',
            (CipherCriterion::No, _) => '✖',
            (_, CipherMode::Braille) => '⏺',
            _ => '🚩',
        }
    }

    pub fn matches(&self, ans: char, exact: bool) -> (r: bool)
        ensures
            r == self.spec_matches(ans, exact),
    {
        if ans == '9' {
            return false;
        }
        let choice = if exact && matches!(self, CipherCriterion::Blank) {
            CipherCriterion::No
        } else {
            *self
        };
        match choice {
            CipherCriterion::Blank => true,
            CipherCriterion::Yes => ans == '1',
            CipherCriterion::No => ans == '0',
            CipherCriterion::Two => ans == '2',
        }
    }

    pub fn left_click(&mut self, mode: CipherMode)
        ensures
            *final(self) == old(self).spec_left_click(mode),
    {
        *self = match *self {
            CipherCriterion::Blank | CipherCriterion::No => CipherCriterion::Yes,
            CipherCriterion::Yes => {
                if mode.has_two() {
                    CipherCriterion::Two
                } else {
                    CipherCriterion::Blank
                }
            },
            CipherCriterion::Two => CipherCriterion::Blank,
        };
    }

    pub fn right_click(&mut self)
        ensures
            *final(self) == old(self).spec_right_click(),
    {
        *self = match *self {
            CipherCriterion::Blank | CipherCriterion::Yes | CipherCriterion::Two => CipherCriterion::No,
            CipherCriterion::No => CipherCriterion::Blank,
        };
    }
}

/// The sentinel `9` agrees with no criterion, under either matching policy.
pub proof fn lemma_sentinel_never_matches(c: CipherCriterion, exact: bool)
    ensures
        !c.spec_matches('9', exact),
{
}

/// On a scheme without a third symbol, advance, negate, advance leads from
/// blank through yes and no back to yes; on one with a third symbol, four
/// advances from blank pass through yes, two and blank and end at yes.
pub proof fn lemma_click_cycles(mode: CipherMode)
    ensures
        !mode.spec_has_two() ==> {
            let a = CipherCriterion::Blank.spec_left_click(mode);
            let b = a.spec_right_click();
            let c = b.spec_left_click(mode);
            &&& a == CipherCriterion::Yes
            &&& b == CipherCriterion::No
            &&& c == CipherCriterion::Yes
        },
        mode.spec_has_two() ==> {
            let a = CipherCriterion::Blank.spec_left_click(mode);
            let b = a.spec_left_click(mode);
            let c = b.spec_left_click(mode);
            let d = c.spec_left_click(mode);
            &&& a == CipherCriterion::Yes
            &&& b == CipherCriterion::Two
            &&& c == CipherCriterion::Blank
            &&& d == CipherCriterion::Yes
        },
{
}

} // verus!

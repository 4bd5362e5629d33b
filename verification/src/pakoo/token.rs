//! Stepping over expression source text, one character at a time.

use vstd::prelude::*;
use vstd::string::StrSliceExecFns;

verus! {

/// A whitespace character the scanner steps over.
pub open spec fn is_space_sp(c: char) -> bool {
    c == ' ' || c == '\t' || c == '\n' || c == '\r'
}

/// A cursor over the characters of one expression's source text.
pub struct Lexer {
    chars: Vec<char>,
    pos: usize,
}

impl Lexer {
    /// The characters being scanned.
    pub closed spec fn chars_sp(&self) -> Seq<char> {
        self.chars@
    }

    /// The cursor.
    pub closed spec fn pos_sp(&self) -> int {
        self.pos as int
    }

    /// The cursor never leaves the text.
    pub open spec fn wf(&self) -> bool {
        self.pos_sp() <= self.chars_sp().len()
    }

    /// A cursor at the start of `input`.
    pub fn new(input: &str) -> (s: Self)
        ensures
            s.chars_sp() == input@,
            s.pos_sp() == 0,
            s.wf(),
    {
        let n: usize = input.unicode_len();
        let mut chars: Vec<char> = Vec::new();
        let mut k: usize = 0;
        while k < n
            invariant
                0 <= k <= n,
                n == input@.len(),
                chars@.len() == k,
                forall|m: int| 0 <= m < k ==> chars@[m] == input@[m],
            decreases n - k,
        {
            chars.push(input.get_char(k));
            k = k + 1;
        }
        proof {
            assert(chars@ =~= input@);
        }
        Lexer { chars, pos: 0 }
    }

    /// Step the cursor past any run of whitespace: every character passed
    /// over is whitespace, and afterwards the cursor stands at the end of
    /// the text or on a non-whitespace character.
    pub fn skip_whitespace(&mut self)
        requires
            old(self).wf(),
        ensures
            final(self).wf(),
            final(self).chars_sp() == old(self).chars_sp(),
            old(self).pos_sp() <= final(self).pos_sp() <= final(self).chars_sp().len(),
            forall|m: int|
                old(self).pos_sp() <= m < final(self).pos_sp() ==> is_space_sp(
                    #[trigger] final(self).chars_sp()[m],
                ),
            final(self).pos_sp() < final(self).chars_sp().len() ==> !is_space_sp(
                final(self).chars_sp()[final(self).pos_sp()],
            ),
    {
        let n: usize = self.chars.len();
        while self.pos < n && (self.chars[self.pos] == ' ' || self.chars[self.pos] == '\t'
            || self.chars[self.pos] == '\n' || self.chars[self.pos] == '\r')
            invariant
                self.chars@ == old(self).chars@,
                old(self).pos <= self.pos <= n,
                n == self.chars@.len(),
                forall|m: int|
                    old(self).pos_sp() <= m < self.pos_sp() ==> is_space_sp(
                        #[trigger] self.chars@[m],
                    ),
            decreases n - self.pos,
        {
            self.pos = self.pos + 1;
        }
    }

    /// The character under the cursor, if any.
    pub fn peek(&self) -> (r: Option<char>)
        requires
            self.wf(),
        ensures
            r is Some <==> self.pos_sp() < self.chars_sp().len(),
            r matches Some(c) ==> c == self.chars_sp()[self.pos_sp()],
    {
        if self.pos < self.chars.len() {
            Some(self.chars[self.pos])
        } else {
            None
        }
    }

    /// Step the cursor over one character.
    pub fn advance(&mut self)
        requires
            old(self).wf(),
            old(self).pos_sp() < old(self).chars_sp().len(),
        ensures
            final(self).wf(),
            final(self).chars_sp() == old(self).chars_sp(),
            final(self).pos_sp() == old(self).pos_sp() + 1,
    {
        let n: usize = self.chars.len();
        proof {
            assert(self.pos < n);
        }
        self.pos = self.pos + 1;
    }
}

} // verus!

//! The character-stream cursor: an input sequence of characters plus a read
//! offset, with snapshot and rollback so that parsing rules can speculate and
//! backtrack. Space characters are transparently skipped and never handed to
//! callers.

use vstd::prelude::*;

verus! {

/// The next non-space character of `s` at or after `pos`, paired with the
/// offset just past it; `None` when only spaces (or nothing) remain.
pub open spec fn next_char(s: Seq<char>, pos: nat) -> Option<(char, nat)>
    decreases s.len() - pos,
{
    if pos >= s.len() {
        None
    } else if s[pos as int] == ' ' {
        next_char(s, pos + 1)
    } else {
        Some((s[pos as int], (pos + 1) as nat))
    }
}

/// A successful read yields a non-space character and advances the offset,
/// never past the end of the input.
pub proof fn lemma_next_char_advances(s: Seq<char>, pos: nat)
    ensures
        next_char(s, pos) matches Some((c, p)) ==> pos < p <= s.len() && c != ' ',
    decreases s.len() - pos,
{
    if pos < s.len() && s[pos as int] == ' ' {
        lemma_next_char_advances(s, pos + 1);
    }
}

/// The cursor over the input characters.
pub struct Lexer {
    /// Input characters
    input: Vec<char>,
    /// Read offset
    position: usize,
}

impl Lexer {
    /// The input as a sequence of characters.
    pub closed spec fn chars(&self) -> Seq<char> {
        self.input@
    }

    /// The current read offset.
    pub closed spec fn offset(&self) -> nat {
        self.position as nat
    }

    /// The read offset never runs past the end of the input.
    pub open spec fn wf(&self) -> bool {
        self.offset() <= self.chars().len()
    }

    pub fn new(input: &str) -> (lexer: Lexer)
        ensures
            lexer.wf(),
            lexer.chars() == input@,
            lexer.offset() == 0,
    {
        let mut vec: Vec<char> = Vec::new();
        for c in it: input.chars()
            invariant
                vec@ == it.seq().take(it.index() as int),
                it.seq() == input@,
        {
            vec.push(c);
        }
        proof {
            assert(vec@ == input@);
        }
        Lexer { input: vec, position: 0 }
    }

    pub fn position(&self) -> (position: usize)
        ensures
            position == self.offset(),
    {
        self.position
    }

    /// Reads the next non-space character, advancing the offset past it and
    /// past any skipped spaces before it; at end of input returns `None` with
    /// the offset at the end.
    pub fn next(&mut self) -> (result: Option<char>)
        requires
            old(self).wf(),
        ensures
            final(self).wf(),
            final(self).chars() == old(self).chars(),
            old(self).offset() <= final(self).offset(),
            match next_char(old(self).chars(), old(self).offset()) {
                Some((c, p)) => result == Some(c) && final(self).offset() == p,
                None => result == None::<char> && final(self).offset() == old(
                    self
                ).chars().len(),
            },
    {
        while self.position < self.input.len()
            invariant
                self.wf(),
                self.chars() == old(self).chars(),
                old(self).offset() <= self.offset(),
                next_char(self.chars(), self.offset()) == next_char(
                    old(self).chars(),
                    old(self).offset(),
                ),
            decreases self.input.len() - self.position,
        {
            let result = self.input[self.position];
            self.position = self.position + 1;

            if result != ' ' {
                return Some(result);
            }
        }

        None
    }

    /// Moves the offset back to `position`, an offset this cursor reported
    /// earlier; rules use this to undo speculative consumption.
    pub fn rollback(&mut self, position: usize)
        requires
            old(self).wf(),
            position <= old(self).offset(),
        ensures
            final(self).wf(),
            final(self).chars() == old(self).chars(),
            final(self).offset() == position,
    {
        self.position = position
    }
}

} // verus!

//! The string-encoded ownership assignment of a branch. Its claim-level
//! structure belongs to an external module; this core keeps the encoding
//! opaque and checks only its line-level shape.
use vstd::prelude::*;
use vstd::string::StrSliceExecFns;

verus! {

/// A well-formed ownership text: a possibly empty sequence of non-empty claim
/// lines separated by single newlines — no leading, trailing or empty line.
pub open spec fn ownership_text_valid(s: Seq<char>) -> bool {
    &&& s.len() > 0 ==> s[0] != '\n' && s[s.len() - 1] != '\n'
    &&& forall|i: int| 0 <= i < s.len() - 1 && #[trigger] s[i] == '\n' ==> s[i + 1] != '\n'
}

/// An opaque, textually-encoded assignment of file claims to a branch.
#[derive(Debug, Clone, PartialEq, Eq)]
pub struct Ownership {
    text: String,
}

impl View for Ownership {
    type V = Seq<char>;

    closed spec fn view(&self) -> Seq<char> {
        self.text@
    }
}

impl Ownership {
    pub open spec fn wf(&self) -> bool {
        ownership_text_valid(self@)
    }

    /// Parse the textual encoding; `None` exactly on malformed text.
    pub fn parse(s: &str) -> (r: Option<Ownership>)
        ensures
            match r {
                Some(o) => ownership_text_valid(s@) && o@ == s@ && o.wf(),
                None => !ownership_text_valid(s@),
            },
    {
        let n = s.unicode_len();
        if n == 0 {
            return Some(Ownership { text: s.to_owned() });
        }
        if s.get_char(0) == '\n' || s.get_char(n - 1) == '\n' {
            return None;
        }
        let mut i: usize = 1;
        while i < n
            invariant
                n == s@.len(),
                1 <= i <= n,
                forall|j: int| 0 <= j < i - 1 && #[trigger] s@[j] == '\n' ==> s@[j + 1] != '\n',
            decreases n - i,
        {
            if s.get_char(i - 1) == '\n' && s.get_char(i) == '\n' {
                return None;
            }
            i += 1;
        }
        Some(Ownership { text: s.to_owned() })
    }

    /// The canonical textual encoding.
    pub fn encode(&self) -> (r: String)
        ensures
            r@ == self@,
    {
        self.text.clone()
    }
}

} // verus!

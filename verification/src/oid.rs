//! Content-addressed object ids, held in their canonical textual form.
use vstd::prelude::*;
use vstd::string::StrSliceExecFns;

verus! {

/// A lowercase hexadecimal digit.
pub open spec fn is_hex_lower(c: char) -> bool {
    (48 <= c as u32 && c as u32 <= 57) || (97 <= c as u32 && c as u32 <= 102)
}

/// A well-formed object-id text: exactly forty lowercase hexadecimal digits.
pub open spec fn oid_text_valid(s: Seq<char>) -> bool {
    s.len() == 40 && forall|i: int| 0 <= i < s.len() ==> is_hex_lower(#[trigger] s[i])
}

/// A content-addressed object id identifying a tree or commit.
#[derive(Debug, Clone, PartialEq, Eq)]
pub struct Oid {
    text: String,
}

impl View for Oid {
    type V = Seq<char>;

    closed spec fn view(&self) -> Seq<char> {
        self.text@
    }
}

impl Oid {
    pub open spec fn wf(&self) -> bool {
        oid_text_valid(self@)
    }

    /// Parse the textual form; `None` exactly on malformed text.
    pub fn parse(s: &str) -> (r: Option<Oid>)
        ensures
            match r {
                Some(o) => oid_text_valid(s@) && o@ == s@ && o.wf(),
                None => !oid_text_valid(s@),
            },
    {
        let n = s.unicode_len();
        if n != 40 {
            return None;
        }
        let mut i: usize = 0;
        while i < n
            invariant
                n == s@.len(),
                n == 40,
                0 <= i <= n,
                forall|j: int| 0 <= j < i ==> is_hex_lower(#[trigger] s@[j]),
            decreases n - i,
        {
            let cv = s.get_char(i) as u32;
            if !((48 <= cv && cv <= 57) || (97 <= cv && cv <= 102)) {
                return None;
            }
            i += 1;
        }
        Some(Oid { text: s.to_owned() })
    }

    /// The canonical textual form this id was parsed from.
    pub fn encode(&self) -> (r: String)
        ensures
            r@ == self@,
    {
        self.text.clone()
    }
}

} // verus!

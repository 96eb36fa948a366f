//! Remote-branch references of the form `<remote>/<branch>`.
use vstd::prelude::*;
use vstd::string::StrSliceExecFns;
use vstd::string::StringExecFns;

verus! {

/// The view of a remote-branch reference: the remote part and the branch part.
#[verifier::ext_equal]
pub ghost struct RemoteBranchNameV {
    pub remote: Seq<char>,
    pub branch: Seq<char>,
}

/// `i` is the index of the first slash of `s`.
pub open spec fn slash_at(s: Seq<char>, i: int) -> bool {
    &&& 0 <= i < s.len()
    &&& s[i] == '/'
    &&& forall|j: int| 0 <= j < i ==> s[j] != '/'
}

/// What a stored text parses to as a `<remote>/<branch>` reference: the text
/// up to the first slash (non-empty) names the remote; the text after it
/// (non-empty, and free to contain further slashes) names the branch.
pub open spec fn remote_name_spec(s: Seq<char>) -> Option<RemoteBranchNameV> {
    if exists|i: int| slash_at(s, i) {
        let i = choose|i: int| slash_at(s, i);
        if 1 <= i && i + 1 < s.len() {
            Some(RemoteBranchNameV { remote: s.take(i), branch: s.skip(i + 1) })
        } else {
            None
        }
    } else {
        None
    }
}

pub proof fn lemma_slash_at_unique(s: Seq<char>, i: int, j: int)
    requires
        slash_at(s, i),
        slash_at(s, j),
    ensures
        i == j,
{
    if i < j {
        assert(s[i] != '/');
    }
    if j < i {
        assert(s[j] != '/');
    }
}

/// An upstream tracking reference, `<remote>/<branch>`.
#[derive(Debug, Clone, PartialEq, Eq)]
pub struct RemoteBranchName {
    remote: String,
    branch: String,
}

impl View for RemoteBranchName {
    type V = RemoteBranchNameV;

    closed spec fn view(&self) -> RemoteBranchNameV {
        RemoteBranchNameV { remote: self.remote@, branch: self.branch@ }
    }
}

/// Locate the first slash of a text, if it has one.
fn find_slash(s: &str) -> (r: Option<usize>)
    ensures
        match r {
            Some(i) => slash_at(s@, i as int),
            None => forall|k: int| !slash_at(s@, k),
        },
{
    let n = s.unicode_len();
    let mut i: usize = 0;
    while i < n
        invariant
            n == s@.len(),
            0 <= i <= n,
            forall|j: int| 0 <= j < i ==> s@[j] != '/',
        decreases n - i,
    {
        if s.get_char(i) == '/' {
            return Some(i);
        }
        i += 1;
    }
    proof {
        assert forall|k: int| !slash_at(s@, k) by {
            if 0 <= k < s@.len() {
                assert(s@[k] != '/');
            }
        }
    }
    None
}

impl RemoteBranchName {
    pub open spec fn wf(&self) -> bool {
        &&& self@.remote.len() > 0
        &&& self@.branch.len() > 0
        &&& forall|i: int| 0 <= i < self@.remote.len() ==> self@.remote[i] != '/'
    }

    /// Parse the textual form; `None` exactly on malformed text.
    pub fn parse(s: &str) -> (r: Option<RemoteBranchName>)
        ensures
            match r {
                Some(u) => remote_name_spec(s@) == Some(u@) && u.wf(),
                None => remote_name_spec(s@) is None,
            },
    {
        let n = s.unicode_len();
        let slash = find_slash(s);
        match slash {
            None => None,
            Some(i) => {
                proof {
                    let k = choose|k: int| slash_at(s@, k);
                    lemma_slash_at_unique(s@, k, i as int);
                }
                if i == 0 || i + 1 >= n {
                    return None;
                }
                let remote = String::from_str(s.substring_char(0, i));
                let branch = String::from_str(s.substring_char(i + 1, n));
                proof {
                    assert(s@.take(i as int) =~= s@.subrange(0, i as int));
                    assert(s@.skip(i as int + 1) =~= s@.subrange(i as int + 1, n as int));
                }
                let u = RemoteBranchName { remote, branch };
                proof {
                    assert(remote_name_spec(s@)->Some_0 =~= u@);
                }
                Some(u)
            },
        }
    }

    /// The canonical textual form, `<remote>/<branch>`.
    pub fn encode(&self) -> (r: String)
        ensures
            r@ == self@.remote + "/"@ + self@.branch,
    {
        let mut out = self.remote.clone();
        out.append("/");
        out.append(self.branch.as_str());
        out
    }
}

/// Rendering a well-formed remote-branch reference and parsing the result
/// gives back the same reference.
pub proof fn lemma_remote_name_round_trip(u: RemoteBranchNameV)
    requires
        u.remote.len() > 0,
        u.branch.len() > 0,
        forall|i: int| 0 <= i < u.remote.len() ==> u.remote[i] != '/',
    ensures
        remote_name_spec(u.remote + "/"@ + u.branch) == Some(u),
{
    reveal_strlit("/");
    let s = u.remote + "/"@ + u.branch;
    let r = u.remote.len() as int;
    assert("/"@.len() == 1);
    assert("/"@[0] == '/');
    assert(s[r] == '/');
    assert forall|j: int| 0 <= j < r implies s[j] != '/' by {
        assert(s[j] == u.remote[j]);
    }
    assert(slash_at(s, r));
    let k = choose|k: int| slash_at(s, k);
    lemma_slash_at_unique(s, k, r);
    assert(s.take(r) =~= u.remote);
    assert(s.skip(r + 1) =~= u.branch);
    assert(remote_name_spec(s)->Some_0 =~= u);
}

} // verus!

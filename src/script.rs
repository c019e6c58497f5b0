//! Script identity: the suffix rule, the logical name and the parent directory.

use vstd::prelude::*;

use crate::error::{Error, ErrorView};

verus! {

/// Suffix that marks a file as a script to run.
pub const SCRIPT_SUFFIX: &'static str = ".ha.sh";

/// Largest script, in bytes, that is accepted for execution.
pub const MAX_SCRIPT_SIZE: u64 = 655_360;

/// The suffix as characters.
pub open spec fn suffix_chars() -> Seq<char> {
    seq!['.', 'h', 'a', '.', 's', 'h']
}

/// Whether `s` ends with the script suffix.
pub open spec fn has_suffix(s: Seq<char>) -> bool {
    s.len() >= suffix_chars().len() && s.subrange(s.len() - suffix_chars().len(), s.len() as int)
        == suffix_chars()
}

/// Index of the last `/` of `s`, or -1 when there is none.
pub open spec fn last_slash(s: Seq<char>) -> int
    decreases s.len(),
{
    if s.len() == 0 {
        -1
    } else if s.last() == '/' {
        s.len() - 1
    } else {
        last_slash(s.drop_last())
    }
}

/// Final component of a canonical path (empty for the root).
pub open spec fn file_name_of(s: Seq<char>) -> Seq<char> {
    s.subrange(last_slash(s) + 1, s.len() as int)
}

/// Directory holding a canonical path, as `Path::parent` gives it.
pub open spec fn parent_of(s: Seq<char>) -> Option<Seq<char>> {
    let i = last_slash(s);
    if s.len() == 0 {
        None
    } else if i < 0 {
        Some(Seq::empty())
    } else if i == 0 {
        if s.len() == 1 {
            None
        } else {
            Some(seq!['/'])
        }
    } else {
        Some(s.subrange(0, i))
    }
}

/// Logical name of a script: its file name without the suffix.
pub open spec fn name_of(s: Seq<char>) -> Seq<char> {
    let f = file_name_of(s);
    if has_suffix(f) {
        f.subrange(0, f.len() - suffix_chars().len())
    } else {
        f
    }
}

pub proof fn lemma_last_slash_bounds(s: Seq<char>)
    ensures
        -1 <= last_slash(s) < s.len(),
        last_slash(s) >= 0 ==> s[last_slash(s)] == '/',
        forall|j: int| last_slash(s) < j < s.len() ==> s[j] != '/',
    decreases s.len(),
{
    if s.len() > 0 && s.last() != '/' {
        let t = s.drop_last();
        lemma_last_slash_bounds(t);
        assert forall|j: int| last_slash(s) < j < s.len() implies s[j] != '/' by {
            if j < t.len() {
                assert(s[j] == t[j]);
            }
        }
    }
}

/// Whether `s` ends with the script suffix.
pub fn ends_with_suffix(s: &str) -> (r: bool)
    ensures
        r == has_suffix(s@),
{
    let suffix = SCRIPT_SUFFIX;
    proof {
        reveal_strlit(".ha.sh");
    }
    assert(suffix@ == suffix_chars());
    let n = s.unicode_len();
    let k: usize = 6;
    if n < k {
        return false;
    }
    let mut i: usize = 0;
    while i < k
        invariant
            n == s@.len(),
            k == suffix_chars().len(),
            suffix@ == suffix_chars(),
            k <= n,
            i <= k,
            forall|j: int| 0 <= j < i ==> s@[n - k + j] == suffix_chars()[j],
        decreases k - i,
    {
        if s.get_char(n - k + i) != suffix.get_char(i) {
            assert(s@.subrange(n - k, n as int)[i as int] != suffix_chars()[i as int]);
            return false;
        }
        i = i + 1;
    }
    assert(s@.subrange(n - k, n as int) =~= suffix_chars());
    true
}

/// Position of the last `/` of `s`, if any.
fn find_last_slash(s: &str) -> (r: Option<usize>)
    ensures
        match r {
            Some(i) => i as int == last_slash(s@),
            None => last_slash(s@) == -1,
        },
{
    let n = s.unicode_len();
    let mut i: usize = n;
    assert(s@.subrange(0, n as int) =~= s@);
    while i > 0
        invariant
            n == s@.len(),
            i <= n,
            last_slash(s@) == last_slash(s@.subrange(0, i as int)),
        decreases i,
    {
        let ghost t = s@.subrange(0, i as int);
        assert(t.drop_last() =~= s@.subrange(0, i - 1));
        if s.get_char(i - 1) == '/' {
            return Some(i - 1);
        }
        i = i - 1;
    }
    None
}

/// Directory part of a canonical path, as `Path::parent` gives it.
fn parent_text(s: &str) -> (r: Option<String>)
    ensures
        match parent_of(s@) {
            Some(d) => r matches Some(p) && p@ == d,
            None => r is None,
        },
{
    let n = s.unicode_len();
    proof {
        lemma_last_slash_bounds(s@);
    }
    if n == 0 {
        return None;
    }
    match find_last_slash(s) {
        None => Some(String::new()),
        Some(i) => {
            if i == 0 {
                if n == 1 {
                    None
                } else {
                    let r = String::from_str("/");
                    proof {
                        reveal_strlit("/");
                    }
                    assert(r@ =~= seq!['/']);
                    Some(r)
                }
            } else {
                Some(s.substring_char(0, i).to_owned())
            }
        },
    }
}

/// Description of the failure for a canonical path that has no parent directory.
pub open spec fn no_parent_text() -> Seq<char> {
    "canonical path has no parent directory"@
}

pub open spec fn result_view(r: Result<String, String>) -> Result<Seq<char>, Seq<char>> {
    match r {
        Ok(c) => Ok(c@),
        Err(m) => Err(m@),
    }
}

/// Outcome of validating the script path `path`: `present` tells whether
/// anything is at the path (a dangling link counts), `is_dir` whether it is
/// a directory, and `canonical` is the result of resolving it to a canonical
/// path or the description of why that failed. The result is the canonical
/// path of the script, or the failure.
pub open spec fn validate(
    path: Seq<char>,
    present: bool,
    is_dir: bool,
    canonical: Result<Seq<char>, Seq<char>>,
) -> Result<Seq<char>, ErrorView> {
    if !has_suffix(path) {
        Err(ErrorView::UnsupportedScript(path))
    } else if !present || is_dir {
        Err(ErrorView::ScriptNotFound(path))
    } else {
        match canonical {
            Err(m) => Err(ErrorView::IO(m)),
            Ok(c) => if parent_of(c) is Some {
                Ok(c)
            } else {
                Err(ErrorView::IO(no_parent_text()))
            },
        }
    }
}

/// A path without the script suffix is rejected as unsupported, whatever the
/// file system says of it; since every run starts from a [`Script`], such a
/// path is never run.
pub proof fn lemma_unsuffixed_rejected(
    path: Seq<char>,
    present: bool,
    is_dir: bool,
    canonical: Result<Seq<char>, Seq<char>>,
)
    requires
        !has_suffix(path),
    ensures
        validate(path, present, is_dir, canonical) == Err::<Seq<char>, ErrorView>(
            ErrorView::UnsupportedScript(path),
        ),
{
}

/// A script file, identified by its canonical path.
#[derive(Debug)]
pub struct Script {
    path: String,
}

impl Script {
    /// The canonical path that identifies the script.
    pub closed spec fn spec_path(&self) -> Seq<char> {
        self.path@
    }

    /// A script's path always lies in a directory.
    #[verifier::type_invariant]
    spec fn has_parent(&self) -> bool {
        parent_of(self.path@) is Some
    }

    /// Validates a script path; see [`validate`] for the meaning of the
    /// arguments.
    pub fn from_file(
        path: &str,
        present: bool,
        is_dir: bool,
        canonical: Result<String, String>,
    ) -> (r: Result<Script, Error>)
        ensures
            match validate(path@, present, is_dir, result_view(canonical)) {
                Ok(c) => r matches Ok(s) && s.spec_path() == c,
                Err(e) => r matches Err(x) && x@ == e,
            },
    {
        if !ends_with_suffix(path) {
            Err(Error::UnsupportedScript(path.to_owned()))
        } else if !present || is_dir {
            Err(Error::ScriptNotFound(path.to_owned()))
        } else {
            match canonical {
                Ok(c) => {
                    if parent_text(c.as_str()).is_some() {
                        Ok(Script { path: c })
                    } else {
                        let m = "canonical path has no parent directory".to_owned();
                        proof {
                            reveal_strlit("canonical path has no parent directory");
                        }
                        Err(Error::IO(m))
                    }
                },
                Err(m) => Err(Error::IO(m)),
            }
        }
    }

    /// Directory that holds the script.
    pub fn parent(&self) -> (r: Result<String, Error>)
        ensures
            parent_of(self.spec_path()) is Some,
            r matches Ok(p) && Some(p@) == parent_of(self.spec_path()),
    {
        proof {
            use_type_invariant(self);
        }
        match parent_text(self.path.as_str()) {
            Some(p) => Ok(p),
            None => Err(Error::ScriptNotFound(self.path.as_str().to_owned())),
        }
    }

    /// Canonical path of the script.
    pub fn path(&self) -> (r: String)
        ensures
            r@ == self.spec_path(),
    {
        self.path.as_str().to_owned()
    }

    /// Logical name: the file name with the suffix removed.
    pub fn name(&self) -> (r: String)
        ensures
            r@ == name_of(self.spec_path()),
    {
        let s = self.path.as_str();
        let n = s.unicode_len();
        proof {
            lemma_last_slash_bounds(s@);
        }
        let start: usize = match find_last_slash(s) {
            None => 0,
            Some(i) => i + 1,
        };
        let file = s.substring_char(start, n);
        assert(file@ == file_name_of(s@));
        if ends_with_suffix(file) {
            let m = file.unicode_len();
            file.substring_char(0, m - 6).to_owned()
        } else {
            file.to_owned()
        }
    }
}

} // verus!

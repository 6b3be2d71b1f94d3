use vstd::prelude::*;

use crate::policy::MountError;

verus! {

/// A path in either namespace: a cache path such as `/mnt/s3/a.csv`, or a
/// backend path such as `s3://bucket/key`, told apart by a `scheme://` part.
#[derive(Debug, Clone)]
pub struct Path {
    full: String,
}

impl View for Path {
    type V = Seq<char>;

    closed spec fn view(&self) -> Seq<char> {
        self.full@
    }
}

/// `s` holds the separator `://` at `i`.
pub open spec fn sep_at(s: Seq<char>, i: int) -> bool {
    0 <= i && i + 3 <= s.len() && s[i] == ':' && s[i + 1] == '/' && s[i + 2] == '/'
}

/// The first place at or after `i` where `s` holds `://`.
pub open spec fn first_sep_from(s: Seq<char>, i: int) -> Option<int>
    decreases s.len() - i,
{
    if i < 0 || i + 3 > s.len() {
        None
    } else if sep_at(s, i) {
        Some(i)
    } else {
        first_sep_from(s, i + 1)
    }
}

/// The scheme of a path: what stands before its first `://`.
pub open spec fn scheme_of(s: Seq<char>) -> Option<Seq<char>> {
    match first_sep_from(s, 0) {
        Some(i) => Some(s.subrange(0, i)),
        None => None,
    }
}

/// A cache-namespace path is one without a scheme.
pub open spec fn is_cv_path(s: Seq<char>) -> bool {
    first_sep_from(s, 0) is None
}

/// A separator found in `s` is still found once something is appended.
pub proof fn lemma_sep_survives_append(s: Seq<char>, t: Seq<char>, i: int)
    requires
        first_sep_from(s, i) is Some,
    ensures
        first_sep_from(s + t, i) is Some,
    decreases s.len() - i,
{
    if !sep_at(s, i) {
        lemma_sep_survives_append(s, t, i + 1);
    }
}

/// No separator at or after `i` is the same as no `://` anywhere from `i`.
pub proof fn lemma_no_sep_from(s: Seq<char>, i: int)
    requires
        0 <= i,
    ensures
        first_sep_from(s, i) is None <==> forall|j: int| i <= j ==> !#[trigger] sep_at(s, j),
    decreases s.len() - i,
{
    if i + 3 <= s.len() {
        lemma_no_sep_from(s, i + 1);
        if first_sep_from(s, i) is None {
            assert forall|j: int| i <= j implies !#[trigger] sep_at(s, j) by {
                if j > i {
                    assert(i + 1 <= j);
                }
            }
        }
    } else {
        assert forall|j: int| i <= j implies !#[trigger] sep_at(s, j) by {}
    }
}

/// Whether `pre` is a prefix of `s`.
pub(crate) fn has_prefix(s: &str, pre: &str) -> (r: bool)
    ensures
        r == pre@.is_prefix_of(s@),
{
    let n = s.unicode_len();
    let m = pre.unicode_len();
    if m > n {
        return false;
    }
    let mut i: usize = 0;
    while i < m
        invariant
            m == pre@.len(),
            n == s@.len(),
            m <= n,
            i <= m,
            forall|j: int| 0 <= j < i ==> pre@[j] == s@[j],
        decreases m - i,
    {
        if pre.get_char(i) != s.get_char(i) {
            return false;
        }
        i = i + 1;
    }
    assert(pre@ =~= s@.subrange(0, m as int));
    true
}

impl Path {
    /// Makes a path from its text; an empty text names nothing.
    pub fn from_str(s: &str) -> (r: Result<Path, MountError>)
        ensures
            match r {
                Ok(p) => s@.len() > 0 && p@ == s@,
                Err(e) => s@.len() == 0 && e == MountError::InvalidPath,
            },
    {
        if s.unicode_len() == 0 {
            Err(MountError::InvalidPath)
        } else {
            Ok(Path { full: String::from_str(s) })
        }
    }

    /// The whole text of the path.
    pub fn full_path(&self) -> (r: &str)
        ensures
            r@ == self@,
    {
        self.full.as_str()
    }

    /// A second path with the same text.
    pub fn duplicate(&self) -> (r: Path)
        ensures
            r@ == self@,
    {
        Path { full: self.full.clone() }
    }

    /// Where the first `://` starts, if anywhere.
    fn find_sep(&self) -> (r: Option<usize>)
        ensures
            match r {
                Some(i) => first_sep_from(self@, 0) == Some(i as int) && i + 3 <= self@.len(),
                None => first_sep_from(self@, 0) is None,
            },
    {
        let s = self.full.as_str();
        let n = s.unicode_len();
        let mut i: usize = 0;
        while n >= 3 && i <= n - 3
            invariant
                n == s@.len(),
                s@ == self@,
                n >= 3 ==> i <= n - 2,
                n < 3 ==> i == 0,
                first_sep_from(self@, 0) == first_sep_from(self@, i as int),
            decreases n - i,
        {
            if s.get_char(i) == ':' && s.get_char(i + 1) == '/' && s.get_char(i + 2) == '/' {
                return Some(i);
            }
            i = i + 1;
        }
        None
    }

    /// The scheme, that is what stands before the first `://`.
    pub fn scheme(&self) -> (r: Option<String>)
        ensures
            match r {
                Some(x) => scheme_of(self@) == Some(x@),
                None => scheme_of(self@) is None,
            },
    {
        match self.find_sep() {
            Some(i) => {
                let sub = self.full.as_str().substring_char(0, i);
                Some(String::from_str(sub))
            },
            None => None,
        }
    }

    /// Whether the path lies in the cache namespace, that is has no scheme.
    pub fn is_cv(&self) -> (r: bool)
        ensures
            r == is_cv_path(self@),
    {
        self.find_sep().is_none()
    }
}

} // verus!

//! Slash-separated paths as texts: the last component and its extension.

use vstd::prelude::*;
use crate::text::{char_range, chars_of, string_from_chars};

verus! {

/// The position of the last `c` in `s`, if any.
pub open spec fn last_index_of(s: Seq<char>, c: char) -> Option<nat>
    decreases s.len(),
{
    if s.len() == 0 {
        None
    } else if s.last() == c {
        Some((s.len() - 1) as nat)
    } else {
        last_index_of(s.drop_last(), c)
    }
}

/// The last component of a path: what follows its last slash.
pub open spec fn file_name_of(path: Seq<char>) -> Seq<char> {
    match last_index_of(path, '/') {
        Some(k) => path.subrange(k + 1int, path.len() as int),
        None => path,
    }
}

/// The extension of a file name: what follows its last dot, where
/// something precedes that dot; `..` has none.
pub open spec fn extension_of_name(name: Seq<char>) -> Option<Seq<char>> {
    if name == seq!['.', '.'] {
        None
    } else {
        match last_index_of(name, '.') {
            Some(k) => if k == 0 {
                None
            } else {
                Some(name.subrange(k + 1int, name.len() as int))
            },
            None => None,
        }
    }
}

/// The extension of the last component of `path`.
pub open spec fn extension_of(path: Seq<char>) -> Option<Seq<char>> {
    extension_of_name(file_name_of(path))
}

proof fn lemma_last_index_of(s: Seq<char>, c: char)
    ensures
        match last_index_of(s, c) {
            Some(k) => k < s.len() && s[k as int] == c && forall|j: int| k < j < s.len() ==> s[j] != c,
            None => forall|j: int| 0 <= j < s.len() ==> s[j] != c,
        },
    decreases s.len(),
{
    if s.len() > 0 && s.last() != c {
        lemma_last_index_of(s.drop_last(), c);
        assert forall|j: int| 0 <= j < s.len() - 1 implies s[j] == s.drop_last()[j] by {}
    }
}

/// Finds the last `c` in `s`.
pub fn last_index(s: &[char], c: char) -> (r: Option<usize>)
    ensures
        match r {
            Some(k) => last_index_of(s@, c) == Some(k as nat),
            None => last_index_of(s@, c) is None,
        },
{
    let mut n: usize = s.len();
    assert(s@.subrange(0, n as int) =~= s@);
    while n > 0
        invariant
            n <= s@.len(),
            last_index_of(s@.subrange(0, n as int), c) == last_index_of(s@, c),
        decreases n,
    {
        if s[n - 1] == c {
            return Some(n - 1);
        }
        assert(s@.subrange(0, n - 1) =~= s@.subrange(0, n as int).drop_last());
        n = n - 1;
    }
    None
}

/// The last component of `path`.
pub fn file_name(path: &str) -> (r: String)
    ensures
        r@ == file_name_of(path@),
{
    let cs = chars_of(path);
    match last_index(cs.as_slice(), '/') {
        Some(k) => {
            proof {
                lemma_last_index_of(path@, '/');
            }
            let t = char_range(cs.as_slice(), k + 1, cs.len());
            string_from_chars(t.as_slice())
        },
        None => path.to_owned(),
    }
}

/// The extension of the last component of `path`, if it has one.
pub fn extension(path: &str) -> (r: Option<String>)
    ensures
        match r {
            Some(e) => extension_of(path@) == Some(e@),
            None => extension_of(path@) is None,
        },
{
    let name = file_name(path);
    let cs = chars_of(name.as_str());
    if cs.len() == 2 && cs[0] == '.' && cs[1] == '.' {
        assert(name@ =~= seq!['.', '.']);
        return None;
    }
    assert(name@ != seq!['.', '.']) by {
        if name@ == seq!['.', '.'] {
            assert(cs@[0] == '.' && cs@[1] == '.');
        }
    }
    match last_index(cs.as_slice(), '.') {
        Some(k) => {
            proof {
                lemma_last_index_of(name@, '.');
            }
            if k == 0 {
                None
            } else {
                let t = char_range(cs.as_slice(), k + 1, cs.len());
                Some(string_from_chars(t.as_slice()))
            }
        },
        None => None,
    }
}

/// The first position of `c` in `s`, if any.
pub open spec fn first_index_of(s: Seq<char>, c: char) -> Option<nat>
    decreases s.len(),
{
    if s.len() == 0 {
        None
    } else if s[0] == c {
        Some(0)
    } else {
        match first_index_of(s.drop_first(), c) {
            Some(i) => Some(i + 1),
            None => None,
        }
    }
}

pub proof fn lemma_first_index_of(s: Seq<char>, c: char)
    ensures
        match first_index_of(s, c) {
            Some(k) => k < s.len() && s[k as int] == c && forall|j: int| 0 <= j < k ==> s[j] != c,
            None => forall|j: int| 0 <= j < s.len() ==> s[j] != c,
        },
    decreases s.len(),
{
    if s.len() > 0 && s[0] != c {
        lemma_first_index_of(s.drop_first(), c);
        assert forall|j: int| 1 <= j < s.len() implies s[j] == s.drop_first()[j - 1] by {}
    }
}

/// Finds the first `c` in `s`.
pub fn first_index(s: &[char], c: char) -> (r: Option<usize>)
    ensures
        match r {
            Some(k) => first_index_of(s@, c) == Some(k as nat),
            None => first_index_of(s@, c) is None,
        },
{
    let mut i: usize = 0;
    while i < s.len()
        invariant
            i <= s@.len(),
            forall|j: int| 0 <= j < i ==> s@[j] != c,
        decreases s@.len() - i,
    {
        if s[i] == c {
            proof {
                lemma_first_index_of(s@, c);
                let f = first_index_of(s@, c);
                if f is Some {
                    let k = f->0;
                    if k < i {
                        assert(s@[k as int] != c);
                    } else if k > i {
                        assert(s@[i as int] != c);
                    }
                }
            }
            return Some(i);
        }
        i = i + 1;
    }
    proof {
        lemma_first_index_of(s@, c);
        let f = first_index_of(s@, c);
        if f is Some {
            let k = f->0;
            assert(s@[k as int] == c);
        }
    }
    None
}

/// Finds the first `c` in `s` at or after `from`.
pub fn first_index_in(s: &[char], from: usize, c: char) -> (r: Option<usize>)
    requires
        from <= s@.len(),
    ensures
        match r {
            Some(e) => from <= e < s@.len() && first_index_of(s@.subrange(from as int, s@.len() as int), c)
                == Some((e - from) as nat),
            None => first_index_of(s@.subrange(from as int, s@.len() as int), c) is None,
        },
{
    let mut i: usize = from;
    while i < s.len()
        invariant
            from <= i <= s@.len(),
            forall|j: int| from <= j < i ==> s@[j] != c,
        decreases s@.len() - i,
    {
        if s[i] == c {
            proof {
                let t = s@.subrange(from as int, s@.len() as int);
                lemma_first_index_of(t, c);
                let f = first_index_of(t, c);
                if f is Some {
                    let k = f->0;
                    if k < i - from {
                        assert(t[k as int] == s@[from + k]);
                    } else if k > i - from {
                        assert(t[i - from] == s@[i as int]);
                    }
                } else {
                    assert(t[i - from] == s@[i as int]);
                }
            }
            return Some(i);
        }
        i = i + 1;
    }
    proof {
        let t = s@.subrange(from as int, s@.len() as int);
        lemma_first_index_of(t, c);
        let f = first_index_of(t, c);
        if f is Some {
            let k = f->0;
            assert(t[k as int] == s@[from + k]);
        }
    }
    None
}

} // verus!

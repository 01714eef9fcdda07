//! Texts as sequences of characters: prefixes and the last occurrence of a
//! character.

use vstd::prelude::*;

verus! {

/// The characters of `s`, in order.
pub fn chars_of(s: &str) -> (v: Vec<char>)
    ensures
        v@ == s@,
{
    let mut v: Vec<char> = Vec::new();
    for c in it: s.chars()
        invariant
            it.seq() == s@,
            v@ == it.seq().take(it.index()),
    {
        v.push(c);
    }
    v
}

/// The index of the last occurrence of `c` in `s`, if there is one.
pub open spec fn last_index_of(s: Seq<char>, c: char) -> Option<int>
    decreases s.len(),
{
    if s.len() == 0 {
        None
    } else if s.last() == c {
        Some(s.len() - 1)
    } else {
        last_index_of(s.drop_last(), c)
    }
}

/// `last_index_of` finds an occurrence that no other follows, and finds
/// none only where there is none.
pub proof fn lemma_last_index_of(s: Seq<char>, c: char)
    ensures
        match last_index_of(s, c) {
            Some(i) => 0 <= i < s.len() && s[i] == c && forall|j: int|
                i < j < s.len() ==> s[j] != c,
            None => forall|j: int| 0 <= j < s.len() ==> s[j] != c,
        },
    decreases s.len(),
{
    if s.len() > 0 && s.last() != c {
        let front = s.drop_last();
        lemma_last_index_of(front, c);
        assert(forall|j: int| 0 <= j < front.len() ==> front[j] == s[j]);
    }
}

/// An occurrence of `c` that no other follows is the one that
/// `last_index_of` finds.
pub proof fn lemma_last_index_of_unique(s: Seq<char>, c: char, i: int)
    requires
        0 <= i < s.len(),
        s[i] == c,
        forall|j: int| i < j < s.len() ==> s[j] != c,
    ensures
        last_index_of(s, c) == Some(i),
{
    lemma_last_index_of(s, c);
}

/// Whether the text `s` begins with the text `prefix`.
pub fn starts_with(s: &str, prefix: &str) -> (r: bool)
    ensures
        r == prefix@.is_prefix_of(s@),
{
    let cs = chars_of(s);
    let ps = chars_of(prefix);
    if ps.len() > cs.len() {
        return false;
    }
    let mut i: usize = 0;
    while i < ps.len()
        invariant
            i <= ps.len() <= cs.len(),
            cs@ == s@,
            ps@ == prefix@,
            forall|j: int| 0 <= j < i ==> cs[j] == ps[j],
        decreases ps.len() - i,
    {
        if cs[i] != ps[i] {
            assert(cs@.subrange(0, ps@.len() as int)[i as int] != ps@[i as int]);
            return false;
        }
        i = i + 1;
    }
    assert(cs@.subrange(0, ps@.len() as int) =~= ps@);
    true
}

/// Finds the last occurrence of the character `c` in the text `s`. The
/// index it returns counts characters, not bytes.
pub fn find_last(s: &str, c: char) -> (r: Option<usize>)
    ensures
        match r {
            Some(i) => last_index_of(s@, c) == Some(i as int),
            None => last_index_of(s@, c) is None,
        },
{
    let cs = chars_of(s);
    let mut i: usize = cs.len();
    while i > 0
        invariant
            i <= cs.len(),
            cs@ == s@,
            forall|j: int| i <= j < cs.len() ==> cs[j] != c,
        decreases i,
    {
        i = i - 1;
        if cs[i] == c {
            proof {
                lemma_last_index_of_unique(cs@, c, i as int);
            }
            return Some(i);
        }
    }
    proof {
        lemma_last_index_of(cs@, c);
    }
    None
}

} // verus!

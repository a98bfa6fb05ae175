use vstd::prelude::*;

verus! {

/// Index of the last `c` in `s`, or -1 when there is none.
pub open spec fn last_index(s: Seq<char>, c: char) -> int
    decreases s.len(),
{
    if s.len() == 0 {
        -1
    } else if s.last() == c {
        s.len() - 1
    } else {
        last_index(s.drop_last(), c)
    }
}

/// Index of the first `.` in `s`, or `s.len()` when there is none.
pub open spec fn first_dot(s: Seq<char>) -> int
    decreases s.len(),
{
    if s.len() == 0 {
        0
    } else if s[0] == '.' {
        0
    } else {
        1 + first_dot(s.drop_first())
    }
}

/// The extension of a file name: what follows its last `.`, or the whole
/// name when it holds no `.`.
pub open spec fn extension_spec(s: Seq<char>) -> Seq<char> {
    suffix_after(s, '.')
}

/// The display name of a file: what precedes its first `.`, or the whole
/// name when it holds no `.`.
pub open spec fn stem_spec(s: Seq<char>) -> Seq<char> {
    s.subrange(0, first_dot(s))
}

proof fn lemma_last_index_bounds(s: Seq<char>, c: char)
    ensures
        -1 <= last_index(s, c) < s.len(),
        last_index(s, c) >= 0 ==> s[last_index(s, c)] == c,
        forall|j: int| last_index(s, c) < j < s.len() ==> s[j] != c,
    decreases s.len(),
{
    if s.len() > 0 && s.last() != c {
        lemma_last_index_bounds(s.drop_last(), c);
        assert(forall|j: int| 0 <= j < s.len() - 1 ==> s.drop_last()[j] == s[j]);
    }
}

proof fn lemma_first_dot_bounds(s: Seq<char>)
    ensures
        0 <= first_dot(s) <= s.len(),
        first_dot(s) < s.len() ==> s[first_dot(s)] == '.',
        forall|j: int| 0 <= j < first_dot(s) ==> s[j] != '.',
    decreases s.len(),
{
    if s.len() > 0 && s[0] != '.' {
        lemma_first_dot_bounds(s.drop_first());
        assert(forall|j: int| 1 <= j < s.len() ==> s.drop_first()[j - 1] == s[j]);
    }
}

/// The text of `s` after its last `c`, or all of `s` when it holds no `c`.
pub open spec fn suffix_after(s: Seq<char>, c: char) -> Seq<char> {
    s.subrange(last_index(s, c) + 1, s.len() as int)
}

fn suffix_after_last(name: &str, c: char) -> (r: String)
    ensures
        r@ == suffix_after(name@, c),
{
    let n = name.unicode_len();
    let mut i: usize = n;
    assert(name@.subrange(0, n as int) =~= name@);
    while i > 0 && name.get_char(i - 1) != c
        invariant
            i <= n,
            n == name@.len(),
            last_index(name@, c) == last_index(name@.subrange(0, i as int), c),
        decreases i,
    {
        proof {
            let t = name@.subrange(0, i as int);
            assert(t.drop_last() =~= name@.subrange(0, i - 1));
        }
        i = i - 1;
    }
    proof {
        lemma_last_index_bounds(name@, c);
        let t = name@.subrange(0, i as int);
        if i > 0 {
            assert(t.last() == c);
        } else {
            assert(t.len() == 0);
        }
    }
    name.substring_char(i, n).to_string()
}

/// The extension of `name`: the text after its last `.`.
pub fn extension_of(name: &str) -> (r: String)
    ensures
        r@ == extension_spec(name@),
{
    suffix_after_last(name, '.')
}

/// The program's name in a path: the text after its last `/`.
pub fn program_name(path: &str) -> (r: String)
    ensures
        r@ == suffix_after(path@, '/'),
{
    suffix_after_last(path, '/')
}

/// The display name taken from `name`: the text before its first `.`.
pub fn stem_of(name: &str) -> (r: String)
    ensures
        r@ == stem_spec(name@),
{
    let n = name.unicode_len();
    let mut i: usize = 0;
    assert(name@.subrange(0, n as int) =~= name@);
    while i < n && name.get_char(i) != '.'
        invariant
            i <= n,
            n == name@.len(),
            first_dot(name@) == i + first_dot(name@.subrange(i as int, n as int)),
        decreases n - i,
    {
        proof {
            let t = name@.subrange(i as int, n as int);
            assert(t.drop_first() =~= name@.subrange(i + 1, n as int));
        }
        i = i + 1;
    }
    proof {
        let t = name@.subrange(i as int, n as int);
        if i < n {
            assert(t[0] == '.');
        } else {
            assert(t.len() == 0);
        }
    }
    name.substring_char(0, i).to_string()
}

} // verus!

//! Small verified helpers over strings: splitting an address at its first
//! separator, comparing strings, and joining path segments.
use vstd::prelude::*;
use vstd::string::*;

verus! {

/// `i` is the first position of `c` in `s`.
pub open spec fn is_first_index(s: Seq<char>, c: char, i: int) -> bool {
    &&& 0 <= i < s.len()
    &&& s[i] == c
    &&& forall|j: int| 0 <= j < i ==> s[j] != c
}

/// The first position of `c` in `s`, if `c` occurs in `s`.
pub open spec fn first_index(s: Seq<char>, c: char) -> Option<int> {
    if s.contains(c) {
        Some(choose|i: int| is_first_index(s, c, i))
    } else {
        None
    }
}

/// Splits `s` at the first occurrence of `c`, dropping that occurrence
/// (what `str::split_once` does for a single character).
pub open spec fn split_once(s: Seq<char>, c: char) -> Option<(Seq<char>, Seq<char>)> {
    match first_index(s, c) {
        Some(i) => Some((s.take(i), s.skip(i + 1))),
        None => None,
    }
}

/// Joins `parts` with `sep` between each two neighbours (what `[String]::join` does).
pub open spec fn join(parts: Seq<Seq<char>>, sep: Seq<char>) -> Seq<char>
    decreases parts.len(),
{
    if parts.len() == 0 {
        Seq::empty()
    } else if parts.len() == 1 {
        parts[0]
    } else {
        join(parts.drop_last(), sep) + sep + parts.last()
    }
}

/// The views of a sequence of strings.
pub open spec fn views(v: Seq<String>) -> Seq<Seq<char>> {
    v.map_values(|s: String| s@)
}

/// The path separator of OSC addresses.
pub open spec fn slash() -> Seq<char> {
    seq!['/']
}

/// A string whose first occurrence of `c` is at position `i` has no earlier
/// occurrence; so two first positions coincide.
pub proof fn lemma_first_index_unique(s: Seq<char>, c: char, i: int, j: int)
    requires
        is_first_index(s, c, i),
        is_first_index(s, c, j),
    ensures
        i == j,
{
}

/// Where `c` first occurs at `i`, `first_index` names `i`.
pub proof fn lemma_first_index_is(s: Seq<char>, c: char, i: int)
    requires
        is_first_index(s, c, i),
    ensures
        first_index(s, c) == Some(i),
{
    assert(s.contains(c));
    let k = choose|k: int| is_first_index(s, c, k);
    lemma_first_index_unique(s, c, i, k);
}

/// Splitting `a + [c] + b` at `c`, where `a` holds no `c`, gives back `a` and `b`.
pub proof fn lemma_split_once_concat(a: Seq<char>, c: char, b: Seq<char>)
    requires
        !a.contains(c),
    ensures
        split_once(a + seq![c] + b, c) == Some((a, b)),
{
    let s = a + seq![c] + b;
    assert(s[a.len() as int] == c);
    assert forall|j: int| 0 <= j < a.len() implies s[j] != c by {
        assert(s[j] == a[j]);
    }
    lemma_first_index_is(s, c, a.len() as int);
    assert(s.take(a.len() as int) =~= a);
    assert(s.skip(a.len() as int + 1) =~= b);
}

/// A string with no `c` does not split at `c`.
pub proof fn lemma_split_once_none(a: Seq<char>, c: char)
    requires
        !a.contains(c),
    ensures
        split_once(a, c) is None,
{
}

/// Joining two parts puts the separator between them.
pub proof fn lemma_join_two(a: Seq<char>, b: Seq<char>, sep: Seq<char>)
    ensures
        join(seq![a, b], sep) == a + sep + b,
{
    reveal_with_fuel(join, 2);
    assert(seq![a, b].drop_last() =~= seq![a]);
    assert(seq![a][0] == a);
    assert(seq![a, b].last() == b);
}

/// Appending a part to a non-empty list of parts appends the separator and the part.
pub proof fn lemma_join_push(parts: Seq<Seq<char>>, p: Seq<char>, sep: Seq<char>)
    requires
        parts.len() > 0,
    ensures
        join(parts.push(p), sep) == join(parts, sep) + sep + p,
{
    assert(parts.push(p).drop_last() =~= parts);
}

/// Joining parts under no prefix, or under one empty segment, gives the joined
/// parts, in the second case with a separator in front.
pub proof fn lemma_join_root(prefix: Seq<Seq<char>>, parts: Seq<Seq<char>>, sep: Seq<char>)
    requires
        prefix.len() == 0 || prefix == seq![Seq::<char>::empty()],
        parts.len() >= 1,
    ensures
        join(prefix + parts, sep) == (if prefix.len() == 0 {
            join(parts, sep)
        } else {
            sep + join(parts, sep)
        }),
    decreases parts.len(),
{
    if parts.len() == 1 {
        if prefix.len() == 0 {
            assert(prefix + parts =~= parts);
        } else {
            assert(prefix + parts =~= seq![Seq::<char>::empty(), parts[0]]);
            lemma_join_two(Seq::<char>::empty(), parts[0], sep);
            assert(Seq::<char>::empty() + sep =~= sep);
        }
    } else {
        let front = parts.drop_last();
        lemma_join_root(prefix, front, sep);
        assert(prefix + parts =~= (prefix + front).push(parts.last()));
        assert(front.push(parts.last()) =~= parts);
        lemma_join_push(prefix + front, parts.last(), sep);
        lemma_join_push(front, parts.last(), sep);
        if prefix.len() != 0 {
            assert(sep + join(front, sep) + sep + parts.last() =~= sep + (join(front, sep) + sep
                + parts.last()));
        }
    }
}

/// Joining three parts puts the separator between each two.
pub proof fn lemma_join_three(a: Seq<char>, b: Seq<char>, c: Seq<char>, sep: Seq<char>)
    ensures
        join(seq![a, b, c], sep) == a + sep + b + sep + c,
{
    lemma_join_two(a, b, sep);
    lemma_join_push(seq![a, b], c, sep);
    assert(seq![a, b].push(c) =~= seq![a, b, c]);
}

/// Whether `a` and `b` hold the same characters.
pub fn str_eq(a: &str, b: &str) -> (r: bool)
    ensures
        r == (a@ == b@),
{
    let n = a.unicode_len();
    let m = b.unicode_len();
    if n != m {
        return false;
    }
    let mut i: usize = 0;
    while i < n
        invariant
            n == a@.len(),
            m == b@.len(),
            n == m,
            i <= n,
            forall|j: int| 0 <= j < i ==> a@[j] == b@[j],
        decreases n - i,
    {
        if a.get_char(i) != b.get_char(i) {
            return false;
        }
        i = i + 1;
    }
    assert(a@ =~= b@);
    true
}

/// The first position of `c` in `s`, if any.
pub fn find_char(s: &str, c: char) -> (r: Option<usize>)
    ensures
        match r {
            Some(i) => first_index(s@, c) == Some(i as int) && is_first_index(s@, c, i as int),
            None => first_index(s@, c) is None,
        },
{
    let n = s.unicode_len();
    let mut i: usize = 0;
    while i < n
        invariant
            n == s@.len(),
            i <= n,
            forall|j: int| 0 <= j < i ==> s@[j] != c,
        decreases n - i,
    {
        if s.get_char(i) == c {
            proof {
                lemma_first_index_is(s@, c, i as int);
            }
            return Some(i);
        }
        i = i + 1;
    }
    assert(!s@.contains(c));
    None
}

/// Splits `s` at the first occurrence of `c` (as `str::split_once` with a character pattern).
pub fn split_once_char(s: &str, c: char) -> (r: Option<(&str, &str)>)
    ensures
        match r {
            Some((a, b)) => split_once(s@, c) == Some((a@, b@)),
            None => split_once(s@, c) is None,
        },
{
    match find_char(s, c) {
        Some(i) => {
            let n = s.unicode_len();
            let a = s.substring_char(0, i);
            let b = s.substring_char(i + 1, n);
            assert(a@ =~= s@.take(i as int));
            assert(b@ =~= s@.skip(i + 1));
            Some((a, b))
        },
        None => None,
    }
}

/// The string after its first character, where that character is `c`; the string itself otherwise.
pub fn strip_first_char(s: &str, c: char) -> (r: &str)
    ensures
        r@ == (if s@.len() > 0 && s@[0] == c {
            s@.skip(1)
        } else {
            s@
        }),
{
    let n = s.unicode_len();
    if n > 0 && s.get_char(0) == c {
        let r = s.substring_char(1, n);
        assert(r@ =~= s@.skip(1));
        r
    } else {
        let r = s.substring_char(0, n);
        assert(r@ =~= s@);
        r
    }
}

/// Joins `parts` with "/" between each two neighbours.
pub fn join_slash(parts: &Vec<String>) -> (r: String)
    ensures
        r@ == join(views(parts@), slash()),
{
    let mut r = String::new();
    let n = parts.len();
    let mut i: usize = 0;
    while i < n
        invariant
            n == parts@.len(),
            i <= n,
            r@ == join(views(parts@.take(i as int)), slash()),
        decreases n - i,
    {
        proof {
            assert(views(parts@.take(i + 1)).drop_last() =~= views(parts@.take(i as int)));
            assert(views(parts@.take(i + 1)).last() == parts@[i as int]@);
            assert(views(parts@.take(i + 1)).len() == i + 1);
            if i == 0 {
                assert(views(parts@.take(1))[0] == parts@[0]@);
            }
        }
        if i > 0 {
            r.append("/");
            proof {
                reveal_strlit("/");
                assert("/"@ =~= slash());
            }
        }
        r.append(parts[i].as_str());
        i = i + 1;
        proof {
            if i == 1 {
                assert(r@ =~= parts@[0]@);
            }
        }
    }
    assert(parts@.take(n as int) =~= parts@);
    r
}

} // verus!

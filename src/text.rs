//! Character-level helpers on strings, each with an exact contract over the
//! string's view as a sequence of characters.
use vstd::prelude::*;
use vstd::string::*;

verus! {

/// Does `s` start with `p`?
pub open spec fn has_prefix(s: Seq<char>, p: Seq<char>) -> bool {
    p.len() <= s.len() && s.subrange(0, p.len() as int) == p
}

/// Index of the last occurrence of `c` in `s`, or -1 when there is none.
pub open spec fn last_index_of(s: Seq<char>, c: char) -> int
    decreases s.len(),
{
    if s.len() == 0 {
        -1
    } else if s.last() == c {
        s.len() - 1
    } else {
        last_index_of(s.drop_last(), c)
    }
}

/// Every `c` in `s` replaced by `w`.
pub open spec fn replace_char_spec(s: Seq<char>, c: char, w: Seq<char>) -> Seq<char>
    decreases s.len(),
{
    if s.len() == 0 {
        s
    } else {
        let head = if s[0] == c { w } else { seq![s[0]] };
        head + replace_char_spec(s.subrange(1, s.len() as int), c, w)
    }
}

/// Occurrences of `..` replaced by `_`, scanning left to right without overlap.
pub open spec fn replace_double_dot_spec(s: Seq<char>) -> Seq<char>
    decreases s.len(),
{
    if s.len() < 2 {
        s
    } else if s[0] == '.' && s[1] == '.' {
        seq!['_'] + replace_double_dot_spec(s.subrange(2, s.len() as int))
    } else {
        seq![s[0]] + replace_double_dot_spec(s.subrange(1, s.len() as int))
    }
}

/// Does `s` hold two consecutive dots anywhere?
pub open spec fn has_double_dot(s: Seq<char>) -> bool {
    exists|i: int| 0 <= i && i + 1 < s.len() && #[trigger] s[i] == '.' && s[i + 1] == '.'
}

/// After replacing, no two dots stand side by side; and the result starts
/// with a dot only where the input does.
pub proof fn lemma_double_dot_gone(s: Seq<char>)
    ensures
        !has_double_dot(replace_double_dot_spec(s)),
        s.len() > 0 ==> replace_double_dot_spec(s).len() > 0,
        s.len() > 0 && replace_double_dot_spec(s)[0] == '.' ==> s[0] == '.',
    decreases s.len(),
{
    let r = replace_double_dot_spec(s);
    if s.len() >= 2 {
        let pair = s[0] == '.' && s[1] == '.';
        let t = if pair {
            s.subrange(2, s.len() as int)
        } else {
            s.subrange(1, s.len() as int)
        };
        lemma_double_dot_gone(t);
        let rt = replace_double_dot_spec(t);
        let h: char = if pair {
            '_'
        } else {
            s[0]
        };
        assert(r =~= seq![h] + rt);
        assert forall|i: int| 0 <= i && i + 1 < r.len() && #[trigger] r[i] == '.' implies r[i + 1]
            != '.' by {
            if i == 0 {
                assert(!pair && s[0] == '.');
                assert(t[0] == s[1]);
                assert(r[1] == rt[0]);
            } else {
                assert(r[i] == rt[i - 1]);
                assert(r[i + 1] == rt[i]);
                if rt[i] == '.' {
                    assert(has_double_dot(rt));
                }
            }
        }
    }
}

/// The last occurrence lies inside `s`, holds `c`, and no `c` follows it.
pub proof fn lemma_last_index_bounds(s: Seq<char>, c: char)
    ensures
        -1 <= last_index_of(s, c) < s.len(),
        last_index_of(s, c) >= 0 ==> s[last_index_of(s, c)] == c,
        forall|j: int| last_index_of(s, c) < j < s.len() ==> s[j] != c,
    decreases s.len(),
{
    if s.len() > 0 && s.last() != c {
        lemma_last_index_bounds(s.drop_last(), c);
        assert(forall|j: int| 0 <= j < s.len() - 1 ==> s.drop_last()[j] == s[j]);
    }
}

/// Text equality, character by character.
pub fn same_text(a: &str, b: &str) -> (r: bool)
    ensures
        r == (a@ == b@),
{
    let n = a.unicode_len();
    if n != b.unicode_len() {
        return false;
    }
    let mut i: usize = 0;
    while i < n
        invariant
            n == a@.len(),
            n == b@.len(),
            i <= n,
            forall|j: int| 0 <= j < i ==> a@[j] == b@[j],
        decreases n - i,
    {
        if a.get_char(i) != b.get_char(i) {
            return false;
        }
        i = i + 1;
    }
    assert(a@ =~= b@);
    true
}

/// Whether `s` begins with `p`.
pub fn starts_with(s: &str, p: &str) -> (r: bool)
    ensures
        r == has_prefix(s@, p@),
{
    let n = s.unicode_len();
    let m = p.unicode_len();
    if m > n {
        return false;
    }
    let mut i: usize = 0;
    while i < m
        invariant
            n == s@.len(),
            m == p@.len(),
            m <= n,
            i <= m,
            forall|j: int| 0 <= j < i ==> s@[j] == p@[j],
        decreases m - i,
    {
        if s.get_char(i) != p.get_char(i) {
            return false;
        }
        i = i + 1;
    }
    assert(s@.subrange(0, m as int) =~= p@);
    true
}

/// Position of the last `c` in `s`, if any.
pub fn find_last(s: &str, c: char) -> (r: Option<usize>)
    ensures
        match r {
            Some(k) => k as int == last_index_of(s@, c),
            None => last_index_of(s@, c) == -1,
        },
{
    let n = s.unicode_len();
    let mut i: usize = n;
    assert(s@.subrange(0, n as int) =~= s@);
    while i > 0
        invariant
            n == s@.len(),
            i <= n,
            last_index_of(s@, c) == last_index_of(s@.subrange(0, i as int), c),
        decreases i,
    {
        let ghost pre = s@.subrange(0, i as int);
        assert(pre.drop_last() =~= s@.subrange(0, i - 1));
        if s.get_char(i - 1) == c {
            return Some(i - 1);
        }
        i = i - 1;
    }
    None
}

/// Copy of `s` with every `c` replaced by `w`.
pub fn replace_char(s: &str, c: char, w: &str) -> (r: String)
    ensures
        r@ == replace_char_spec(s@, c, w@),
{
    let n = s.unicode_len();
    let mut out = String::new();
    let mut i: usize = 0;
    let mut start: usize = 0;
    assert(s@.subrange(0, n as int) =~= s@);
    assert(out@ + s@.subrange(0, 0) =~= Seq::<char>::empty());
    while i < n
        invariant
            n == s@.len(),
            start <= i <= n,
            replace_char_spec(s@, c, w@) == out@ + s@.subrange(start as int, i as int)
                + replace_char_spec(s@.subrange(i as int, n as int), c, w@),
        decreases n - i,
    {
        let ghost rest = s@.subrange(i as int, n as int);
        assert(rest.subrange(1, rest.len() as int) =~= s@.subrange(i + 1, n as int));
        if s.get_char(i) == c {
            let seg = s.substring_char(start, i);
            out.append(seg);
            out.append(w);
            assert(s@.subrange(i + 1, i + 1) =~= Seq::<char>::empty());
            assert(out@ + s@.subrange(i + 1, i + 1) =~= out@);
            start = i + 1;
        } else {
            assert(s@.subrange(start as int, i + 1) =~= s@.subrange(start as int, i as int)
                + seq![s@[i as int]]);
        }
        i = i + 1;
    }
    let seg = s.substring_char(start, n);
    out.append(seg);
    assert(s@.subrange(n as int, n as int) =~= Seq::<char>::empty());
    assert(replace_char_spec(Seq::<char>::empty(), c, w@) =~= Seq::<char>::empty());
    out
}

/// Copy of `s` with every `..` replaced by `_`, left to right.
pub fn replace_double_dot(s: &str) -> (r: String)
    ensures
        r@ == replace_double_dot_spec(s@),
{
    let n = s.unicode_len();
    let mut out = String::new();
    let mut i: usize = 0;
    let mut start: usize = 0;
    assert(s@.subrange(0, n as int) =~= s@);
    assert(out@ + s@.subrange(0, 0) =~= Seq::<char>::empty());
    while n > 0 && i < n - 1
        invariant
            n == s@.len(),
            start <= i <= n,
            replace_double_dot_spec(s@) == out@ + s@.subrange(start as int, i as int)
                + replace_double_dot_spec(s@.subrange(i as int, n as int)),
        decreases n - i,
    {
        let ghost rest = s@.subrange(i as int, n as int);
        if s.get_char(i) == '.' && s.get_char(i + 1) == '.' {
            assert(rest.subrange(2, rest.len() as int) =~= s@.subrange(i + 2, n as int));
            let seg = s.substring_char(start, i);
            out.append(seg);
            out.append("_");
            proof {
                reveal_strlit("_");
            }
            assert(s@.subrange(i + 2, i + 2) =~= Seq::<char>::empty());
            assert(out@ + s@.subrange(i + 2, i + 2) =~= out@);
            start = i + 2;
            i = i + 2;
        } else {
            assert(rest.subrange(1, rest.len() as int) =~= s@.subrange(i + 1, n as int));
            assert(s@.subrange(start as int, i + 1) =~= s@.subrange(start as int, i as int)
                + seq![s@[i as int]]);
            i = i + 1;
        }
    }
    let seg = s.substring_char(start, n);
    out.append(seg);
    assert(s@.subrange(start as int, i as int) + s@.subrange(i as int, n as int)
        =~= s@.subrange(start as int, n as int));
    out
}

/// The text of an optional string.
pub open spec fn opt_view(o: Option<String>) -> Option<Seq<char>> {
    match o {
        Some(s) => Some(s@),
        None => None,
    }
}

/// Equality of two optional strings, unset matching only unset.
pub fn same_optional_text(a: &Option<String>, b: &Option<String>) -> (r: bool)
    ensures
        r == (opt_view(*a) == opt_view(*b)),
{
    match (a, b) {
        (Some(x), Some(y)) => same_text(x.as_str(), y.as_str()),
        (None, None) => true,
        _ => false,
    }
}

/// Does `list` hold an entry whose text is `s`?
pub open spec fn text_in(list: Seq<&str>, s: Seq<char>) -> bool {
    exists|i: int| 0 <= i < list.len() && (#[trigger] list[i])@ == s
}

/// Whether some entry of `list` reads exactly as `s`.
pub fn contains_text(list: &Vec<&str>, s: &str) -> (r: bool)
    ensures
        r == text_in(list@, s@),
{
    let mut i: usize = 0;
    while i < list.len()
        invariant
            i <= list@.len(),
            forall|j: int| 0 <= j < i ==> (#[trigger] list@[j])@ != s@,
        decreases list@.len() - i,
    {
        if same_text(list[i], s) {
            return true;
        }
        i = i + 1;
    }
    false
}

} // verus!

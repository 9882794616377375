//! Character-level text scanning used by the configuration and code generation logic.
use vstd::prelude::*;

verus! {

/// `pat` occurs in `s` starting at position `i`.
pub open spec fn occurs_at(s: Seq<char>, pat: Seq<char>, i: int) -> bool {
    0 <= i && i + pat.len() <= s.len() && s.subrange(i, i + pat.len()) =~= pat
}

/// `i` is the leftmost position where `pat` occurs in `s`.
pub open spec fn is_first_occurrence(s: Seq<char>, pat: Seq<char>, i: int) -> bool {
    occurs_at(s, pat, i) && forall|j: int| 0 <= j < i ==> !#[trigger] occurs_at(s, pat, j)
}

/// `i` is the rightmost position where `pat` occurs in `s`.
pub open spec fn is_last_occurrence(s: Seq<char>, pat: Seq<char>, i: int) -> bool {
    occurs_at(s, pat, i) && forall|j: int| i < j ==> !#[trigger] occurs_at(s, pat, j)
}

/// The leftmost position of `pat` in `s`, if it occurs.
pub open spec fn first_occurrence(s: Seq<char>, pat: Seq<char>) -> Option<int> {
    if exists|i: int| occurs_at(s, pat, i) {
        Some(choose|i: int| is_first_occurrence(s, pat, i))
    } else {
        None
    }
}

/// The rightmost position of `pat` in `s`, if it occurs.
pub open spec fn last_occurrence(s: Seq<char>, pat: Seq<char>) -> Option<int> {
    if exists|i: int| occurs_at(s, pat, i) {
        Some(choose|i: int| is_last_occurrence(s, pat, i))
    } else {
        None
    }
}

/// The part of `s` in front of the leftmost occurrence of `pat` (all of `s` if there is none).
pub open spec fn before_first(s: Seq<char>, pat: Seq<char>) -> Seq<char> {
    match first_occurrence(s, pat) {
        Some(i) => s.take(i),
        None => s,
    }
}

/// A first occurrence is the one `first_occurrence` names.
pub proof fn lemma_first_occurrence(s: Seq<char>, pat: Seq<char>, i: int)
    requires
        is_first_occurrence(s, pat, i),
    ensures
        first_occurrence(s, pat) == Some(i),
{
    let k = choose|k: int| is_first_occurrence(s, pat, k);
    assert(is_first_occurrence(s, pat, k));
    if k < i {
        assert(!occurs_at(s, pat, k));
    } else if i < k {
        assert(!occurs_at(s, pat, i));
    }
}

/// A last occurrence is the one `last_occurrence` names.
pub proof fn lemma_last_occurrence(s: Seq<char>, pat: Seq<char>, i: int)
    requires
        is_last_occurrence(s, pat, i),
    ensures
        last_occurrence(s, pat) == Some(i),
{
    let k = choose|k: int| is_last_occurrence(s, pat, k);
    assert(is_last_occurrence(s, pat, k));
    if k < i {
        assert(!occurs_at(s, pat, i));
    } else if i < k {
        assert(!occurs_at(s, pat, k));
    }
}

/// Whenever `pat` occurs in `s`, it has a leftmost occurrence.
pub proof fn lemma_first_occurrence_exists(s: Seq<char>, pat: Seq<char>, i: int)
    requires
        occurs_at(s, pat, i),
    ensures
        exists|k: int| is_first_occurrence(s, pat, k),
    decreases i,
{
    if exists|j: int| 0 <= j < i && occurs_at(s, pat, j) {
        let j = choose|j: int| 0 <= j < i && occurs_at(s, pat, j);
        lemma_first_occurrence_exists(s, pat, j);
    } else {
        assert(is_first_occurrence(s, pat, i));
    }
}

/// Whenever `pat` occurs in `s`, it has a rightmost occurrence.
pub proof fn lemma_last_occurrence_exists(s: Seq<char>, pat: Seq<char>, i: int)
    requires
        occurs_at(s, pat, i),
    ensures
        exists|k: int| is_last_occurrence(s, pat, k),
    decreases s.len() - i,
{
    if exists|j: int| i < j && occurs_at(s, pat, j) {
        let j = choose|j: int| i < j && occurs_at(s, pat, j);
        lemma_last_occurrence_exists(s, pat, j);
    } else {
        assert(is_last_occurrence(s, pat, i));
    }
}

/// What `last_occurrence` names is the rightmost occurrence, and it names one whenever `pat`
/// occurs.
pub proof fn lemma_last_occurrence_spec(s: Seq<char>, pat: Seq<char>)
    ensures
        last_occurrence(s, pat) matches Some(i) ==> is_last_occurrence(s, pat, i),
        last_occurrence(s, pat) is None ==> forall|j: int| !#[trigger] occurs_at(s, pat, j),
{
    if exists|i: int| occurs_at(s, pat, i) {
        let i = choose|i: int| occurs_at(s, pat, i);
        lemma_last_occurrence_exists(s, pat, i);
    }
}

/// Returns the characters of `s`.
pub fn chars_of(s: &str) -> (r: Vec<char>)
    ensures
        r@ == s@,
{
    let n = s.unicode_len();
    let mut r: Vec<char> = Vec::new();
    let mut i: usize = 0;
    while i < n
        invariant
            n == s@.len(),
            i <= n,
            r@ =~= s@.take(i as int),
        decreases n - i,
    {
        let c = s.get_char(i);
        r.push(c);
        i = i + 1;
    }
    r
}

/// Whether `pat` occurs in `hay` at position `i`.
pub fn matches_at(hay: &Vec<char>, pat: &Vec<char>, i: usize) -> (r: bool)
    ensures
        r == occurs_at(hay@, pat@, i as int),
{
    if i > hay.len() || pat.len() > hay.len() - i {
        return false;
    }
    let n = hay.len();
    let mut k: usize = 0;
    while k < pat.len()
        invariant
            n == hay@.len(),
            i + pat@.len() <= hay@.len(),
            k <= pat@.len(),
            forall|j: int| 0 <= j < k ==> hay@[i + j] == pat@[j],
        decreases pat@.len() - k,
    {
        assert(i + k < hay@.len());
        if hay[i + k] != pat[k] {
            assert(hay@.subrange(i as int, i + pat@.len())[k as int] != pat@[k as int]);
            return false;
        }
        k = k + 1;
    }
    assert(hay@.subrange(i as int, i + pat@.len()) =~= pat@);
    true
}

/// Returns the leftmost position of `pat` in `hay`.
pub fn find_first(hay: &Vec<char>, pat: &Vec<char>) -> (r: Option<usize>)
    requires
        pat@.len() > 0,
    ensures
        match r {
            Some(i) => first_occurrence(hay@, pat@) == Some(i as int)
                && is_first_occurrence(hay@, pat@, i as int),
            None => first_occurrence(hay@, pat@) is None,
        },
{
    let mut i: usize = 0;
    while i < hay.len()
        invariant
            i <= hay@.len(),
            pat@.len() > 0,
            forall|j: int| 0 <= j < i ==> !#[trigger] occurs_at(hay@, pat@, j),
        decreases hay@.len() - i,
    {
        if matches_at(hay, pat, i) {
            proof { lemma_first_occurrence(hay@, pat@, i as int); }
            return Some(i);
        }
        i = i + 1;
    }
    assert forall|j: int| !occurs_at(hay@, pat@, j) by {
        if 0 <= j < i {
        }
    }
    None
}

/// Returns the rightmost position of `pat` in the first `end` characters of `hay`.
pub fn find_last_within(hay: &Vec<char>, pat: &Vec<char>, end: usize) -> (r: Option<usize>)
    requires
        end <= hay@.len(),
        pat@.len() > 0,
    ensures
        match r {
            Some(i) => last_occurrence(hay@.take(end as int), pat@) == Some(i as int)
                && is_last_occurrence(hay@.take(end as int), pat@, i as int),
            None => last_occurrence(hay@.take(end as int), pat@) is None,
        },
{
    let ghost p = hay@.take(end as int);
    let mut i: usize = end;
    while i > 0
        invariant
            i <= end,
            pat@.len() > 0,
            end <= hay@.len(),
            p == hay@.take(end as int),
            forall|j: int| i <= j ==> !#[trigger] occurs_at(p, pat@, j),
        decreases i,
    {
        i = i - 1;
        let m = matches_at(hay, pat, i);
        proof {
            if i + pat@.len() <= end {
                assert(p.subrange(i as int, i + pat@.len()) =~= hay@.subrange(i as int, i + pat@.len()));
            }
        }
        if m && pat.len() <= end - i {
            proof { lemma_last_occurrence(p, pat@, i as int); }
            return Some(i);
        }
        proof {
            if occurs_at(p, pat@, i as int) {
                assert(p.subrange(i as int, i + pat@.len()) =~= hay@.subrange(i as int, i + pat@.len()));
            }
        }
    }
    assert forall|j: int| !occurs_at(p, pat@, j) by {
        if j < 0 {
        }
    }
    None
}


/// Unicode `White_Space`: the characters that trimming removes.
pub open spec fn spec_is_whitespace(c: char) -> bool {
    ||| c == ' '
    ||| ('\u{9}' <= c && c <= '\u{d}')
    ||| c == '\u{85}'
    ||| c == '\u{a0}'
    ||| c == '\u{1680}'
    ||| ('\u{2000}' <= c && c <= '\u{200a}')
    ||| c == '\u{2028}'
    ||| c == '\u{2029}'
    ||| c == '\u{202f}'
    ||| c == '\u{205f}'
    ||| c == '\u{3000}'
}

/// Whether `c` is Unicode white space.
pub fn is_whitespace(c: char) -> (r: bool)
    ensures
        r == spec_is_whitespace(c),
{
    c == ' ' || ('\u{9}' <= c && c <= '\u{d}') || c == '\u{85}' || c == '\u{a0}' || c
        == '\u{1680}' || ('\u{2000}' <= c && c <= '\u{200a}') || c == '\u{2028}' || c
        == '\u{2029}' || c == '\u{202f}' || c == '\u{205f}' || c == '\u{3000}'
}

/// `s` without its leading white space.
pub open spec fn spec_trim_start(s: Seq<char>) -> Seq<char>
    decreases s.len(),
{
    if s.len() > 0 && spec_is_whitespace(s[0]) {
        spec_trim_start(s.skip(1))
    } else {
        s
    }
}

/// `s` without its trailing white space.
pub open spec fn spec_trim_end(s: Seq<char>) -> Seq<char>
    decreases s.len(),
{
    if s.len() > 0 && spec_is_whitespace(s.last()) {
        spec_trim_end(s.drop_last())
    } else {
        s
    }
}

/// `s` without its leading and trailing white space.
pub open spec fn spec_trim(s: Seq<char>) -> Seq<char> {
    spec_trim_end(spec_trim_start(s))
}

/// Returns `s` without its leading and trailing white space.
pub fn trim(s: &str) -> (r: &str)
    ensures
        r@ == spec_trim(s@),
{
    let chars = chars_of(s);
    let n = chars.len();
    let mut a: usize = 0;
    assert(s@.skip(0) =~= s@);
    while a < n && is_whitespace(chars[a])
        invariant
            n == s@.len(),
            chars@ == s@,
            a <= n,
            spec_trim_start(s@) == spec_trim_start(s@.skip(a as int)),
        decreases n - a,
    {
        assert(s@.skip(a as int).skip(1) =~= s@.skip(a + 1));
        a = a + 1;
    }
    let ghost start = s@.skip(a as int);
    assert(spec_trim_start(s@) == start) by {
        if a < n {
            assert(start[0] == s@[a as int]);
        }
    }
    let mut b: usize = n;
    while b > a && is_whitespace(chars[b - 1])
        invariant
            n == s@.len(),
            chars@ == s@,
            a <= b <= n,
            start == s@.skip(a as int),
            spec_trim_end(start) == spec_trim_end(s@.subrange(a as int, b as int)),
        decreases b,
    {
        assert(s@.subrange(a as int, b as int).drop_last() =~= s@.subrange(a as int, b - 1));
        b = b - 1;
    }
    assert(spec_trim_end(s@.subrange(a as int, b as int)) == s@.subrange(a as int, b as int));
    assert(start =~= s@.subrange(a as int, n as int));
    s.substring_char(a, b)
}

/// The pieces of `s` between the occurrences of `sep`, in order (one piece when `sep` does
/// not occur).
pub open spec fn spec_split(s: Seq<char>, sep: char) -> Seq<Seq<char>>
    decreases s.len(),
{
    if s.len() == 0 {
        seq![Seq::empty()]
    } else {
        let p = spec_split(s.drop_last(), sep);
        if s.last() == sep {
            p.push(Seq::empty())
        } else {
            p.update(p.len() - 1, p.last().push(s.last()))
        }
    }
}

/// There is always at least one piece.
pub proof fn lemma_split_nonempty(s: Seq<char>, sep: char)
    ensures
        spec_split(s, sep).len() >= 1,
    decreases s.len(),
{
    if s.len() > 0 {
        lemma_split_nonempty(s.drop_last(), sep);
    }
}

/// Returns the pieces of `s` between the occurrences of `sep`, in order.
pub fn split(s: &str, sep: char) -> (r: Vec<&str>)
    ensures
        r@.len() == spec_split(s@, sep).len(),
        forall|i: int| 0 <= i < r@.len() ==> (#[trigger] r@[i])@ == spec_split(s@, sep)[i],
{
    let chars = chars_of(s);
    let n = chars.len();
    let mut r: Vec<&str> = Vec::new();
    let mut start: usize = 0;
    let mut i: usize = 0;
    while i < n
        invariant
            n == s@.len(),
            chars@ == s@,
            start <= i <= n,
            r@.len() + 1 == spec_split(s@.take(i as int), sep).len(),
            forall|k: int| 0 <= k < r@.len() ==> (#[trigger] r@[k])@ == spec_split(s@.take(i as int), sep)[k],
            spec_split(s@.take(i as int), sep).last() == s@.subrange(start as int, i as int),
        decreases n - i,
    {
        assert(s@.take(i + 1).drop_last() =~= s@.take(i as int));
        assert(s@.take(i + 1).last() == s@[i as int]);
        proof { lemma_split_nonempty(s@.take(i as int), sep); }
        if chars[i] == sep {
            let piece = s.substring_char(start, i);
            r.push(piece);
            start = i + 1;
            assert(s@.subrange(start as int, i + 1) =~= Seq::<char>::empty());
        } else {
            assert(s@.subrange(start as int, i + 1) =~= s@.subrange(start as int, i as int).push(s@[i as int]));
        }
        i = i + 1;
    }
    let piece = s.substring_char(start, n);
    r.push(piece);
    assert(s@.take(n as int) =~= s@);
    r
}

/// `names` as a list of back-quoted names separated by `, `.
pub open spec fn spec_backquoted_list(names: Seq<Seq<char>>) -> Seq<char>
    decreases names.len(),
{
    if names.len() == 0 {
        Seq::empty()
    } else if names.len() == 1 {
        seq!['`'] + names[0] + seq!['`']
    } else {
        spec_backquoted_list(names.drop_last()) + seq![',', ' ', '`'] + names.last() + seq!['`']
    }
}

/// Returns `names` as a list of back-quoted names separated by `, `.
pub fn backquoted_list(names: &Vec<&str>) -> (r: String)
    ensures
        r@ == spec_backquoted_list(names@.map_values(|n: &str| n@)),
{
    let ghost views = names@.map_values(|n: &str| n@);
    let mut r = String::new();
    let mut i: usize = 0;
    while i < names.len()
        invariant
            i <= names@.len(),
            views == names@.map_values(|n: &str| n@),
            r@ == spec_backquoted_list(views.take(i as int)),
        decreases names@.len() - i,
    {
        assert(views.take(i + 1).drop_last() =~= views.take(i as int));
        assert(views.take(i + 1).last() == names@[i as int]@);
        if i > 0 {
            r.append(", `");
        } else {
            r.append("`");
        }
        r.append(names[i]);
        r.append("`");
        proof {
            reveal_strlit(", `");
            reveal_strlit("`");
            if i == 0 {
                assert(views.take(1) =~= seq![views[0]]);
            }
        }
        assert(r@ =~= spec_backquoted_list(views.take(i + 1)));
        i = i + 1;
    }
    assert(views.take(names@.len() as int) =~= views);
    r
}


/// Whether `a` and `b` hold the same characters.
pub fn str_eq(a: &str, b: &str) -> (r: bool)
    ensures
        r == (a@ == b@),
{
    let x = chars_of(a);
    let y = chars_of(b);
    if x.len() != y.len() {
        return false;
    }
    let mut i: usize = 0;
    while i < x.len()
        invariant
            x@ == a@,
            y@ == b@,
            x@.len() == y@.len(),
            i <= x@.len(),
            forall|k: int| 0 <= k < i ==> x@[k] == y@[k],
        decreases x@.len() - i,
    {
        if x[i] != y[i] {
            return false;
        }
        i = i + 1;
    }
    assert(a@ =~= b@);
    true
}

/// No two entries of a keyed list share a key, as in a map.
pub open spec fn keys_distinct<V>(pairs: Seq<(String, V)>) -> bool {
    forall|i: int, j: int| 0 <= i < j < pairs.len() ==> (#[trigger] pairs[i]).0@ != (#[trigger] pairs[j]).0@
}

/// Returns whether no two entries of a keyed list share a key.
pub fn keys_are_distinct<V>(pairs: &Vec<(String, V)>) -> (r: bool)
    ensures
        r == keys_distinct(pairs@),
{
    let n = pairs.len();
    let mut i: usize = 0;
    while i < n
        invariant
            n == pairs@.len(),
            i <= n,
            forall|a: int, b: int| 0 <= a < i && a < b < n ==> (#[trigger] pairs@[a]).0@ != (#[trigger] pairs@[b]).0@,
        decreases n - i,
    {
        let mut j: usize = i + 1;
        while j < n
            invariant
                n == pairs@.len(),
                i < n,
                i + 1 <= j <= n,
                forall|a: int, b: int| 0 <= a < i && a < b < n ==> (#[trigger] pairs@[a]).0@ != (#[trigger] pairs@[b]).0@,
                forall|b: int| i < b < j ==> pairs@[i as int].0@ != (#[trigger] pairs@[b]).0@,
            decreases n - j,
        {
            if str_eq(pairs[i].0.as_str(), pairs[j].0.as_str()) {
                return false;
            }
            j = j + 1;
        }
        i = i + 1;
    }
    true
}

} // verus!

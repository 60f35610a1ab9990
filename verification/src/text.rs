//! Character-level text operations: searching for a literal and replacing it.
//!
//! Texts are modelled as `Seq<char>`. The executable functions take `&str`
//! and work on the characters of their arguments.

use vstd::prelude::*;

verus! {

/// `pat` stands in `s` at index `i`.
pub open spec fn occurs_at(s: Seq<char>, pat: Seq<char>, i: int) -> bool {
    0 <= i && i + pat.len() <= s.len() && s.subrange(i, i + pat.len()) == pat
}

/// `pat` stands somewhere in `s`.
pub open spec fn occurs_in(s: Seq<char>, pat: Seq<char>) -> bool {
    exists|i: int| occurs_at(s, pat, i)
}

/// `i` is the leftmost index at which `pat` stands in `s`.
pub open spec fn first_occurrence(s: Seq<char>, pat: Seq<char>, i: int) -> bool {
    occurs_at(s, pat, i) && forall|j: int| 0 <= j < i ==> !occurs_at(s, pat, j)
}

/// `rep`, then each character of `s` followed by `rep`.
pub open spec fn interleave(s: Seq<char>, rep: Seq<char>) -> Seq<char>
    decreases s.len(),
{
    if s.len() == 0 {
        rep
    } else {
        rep + seq![s[0]] + interleave(s.skip(1), rep)
    }
}

/// `s` with every occurrence of `pat` replaced by `rep`. Occurrences are
/// taken from left to right and do not overlap. An empty `pat` stands before
/// every character and at the end.
pub open spec fn replace_all(s: Seq<char>, pat: Seq<char>, rep: Seq<char>) -> Seq<char>
    decreases s.len(),
{
    if pat.len() == 0 {
        interleave(s, rep)
    } else if s.len() < pat.len() {
        s
    } else if occurs_at(s, pat, 0) {
        rep + replace_all(s.skip(pat.len() as int), pat, rep)
    } else {
        seq![s[0]] + replace_all(s.skip(1), pat, rep)
    }
}

/// `parts` written one after another with `sep` between neighbours.
pub open spec fn joined(parts: Seq<Seq<char>>, sep: Seq<char>) -> Seq<char>
    decreases parts.len(),
{
    if parts.len() == 0 {
        Seq::empty()
    } else if parts.len() == 1 {
        parts[0]
    } else {
        joined(parts.drop_last(), sep) + sep + parts.last()
    }
}

/// The views of the strings of `parts`.
pub open spec fn views_of(parts: Seq<String>) -> Seq<Seq<char>> {
    parts.map_values(|p: String| p@)
}

/// The text of an optional string.
pub open spec fn text_view(field: Option<String>) -> Option<Seq<char>> {
    match field {
        Some(s) => Some(s@),
        None => None,
    }
}

/// The text of an optional string slice.
pub open spec fn str_view(field: Option<&str>) -> Option<Seq<char>> {
    match field {
        Some(s) => Some(s@),
        None => None,
    }
}

/// Shifting the window: an occurrence in a suffix is an occurrence in the whole.
pub proof fn lemma_occurs_at_skip(s: Seq<char>, pat: Seq<char>, k: int, i: int)
    requires
        0 <= k <= s.len(),
        0 <= i,
    ensures
        occurs_at(s.skip(k), pat, i) == occurs_at(s, pat, k + i),
{
    if i + pat.len() <= s.len() - k {
        assert(s.skip(k).subrange(i, i + pat.len()) =~= s.subrange(k + i, k + i + pat.len()));
    }
}

/// A text in which the pattern does not occur is left as it is.
pub proof fn lemma_replace_all_without_occurrence(s: Seq<char>, pat: Seq<char>, rep: Seq<char>)
    requires
        pat.len() > 0,
        !occurs_in(s, pat),
    ensures
        replace_all(s, pat, rep) == s,
    decreases s.len(),
{
    if s.len() >= pat.len() {
        assert(!occurs_at(s, pat, 0));
        assert forall|i: int| !occurs_at(s.skip(1), pat, i) by {
            if 0 <= i {
                lemma_occurs_at_skip(s, pat, 1, i);
                assert(!occurs_at(s, pat, 1 + i));
            }
        }
        lemma_replace_all_without_occurrence(s.skip(1), pat, rep);
        assert(seq![s[0]] + s.skip(1) =~= s);
    }
}

/// The text before the leftmost occurrence is kept, the occurrence becomes
/// the replacement, and the rest is replaced in the same way.
pub proof fn lemma_replace_all_first_occurrence(
    s: Seq<char>,
    pat: Seq<char>,
    rep: Seq<char>,
    i: int,
)
    requires
        pat.len() > 0,
        first_occurrence(s, pat, i),
    ensures
        replace_all(s, pat, rep) == s.take(i) + rep + replace_all(
            s.skip(i + pat.len()),
            pat,
            rep,
        ),
    decreases i,
{
    if i == 0 {
        assert(s.take(0) + rep =~= rep);
    } else {
        assert(!occurs_at(s, pat, 0));
        let t = s.skip(1);
        lemma_occurs_at_skip(s, pat, 1, i - 1);
        assert forall|j: int| 0 <= j < i - 1 implies !occurs_at(t, pat, j) by {
            lemma_occurs_at_skip(s, pat, 1, j);
        }
        lemma_replace_all_first_occurrence(t, pat, rep, i - 1);
        assert(t.skip(i - 1 + pat.len()) =~= s.skip(i + pat.len()));
        assert(seq![s[0]] + t.take(i - 1) =~= s.take(i));
        assert(seq![s[0]] + (t.take(i - 1) + rep + replace_all(s.skip(i + pat.len()), pat, rep))
            =~= s.take(i) + rep + replace_all(s.skip(i + pat.len()), pat, rep));
    }
}

/// Where the pattern stands exactly twice, at the places given by `a`, `b`
/// and `c`, both occurrences are replaced and `a`, `b` and `c` are kept.
pub proof fn lemma_replace_all_two_occurrences(
    a: Seq<char>,
    b: Seq<char>,
    c: Seq<char>,
    pat: Seq<char>,
    rep: Seq<char>,
)
    requires
        pat.len() > 0,
        forall|j: int| #[trigger]
            occurs_at(a + pat + b + pat + c, pat, j) ==> j == a.len() || j == a.len() + pat.len()
                + b.len(),
    ensures
        replace_all(a + pat + b + pat + c, pat, rep) == a + rep + b + rep + c,
{
    let s = a + pat + b + pat + c;
    let n = pat.len() as int;
    let i1 = a.len() as int;
    let i2 = i1 + n + b.len();
    assert(s.subrange(i1, i1 + n) =~= pat);
    assert(s.subrange(i2, i2 + n) =~= pat);
    assert(first_occurrence(s, pat, i1));
    lemma_replace_all_first_occurrence(s, pat, rep, i1);
    let t = s.skip(i1 + n);
    assert(t =~= b + pat + c);
    assert(s.take(i1) =~= a);
    assert forall|j: int| 0 <= j < b.len() implies !occurs_at(t, pat, j) by {
        lemma_occurs_at_skip(s, pat, i1 + n, j);
    }
    lemma_occurs_at_skip(s, pat, i1 + n, b.len() as int);
    assert(first_occurrence(t, pat, b.len() as int));
    lemma_replace_all_first_occurrence(t, pat, rep, b.len() as int);
    let u = t.skip(b.len() + n);
    assert(u =~= c);
    assert(t.take(b.len() as int) =~= b);
    assert forall|j: int| !occurs_at(u, pat, j) by {
        if 0 <= j {
            lemma_occurs_at_skip(s, pat, i2 + n, j);
            assert(s.skip(i2 + n) =~= u);
        }
    }
    lemma_replace_all_without_occurrence(u, pat, rep);
    assert(a + rep + (b + rep + c) =~= a + rep + b + rep + c);
}

/// Once the pattern is gone, replacing again changes nothing.
pub proof fn lemma_replace_all_settled(s: Seq<char>, pat: Seq<char>, rep: Seq<char>)
    requires
        pat.len() > 0,
        !occurs_in(replace_all(s, pat, rep), pat),
    ensures
        replace_all(replace_all(s, pat, rep), pat, rep) == replace_all(s, pat, rep),
{
    lemma_replace_all_without_occurrence(replace_all(s, pat, rep), pat, rep);
}

/// The characters of `s`, in order.
pub fn chars_of(s: &str) -> (out: Vec<char>)
    ensures
        out@ == s@,
{
    let mut out: Vec<char> = Vec::new();
    for c in it: s.chars()
        invariant
            out@ == it.seq().take(it.index()),
            it.seq() == s@,
    {
        out.push(c);
    }
    out
}

/// Calls `String::from_iter` of std on the characters of `chars`: the
/// string it builds holds those characters, in that order.
#[verifier::external_body]
pub(crate) fn string_of(chars: &Vec<char>) -> (out: String)
    ensures
        out@ == chars@,
{
    String::from_iter(chars)
}

/// Adds the characters of `extra` at the end of `out`.
pub(crate) fn append_chars(out: &mut Vec<char>, extra: &Vec<char>)
    ensures
        final(out)@ == old(out)@ + extra@,
{
    let mut k: usize = 0;
    while k < extra.len()
        invariant
            k <= extra.len(),
            out@ == old(out)@ + extra@.take(k as int),
        decreases extra.len() - k,
    {
        out.push(extra[k]);
        k += 1;
        assert(extra@.take(k as int) =~= extra@.take(k - 1).push(extra@[k - 1]));
    }
    assert(extra@.take(extra.len() as int) =~= extra@);
}

/// Whether `pat` stands in `s` at index `i`.
pub(crate) fn chars_occur_at(s: &Vec<char>, pat: &Vec<char>, i: usize) -> (found: bool)
    ensures
        found == occurs_at(s@, pat@, i as int),
{
    if i > s.len() || pat.len() > s.len() - i {
        return false;
    }
    let mut k: usize = 0;
    while k < pat.len()
        invariant
            k <= pat.len(),
            i + pat.len() <= s.len(),
            forall|j: int| 0 <= j < k ==> s@[i + j] == pat@[j],
        decreases pat.len() - k,
    {
        if s[i + k] != pat[k] {
            assert(s@.subrange(i as int, i + pat.len())[k as int] != pat@[k as int]);
            return false;
        }
        k += 1;
    }
    assert(s@.subrange(i as int, i + pat.len()) =~= pat@);
    true
}

/// The leftmost index at which `pat` stands in `s`, if there is one.
pub(crate) fn chars_find(s: &Vec<char>, pat: &Vec<char>) -> (at: Option<usize>)
    ensures
        match at {
            Some(i) => first_occurrence(s@, pat@, i as int),
            None => !occurs_in(s@, pat@),
        },
{
    if pat.len() > s.len() {
        return None;
    }
    let last: usize = s.len() - pat.len();
    let mut i: usize = 0;
    loop
        invariant
            last == s.len() - pat.len(),
            i <= last,
            forall|j: int| 0 <= j < i ==> !occurs_at(s@, pat@, j),
        decreases last - i,
    {
        if chars_occur_at(s, pat, i) {
            return Some(i);
        }
        if i == last {
            return None;
        }
        i += 1;
    }
}

/// `s` with every occurrence of `pat` replaced by `rep`.
pub(crate) fn chars_replace_all(s: &Vec<char>, pat: &Vec<char>, rep: &Vec<char>) -> (out: Vec<
    char,
>)
    ensures
        out@ == replace_all(s@, pat@, rep@),
{
    let mut out: Vec<char> = Vec::new();
    let mut i: usize = 0;
    if pat.len() == 0 {
        proof {
            assert(s@.skip(0) =~= s@);
        }
        while i < s.len()
            invariant
                i <= s.len(),
                out@ + interleave(s@.skip(i as int), rep@) == interleave(s@, rep@),
            decreases s.len() - i,
        {
            proof {
                let t = s@.skip(i as int);
                assert(t.skip(1) =~= s@.skip(i + 1));
                assert((out@ + rep@).push(s@[i as int]) + interleave(t.skip(1), rep@) =~= out@ + (
                rep@ + seq![t[0]] + interleave(t.skip(1), rep@)));
            }
            append_chars(&mut out, rep);
            out.push(s[i]);
            i += 1;
        }
        append_chars(&mut out, rep);
        return out;
    }
    proof {
        assert(s@.skip(0) =~= s@);
    }
    while i < s.len()
        invariant
            i <= s.len(),
            pat@.len() > 0,
            out@ + replace_all(s@.skip(i as int), pat@, rep@) == replace_all(s@, pat@, rep@),
        decreases s.len() - i,
    {
        let ghost t = s@.skip(i as int);
        proof {
            lemma_occurs_at_skip(s@, pat@, i as int, 0);
        }
        if chars_occur_at(s, pat, i) {
            proof {
                assert(t.skip(pat.len() as int) =~= s@.skip(i + pat.len()));
                assert((out@ + rep@) + replace_all(t.skip(pat.len() as int), pat@, rep@) =~= out@
                    + (rep@ + replace_all(t.skip(pat.len() as int), pat@, rep@)));
            }
            append_chars(&mut out, rep);
            i += pat.len();
        } else {
            proof {
                assert(t.skip(1) =~= s@.skip(i + 1));
                if t.len() < pat.len() {
                    assert(seq![t[0]] + t.skip(1) =~= t);
                }
                assert(out@.push(s@[i as int]) + replace_all(t.skip(1), pat@, rep@) =~= out@ + (
                seq![t[0]] + replace_all(t.skip(1), pat@, rep@)));
            }
            out.push(s[i]);
            i += 1;
        }
    }
    proof {
        assert(s@.skip(s.len() as int) =~= Seq::<char>::empty());
    }
    out
}

/// A copy of an optional string.
pub fn copy_of(field: &Option<String>) -> (out: Option<String>)
    ensures
        text_view(out) == text_view(*field),
{
    match field {
        Some(s) => Some(s.clone()),
        None => None,
    }
}

/// Whether the two texts hold the same characters.
pub fn same_text(a: &str, b: &str) -> (same: bool)
    ensures
        same == (a@ == b@),
{
    let x = chars_of(a);
    let y = chars_of(b);
    if x.len() != y.len() {
        return false;
    }
    let found = chars_occur_at(&x, &y, 0);
    proof {
        assert(x@.subrange(0, x@.len() as int) =~= x@);
    }
    found
}

/// Whether an optional string is there and holds `wanted`.
pub fn holds(field: &Option<String>, wanted: &str) -> (same: bool)
    ensures
        same == (text_view(*field) == Some(wanted@)),
{
    match field {
        Some(s) => same_text(s.as_str(), wanted),
        None => false,
    }
}

/// Whether `pat` stands somewhere in `s`.
pub fn contains(s: &str, pat: &str) -> (found: bool)
    ensures
        found == occurs_in(s@, pat@),
{
    let x = chars_of(s);
    let y = chars_of(pat);
    chars_find(&x, &y).is_some()
}

/// Whether `s` begins with `prefix`.
pub fn starts_with(s: &str, prefix: &str) -> (found: bool)
    ensures
        found == occurs_at(s@, prefix@, 0),
{
    let x = chars_of(s);
    let y = chars_of(prefix);
    chars_occur_at(&x, &y, 0)
}

/// `s` with every occurrence of `pat` replaced by `rep`.
pub fn replace(s: &str, pat: &str, rep: &str) -> (out: String)
    ensures
        out@ == replace_all(s@, pat@, rep@),
{
    let x = chars_of(s);
    let y = chars_of(pat);
    let z = chars_of(rep);
    let r = chars_replace_all(&x, &y, &z);
    string_of(&r)
}

/// `a` followed by `b`.
pub fn appended(a: &str, b: &str) -> (out: String)
    ensures
        out@ == a@ + b@,
{
    let mut x = chars_of(a);
    let y = chars_of(b);
    append_chars(&mut x, &y);
    string_of(&x)
}

/// The strings of `parts` written one after another with `sep` between
/// neighbours.
pub fn join(parts: &Vec<String>, sep: &str) -> (out: String)
    ensures
        out@ == joined(views_of(parts@), sep@),
{
    let mut acc: Vec<char> = Vec::new();
    let sep_chars = chars_of(sep);
    let mut i: usize = 0;
    while i < parts.len()
        invariant
            i <= parts.len(),
            sep_chars@ == sep@,
            acc@ == joined(views_of(parts@).take(i as int), sep@),
        decreases parts.len() - i,
    {
        let ghost before = views_of(parts@).take(i as int);
        let ghost after = views_of(parts@).take(i + 1);
        proof {
            assert(after.drop_last() =~= before);
            assert(after.last() == parts@[i as int]@);
        }
        if i > 0 {
            append_chars(&mut acc, &sep_chars);
        }
        let piece = chars_of(parts[i].as_str());
        append_chars(&mut acc, &piece);
        proof {
            if i == 0 {
                assert(acc@ =~= piece@);
            }
        }
        i += 1;
    }
    proof {
        assert(views_of(parts@).take(parts.len() as int) =~= views_of(parts@));
    }
    string_of(&acc)
}

} // verus!

//! Verified string helpers the engine builds on: equality, substring
//! search, removal of every occurrence of a pattern, and joining path
//! segments with a separator.
use vstd::prelude::*;
use vstd::string::StrSliceExecFns;

verus! {

/// Character-sequence equality of two string slices.
pub fn str_eq(a: &str, b: &str) -> (r: bool)
    ensures
        r == (a@ == b@),
{
    let sa = a.to_owned();
    let sb = b.to_owned();
    sa == sb
}

/// `pat` occurs in `s` starting at character position `i`.
pub open spec fn is_substring_at(s: Seq<char>, pat: Seq<char>, i: int) -> bool {
    0 <= i && i + pat.len() <= s.len() && s.subrange(i, i + pat.len()) == pat
}

/// `pat` occurs somewhere in `s` (always true for an empty `pat`).
pub open spec fn has_substring(s: Seq<char>, pat: Seq<char>) -> bool {
    exists|i: int| is_substring_at(s, pat, i)
}

/// `pat` matches `s` at position `i`, compared character by character.
fn matches_at(s: &str, s_len: usize, pat: &str, pat_len: usize, i: usize) -> (r: bool)
    requires
        s_len == s@.len(),
        pat_len == pat@.len(),
        i + pat_len <= s_len,
    ensures
        r == is_substring_at(s@, pat@, i as int),
{
    let mut j: usize = 0;
    while j < pat_len
        invariant
            s_len == s@.len(),
            pat_len == pat@.len(),
            i + pat_len <= s_len,
            j <= pat_len,
            forall|k: int| 0 <= k < j ==> s@[i + k] == pat@[k],
        decreases pat_len - j,
    {
        if s.get_char(i + j) != pat.get_char(j) {
            assert(s@.subrange(i as int, i + pat@.len()) != pat@) by {
                assert(s@.subrange(i as int, i + pat@.len())[j as int] != pat@[j as int]);
            }
            return false;
        }
        j = j + 1;
    }
    assert(s@.subrange(i as int, i + pat@.len()) =~= pat@);
    true
}

/// Plain substring test: does `s` contain `pat` anywhere?
pub fn contains_sub(s: &str, pat: &str) -> (r: bool)
    ensures
        r == has_substring(s@, pat@),
{
    let s_len = s.unicode_len();
    let pat_len = pat.unicode_len();
    if pat_len > s_len {
        assert(!has_substring(s@, pat@)) by {
            assert(forall|i: int| !is_substring_at(s@, pat@, i));
        }
        return false;
    }
    if pat_len == 0 {
        assert(is_substring_at(s@, pat@, 0)) by {
            assert(s@.subrange(0, 0) =~= pat@);
        }
        return true;
    }
    let mut i: usize = 0;
    while i < s_len - pat_len + 1
        invariant
            s_len == s@.len(),
            pat_len == pat@.len(),
            0 < pat_len <= s_len,
            i <= s_len - pat_len + 1,
            forall|k: int| 0 <= k < i ==> !is_substring_at(s@, pat@, k),
        decreases s_len - pat_len + 1 - i,
    {
        if matches_at(s, s_len, pat, pat_len, i) {
            return true;
        }
        i = i + 1;
    }
    assert(!has_substring(s@, pat@)) by {
        assert(forall|k: int| k >= i ==> !is_substring_at(s@, pat@, k));
    }
    false
}

/// What is left of `s` once every occurrence of `p` is struck out, scanning
/// left to right and never re-reading the characters already kept.  An
/// empty pattern strikes nothing.
pub open spec fn remove_all_spec(s: Seq<char>, p: Seq<char>) -> Seq<char>
    decreases s.len(),
{
    if p.len() == 0 {
        s
    } else if s.len() == 0 {
        s
    } else if p.len() <= s.len() && s.subrange(0, p.len() as int) == p {
        remove_all_spec(s.skip(p.len() as int), p)
    } else {
        s.take(1) + remove_all_spec(s.skip(1), p)
    }
}

/// Removes every occurrence of `pat` from `s`, leftmost first.
pub fn remove_all(s: &str, pat: &str) -> (r: String)
    ensures
        r@ == remove_all_spec(s@, pat@),
{
    let s_len = s.unicode_len();
    let pat_len = pat.unicode_len();
    let mut r = String::new();
    if pat_len == 0 {
        r.append(s);
        return r;
    }
    proof {
        assert(s@.skip(0) =~= s@);
        assert(Seq::<char>::empty() + remove_all_spec(s@, pat@) =~= remove_all_spec(s@, pat@));
    }
    let mut i: usize = 0;
    while i < s_len
        invariant
            s_len == s@.len(),
            pat_len == pat@.len(),
            pat_len > 0,
            i <= s_len,
            remove_all_spec(s@, pat@) == r@ + remove_all_spec(s@.skip(i as int), pat@),
        decreases s_len - i,
    {
        let ghost rest = s@.skip(i as int);
        if pat_len <= s_len - i && matches_at(s, s_len, pat, pat_len, i) {
            proof {
                assert(rest.subrange(0, pat@.len() as int) =~= s@.subrange(
                    i as int,
                    i + pat@.len(),
                ));
                assert(rest.skip(pat@.len() as int) =~= s@.skip(i + pat@.len()));
            }
            i = i + pat_len;
        } else {
            proof {
                if i + pat@.len() <= s_len && rest.subrange(0, pat@.len() as int) == pat@ {
                    assert(rest.subrange(0, pat@.len() as int) =~= s@.subrange(
                        i as int,
                        i + pat@.len(),
                    ));
                    assert(is_substring_at(s@, pat@, i as int));
                    assert(false);
                }
                assert(rest.take(1) =~= s@.subrange(i as int, i + 1));
                assert(rest.skip(1) =~= s@.skip(i + 1));
            }
            let piece = s.substring_char(i, i + 1);
            r.append(piece);
            i = i + 1;
        }
    }
    proof {
        assert(s@.skip(s_len as int) =~= Seq::<char>::empty());
        assert(remove_all_spec(Seq::<char>::empty(), pat@) =~= Seq::<char>::empty());
        assert(r@ + Seq::<char>::empty() =~= r@);
    }
    r
}

/// The segments of `parts` joined with `sep` between each two.
pub open spec fn join_with(parts: Seq<Seq<char>>, sep: Seq<char>) -> Seq<char>
    decreases parts.len(),
{
    if parts.len() == 0 {
        Seq::<char>::empty()
    } else if parts.len() == 1 {
        parts[0]
    } else {
        parts[0] + sep + join_with(parts.drop_first(), sep)
    }
}

/// Appending one more segment extends the join by the separator and the
/// segment, once at least one segment is present.
proof fn lemma_join_take_step(parts: Seq<Seq<char>>, sep: Seq<char>, i: int)
    requires
        1 <= i < parts.len(),
    ensures
        join_with(parts.take(i + 1), sep) == join_with(parts.take(i), sep) + sep + parts[i],
    decreases i,
{
    if i == 1 {
        assert(parts.take(2) =~= seq![parts[0], parts[1]]);
        assert(parts.take(1) =~= seq![parts[0]]);
        assert(parts.take(2).drop_first() =~= seq![parts[1]]);
        assert(join_with(seq![parts[1]], sep) == parts[1]);
        assert(join_with(parts.take(2), sep) == parts[0] + sep + parts[1]);
    } else {
        lemma_join_take_step(parts.drop_first(), sep, i - 1);
        assert(parts.take(i + 1).drop_first() =~= parts.drop_first().take(i));
        assert(parts.take(i).drop_first() =~= parts.drop_first().take(i - 1));
        assert(parts.take(i + 1).len() >= 2);
        assert(join_with(parts.take(i + 1), sep) == parts[0] + sep + join_with(
            parts.drop_first().take(i),
            sep,
        ));
        assert(join_with(parts.take(i), sep) == parts[0] + sep + join_with(
            parts.drop_first().take(i - 1),
            sep,
        ));
        assert(parts.drop_first()[i - 1] == parts[i]);
        assert((parts[0] + sep + (join_with(parts.drop_first().take(i - 1), sep) + sep
            + parts[i])) =~= (parts[0] + sep + join_with(parts.drop_first().take(i - 1), sep))
            + sep + parts[i]);
    }
}

/// Joins the strings of `parts` with `sep` between each two.
pub fn join_strings(parts: &Vec<String>, sep: &str) -> (r: String)
    ensures
        r@ == join_with(parts.deep_view(), sep@),
{
    let mut r = String::new();
    if parts.len() == 0 {
        return r;
    }
    r.append(parts[0].as_str());
    assert(parts.deep_view().take(1) =~= seq![parts.deep_view()[0]]);
    assert(r@ == join_with(parts.deep_view().take(1), sep@));
    let mut i: usize = 1;
    while i < parts.len()
        invariant
            1 <= i <= parts.len(),
            r@ == join_with(parts.deep_view().take(i as int), sep@),
        decreases parts.len() - i,
    {
        proof {
            lemma_join_take_step(parts.deep_view(), sep@, i as int);
        }
        r.append(sep);
        r.append(parts[i].as_str());
        assert(parts.deep_view()[i as int] == parts[i as int]@);
        i = i + 1;
    }
    proof {
        assert(parts.deep_view().take(parts.len() as int) =~= parts.deep_view());
    }
    r
}

/// Does some string of `v` read exactly `s`?
pub fn contains_string(v: &Vec<String>, s: &str) -> (r: bool)
    ensures
        r == v.deep_view().contains(s@),
{
    let mut i: usize = 0;
    while i < v.len()
        invariant
            i <= v.len(),
            forall|k: int| 0 <= k < i ==> v.deep_view()[k] != s@,
        decreases v.len() - i,
    {
        if str_eq(v[i].as_str(), s) {
            assert(v.deep_view()[i as int] == s@);
            return true;
        }
        assert(v.deep_view()[i as int] == v[i as int]@);
        i = i + 1;
    }
    assert(!v.deep_view().contains(s@));
    false
}

} // verus!

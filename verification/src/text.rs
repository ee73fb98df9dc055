//! Character-sequence helpers shared by configuration discovery and path
//! derivation: whitespace trimming, comma splitting, and concatenation.

use vstd::prelude::*;

verus! {

/// A single whitespace character as recognised when cleaning up
/// configuration path lists and captured command output.
pub open spec fn is_config_space(c: char) -> bool {
    c == ' ' || c == '\t' || c == '\n' || c == '\r'
}

/// Executable mirror of [`is_config_space`].
pub fn is_space_char(c: char) -> (b: bool)
    ensures
        b == is_config_space(c),
{
    c == ' ' || c == '\t' || c == '\n' || c == '\r'
}

/// `s` with every leading whitespace character removed.
pub open spec fn trim_start_spec(s: Seq<char>) -> Seq<char>
    decreases s.len(),
{
    if s.len() > 0 && is_config_space(s[0]) {
        trim_start_spec(s.drop_first())
    } else {
        s
    }
}

/// `s` with every trailing whitespace character removed.
pub open spec fn trim_end_spec(s: Seq<char>) -> Seq<char>
    decreases s.len(),
{
    if s.len() > 0 && is_config_space(s[s.len() - 1]) {
        trim_end_spec(s.drop_last())
    } else {
        s
    }
}

/// `s` with leading and trailing whitespace removed.
pub open spec fn trim_spec(s: Seq<char>) -> Seq<char> {
    trim_end_spec(trim_start_spec(s))
}

/// If the first `k` characters of `s` are whitespace and the next one (if
/// any) is not, trimming the start of `s` drops exactly those `k` characters.
pub proof fn lemma_trim_start_at(s: Seq<char>, k: int)
    requires
        0 <= k <= s.len(),
        forall|j: int| 0 <= j < k ==> is_config_space(s[j]),
        k < s.len() ==> !is_config_space(s[k]),
    ensures
        trim_start_spec(s) == s.subrange(k, s.len() as int),
    decreases k,
{
    if k == 0 {
        assert(s.subrange(0, s.len() as int) =~= s);
    } else {
        let t = s.drop_first();
        assert(forall|j: int| 0 <= j < k - 1 ==> is_config_space(t[j]));
        lemma_trim_start_at(t, k - 1);
        assert(t.subrange(k - 1, t.len() as int) =~= s.subrange(k, s.len() as int));
    }
}

/// If the characters of `s` from position `k` on are whitespace and the one
/// before (if any) is not, trimming the end of `s` keeps exactly the first
/// `k` characters.
pub proof fn lemma_trim_end_at(s: Seq<char>, k: int)
    requires
        0 <= k <= s.len(),
        forall|j: int| k <= j < s.len() ==> is_config_space(s[j]),
        k > 0 ==> !is_config_space(s[k - 1]),
    ensures
        trim_end_spec(s) == s.subrange(0, k),
    decreases s.len() - k,
{
    if k == s.len() {
        assert(s.subrange(0, k) =~= s);
    } else {
        let t = s.drop_last();
        lemma_trim_end_at(t, k);
        assert(t.subrange(0, k) =~= s.subrange(0, k));
    }
}

/// Index of the first comma in `s`, or `s.len()` if `s` has none.
pub open spec fn first_comma(s: Seq<char>) -> int
    decreases s.len(),
{
    if s.len() == 0 {
        0
    } else if s[0] == ',' {
        0
    } else {
        1 + first_comma(s.drop_first())
    }
}

/// If no character before position `c` is a comma and the character at `c`
/// (if any) is one, then `c` is the first comma position.
pub proof fn lemma_first_comma_at(s: Seq<char>, c: int)
    requires
        0 <= c <= s.len(),
        forall|j: int| 0 <= j < c ==> s[j] != ',',
        c < s.len() ==> s[c] == ',',
    ensures
        first_comma(s) == c,
    decreases c,
{
    if c == 0 {
        if s.len() > 0 && s[0] != ',' {
            assert(false);
        }
    } else {
        let t = s.drop_first();
        assert(forall|j: int| 0 <= j < c - 1 ==> t[j] != ',');
        lemma_first_comma_at(t, c - 1);
    }
}

/// The concatenation of all the character sequences in `parts`, in order,
/// with no separators added.
pub open spec fn concat_all(parts: Seq<Seq<char>>) -> Seq<char>
    decreases parts.len(),
{
    if parts.len() == 0 {
        Seq::<char>::empty()
    } else {
        concat_all(parts.drop_last()) + parts.last()
    }
}

/// The views of the strings in `v`, in order.
pub open spec fn views_of(v: Seq<String>) -> Seq<Seq<char>> {
    v.map_values(|t: String| t@)
}

/// Appending a string to a vector appends its view to the vector's views.
pub proof fn lemma_views_of_push(v: Seq<String>, t: String)
    ensures
        views_of(v.push(t)) == views_of(v).push(t@),
{
    assert(views_of(v.push(t)) =~= views_of(v).push(t@));
}

/// Index of the last `/` in `s`, or `-1` if `s` has none.
pub open spec fn last_slash(s: Seq<char>) -> int
    decreases s.len(),
{
    if s.len() == 0 {
        -1
    } else if s.last() == '/' {
        s.len() - 1
    } else {
        last_slash(s.drop_last())
    }
}

/// If the character at position `k` is a `/` (or `k` is `-1` and there is
/// none at all) and no later character is one, then `k` is the last slash
/// position.
pub proof fn lemma_last_slash_at(s: Seq<char>, k: int)
    requires
        -1 <= k < s.len() || (k == -1 && s.len() == 0),
        k >= 0 ==> s[k] == '/',
        forall|j: int| k < j < s.len() ==> s[j] != '/',
    ensures
        last_slash(s) == k,
    decreases s.len(),
{
    if s.len() == 0 {
    } else if k == s.len() - 1 {
    } else {
        lemma_last_slash_at(s.drop_last(), k);
    }
}

/// Position of the last `/` strictly before `end` in `s`, if any.
pub fn rfind_slash_before(s: &str, end: usize) -> (r: Option<usize>)
    requires
        end <= s@.len(),
    ensures
        match r {
            Some(k) => k < end && last_slash(s@.subrange(0, end as int)) == k as int,
            None => last_slash(s@.subrange(0, end as int)) == -1,
        },
{
    let ghost p = s@.subrange(0, end as int);
    let mut b: usize = end;
    while b > 0
        invariant
            b <= end <= s@.len(),
            p == s@.subrange(0, end as int),
            forall|j: int| b <= j < end ==> s@[j] != '/',
        decreases b,
    {
        if s.get_char(b - 1) == '/' {
            proof {
                assert(p[b - 1] == s@[b - 1]);
                assert(forall|j: int| b - 1 < j < p.len() ==> p[j] == s@[j] && s@[j] != '/');
                lemma_last_slash_at(p, b - 1);
            }
            return Some(b - 1);
        }
        b = b - 1;
    }
    proof {
        assert(forall|j: int| -1 < j < p.len() ==> p[j] == s@[j] && s@[j] != '/');
        lemma_last_slash_at(p, -1);
    }
    None
}

} // verus!

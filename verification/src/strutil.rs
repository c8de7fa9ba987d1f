use vstd::prelude::*;
use vstd::string::StrSliceExecFns;
use vstd::string::StringExecFns;

verus! {

/// Index of the first occurrence of `c` in `s` at or after `i`, or `s.len()`
/// if there is none.
pub open spec fn find_from(s: Seq<char>, i: int, c: char) -> int
    decreases s.len() - i,
{
    if i < 0 || i >= s.len() {
        s.len() as int
    } else if s[i] == c {
        i
    } else {
        find_from(s, i + 1, c)
    }
}

pub proof fn lemma_find_from(s: Seq<char>, i: int, c: char)
    requires
        0 <= i <= s.len(),
    ensures
        i <= find_from(s, i, c) <= s.len(),
        find_from(s, i, c) < s.len() ==> s[find_from(s, i, c)] == c,
        forall|k: int| i <= k < find_from(s, i, c) ==> s[k] != c,
    decreases s.len() - i,
{
    if i < s.len() && s[i] != c {
        lemma_find_from(s, i + 1, c);
    }
}

/// Exec search for a character, equal to `find_from` on the view.
pub fn find_char(s: &str, from: usize, c: char) -> (r: usize)
    requires
        from <= s@.len(),
    ensures
        r == find_from(s@, from as int, c),
        from <= r <= s@.len(),
        r < s@.len() ==> s@[r as int] == c,
        forall|k: int| from <= k < r ==> s@[k] != c,
{
    let n = s.unicode_len();
    let mut i = from;
    while i < n
        invariant
            from <= i <= n,
            n == s@.len(),
            find_from(s@, from as int, c) == find_from(s@, i as int, c),
            forall|k: int| from <= k < i ==> s@[k] != c,
        decreases n - i,
    {
        if s.get_char(i) == c {
            return i;
        }
        i += 1;
    }
    i
}

/// Exec equality of string slices by view.
pub fn str_eq(a: &str, b: &str) -> (r: bool)
    ensures
        r == (a@ == b@),
{
    let na = a.unicode_len();
    let nb = b.unicode_len();
    if na != nb {
        return false;
    }
    let mut i: usize = 0;
    while i < na
        invariant
            i <= na,
            na == a@.len(),
            na == b@.len(),
            forall|k: int| 0 <= k < i ==> a@[k] == b@[k],
        decreases na - i,
    {
        if a.get_char(i) != b.get_char(i) {
            return false;
        }
        i += 1;
    }
    proof {
        assert(a@ =~= b@);
    }
    true
}

/// The segments of `s` from `i` on, split at every occurrence of `sep`.
/// Consecutive separators yield empty segments, and the result is never
/// empty: an empty input yields one empty segment.
pub open spec fn split_from(s: Seq<char>, i: int, sep: char) -> Seq<Seq<char>>
    decreases s.len() - i,
{
    let j = find_from(s, i, sep);
    if i <= j && j < s.len() {
        seq![s.subrange(i, j)] + split_from(s, j + 1, sep)
    } else {
        seq![s.subrange(i, s.len() as int)]
    }
}

/// Exec split at a separator character, equal to `split_from` on views.
pub fn split_str(s: &str, sep: char) -> (r: Vec<String>)
    ensures
        r.deep_view() == split_from(s@, 0, sep),
{
    let n = s.unicode_len();
    let mut out: Vec<String> = Vec::new();
    let mut start: usize = 0;
    loop
        invariant
            start <= n,
            n == s@.len(),
            split_from(s@, 0, sep) =~= out.deep_view() + split_from(s@, start as int, sep),
        decreases n - start,
    {
        let j = find_char(s, start, sep);
        let piece = s.substring_char(start, j);
        proof {
            lemma_find_from(s@, start as int, sep);
        }
        let ghost old_start = start as int;
        let ghost old_views = out.deep_view();
        out.push(piece.to_owned());
        proof {
            assert(out.deep_view() =~= old_views + seq![piece@]);
        }
        if j < n {
            start = j + 1;
            proof {
                assert(split_from(s@, old_start, sep) =~= seq![piece@] + split_from(
                    s@,
                    j + 1,
                    sep,
                ));
                assert(out.deep_view() + split_from(s@, start as int, sep) =~= old_views
                    + split_from(s@, old_start, sep));
            }
        } else {
            proof {
                assert(split_from(s@, old_start, sep) =~= seq![piece@]);
                assert(out.deep_view() =~= old_views + split_from(s@, old_start, sep));
            }
            return out;
        }
    }
}

/// `s` wrapped in one double quote on each side.
pub fn quoted(s: &str) -> (r: String)
    ensures
        r@ == seq!['"'] + s@ + seq!['"'],
{
    proof {
        reveal_strlit("\"");
    }
    let mut out = String::new();
    out.append("\"");
    out.append(s);
    out.append("\"");
    proof {
        assert(out@ =~= seq!['"'] + s@ + seq!['"']);
    }
    out
}

/// An exact copy of a vector of strings.
pub fn clone_strings(v: &Vec<String>) -> (r: Vec<String>)
    ensures
        r@ == v@,
{
    let mut out: Vec<String> = Vec::new();
    let mut i: usize = 0;
    while i < v.len()
        invariant
            i <= v@.len(),
            out@.len() == i,
            forall|k: int| 0 <= k < i ==> out@[k] == v@[k],
        decreases v@.len() - i,
    {
        out.push(v[i].clone());
        i += 1;
    }
    proof {
        assert(out@ =~= v@);
    }
    out
}

/// Key part of a `KEY=VALUE` argument: the text before the first `=`.
pub open spec fn kv_key(s: Seq<char>) -> Seq<char> {
    s.subrange(0, find_from(s, 0, '='))
}

/// Value part of a `KEY=VALUE` argument: the text between the first `=` and
/// the second `=` or the end, whichever comes first.
pub open spec fn kv_val(s: Seq<char>) -> Seq<char> {
    let j = find_from(s, 0, '=');
    s.subrange(j + 1, find_from(s, j + 1, '='))
}

/// Whether a `KEY=VALUE` argument holds a separator at all.
pub open spec fn has_kv_sep(s: Seq<char>) -> bool {
    find_from(s, 0, '=') < s.len()
}

/// Splits one `KEY=VALUE` argument into its key and its value.
pub fn parse_key_value(s: &str) -> (r: (String, String))
    requires
        has_kv_sep(s@),
    ensures
        r.0@ == kv_key(s@),
        r.1@ == kv_val(s@),
{
    let n = s.unicode_len();
    let j = find_char(s, 0, '=');
    proof {
        lemma_find_from(s@, 0, '=');
    }
    let key = s.substring_char(0, j);
    let k = find_char(s, j + 1, '=');
    proof {
        lemma_find_from(s@, j + 1, '=');
    }
    let val = s.substring_char(j + 1, k);
    (key.to_owned(), val.to_owned())
}

} // verus!

use vstd::prelude::*;

verus! {

/// Index of the last occurrence of `c` in `s`, or -1 when there is none.
pub open spec fn last_index_of(s: Seq<char>, c: char) -> int
    decreases s.len(),
{
    if s.len() == 0 {
        -1
    } else if s.last() == c {
        s.len() - 1
    } else {
        last_index_of(s.drop_last(), c)
    }
}

/// The part of `s` after the last `c`; all of `s` when it holds no `c`.
pub open spec fn after_last(s: Seq<char>, c: char) -> Seq<char> {
    s.subrange(last_index_of(s, c) + 1, s.len() as int)
}

/// The final component of a path.
pub open spec fn file_name_of(path: Seq<char>) -> Seq<char> {
    after_last(path, '/')
}

/// The key under which a file's comment prefix is looked up: the text after
/// the last dot of its file name, or the whole file name when it has no dot
/// (so `script.py` gives `py`, `.gitignore` gives `gitignore` and
/// `Dockerfile` gives `Dockerfile`).
pub open spec fn style_key(path: Seq<char>) -> Seq<char> {
    after_last(file_name_of(path), '.')
}

/// The prefix that the first entry with key `k` maps to.
pub open spec fn lookup_prefix(entries: Seq<(Seq<char>, Seq<char>)>, k: Seq<char>) -> Option<
    Seq<char>,
>
    decreases entries.len(),
{
    if entries.len() == 0 {
        None
    } else if entries[0].0 == k {
        Some(entries[0].1)
    } else {
        lookup_prefix(entries.drop_first(), k)
    }
}

/// The view of an optional string.
pub open spec fn opt_view(o: Option<String>) -> Option<Seq<char>> {
    match o {
        Some(s) => Some(s@),
        None => None,
    }
}

/// The abstract view of a list of (key, prefix) entries.
pub open spec fn entries_view(entries: Seq<(String, String)>) -> Seq<(Seq<char>, Seq<char>)> {
    entries.map_values(|e: (String, String)| (e.0@, e.1@))
}

proof fn lemma_last_index_bounds(s: Seq<char>, c: char)
    ensures
        -1 <= last_index_of(s, c) < s.len(),
        last_index_of(s, c) >= 0 ==> s[last_index_of(s, c)] == c,
        forall|j: int| last_index_of(s, c) < j < s.len() ==> s[j] != c,
    decreases s.len(),
{
    if s.len() > 0 && s.last() != c {
        let t = s.drop_last();
        lemma_last_index_bounds(t, c);
        assert forall|j: int| last_index_of(s, c) < j < s.len() implies s[j] != c by {
            if j < s.len() - 1 {
                assert(s[j] == t[j]);
            }
        }
    }
}

proof fn lemma_last_index_unique(s: Seq<char>, c: char, i: int)
    requires
        -1 <= i < s.len(),
        i >= 0 ==> s[i] == c,
        forall|j: int| i < j < s.len() ==> s[j] != c,
    ensures
        last_index_of(s, c) == i,
    decreases s.len(),
{
    if s.len() > 0 && s.last() != c {
        lemma_last_index_unique(s.drop_last(), c, i);
    }
}

/// The position just after the last `c` in `s`, or 0 when there is none.
fn start_after_last(s: &str, c: char) -> (r: usize)
    ensures
        r == last_index_of(s@, c) + 1,
{
    let n = s.unicode_len();
    let mut i: usize = n;
    while i > 0
        invariant
            i <= n,
            n == s@.len(),
            forall|j: int| i <= j < n ==> s@[j] != c,
        decreases i,
    {
        if s.get_char(i - 1) == c {
            proof {
                lemma_last_index_unique(s@, c, i - 1);
            }
            return i;
        }
        i = i - 1;
    }
    proof {
        lemma_last_index_unique(s@, c, -1);
    }
    0
}

/// The part of `s` after its last `c`.
fn split_after_last(s: &str, c: char) -> (r: &str)
    ensures
        r@ == after_last(s@, c),
{
    proof {
        lemma_last_index_bounds(s@, c);
    }
    let i = start_after_last(s, c);
    s.substring_char(i, s.unicode_len())
}

/// The lookup key of a path: the extension of its file name, or the file
/// name itself when it has none.
pub fn resolve_key(path: &str) -> (r: String)
    ensures
        r@ == style_key(path@),
{
    let name = split_after_last(path, '/');
    let key = split_after_last(name, '.');
    String::from_str(key)
}

/// The prefix of the first entry keyed `k`.
pub fn find_prefix(entries: &Vec<(String, String)>, k: &String) -> (r: Option<String>)
    ensures
        opt_view(r) == lookup_prefix(entries_view(entries@), k@),
{
    let mut i: usize = 0;
    assert(entries_view(entries@).subrange(0, entries@.len() as int) =~= entries_view(entries@));
    while i < entries.len()
        invariant
            i <= entries@.len(),
            lookup_prefix(entries_view(entries@), k@) == lookup_prefix(
                entries_view(entries@).subrange(i as int, entries@.len() as int),
                k@,
            ),
        decreases entries@.len() - i,
    {
        let ghost rest = entries_view(entries@).subrange(i as int, entries@.len() as int);
        assert(rest.drop_first() =~= entries_view(entries@).subrange(
            i + 1,
            entries@.len() as int,
        ));
        if entries[i].0 == *k {
            return Some(entries[i].1.clone());
        }
        i = i + 1;
    }
    None
}

/// The comment prefix for `path`: the entry for its extension, or for its
/// bare file name when it has no extension.
pub fn lookup(entries: &Vec<(String, String)>, path: &str) -> (r: Option<String>)
    ensures
        opt_view(r) == lookup_prefix(entries_view(entries@), style_key(path@)),
{
    let key = resolve_key(path);
    find_prefix(entries, &key)
}

} // verus!

use vstd::prelude::*;

verus! {

broadcast use vstd::string::group_string_axioms;

/// `pat` occurs in `s` starting at position `k`.
pub open spec fn occurs_at(s: Seq<char>, pat: Seq<char>, k: int) -> bool {
    &&& 0 <= k
    &&& k + pat.len() <= s.len()
    &&& s.subrange(k, k + pat.len()) == pat
}

/// `s` begins with `pat`.
pub open spec fn has_prefix(s: Seq<char>, pat: Seq<char>) -> bool {
    occurs_at(s, pat, 0)
}

/// `s` ends with `pat`.
pub open spec fn has_suffix(s: Seq<char>, pat: Seq<char>) -> bool {
    s.len() >= pat.len() && occurs_at(s, pat, s.len() - pat.len())
}

/// The characters of a string slice, in order.
pub fn chars_of(s: &str) -> (v: Vec<char>)
    ensures
        v@ == s@,
{
    let mut v: Vec<char> = Vec::new();
    for c in it: s.chars()
        invariant
            v@ == it.seq().take(it.index() as int),
            it.seq() == s@,
    {
        v.push(c);
        assert(v@ == it.seq().take(it.index() as int + 1));
    }
    v
}

/// `k` is the right-most position at which `pat` occurs in `s`.
pub open spec fn is_last_occurrence(s: Seq<char>, pat: Seq<char>, k: int) -> bool {
    &&& occurs_at(s, pat, k)
    &&& forall|j: int| k < j ==> !#[trigger] occurs_at(s, pat, j)
}

/// The right-most position at which `pat` occurs in `s`, if it occurs at all.
pub open spec fn last_occurrence(s: Seq<char>, pat: Seq<char>) -> Option<int> {
    if exists|k: int| occurs_at(s, pat, k) {
        Some(choose|k: int| is_last_occurrence(s, pat, k))
    } else {
        None
    }
}

/// A right-most occurrence is the one that `last_occurrence` names.
pub proof fn lemma_last_occurrence_unique(s: Seq<char>, pat: Seq<char>, k: int)
    requires
        is_last_occurrence(s, pat, k),
    ensures
        last_occurrence(s, pat) == Some(k),
{
    let c = choose|j: int| is_last_occurrence(s, pat, j);
    assert(is_last_occurrence(s, pat, c));
    if c < k {
        assert(occurs_at(s, pat, k));
    } else if k < c {
        assert(occurs_at(s, pat, c));
    }
}

/// Whether `pat` occurs in `s` at position `k`.
pub fn matches_at(s: &Vec<char>, pat: &Vec<char>, k: usize) -> (b: bool)
    ensures
        b == occurs_at(s@, pat@, k as int),
{
    if pat.len() > s.len() || k > s.len() - pat.len() {
        return false;
    }
    let mut i: usize = 0;
    let end: usize = k + pat.len();
    while i < pat.len()
        invariant
            i <= pat@.len(),
            end == k + pat@.len(),
            end <= s@.len(),
            forall|j: int| 0 <= j < i ==> s@[k + j] == pat@[j],
        decreases pat@.len() - i,
    {
        if s[k + i] != pat[i] {
            assert(s@.subrange(k as int, k + pat@.len())[i as int] != pat@[i as int]);
            return false;
        }
        i = i + 1;
    }
    assert(s@.subrange(k as int, k + pat@.len()) =~= pat@);
    true
}

/// The right-most position at which `pat` occurs in `s`.
pub fn find_last(s: &Vec<char>, pat: &Vec<char>) -> (res: Option<usize>)
    ensures
        match res {
            Some(k) => last_occurrence(s@, pat@) == Some(k as int) && is_last_occurrence(s@, pat@, k as int),
            None => last_occurrence(s@, pat@) is None,
        },
{
    if pat.len() > s.len() {
        assert forall|j: int| !occurs_at(s@, pat@, j) by {}
        return None;
    }
    let mut k: usize = s.len() - pat.len();
    loop
        invariant
            pat@.len() <= s@.len(),
            k <= s@.len() - pat@.len(),
            forall|j: int| k < j ==> !#[trigger] occurs_at(s@, pat@, j),
        decreases k,
    {
        if matches_at(s, pat, k) {
            proof {
                lemma_last_occurrence_unique(s@, pat@, k as int);
            }
            return Some(k);
        }
        if k == 0 {
            return None;
        }
        k = k - 1;
    }
}

/// A copy of `v[from..to]`.
pub fn subvec(v: &Vec<char>, from: usize, to: usize) -> (res: Vec<char>)
    requires
        from <= to <= v@.len(),
    ensures
        res@ == v@.subrange(from as int, to as int),
{
    let mut res: Vec<char> = Vec::new();
    let mut i: usize = from;
    while i < to
        invariant
            from <= i <= to,
            to <= v@.len(),
            res@ == v@.subrange(from as int, i as int),
        decreases to - i,
    {
        res.push(v[i]);
        i = i + 1;
        assert(res@ =~= v@.subrange(from as int, i as int));
    }
    res
}

/// The character sequences of a list of strings.
pub open spec fn views(v: Seq<String>) -> Seq<Seq<char>> {
    v.map_values(|s: String| s@)
}

/// Whether `list` holds a string equal to `item`.
pub fn contains_string(list: &Vec<String>, item: &String) -> (res: bool)
    ensures
        res == views(list@).contains(item@),
{
    let mut i: usize = 0;
    while i < list.len()
        invariant
            i <= list@.len(),
            forall|j: int| 0 <= j < i ==> list@[j]@ != item@,
        decreases list@.len() - i,
    {
        if list[i] == *item {
            assert(views(list@)[i as int] == item@);
            return true;
        }
        i = i + 1;
    }
    assert forall|j: int| 0 <= j < views(list@).len() implies views(list@)[j] != item@ by {
        assert(views(list@)[j] == list@[j]@);
    }
    false
}

/// The extension of the file a path names, as `std::path::Path::extension`
/// finds it on the platform the library is built for.
pub uninterp spec fn path_extension(path: Seq<char>) -> Option<Seq<char>>;

/// Calls `std::path::Path::extension` on the path and converts the result to
/// a `String` (an extension cut from a `&str` is valid UTF-8). The contract
/// claims only that the result is the named extension of the path.
#[verifier::external_body]
pub(crate) fn extension_of(path: &str) -> (res: Option<String>)
    ensures
        match res {
            Some(e) => path_extension(path@) == Some(e@),
            None => path_extension(path@) is None,
        },
{
    match std::path::Path::new(path).extension() {
        Some(e) => Some(e.to_string_lossy().into_owned()),
        None => None,
    }
}

/// Whether two string slices hold the same characters.
pub fn str_eq(a: &str, b: &str) -> (res: bool)
    ensures
        res == (a@ == b@),
{
    String::from_str(a) == String::from_str(b)
}

} // verus!

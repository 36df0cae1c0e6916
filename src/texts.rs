use vstd::prelude::*;

verus! {

/// The character sequences held by a list of strings.
pub open spec fn texts(v: Seq<String>) -> Seq<Seq<char>> {
    v.map_values(|s: String| s@)
}

/// No two entries of `s` are equal.
pub open spec fn all_distinct(s: Seq<Seq<char>>) -> bool {
    forall|a: int, b: int| 0 <= a < b < s.len() ==> s[a] != s[b]
}

/// No two entries of `s` before position `end` are equal.
pub open spec fn distinct_below(s: Seq<Seq<char>>, end: int) -> bool {
    forall|a: int, b: int| 0 <= a < b < end && b < s.len() ==> s[a] != s[b]
}

/// The earliest repeated entry of `names`: `Some((i, j))` where `names[j]`
/// repeats `names[i]`, `i < j`, and no repeat ends before `j`; `None` when
/// all entries differ.
pub fn find_duplicate(names: &Vec<String>) -> (r: Option<(usize, usize)>)
    ensures
        r is None <==> all_distinct(texts(names@)),
        r matches Some((i, j)) ==> {
            &&& i < j < names@.len()
            &&& names@[i as int]@ == names@[j as int]@
            &&& distinct_below(texts(names@), j as int)
        },
{
    let n = names.len();
    let mut j: usize = 0;
    while j < n
        invariant
            n == names@.len(),
            j <= n,
            distinct_below(texts(names@), j as int),
        decreases n - j,
    {
        let mut i: usize = 0;
        while i < j
            invariant
                n == names@.len(),
                i <= j < n,
                distinct_below(texts(names@), j as int),
                forall|a: int| 0 <= a < i ==> names@[a]@ != names@[j as int]@,
            decreases j - i,
        {
            if names[i] == names[j] {
                assert(texts(names@)[i as int] == texts(names@)[j as int]);
                return Some((i, j));
            }
            i = i + 1;
        }
        j = j + 1;
    }
    None
}

} // verus!

//! The registration interface: version tags are the dispatch keys of an
//! extension, so a consumer collecting model registrations must reject two
//! registrations sharing one tag (ambiguous dispatch). This module supplies
//! that check over the exposed tags.

use vstd::prelude::*;

verus! {

/// The version tags, each as its sequence of characters.
pub open spec fn tag_views(tags: Seq<String>) -> Seq<Seq<char>> {
    tags.map_values(|t: String| t@)
}

/// Whether no two registrations share a version tag.
pub open spec fn distinct_versions(tags: Seq<Seq<char>>) -> bool {
    forall|i: int, j: int| 0 <= i < j < tags.len() ==> tags[i] != tags[j]
}

/// Finds two registrations sharing one version tag, if any: the earliest
/// conflicting pair of positions, in lexicographic order. Returns `None`
/// exactly when every tag is distinct.
pub fn find_version_conflict(tags: &Vec<String>) -> (r: Option<(usize, usize)>)
    ensures
        match r {
            Some(pair) => pair.0 < pair.1 < tags@.len() && tag_views(tags@)[pair.0 as int]
                == tag_views(tags@)[pair.1 as int] && forall|a: int, b: int|
                0 <= a < b < tags@.len() && (a < pair.0 || (a == pair.0 && b < pair.1))
                    ==> tag_views(tags@)[a] != tag_views(tags@)[b],
            None => distinct_versions(tag_views(tags@)),
        },
{
    let n: usize = tags.len();
    let mut i: usize = 0;
    while i < n
        invariant
            i <= n,
            n == tags@.len(),
            forall|a: int, b: int| 0 <= a < b < tags@.len() && a < i ==> tags@[a]@ != tags@[b]@,
        decreases n - i,
    {
        let mut j: usize = i + 1;
        while j < n
            invariant
                i < j <= n,
                i < n,
                n == tags@.len(),
                forall|a: int, b: int| 0 <= a < b < tags@.len() && a < i ==> tags@[a]@ != tags@[b]@,
                forall|b: int| i < b < j ==> tags@[i as int]@ != tags@[b]@,
            decreases n - j,
        {
            if tags[i] == tags[j] {
                return Some((i, j));
            }
            j = j + 1;
        }
        i = i + 1;
    }
    None
}

} // verus!

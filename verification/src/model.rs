//! Views of optional values and of sequences, element by element.

use vstd::prelude::*;

verus! {

/// The view of an optional value.
pub open spec fn opt_view<T: View>(o: Option<T>) -> Option<T::V> {
    match o {
        Some(t) => Some(t@),
        None => None,
    }
}

/// The views of the elements of a sequence.
pub open spec fn seq_view<T: View>(s: Seq<T>) -> Seq<T::V> {
    Seq::new(s.len(), |i: int| s[i]@)
}

/// The views of the values of a map.
pub open spec fn map_view<K, T: View>(m: Map<K, T>) -> Map<K, T::V> {
    m.map_values(|t: T| t@)
}

/// Copies an optional text.
pub fn clone_text(o: &Option<String>) -> (r: Option<String>)
    ensures
        opt_view(r) == opt_view(*o),
{
    match o {
        Some(s) => Some(s.clone()),
        None => None,
    }
}

// ---------------------------------------------------------------------------
// Laws
// ---------------------------------------------------------------------------


/// The view of an optional value, of a row of values and of a map holds the view
/// of each value in its place, and nothing else.
pub proof fn views_hold_the_views_of_values<K, T: View>(o: Option<T>, s: Seq<T>, m: Map<K, T>)
    ensures
        opt_view(o) is Some <==> o is Some,
        o matches Some(x) ==> opt_view(o) == Some(x@),
        seq_view(s).len() == s.len(),
        forall|i: int| 0 <= i < s.len() ==> #[trigger] seq_view(s)[i] == s[i]@,
        map_view(m).dom() == m.dom(),
        forall|k: K| #[trigger] m.contains_key(k) ==> map_view(m)[k] == m[k]@,
{
    assert(map_view(m).dom() =~= m.dom());
}

} // verus!

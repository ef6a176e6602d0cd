//! Small facts about deep views of byte vectors, shared by the parsing and
//! formatting modules.

use vstd::prelude::*;

verus! {

/// A byte vector's deep view is its view: the elements are plain bytes.
pub proof fn lemma_vec_u8_deep_view(v: Vec<u8>)
    ensures
        v.deep_view() =~= v@,
{
}

/// Pushing onto a vector of byte vectors pushes the element's view onto the
/// deep view.
pub proof fn lemma_deep_view_push(a: Vec<Vec<u8>>, b: Vec<Vec<u8>>, x: Vec<u8>)
    requires
        b@ == a@.push(x),
    ensures
        b.deep_view() =~= a.deep_view().push(x@),
{
    assert forall|i: int| 0 <= i < b.deep_view().len() implies b.deep_view()[i]
        == a.deep_view().push(x@)[i] by {
        if i < a@.len() {
            assert(b@[i] == a@[i]);
        } else {
            assert(b@[i] == x);
            lemma_vec_u8_deep_view(x);
        }
    }
}

} // verus!

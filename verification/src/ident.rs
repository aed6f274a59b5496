//! The identifiers under which the backend knows the nodes.

use vstd::prelude::*;

verus! {

/// The identifier that `tf_bindgen::Path::id` gives to the node reached by
/// the names `segments`.
pub uninterp spec fn path_id(segments: Seq<Seq<char>>) -> Seq<char>;

/// The identifier of the node reached by the names `segments`.
///
/// This calls `tf_bindgen::Path::id` on the path made of `segments`, which
/// derives the identifier from the last name and a digest of all of them.
/// The contract is not proved: it claims that the result depends on the
/// names alone, and leaves out the empty path, on which that method panics.
#[verifier::external_body]
pub(crate) fn identify(segments: &Vec<String>) -> (id: String)
    requires
        segments.len() > 0,
    ensures
        id@ == path_id(segments.deep_view()),
{
    tf_bindgen::Path::from(segments.clone()).id()
}

} // verus!

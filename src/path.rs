use vstd::prelude::*;

verus! {

/// The path that `std::path::Path::join` forms from `base` and `segment`.
pub uninterp spec fn path_join(base: Seq<char>, segment: Seq<char>) -> Seq<char>;

/// Relies on `std::path::Path::join`: the joined path depends on the two
/// paths alone. Both inputs are UTF-8, so the lossless conversion back to a
/// `String` keeps every character.
#[verifier::external_body]
pub(crate) fn join(base: &str, segment: &str) -> (r: String)
    ensures
        r@ == path_join(base@, segment@),
{
    std::path::Path::new(base).join(segment).to_string_lossy().into_owned()
}

} // verus!

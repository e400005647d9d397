use vstd::prelude::*;

verus! {

/// Relies on `time::now` and `Tm::rfc3339` of the `time` crate: the current
/// wall-clock time, rendered with second precision and an explicit UTC-offset
/// designator. The rendering is digits joined by `-`, `T` and `:`, ended by
/// `Z` or a signed offset, so whatever instant the clock reports, the text is
/// non-empty and holds no space.
#[verifier::external_body]
pub(crate) fn now_rfc3339() -> (r: String)
    ensures
        r@.len() > 0,
        forall|i: int| 0 <= i < r@.len() ==> r@[i] != ' ',
{
    time::now().rfc3339().to_string()
}

} // verus!

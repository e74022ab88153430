//! Joining path segments.

use crate::text::texts;
use vstd::prelude::*;

verus! {

/// The text of the path that results when the segment with the text `segment`
/// is pushed onto the path with the text `base`, by the path syntax of the
/// platform the library is built for.
pub uninterp spec fn pushed(base: Seq<char>, segment: Seq<char>) -> Seq<char>;

/// The path that results when `segments` are pushed, in order, onto the empty
/// path.
pub open spec fn joined(segments: Seq<Seq<char>>) -> Seq<char>
    decreases segments.len(),
{
    if segments.len() == 0 {
        Seq::empty()
    } else {
        pushed(joined(segments.drop_last()), segments.last())
    }
}

/// Calls `std::path::PathBuf::push` on the path written as `base`, with
/// `segment`, and returns the path it leaves, as text again. The contract
/// claims only that the two texts determine the result. What the result is,
/// is the standard library's to say: it puts a separator between the two
/// where one is needed, and lets an absolute `segment` replace `base`.
/// The path is made of the two texts alone, so taking it back as text loses
/// nothing.
#[verifier::external_body]
fn push(base: String, segment: &str) -> (out: String)
    ensures
        out@ == pushed(base@, segment@),
{
    let mut buffer = std::path::PathBuf::from(base);
    buffer.push(segment);
    buffer.to_string_lossy().into_owned()
}

/// Joins `segments` into one path, as pushing each in turn onto an empty path
/// does.
pub fn path<const N: usize>(segments: [&str; N]) -> (whole: String)
    ensures
        whole@ == joined(texts(segments@)),
{
    let mut whole = String::new();
    let mut i: usize = 0;
    while i < N
        invariant
            i <= N,
            segments@.len() == N,
            whole@ == joined(texts(segments@).take(i as int)),
        decreases N - i,
    {
        whole = push(whole, segments[i]);
        proof {
            let all = texts(segments@);
            assert(all.take(i + 1).drop_last() =~= all.take(i as int));
            assert(all.take(i + 1).last() == segments[i as int]@);
        }
        i = i + 1;
    }
    assert(texts(segments@).take(i as int) =~= texts(segments@));
    whole
}

} // verus!

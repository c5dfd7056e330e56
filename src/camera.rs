use vstd::prelude::*;

verus! {

/// The image height, given the width divided by the aspect ratio and
/// truncated: at least 1, so that a very wide image still has a row.
pub fn image_height(truncated: i64) -> (r: i64)
    ensures
        r == if truncated < 1 {
            1
        } else {
            truncated
        },
{
    if truncated < 1 {
        1
    } else {
        truncated
    }
}

} // verus!

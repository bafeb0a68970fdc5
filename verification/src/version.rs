use vstd::prelude::*;
use crate::text::str_is;

verus! {

/// Whether the newest published version differs from the running one.
pub fn update_available(latest: &str, current: &str) -> (r: bool)
    ensures
        r == (latest@ != current@),
{
    !str_is(latest, current)
}

} // verus!

use vstd::prelude::*;

use crate::cga::{blank_page, CGA};

verus! {

/// The text demo: clears the screen, leaving the cursor at (0, 0).
pub fn run(cga: &mut CGA)
    requires
        old(cga).wf(),
    ensures
        final(cga).wf(),
        final(cga).cells() == blank_page(),
        final(cga).pos() == 0,
{
    cga.clear();
}

} // verus!

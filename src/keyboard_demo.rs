use vstd::prelude::*;

use crate::cga::{printed, CGA};

verus! {

/// What the keyboard demo does with one polled key: an invalid key is
/// ignored; a key with ASCII code 0 prints `'-'`; one with code 1 prints that
/// code; any other valid key is left to the caller, which shows its scancode.
/// Returns whether the caller is to show the scancode.
pub fn handle_key(cga: &mut CGA, valid: bool, ascii: u8) -> (show_scancode: bool)
    requires
        old(cga).wf(),
    ensures
        final(cga).wf(),
        show_scancode == (valid && ascii > 1),
        valid && ascii == 0 ==> (final(cga).cells(), final(cga).pos()) == printed(
            old(cga).cells(),
            old(cga).pos(),
            45u8,
        ),
        valid && ascii == 1 ==> (final(cga).cells(), final(cga).pos()) == printed(
            old(cga).cells(),
            old(cga).pos(),
            1u8,
        ),
        !(valid && ascii <= 1) ==> final(cga).cells() == old(cga).cells() && final(cga).pos()
            == old(cga).pos(),
{
    if !valid {
        return false;
    }
    if ascii == 0 {
        cga.print_byte('-' as u8);
        false
    } else if ascii == 1 {
        cga.print_byte(ascii);
        false
    } else {
        true
    }
}

} // verus!

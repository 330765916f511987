use vstd::prelude::*;

use crate::cube::{handle_rotation, handle_translation, named, Cube};
use crate::keys::{KeyEvent, NamedKey};

verus! {

/// Steers the cube's sliding and turning by a key event, and tells whether
/// the event asks to quit: any event of the Escape key does.
pub fn handle_input(event: &KeyEvent, state: &mut Cube) -> (exit: bool)
    ensures
        exit == (event.logical_key@ == named(NamedKey::Escape)),
        *final(state) == (Cube {
            translation: old(state).translation.after_key(event@),
            rotation: old(state).rotation.after_key(event@),
            ..*old(state)
        }),
{
    let exit = event.logical_key.same_as(&crate::keys::Key::Named(NamedKey::Escape));
    handle_translation(event, state);
    handle_rotation(event, state);
    exit
}

} // verus!

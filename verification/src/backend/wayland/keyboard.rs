//! The keyboard: the keymap that the compositor hands over, and the
//! translation of its key events.

use vstd::prelude::*;
use crate::backend::wayland::{consistent, WaylandState, WlState};
use crate::keymap::{
    key_entries, keys_after, queue_key_events, KeymapError, Translator, KEYCODE_OFFSET,
};

verus! {

/// The state of a key that came up.
pub const KEY_RELEASED: u32 = 0;

/// The state of a key that went down.
pub const KEY_PRESSED: u32 = 1;

/// The state of a key that repeats, which counts as down.
pub const KEY_REPEATED: u32 = 2;

/// The backend after a keymap was compiled, or was not: a compiled one
/// replaces the translator, a failure leaves the backend as it is.
pub open spec fn keymap_installed(s: WlState, built: Result<Translator, KeymapError>) -> (
    WlState,
    Result<(), KeymapError>,
) {
    match built {
        Ok(translator) => (WlState { translator: Some(translator), ..s }, Ok(())),
        Err(e) => (s, Err(e)),
    }
}

/// The backend after a key event: the events of the key's symbols are
/// queued, released for a key that came up and pressed for one that went
/// down or repeats, and their keys marked. Nothing changes without a
/// keymap, for a state that is not known, or for a key that the keymap
/// does not resolve.
pub open spec fn key_received(s: WlState, key: u32, state: u32) -> WlState {
    if key > u32::MAX - KEYCODE_OFFSET || state > KEY_REPEATED {
        s
    } else {
        match s.translator {
            None => s,
            Some(translator) => match translator.symbols((key + KEYCODE_OFFSET) as u32) {
                None => s,
                Some(syms) => {
                    let pressed: u32 = if state == KEY_RELEASED {
                        0
                    } else {
                        1
                    };
                    WlState {
                        active_keysyms: s.active_keysyms + key_entries(s.table, pressed, syms),
                        keys: keys_after(s.keys, s.table, pressed as u8, syms),
                        ..s
                    }
                },
            },
        }
    }
}

impl WaylandState {
    /// Takes the keymap that was compiled from the layout description of
    /// the compositor, or the failure to compile it.
    pub fn keymap_built(&mut self, built: Result<Translator, KeymapError>) -> (r: Result<
        (),
        KeymapError,
    >)
        requires
            consistent(old(self)@),
        ensures
            consistent(final(self)@),
            (final(self)@, r) == keymap_installed(old(self)@, built),
    {
        match built {
            Ok(translator) => {
                self.translator = Some(translator);
                Ok(())
            },
            Err(e) => Err(e),
        }
    }

    /// Takes a key event of the compositor.
    pub fn key(&mut self, key: u32, state: u32)
        requires
            consistent(old(self)@),
        ensures
            consistent(final(self)@),
            final(self)@ == key_received(old(self)@, key, state),
    {
        if key > u32::MAX - KEYCODE_OFFSET || state > KEY_REPEATED {
            return ;
        }
        let keycode = key + KEYCODE_OFFSET;
        let syms = match &self.translator {
            None => None,
            Some(translator) => translator.key_symbols(keycode),
        };
        match syms {
            None => {},
            Some(syms) => {
                let pressed: u32 = if state == KEY_RELEASED {
                    0
                } else {
                    1
                };
                queue_key_events(
                    &mut self.active_keysyms,
                    &mut self.keys,
                    &self.table,
                    &syms,
                    pressed,
                );
            },
        }
    }
}

} // verus!

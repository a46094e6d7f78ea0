//! The keymap and its translator: from a raw key code, through the layout
//! that is active and the last level of the key, to keyboard symbols, and
//! from those to queued key events.

use vstd::prelude::*;
use crate::type_defs::{
    SDL_Event, SDL_keysym, KEY_SCANCODE, SDLK_LAST, SDL_KEYDOWN, SDL_KEYUP,
};
use crate::xcb::{lookup, KeyTable};

verus! {

/// The offset between the key codes of the input devices, and of the
/// compositor, and those of the keymap.
pub const KEYCODE_OFFSET: u32 = 8;

/// A compiled keymap of `xkbcommon_rs`.
#[verifier::external_type_specification]
#[verifier::external_body]
pub struct ExKeymap(xkbcommon_rs::Keymap);

/// A keyboard state of `xkbcommon_rs`.
#[verifier::external_type_specification]
#[verifier::external_body]
pub struct ExState(xkbcommon_rs::State);

/// Why `xkbcommon_rs` did not compile a keymap.
#[verifier::external_type_specification]
#[verifier::external_body]
pub struct ExKeymapCompileError(xkbcommon_rs::error::keymap::KeymapCompileError);

/// What a keymap holds: the symbols that it gives for a key code, a layout
/// and a level. A triple is absent where the keymap gives none for it.
pub uninterp spec fn keymap_symbols(keymap: xkbcommon_rs::Keymap) -> Map<
    (u32, usize, usize),
    Seq<u32>,
>;

/// The number of levels that a keymap gives for a key code and a layout.
/// A pair is absent where the keymap gives none for it.
pub uninterp spec fn keymap_levels(keymap: xkbcommon_rs::Keymap) -> Map<(u32, usize), usize>;

/// The layout that a keyboard state uses for each key code. A key code is
/// absent where the state has no valid layout for it.
pub uninterp spec fn state_layouts(state: xkbcommon_rs::State) -> Map<u32, usize>;

/// The number of levels of a key in a layout, zero where there is none.
pub open spec fn levels_at(keymap: xkbcommon_rs::Keymap, keycode: u32, layout: usize) -> usize {
    if keymap_levels(keymap).contains_key((keycode, layout)) {
        keymap_levels(keymap)[(keycode, layout)]
    } else {
        0
    }
}

/// `xkbcommon_rs::State::new` on a copy of the keymap: a state in which no
/// key is down. Its layout component is zero, and `key_get_layout` gives a
/// layout that is in range as it is, so the layout of every key that has
/// one is the first.
#[verifier::external_body]
fn new_state(keymap: &xkbcommon_rs::Keymap) -> (state: xkbcommon_rs::State)
    ensures
        forall|keycode: u32| #[trigger]
            state_layouts(state).contains_key(keycode) ==> state_layouts(state)[keycode] == 0,
{
    xkbcommon_rs::State::new(keymap.clone())
}

/// `xkbcommon_rs::State::key_get_layout`: the layout that the state uses
/// for the key, and none where it has no valid one. The states of this
/// library are never updated, so the layout they hold is the first.
#[verifier::external_body]
fn key_get_layout(state: &xkbcommon_rs::State, keycode: u32) -> (layout: Option<usize>)
    ensures
        layout == (if state_layouts(*state).contains_key(keycode) {
            Some(state_layouts(*state)[keycode])
        } else {
            None
        }),
{
    state.key_get_layout(keycode)
}

/// `xkbcommon_rs::Keymap::num_levels_for_key`: the number of levels that
/// the keymap gives for the key and the layout, and zero where it gives
/// none.
#[verifier::external_body]
fn num_levels_for_key(keymap: &xkbcommon_rs::Keymap, keycode: u32, layout: usize) -> (levels:
    usize)
    ensures
        levels == (if keymap_levels(*keymap).contains_key((keycode, layout)) {
            keymap_levels(*keymap)[(keycode, layout)]
        } else {
            0
        }),
{
    keymap.num_levels_for_key(keycode, layout)
}

/// `xkbcommon_rs::Keymap::key_get_syms_by_level`: the symbols that the
/// keymap gives for the key, the layout and the level, each as its number,
/// and none where the call fails. The error of the call has no public
/// name, so it is dropped here.
#[verifier::external_body]
fn key_get_syms_by_level(
    keymap: &xkbcommon_rs::Keymap,
    keycode: u32,
    layout: usize,
    level: usize,
) -> (syms: Option<Vec<u32>>)
    ensures
        syms.is_some() == keymap_symbols(*keymap).contains_key((keycode, layout, level)),
        syms matches Some(v) ==> v@ == keymap_symbols(*keymap)[(keycode, layout, level)],
{
    keymap.key_get_syms_by_level(keycode, layout, level).ok().map(
        |syms| syms.into_iter().map(|sym| sym.raw()).collect(),
    )
}

/// Whether a state uses the first layout for every key that it has a
/// layout for, as a state does in which no key was pressed yet.
pub open spec fn uses_first_layout(state: xkbcommon_rs::State) -> bool {
    forall|keycode: u32| #[trigger]
        state_layouts(state).contains_key(keycode) ==> state_layouts(state)[keycode] == 0
}

/// Why there is no keymap. The keymap is compiled by the caller, which
/// reads the description and whatever it includes; the translator is set
/// up here over what the compilation gave.
#[derive(Debug, Clone, Copy, PartialEq, Eq, Structural)]
pub enum KeymapError {
    /// No library context could be made.
    Context,
    /// The description did not compile.
    Compile,
}

/// A keymap together with the state that translates through it.
pub struct Translator {
    keymap: xkbcommon_rs::Keymap,
    state: xkbcommon_rs::State,
}

/// The symbols that a keymap and a state give a raw key code: those bound
/// at the last level of the key in the layout that the state uses for it.
/// None where the state has no layout for the key, the key has no level
/// in it, or the keymap binds nothing there.
pub open spec fn symbols_for(
    keymap: xkbcommon_rs::Keymap,
    state: xkbcommon_rs::State,
    keycode: u32,
) -> Option<Seq<u32>> {
    if !state_layouts(state).contains_key(keycode) {
        None
    } else {
        let layout = state_layouts(state)[keycode];
        let levels = levels_at(keymap, keycode, layout);
        if levels == 0 {
            None
        } else if !keymap_symbols(keymap).contains_key((keycode, layout, (levels - 1) as usize)) {
            None
        } else {
            Some(keymap_symbols(keymap)[(keycode, layout, (levels - 1) as usize)])
        }
    }
}

impl Translator {
    /// The keymap that is translated through.
    pub closed spec fn keymap(&self) -> xkbcommon_rs::Keymap {
        self.keymap
    }

    /// The state that chooses the layout.
    pub closed spec fn state(&self) -> xkbcommon_rs::State {
        self.state
    }

    /// The symbols of a raw key code under this translator.
    pub open spec fn symbols(&self, keycode: u32) -> Option<Seq<u32>> {
        symbols_for(self.keymap(), self.state(), keycode)
    }

    /// Sets up a fresh state over a compiled keymap: one that uses the
    /// first layout of every key.
    pub fn new(keymap: xkbcommon_rs::Keymap) -> (translator: Translator)
        ensures
            translator.keymap() == keymap,
            uses_first_layout(translator.state()),
    {
        let state = new_state(&keymap);
        Translator { keymap, state }
    }

    /// Takes what the compilation of a keymap gave: a translator over the
    /// keymap that was compiled, with a fresh state, or the failure to
    /// compile one.
    pub fn from_compiled(
        compiled: Result<xkbcommon_rs::Keymap, xkbcommon_rs::error::keymap::KeymapCompileError>,
    ) -> (translator: Result<Translator, KeymapError>)
        ensures
            match compiled {
                Ok(keymap) => translator matches Ok(t) && t.keymap() == keymap
                    && uses_first_layout(t.state()),
                Err(_) => translator matches Err(e) && e == KeymapError::Compile,
            },
    {
        match compiled {
            Ok(keymap) => Ok(Translator::new(keymap)),
            Err(_) => Err(KeymapError::Compile),
        }
    }

    /// Resolves a raw key code to its symbols: the layout of the key, the
    /// last level of the key in that layout (the number of levels less
    /// one), and the symbols bound there.
    pub fn key_symbols(&self, keycode: u32) -> (syms: Option<Vec<u32>>)
        ensures
            syms.is_some() == self.symbols(keycode).is_some(),
            syms matches Some(v) ==> Some(v@) == self.symbols(keycode),
    {
        match key_get_layout(&self.state, keycode) {
            None => None,
            Some(layout) => {
                let levels = num_levels_for_key(&self.keymap, keycode, layout);
                if levels == 0 {
                    None
                } else {
                    key_get_syms_by_level(&self.keymap, keycode, layout, levels - 1)
                }
            },
        }
    }
}


/// The queued event of one symbol: the pressed or released state it
/// carries and the translated key.
pub open spec fn key_entry(table: Seq<(u32, u32)>, state: u32, sym: u32) -> (u32, SDL_keysym) {
    (state, SDL_keysym { scancode: KEY_SCANCODE, sym: lookup(table, sym), mod_: 0, unicode: 0 })
}

/// The queued events of the symbols of one raw key event: one for each
/// symbol, in their order.
pub open spec fn key_entries(table: Seq<(u32, u32)>, state: u32, syms: Seq<u32>) -> Seq<
    (u32, SDL_keysym),
> {
    Seq::new(syms.len(), |i: int| key_entry(table, state, syms[i]))
}

/// Whether one of the symbols translates to the key code `key`.
pub open spec fn touches(table: Seq<(u32, u32)>, syms: Seq<u32>, key: int) -> bool {
    exists|i: int| 0 <= i < syms.len() && lookup(table, #[trigger] syms[i]) == key
}

/// The key state table after the symbols of one raw key event: the entry
/// of every key that a symbol translates to holds `state`, every other is
/// as before.
pub open spec fn keys_after(
    keys: Seq<u8>,
    table: Seq<(u32, u32)>,
    state: u8,
    syms: Seq<u32>,
) -> Seq<u8> {
    Seq::new(
        keys.len(),
        |key: int|
            if touches(table, syms, key) {
                state
            } else {
                keys[key]
            },
    )
}

/// Queues the events of one raw key event and marks its keys in the key
/// state table. Every symbol gives one event, also where two of them
/// translate to the same key.
pub fn queue_key_events(
    pending: &mut Vec<(u32, SDL_keysym)>,
    keys: &mut Vec<u8>,
    table: &KeyTable,
    syms: &Vec<u32>,
    state: u32,
)
    requires
        old(keys)@.len() == SDLK_LAST,
    ensures
        final(pending)@ == old(pending)@ + key_entries(table@, state, syms@),
        final(keys)@ == keys_after(old(keys)@, table@, state as u8, syms@),
{
    let mut i: usize = 0;
    while i < syms.len()
        invariant
            i <= syms.len(),
            keys@.len() == SDLK_LAST,
            pending@ == old(pending)@ + key_entries(table@, state, syms@.subrange(0, i as int)),
            keys@ == keys_after(old(keys)@, table@, state as u8, syms@.subrange(0, i as int)),
        decreases syms.len() - i,
    {
        let sym = syms[i];
        let key = table.sdl_key_from_keysym(sym);
        let ghost before = syms@.subrange(0, i as int);
        let ghost after = syms@.subrange(0, i as int + 1);
        let ghost keys_before = keys@;
        pending.push(
            (state, SDL_keysym { scancode: KEY_SCANCODE, sym: key, mod_: 0, unicode: 0 }),
        );
        keys.set(key as usize, state as u8);
        proof {
            assert(after[i as int] == sym);
            assert(pending@ =~= old(pending)@ + key_entries(table@, state, after));
            assert forall|k: int| 0 <= k < keys@.len() implies keys@[k] == keys_after(
                old(keys)@,
                table@,
                state as u8,
                after,
            )[k] by {
                if touches(table@, after, k) {
                    let j = choose|j: int|
                        0 <= j < after.len() && lookup(table@, #[trigger] after[j]) == k;
                    if j < i {
                        assert(before[j] == after[j]);
                        assert(touches(table@, before, k));
                    }
                } else {
                    if touches(table@, before, k) {
                        let j = choose|j: int|
                            0 <= j < before.len() && lookup(table@, #[trigger] before[j]) == k;
                        assert(after[j] == before[j]);
                    }
                    assert(k != key);
                }
            }
            assert(keys@ =~= keys_after(old(keys)@, table@, state as u8, after));
        }
        i += 1;
    }
    proof {
        assert(syms@.subrange(0, i as int) =~= syms@);
    }
}

/// A raw key event that resolves to some number of symbols queues exactly
/// that number of events, each with the state of the raw event.
pub proof fn lemma_key_events_keep_multiplicity(table: Seq<(u32, u32)>, state: u32, syms: Seq<u32>)
    ensures
        key_entries(table, state, syms).len() == syms.len(),
        forall|i: int|
            0 <= i < syms.len() ==> (#[trigger] key_entries(table, state, syms)[i]).0 == state,
        forall|i: int|
            0 <= i < syms.len() ==> (#[trigger] key_entries(table, state, syms)[i]).1.sym == lookup(
                table,
                syms[i],
            ),
{
}


/// The key state table in which no key is down.
pub open spec fn no_keys_down() -> Seq<u8> {
    Seq::new(SDLK_LAST as nat, |key: int| 0u8)
}

/// A key state table in which no key is down.
pub fn blank_keys() -> (keys: Vec<u8>)
    ensures
        keys@ == no_keys_down(),
{
    let mut keys: Vec<u8> = Vec::new();
    let mut i: u32 = 0;
    while i < SDLK_LAST
        invariant
            i <= SDLK_LAST,
            keys@ == Seq::new(i as nat, |key: int| 0u8),
        decreases SDLK_LAST - i,
    {
        keys.push(0);
        i += 1;
        assert(keys@ =~= Seq::new(i as nat, |key: int| 0u8));
    }
    keys
}

/// The event record after a queued key event was written into it: a key
/// up for a released key and a key down for any other, from device 0,
/// with the state and the translated key of the entry. The fields of the
/// pointer are as before.
pub open spec fn key_event(previous: SDL_Event, entry: (u32, SDL_keysym)) -> SDL_Event {
    SDL_Event {
        type_: if entry.0 == 0 {
            SDL_KEYUP
        } else {
            SDL_KEYDOWN
        },
        which: 0,
        state: entry.0 as u8,
        keysym: entry.1,
        ..previous
    }
}

/// Writes a queued key event into the event record.
pub fn fill_key_event(event: &mut SDL_Event, entry: (u32, SDL_keysym))
    ensures
        *final(event) == key_event(*old(event), entry),
{
    if entry.0 == 0 {
        event.type_ = SDL_KEYUP;
    } else {
        event.type_ = SDL_KEYDOWN;
    }
    event.which = 0;
    event.state = entry.0 as u8;
    event.keysym = entry.1;
}

} // verus!

use sdl_shim::keymap::{blank_keys, fill_key_event, queue_key_events, KeymapError, Translator};
use sdl_shim::type_defs::{SDL_Event, SDL_keysym};
use sdl_shim::xcb::KeyTable;

/// Compiles a keymap description as the caller of the library does.
fn compile(text: &str) -> Result<Translator, KeymapError> {
    let context = xkbcommon_rs::Context::new(xkbcommon_rs::xkb_context::ContextFlags::NO_FLAGS)
        .map_err(|_| KeymapError::Context)?;
    Translator::from_compiled(xkbcommon_rs::Keymap::new_from_string(
        context,
        text,
        xkbcommon_rs::KeymapFormat::TextV1,
        xkbcommon_rs::xkb_keymap::CompileFlags::NO_FLAGS,
    ))
}

fn keymap_text() -> &'static str {
    "xkb_keymap {\n\
     xkb_keycodes \"test\" {\n\
         minimum = 8;\n\
         maximum = 255;\n\
         <ESC> = 9;\n\
         <AE01> = 10;\n\
         <AC01> = 38;\n\
         <LFSH> = 50;\n\
     };\n\
     xkb_types \"test\" {\n\
         type \"ONE_LEVEL\" {\n\
             modifiers = none;\n\
             map[None] = Level1;\n\
             level_name[Level1] = \"Any\";\n\
         };\n\
         type \"TWO_LEVEL\" {\n\
             modifiers = Shift;\n\
             map[Shift] = Level2;\n\
             level_name[Level1] = \"Base\";\n\
             level_name[Level2] = \"Shift\";\n\
         };\n\
     };\n\
     xkb_compatibility \"test\" {\n\
     };\n\
     xkb_symbols \"test\" {\n\
         key <ESC> { type = \"ONE_LEVEL\", symbols[Group1] = [ Escape ] };\n\
         key <AE01> { type = \"TWO_LEVEL\", symbols[Group1] = [ 1, exclam ] };\n\
         key <AC01> { type = \"TWO_LEVEL\", symbols[Group1] = [ a, A ] };\n\
         key <LFSH> { type = \"ONE_LEVEL\", symbols[Group1] = [ Shift_L ] };\n\
     };\n\
     };\n"
}

#[test]
fn keymap_text_compiles() {
    assert!(compile(keymap_text()).is_ok());
}

#[test]
fn broken_keymap_text_is_refused() {
    match compile("xkb_keymap { this is no keymap") {
        Err(e) => assert_eq!(e, KeymapError::Compile),
        Ok(_) => panic!("a broken description compiled"),
    }
}

#[test]
fn key_resolves_to_symbols_of_last_level() {
    let translator = compile(keymap_text()).unwrap();
    // One level: the symbol of that level.
    assert_eq!(translator.key_symbols(9), Some(vec![0xff1b]));
    // Two levels: the symbol of the second.
    assert_eq!(translator.key_symbols(38), Some(vec![0x41]));
    assert_eq!(translator.key_symbols(10), Some(vec![0x21]));
    assert_eq!(translator.key_symbols(50), Some(vec![0xffe1]));
}

#[test]
fn unknown_key_resolves_to_nothing() {
    let translator = compile(keymap_text()).unwrap();
    assert_eq!(translator.key_symbols(200), None);
    assert_eq!(translator.key_symbols(0), None);
    assert_eq!(translator.key_symbols(u32::MAX), None);
}

#[test]
fn every_symbol_queues_one_event() {
    let table = KeyTable::new(vec![(0x41, 97), (0x61, 97), (0xff1b, 27)]).unwrap();
    let mut pending: Vec<(u32, SDL_keysym)> = Vec::new();
    let mut keys = blank_keys();
    queue_key_events(&mut pending, &mut keys, &table, &vec![0x41, 0x61, 0xff1b], 1);
    assert_eq!(pending.len(), 3);
    for entry in pending.iter() {
        assert_eq!(entry.0, 1);
        assert_eq!(entry.1.scancode, 25);
        assert_eq!(entry.1.mod_, 0);
        assert_eq!(entry.1.unicode, 0);
    }
    assert_eq!(pending[0].1.sym, 97);
    assert_eq!(pending[1].1.sym, 97);
    assert_eq!(pending[2].1.sym, 27);
    assert_eq!(keys[97], 1);
    assert_eq!(keys[27], 1);
    assert_eq!(keys.iter().filter(|k| **k != 0).count(), 2);
}

#[test]
fn released_key_clears_its_entry() {
    let table = KeyTable::new(vec![(0x61, 97)]).unwrap();
    let mut pending: Vec<(u32, SDL_keysym)> = Vec::new();
    let mut keys = blank_keys();
    queue_key_events(&mut pending, &mut keys, &table, &vec![0x61], 1);
    queue_key_events(&mut pending, &mut keys, &table, &vec![0x61], 0);
    assert_eq!(keys[97], 0);
    assert_eq!(pending.len(), 2);
    assert_eq!(pending[0].0, 1);
    assert_eq!(pending[1].0, 0);
}

#[test]
fn no_symbol_queues_nothing() {
    let table = KeyTable::new(vec![(0x61, 97)]).unwrap();
    let mut pending: Vec<(u32, SDL_keysym)> = Vec::new();
    let mut keys = blank_keys();
    queue_key_events(&mut pending, &mut keys, &table, &Vec::new(), 1);
    assert!(pending.is_empty());
    assert_eq!(keys, blank_keys());
}

#[test]
fn blank_key_table_has_an_entry_for_every_key() {
    let keys = blank_keys();
    assert_eq!(keys.len(), 323);
    assert!(keys.iter().all(|k| *k == 0));
}

#[test]
fn key_event_record_is_down_or_up() {
    let keysym = SDL_keysym { scancode: 25, sym: 97, mod_: 0, unicode: 0 };
    let mut event = SDL_Event::new();
    event.x = 7;
    fill_key_event(&mut event, (1, keysym));
    assert_eq!(event.type_, 2);
    assert_eq!(event.state, 1);
    assert_eq!(event.which, 0);
    assert_eq!(event.keysym, keysym);
    assert_eq!(event.x, 7);
    fill_key_event(&mut event, (0, keysym));
    assert_eq!(event.type_, 3);
    assert_eq!(event.state, 0);
}

#[test]
fn translator_is_set_up_over_a_compiled_keymap() {
    let context = xkbcommon_rs::Context::new(xkbcommon_rs::xkb_context::ContextFlags::NO_FLAGS)
        .unwrap();
    let compiled = xkbcommon_rs::Keymap::new_from_string(
        context,
        keymap_text(),
        xkbcommon_rs::KeymapFormat::TextV1,
        xkbcommon_rs::xkb_keymap::CompileFlags::NO_FLAGS,
    );
    let translator = Translator::from_compiled(compiled).unwrap();
    assert_eq!(translator.key_symbols(38), Some(vec![0x41]));

    let context = xkbcommon_rs::Context::new(xkbcommon_rs::xkb_context::ContextFlags::NO_FLAGS)
        .unwrap();
    let broken = xkbcommon_rs::Keymap::new_from_string(
        context,
        "no keymap",
        xkbcommon_rs::KeymapFormat::TextV1,
        xkbcommon_rs::xkb_keymap::CompileFlags::NO_FLAGS,
    );
    assert!(matches!(Translator::from_compiled(broken), Err(KeymapError::Compile)));
}

fn two_layout_text() -> &'static str {
    "xkb_keymap {\n\
     xkb_keycodes \"test\" {\n\
         minimum = 8;\n\
         maximum = 255;\n\
         <AC01> = 38;\n\
     };\n\
     xkb_types \"test\" {\n\
         type \"ONE_LEVEL\" {\n\
             modifiers = none;\n\
             map[None] = Level1;\n\
             level_name[Level1] = \"Any\";\n\
         };\n\
         type \"TWO_LEVEL\" {\n\
             modifiers = Shift;\n\
             map[Shift] = Level2;\n\
             level_name[Level1] = \"Base\";\n\
             level_name[Level2] = \"Shift\";\n\
         };\n\
     };\n\
     xkb_compatibility \"test\" {\n\
     };\n\
     xkb_symbols \"test\" {\n\
         key <AC01> {\n\
             type = \"TWO_LEVEL\",\n\
             symbols[Group1] = [ a, A ],\n\
             symbols[Group2] = [ b, B ]\n\
         };\n\
     };\n\
     };\n"
}

#[test]
fn fresh_translator_uses_the_first_layout() {
    let translator = compile(two_layout_text()).unwrap();
    // The last level of the first layout, not of the second.
    assert_eq!(translator.key_symbols(38), Some(vec![0x41]));
}

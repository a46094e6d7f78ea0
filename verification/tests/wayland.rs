use sdl_shim::backend::wayland::dispatch::{Event, Phase};
use sdl_shim::backend::wayland::pointer::{coordinate_of, delta_of, pixel_of};
use sdl_shim::backend::wayland::registry::classify;
use sdl_shim::backend::wayland::window::{Pump, PumpReply, WaylandWindow};
use sdl_shim::backend::wayland::xdg::BindError;
use sdl_shim::backend::wayland::{Global, PointerEvent, Request, WaylandState};
use sdl_shim::backend::{Delay, Window};
use sdl_shim::egl::{EGLError, EGLWindowType, Failure, Reason, Reply, Step, EGL};
use sdl_shim::keymap::{KeymapError, Translator};
use sdl_shim::type_defs::{SDL_Event, SDL_VideoInfo};
use sdl_shim::xcb::KeyTable;

/// Compiles a keymap description as the caller of the library does.
fn compile(text: &str) -> Result<Translator, KeymapError> {
    let context = xkbcommon_rs::Context::new(xkbcommon_rs::xkb_context::ContextFlags::NO_FLAGS)
        .map_err(|_| KeymapError::Context)?;
    Translator::from_compiled(xkbcommon_rs::Keymap::new_from_string(
        context,
        text,
        xkbcommon_rs::KeymapFormat::TextV1,
        xkbcommon_rs::xkb_keymap::CompileFlags::NO_FLAGS,
    ))
}

fn keymap_text() -> &'static str {
    "xkb_keymap {\n\
     xkb_keycodes \"test\" {\n\
         minimum = 8;\n\
         maximum = 255;\n\
         <ESC> = 9;\n\
         <AC01> = 38;\n\
         <AC02> = 39;\n\
     };\n\
     xkb_types \"test\" {\n\
         type \"ONE_LEVEL\" {\n\
             modifiers = none;\n\
             map[None] = Level1;\n\
             level_name[Level1] = \"Any\";\n\
         };\n\
         type \"TWO_LEVEL\" {\n\
             modifiers = Shift;\n\
             map[Shift] = Level2;\n\
             level_name[Level1] = \"Base\";\n\
             level_name[Level2] = \"Shift\";\n\
         };\n\
     };\n\
     xkb_compatibility \"test\" {\n\
     };\n\
     xkb_symbols \"test\" {\n\
         key <ESC> { type = \"ONE_LEVEL\", symbols[Group1] = [ Escape ] };\n\
         key <AC01> { type = \"TWO_LEVEL\", symbols[Group1] = [ a, A ] };\n\
         key <AC02> { type = \"TWO_LEVEL\", symbols[Group1] = [ s, S ] };\n\
     };\n\
     };\n"
}

fn table() -> KeyTable {
    KeyTable::new(vec![(0x41, 97), (0x53, 115), (0xff1b, 27)]).unwrap()
}

fn global(name: u32, interface: &str) -> Event {
    Event::Global { name, interface: interface.to_string() }
}

/// A bring-up of the graphics context that has run to its end.
fn ready_context(platform: u32, window: EGLWindowType) -> EGL {
    let (mut egl, _) = EGL::setup(platform, 0x10, window);
    egl.resume(Reply::Text);
    egl.resume(Reply::Handle(0x1000));
    egl.resume(Reply::NotFound);
    egl.resume(Reply::Status(1));
    egl.resume(Reply::Status(1));
    egl.resume(Reply::Count { status: 1, count: 1 });
    egl.resume(Reply::Configs { status: 1, configs: vec![7], matched: 1 });
    egl.resume(Reply::Handle(0x2000));
    egl.resume(Reply::Handle(0x3000));
    egl.resume(Reply::Status(1));
    egl.resume(Reply::Handle(0x3000));
    assert_eq!(egl.resume(Reply::Loaded), Step::Finished { surface: 0x2000, display: 0x1000 });
    egl
}

/// A window with the surface, the shell surface and a bound context.
fn configured_window() -> WaylandWindow {
    let (mut window, _) = WaylandWindow::new(table());
    window.dispatch(global(1, "wl_compositor"));
    window.dispatch(global(2, "xdg_wm_base"));
    window.dispatch(Event::SurfaceConfigure { serial: 5 });
    assert_eq!(window.context_bound(ready_context(0x31D8, EGLWindowType::Window(0x20))), Ok(()));
    window
}

/// A state with the surface, the shell surface and a bound context.
fn configured() -> WaylandState {
    let mut state = WaylandState::new(table());
    state.dispatch(global(1, "wl_compositor"));
    state.dispatch(global(2, "xdg_wm_base"));
    state.dispatch(Event::SurfaceConfigure { serial: 5 });
    assert_eq!(state.context_bound(ready_context(0x31D8, EGLWindowType::Window(0x20))), Ok(()));
    state
}

#[test]
fn round_trip_against_a_compositor() {
    // The compositor advertises compositor, seat and shell, and configures
    // the surface once, with serial 42.
    let events = vec![
        global(1, "wl_compositor"),
        global(2, "wl_seat"),
        global(3, "xdg_wm_base"),
        Event::SurfaceConfigure { serial: 42 },
    ];
    let (mut window, first) = WaylandWindow::new(table());
    assert_eq!(first, vec![Request::GetRegistry, Request::Roundtrip]);
    let mut acknowledged: Vec<u32> = Vec::new();
    let mut setups = 0;
    let mut committed = 0;
    for event in events {
        for request in window.dispatch(event) {
            match request {
                Request::AckConfigure { serial } => {
                    // Nothing of the graphics context was asked for before.
                    assert_eq!(setups, 0);
                    acknowledged.push(serial);
                }
                Request::SetupContext { platform } => {
                    assert_eq!(acknowledged, vec![42]);
                    assert!(!window.state().wait_for_egl());
                    setups += 1;
                    let egl = ready_context(platform, EGLWindowType::Window(0x20));
                    assert_eq!(window.context_bound(egl), Ok(()));
                }
                Request::Commit => committed += 1,
                _ => {}
            }
        }
    }
    assert_eq!(acknowledged, vec![42]);
    assert_eq!(setups, 1);
    assert_eq!(committed, 1);
    assert!(window.state().wait_for_egl());
    assert_eq!(window.egl_display(), 0x1000);
    assert_eq!(window.egl_surface(), 0x2000);
    assert_eq!(window.init(0), (0, Vec::new()));
}

#[test]
fn second_configure_is_only_acknowledged() {
    let mut state = configured();
    assert_eq!(
        state.dispatch(Event::SurfaceConfigure { serial: 6 }),
        vec![Request::AckConfigure { serial: 6 }]
    );
    assert_eq!(
        state.dispatch(Event::SurfaceConfigure { serial: 7 }),
        vec![Request::AckConfigure { serial: 7 }]
    );
    assert!(state.wait_for_egl());
    assert_eq!(state.display(), 0x1000);
    assert_eq!(state.native_surface(), 0x2000);
}

#[test]
fn configure_during_the_bring_up_asks_for_no_second_one() {
    let mut state = WaylandState::new(table());
    state.dispatch(global(1, "wl_compositor"));
    state.dispatch(global(2, "xdg_wm_base"));
    assert_eq!(
        state.dispatch(Event::SurfaceConfigure { serial: 5 }),
        vec![Request::AckConfigure { serial: 5 }, Request::SetupContext { platform: 0x31D8 }]
    );
    assert_eq!(
        state.dispatch(Event::SurfaceConfigure { serial: 6 }),
        vec![Request::AckConfigure { serial: 6 }]
    );
    assert!(!state.wait_for_egl());
}

#[test]
fn configure_without_a_native_window_is_only_acknowledged() {
    let mut state = WaylandState::new(table());
    assert_eq!(
        state.dispatch(Event::SurfaceConfigure { serial: 5 }),
        vec![Request::AckConfigure { serial: 5 }]
    );
    assert!(!state.wait_for_egl());
}

#[test]
fn context_is_taken_only_when_asked_for_and_ready() {
    let mut state = WaylandState::new(table());
    state.dispatch(global(1, "wl_compositor"));
    assert_eq!(
        state.context_bound(ready_context(0x31D8, EGLWindowType::Window(0x20))),
        Err(BindError::OutOfOrder)
    );
    state.dispatch(Event::SurfaceConfigure { serial: 5 });
    let (unfinished, _) = EGL::setup(0x31D8, 0x10, EGLWindowType::Window(0x20));
    assert_eq!(state.context_bound(unfinished), Err(BindError::NotReady));
    assert_eq!(
        state.context_bound(ready_context(0x31D7, EGLWindowType::Window(0x20))),
        Err(BindError::WrongPlatform)
    );
    assert_eq!(
        state.context_bound(ready_context(0x31D8, EGLWindowType::Pointer(0x20))),
        Err(BindError::WrongPlatform)
    );
    assert!(!state.wait_for_egl());
    assert!(state.egl().is_none());
    assert_eq!(state.context_bound(ready_context(0x31D8, EGLWindowType::Window(0x20))), Ok(()));
    assert!(state.wait_for_egl());
    assert!(state.egl().is_some());
    assert_eq!(
        state.context_bound(ready_context(0x31D8, EGLWindowType::Window(0x20))),
        Err(BindError::OutOfOrder)
    );
}

#[test]
fn compositor_gives_the_surface_at_once() {
    let mut state = WaylandState::new(table());
    assert_eq!(
        state.dispatch(global(7, "wl_compositor")),
        vec![
            Request::Bind { name: 7, global: Global::Compositor, version: 1 },
            Request::CreateSurface,
            Request::CreateRegion,
            Request::RegionAdd { x: 0, y: 0, width: 640, height: 480 },
            Request::SetOpaqueRegion,
            Request::CreateNativeWindow { width: 640, height: 480 },
        ]
    );
    assert_eq!(state.compositor(), Some(7));
    assert!(state.compositor_surface());
    assert!(state.egl_surface());
    assert!(!state.xdg_top_level());
}

#[test]
fn shell_surface_comes_with_whichever_arrives_second() {
    let shell = vec![Request::GetXdgSurface, Request::GetToplevel, Request::Commit];

    let mut state = WaylandState::new(table());
    state.dispatch(global(1, "wl_compositor"));
    let mut expected = vec![Request::Bind { name: 2, global: Global::WmBase, version: 1 }];
    expected.extend(shell.iter().copied());
    assert_eq!(state.dispatch(global(2, "xdg_wm_base")), expected);
    assert!(state.xdg_top_level());
    assert_eq!(state.wm_base(), Some(2));

    let mut state = WaylandState::new(table());
    assert_eq!(
        state.dispatch(global(2, "xdg_wm_base")),
        vec![Request::Bind { name: 2, global: Global::WmBase, version: 1 }]
    );
    assert!(!state.xdg_top_level());
    let requests = state.dispatch(global(1, "wl_compositor"));
    assert_eq!(requests.len(), 9);
    assert_eq!(requests[6..].to_vec(), shell);
    assert!(state.xdg_top_level());
}

#[test]
fn shell_surface_is_created_once() {
    let mut state = WaylandState::new(table());
    state.dispatch(global(1, "wl_compositor"));
    state.dispatch(global(2, "xdg_wm_base"));
    assert_eq!(
        state.dispatch(global(3, "xdg_wm_base")),
        vec![Request::Bind { name: 3, global: Global::WmBase, version: 1 }]
    );
    assert_eq!(state.dispatch(global(4, "wl_compositor")).len(), 6);
}

#[test]
fn decoration_manager_gives_server_side_decorations() {
    let mut state = WaylandState::new(table());
    assert_eq!(
        state.dispatch(global(9, "zxdg_decoration_manager_v1")),
        vec![Request::Bind { name: 9, global: Global::DecorationManager, version: 1 }]
    );
    state.dispatch(global(1, "wl_compositor"));
    assert_eq!(
        state.dispatch(global(2, "xdg_wm_base")),
        vec![
            Request::Bind { name: 2, global: Global::WmBase, version: 1 },
            Request::GetXdgSurface,
            Request::GetToplevel,
            Request::GetToplevelDecoration,
            Request::SetServerSideDecoration,
            Request::Commit,
        ]
    );
}

#[test]
fn globals_are_told_by_their_interface_names() {
    assert_eq!(classify("wl_compositor"), Some(Global::Compositor));
    assert_eq!(classify("wl_seat"), Some(Global::Seat));
    assert_eq!(classify("xdg_wm_base"), Some(Global::WmBase));
    assert_eq!(classify("zxdg_decoration_manager_v1"), Some(Global::DecorationManager));
    assert_eq!(classify("wp_pointer_warp_v1"), Some(Global::PointerWarp));
    assert_eq!(classify("wl_shm"), None);
    assert_eq!(classify(""), None);
}

#[test]
fn unknown_global_is_passed_over() {
    let mut state = WaylandState::new(table());
    assert_eq!(state.dispatch(global(5, "wl_output")), Vec::new());
    assert_eq!(state.dispatch(Event::Other), Vec::new());
    assert_eq!(state.dispatch(Event::ToplevelConfigure { width: 800, height: 600 }), Vec::new());
    assert_eq!(state.compositor(), None);
}

#[test]
fn seat_and_pointer_warp_are_bound() {
    let mut state = WaylandState::new(table());
    assert_eq!(
        state.dispatch(global(5, "wl_seat")),
        vec![Request::Bind { name: 5, global: Global::Seat, version: 1 }]
    );
    assert_eq!(
        state.dispatch(global(6, "wp_pointer_warp_v1")),
        vec![Request::Bind { name: 6, global: Global::PointerWarp, version: 1 }]
    );
    assert_eq!(state.pointer_warp(), Some(6));
}

#[test]
fn seat_capabilities_ask_for_keyboard_and_pointer() {
    let state = WaylandState::new(table());
    assert_eq!(state.seat_event(0), Vec::new());
    assert_eq!(state.seat_event(1), vec![Request::GetPointer]);
    assert_eq!(state.seat_event(2), vec![Request::GetKeyboard]);
    assert_eq!(state.seat_event(3), vec![Request::GetKeyboard, Request::GetPointer]);
    assert_eq!(state.seat_event(4), Vec::new());
    assert_eq!(state.seat_event(7), vec![Request::GetKeyboard, Request::GetPointer]);
    // A bit that is not known: the advertisement is passed over.
    assert_eq!(state.seat_event(8 | 3), Vec::new());
}

#[test]
fn ping_is_answered_with_its_serial() {
    let mut state = WaylandState::new(table());
    assert_eq!(state.dispatch(Event::Ping { serial: 99 }), vec![Request::Pong { serial: 99 }]);
}

#[test]
fn close_stops_the_running_flag_only() {
    let mut state = WaylandState::new(table());
    assert!(state.running());
    assert_eq!(state.dispatch(Event::ToplevelClose), Vec::new());
    assert!(!state.running());
    assert!(!state.must_exit());
}

#[test]
fn quit_is_delivered_up_to_the_cap() {
    let (mut window, _) = WaylandWindow::new(table());
    let mut event = SDL_Event::new();
    assert_eq!(window.poll_event(&mut event), 0);
    assert_eq!(window.quit(), Vec::new());
    for delivery in 1..=9u8 {
        assert_eq!(window.poll_event(&mut event), 1);
        assert_eq!(event.type_, 12);
        assert_eq!(window.state().quit_attempts(), delivery);
        assert!(!window.must_exit());
    }
    assert_eq!(window.poll_event(&mut event), 1);
    assert_eq!(window.state().quit_attempts(), 10);
    assert!(window.must_exit());
    // And at every poll from then on.
    assert_eq!(window.poll_event(&mut event), 1);
    assert_eq!(window.state().quit_attempts(), 10);
    assert!(window.must_exit());
}

#[test]
fn pointer_enter_hides_the_cursor() {
    let mut state = WaylandState::new(table());
    assert!(!state.has_pointer());
    assert_eq!(
        state.dispatch(Event::PointerEnter { serial: 3, surface_x: 10 * 256, surface_y: 20 * 256 }),
        vec![Request::HideCursor { serial: 3 }]
    );
    assert!(state.has_pointer());
    assert_eq!(state.pointer_serial(), 3);
    assert_eq!(state.last_pointer(), (2560, 5120));
    assert_eq!(
        state.dispatch(Event::PointerLeave { serial: 4 }),
        vec![Request::RestoreCursor { serial: 4 }]
    );
    assert_eq!(state.pointer_serial(), 3);
}

#[test]
fn any_pointer_event_makes_the_pointer_known() {
    let mut state = WaylandState::new(table());
    state.dispatch(Event::PointerOther);
    assert!(state.has_pointer());
}

#[test]
fn motion_is_reported_with_position_and_movement() {
    let mut state = WaylandState::new(table());
    state.dispatch(Event::PointerEnter { serial: 1, surface_x: 100 * 256, surface_y: 50 * 256 });
    state.dispatch(Event::PointerMotion {
        time: 0,
        surface_x: 103 * 256 + 128,
        surface_y: 48 * 256 + 64,
    });
    let mut event = SDL_Event::new();
    assert_eq!(state.poll_event(&mut event), 1);
    assert_eq!(event.type_, 4);
    assert_eq!(event.state, 0);
    assert_eq!((event.x, event.y), (103, 48));
    // 3.5 pixels to the right, 1.75 pixels up: towards zero.
    assert_eq!((event.xrel, event.yrel), (3, -1));
    assert_eq!(state.last_pointer(), (103 * 256 + 128, 48 * 256 + 64));
    assert_eq!(state.poll_event(&mut event), 0);
}

#[test]
fn positions_are_held_to_the_range_of_their_fields() {
    assert_eq!(pixel_of(-1), 0);
    assert_eq!(pixel_of(i32::MIN), 0);
    assert_eq!(pixel_of(0), 0);
    assert_eq!(pixel_of(255), 0);
    assert_eq!(pixel_of(256), 1);
    assert_eq!(pixel_of(65535 * 256), 65535);
    assert_eq!(pixel_of(65536 * 256), 65535);
    assert_eq!(pixel_of(i32::MAX), 65535);
    assert_eq!(delta_of(256, 0), 1);
    assert_eq!(delta_of(0, 256), -1);
    assert_eq!(delta_of(255, 0), 0);
    assert_eq!(delta_of(0, 255), 0);
    assert_eq!(delta_of(-255, 0), 0);
    assert_eq!(delta_of(-256, 0), -1);
    assert_eq!(delta_of(32767 * 256, 0), 32767);
    assert_eq!(delta_of(32768 * 256, 0), 32767);
    assert_eq!(delta_of(i32::MAX, i32::MIN), 32767);
    assert_eq!(delta_of(0, 32768 * 256), -32768);
    assert_eq!(delta_of(0, 32769 * 256), -32768);
    assert_eq!(delta_of(i32::MIN, i32::MAX), -32768);
    assert_eq!(coordinate_of(0), 0);
    assert_eq!(coordinate_of(511), 1);
    assert_eq!(coordinate_of(-511), -1);
    assert_eq!(coordinate_of(-512), -2);
    assert_eq!(coordinate_of(i32::MIN), -8388608);
    assert_eq!(coordinate_of(i32::MAX), 8388607);
}

#[test]
fn button_code_is_corrected_by_271() {
    let mut state = WaylandState::new(table());
    state.dispatch(Event::PointerEnter { serial: 1, surface_x: 7 * 256, surface_y: 9 * 256 });
    let mut event = SDL_Event::new();

    state.dispatch(Event::PointerButton { serial: 2, time: 0, button: 272, state: 1 });
    assert_eq!(state.poll_event(&mut event), 1);
    assert_eq!((event.type_, event.state, event.button), (5, 1, 1));
    assert_eq!((event.x, event.y), (7, 9));

    state.dispatch(Event::PointerButton { serial: 3, time: 0, button: 273, state: 0 });
    assert_eq!(state.poll_event(&mut event), 1);
    assert_eq!((event.type_, event.state, event.button), (6, 0, 2));

    state.dispatch(Event::PointerButton { serial: 4, time: 0, button: 274, state: 1 });
    assert_eq!(state.poll_event(&mut event), 1);
    assert_eq!(event.button, 3);

    state.dispatch(Event::PointerButton { serial: 5, time: 0, button: 271, state: 1 });
    assert_eq!(state.poll_event(&mut event), 1);
    assert_eq!(event.button, 0);

    state.dispatch(Event::PointerButton { serial: 6, time: 0, button: 526, state: 1 });
    assert_eq!(state.poll_event(&mut event), 1);
    assert_eq!(event.button, 255);
}

#[test]
fn button_out_of_range_is_passed_through() {
    let mut state = WaylandState::new(table());
    let mut event = SDL_Event::new();
    event.button = 9;
    state.dispatch(Event::PointerButton { serial: 2, time: 0, button: 270, state: 1 });
    assert_eq!(state.poll_event(&mut event), 1);
    assert_eq!((event.type_, event.state, event.button), (5, 1, 9));
    state.dispatch(Event::PointerButton { serial: 2, time: 0, button: 527, state: 0 });
    assert_eq!(state.poll_event(&mut event), 1);
    assert_eq!((event.type_, event.state, event.button), (6, 0, 9));
    state.dispatch(Event::PointerButton { serial: 2, time: 0, button: 0, state: 0 });
    assert_eq!(state.poll_event(&mut event), 1);
    assert_eq!(event.button, 9);
}

#[test]
fn button_state_out_of_range_is_passed_through() {
    let mut state = WaylandState::new(table());
    let mut event = SDL_Event::new();
    event.type_ = 4;
    event.state = 7;
    state.dispatch(Event::PointerButton { serial: 2, time: 0, button: 272, state: 2 });
    assert_eq!(state.poll_event(&mut event), 1);
    assert_eq!((event.type_, event.state, event.button), (4, 7, 1));
}

#[test]
fn pointer_goes_before_keys_and_keys_before_quit() {
    let mut state = WaylandState::new(table());
    assert_eq!(state.keymap_built(compile(keymap_text())), Ok(()));
    state.dispatch(Event::ToplevelClose);
    state.dispatch(Event::Key { key: 30, state: 1 });
    state.dispatch(Event::PointerMotion { time: 0, surface_x: 256, surface_y: 256 });
    let mut event = SDL_Event::new();
    assert_eq!(state.poll_event(&mut event), 1);
    assert_eq!(event.type_, 4);
    assert_eq!(state.poll_event(&mut event), 1);
    assert_eq!(event.type_, 2);
    assert_eq!(state.quit_attempts(), 0);
    assert_eq!(state.poll_event(&mut event), 1);
    assert_eq!(event.type_, 12);
    assert_eq!(state.quit_attempts(), 1);
}

#[test]
fn pointer_events_are_handed_out_latest_first() {
    let mut state = WaylandState::new(table());
    state.pointer_input(PointerEvent::Motion { time: 0, surface_x: 256, surface_y: 0 });
    state.pointer_input(PointerEvent::Motion { time: 1, surface_x: 512, surface_y: 0 });
    let mut event = SDL_Event::new();
    state.poll_event(&mut event);
    assert_eq!((event.x, event.xrel), (2, 2));
    state.poll_event(&mut event);
    assert_eq!((event.x, event.xrel), (1, -1));
}

#[test]
fn keys_are_translated_through_the_keymap() {
    let mut state = WaylandState::new(table());
    // Without a keymap a key queues nothing.
    state.dispatch(Event::Key { key: 30, state: 1 });
    let mut event = SDL_Event::new();
    assert_eq!(state.poll_event(&mut event), 0);

    assert_eq!(state.keymap_built(compile(keymap_text())), Ok(()));
    state.dispatch(Event::Key { key: 30, state: 1 });
    assert_eq!(state.key_table()[97], 1);
    assert_eq!(state.poll_event(&mut event), 1);
    assert_eq!((event.type_, event.state, event.which), (2, 1, 0));
    assert_eq!(event.keysym.sym, 97);
    assert_eq!(event.keysym.scancode, 25);

    // A repeat counts as down.
    state.dispatch(Event::Key { key: 31, state: 2 });
    assert_eq!(state.key_table()[115], 1);
    assert_eq!(state.poll_event(&mut event), 1);
    assert_eq!((event.type_, event.state), (2, 1));
    assert_eq!(event.keysym.sym, 115);

    state.dispatch(Event::Key { key: 30, state: 0 });
    assert_eq!(state.key_table()[97], 0);
    assert_eq!(state.poll_event(&mut event), 1);
    assert_eq!((event.type_, event.state), (3, 0));

    // A state that is not known, and a key that is not in the keymap.
    state.dispatch(Event::Key { key: 30, state: 3 });
    state.dispatch(Event::Key { key: 200, state: 1 });
    state.dispatch(Event::Key { key: u32::MAX, state: 1 });
    assert_eq!(state.poll_event(&mut event), 0);
    assert_eq!(state.key_table().len(), 323);
}

#[test]
fn keymap_that_does_not_compile_keeps_the_old_one() {
    let mut state = WaylandState::new(table());
    assert_eq!(state.keymap_built(compile(keymap_text())), Ok(()));
    assert_eq!(state.keymap_built(compile("no keymap")), Err(KeymapError::Compile));
    assert_eq!(state.keymap_built(Err(KeymapError::Context)), Err(KeymapError::Context));
    state.dispatch(Event::Keymap(Err(KeymapError::Compile)));
    state.dispatch(Event::Key { key: 1, state: 1 });
    assert_eq!(state.key_table()[27], 1);
    state.dispatch(Event::Keymap(compile(keymap_text())));
    state.dispatch(Event::Key { key: 1, state: 0 });
    assert_eq!(state.key_table()[27], 0);
}

#[test]
fn pump_ends_early_when_messages_were_queued() {
    let (mut window, _) = WaylandWindow::new(table());
    assert_eq!(window.event_loop(), Pump::DispatchPending);
    assert_eq!(window.pumped(PumpReply::Dispatched(3)), Pump::Done);
    assert_eq!(window.pumped(PumpReply::Dispatched(0)), Pump::Done);
}

#[test]
fn pump_flushes_then_reads_then_dispatches() {
    let (mut window, _) = WaylandWindow::new(table());
    assert_eq!(window.event_loop(), Pump::DispatchPending);
    assert_eq!(window.pumped(PumpReply::Dispatched(0)), Pump::Flush);
    assert_eq!(window.pumped(PumpReply::Flushed(false)), Pump::Flush);
    assert_eq!(window.pumped(PumpReply::Flushed(false)), Pump::Flush);
    assert_eq!(window.pumped(PumpReply::Flushed(true)), Pump::DispatchDisplay);
    assert_eq!(window.pumped(PumpReply::DisplayDispatched), Pump::PrepareRead);
    assert_eq!(window.pumped(PumpReply::Prepared(true)), Pump::Read);
    assert_eq!(window.pumped(PumpReply::Read(4)), Pump::DispatchPending);
    assert_eq!(window.pumped(PumpReply::Dispatched(4)), Pump::Done);
}

#[test]
fn pump_ends_when_nothing_was_read() {
    let (mut window, _) = WaylandWindow::new(table());
    window.event_loop();
    window.pumped(PumpReply::Dispatched(0));
    window.pumped(PumpReply::Flushed(true));
    window.pumped(PumpReply::DisplayDispatched);
    window.pumped(PumpReply::Prepared(true));
    assert_eq!(window.pumped(PumpReply::Read(0)), Pump::Done);
}

#[test]
fn pump_dispatches_when_the_read_could_not_be_prepared() {
    let (mut window, _) = WaylandWindow::new(table());
    window.event_loop();
    window.pumped(PumpReply::Dispatched(0));
    window.pumped(PumpReply::Flushed(true));
    window.pumped(PumpReply::DisplayDispatched);
    assert_eq!(window.pumped(PumpReply::Prepared(false)), Pump::DispatchPending);
    assert_eq!(window.pumped(PumpReply::Dispatched(0)), Pump::Done);
}

#[test]
fn pump_ends_on_an_outcome_that_answers_nothing() {
    let (mut window, _) = WaylandWindow::new(table());
    window.event_loop();
    assert_eq!(window.pumped(PumpReply::Read(1)), Pump::Done);
}

#[test]
fn video_mode_resizes_window_and_descriptor() {
    let mut window = configured_window();
    let (surface, requests) = window.set_video_mode(1024, 768, 32, 0);
    assert_eq!(requests, vec![Request::ResizeNativeWindow { width: 1024, height: 768 }]);
    assert_eq!((surface.w, surface.h), (1024, 768));
    assert_eq!((surface.clip_rect.w, surface.clip_rect.h), (768, 768));
    assert_eq!((surface.clip_rect.x, surface.clip_rect.y), (0, 0));
}

#[test]
fn pointer_is_warped_only_with_pointer_warp_and_surface() {
    let (mut window, _) = WaylandWindow::new(table());
    assert_eq!(window.warp_mouse(10, 20), Vec::new());
    window.dispatch(Event::PointerEnter { serial: 8, surface_x: 0, surface_y: 0 });
    assert_eq!(window.warp_mouse(10, 20), Vec::new());
    window.dispatch(global(6, "wp_pointer_warp_v1"));
    assert_eq!(window.warp_mouse(10, 20), Vec::new());
    window.dispatch(global(1, "wl_compositor"));
    assert_eq!(
        window.warp_mouse(10, 20),
        vec![Request::WarpPointer { target_x: 10, target_y: 20, serial: 8 }]
    );
}

#[test]
fn caption_is_the_title_of_the_toplevel() {
    let (mut window, _) = WaylandWindow::new(table());
    assert_eq!(window.wm_set_caption("title", "icon"), Vec::new());
    window.dispatch(global(1, "wl_compositor"));
    window.dispatch(global(2, "xdg_wm_base"));
    assert_eq!(window.wm_set_caption("title", "icon"), vec![Request::SetTitle]);
}

#[test]
fn attributes_are_kept_as_they_were_set() {
    let (mut window, _) = WaylandWindow::new(table());
    assert_eq!(window.gl_get_attribute(5), 0);
    assert_eq!(window.gl_set_attribute(5, 24), 0);
    assert_eq!(window.gl_set_attribute(31, -1), 0);
    assert_eq!(window.gl_get_attribute(5), 24);
    assert_eq!(window.gl_get_attribute(31), -1);
    assert_eq!(window.gl_get_attribute(4), 0);
    assert_eq!(window.gl_set_attribute(32, 1), 0);
    assert_eq!(window.gl_get_attribute(32), 0);
    assert_eq!(window.gl_get_attribute(u32::MAX), 0);
}

#[test]
fn wayland_window_reports_its_own_video_info() {
    let (mut window, _) = WaylandWindow::new(table());
    assert_eq!(
        window.get_video_info(),
        SDL_VideoInfo { capabilities: 255, blit_fill: 0, video_mem: 2048000 }
    );
    assert_eq!(window.get_mod_state(), 0);
    assert_eq!(window.get_error(), None);
    assert_eq!(window.show_cursor(0), 0);
    assert_eq!(window.get_key_state().len(), 323);
}

#[test]
fn mouse_state_is_the_position_known_last() {
    let (mut window, _) = WaylandWindow::new(table());
    assert_eq!(window.get_mouse_state(), (0, 0, 0));
    window.dispatch(Event::PointerEnter {
        serial: 1,
        surface_x: 12 * 256 + 200,
        surface_y: 34 * 256,
    });
    assert_eq!(window.get_mouse_state(), (0, 12, 34));
}

#[test]
fn swap_names_display_and_drawable() {
    let mut window = configured_window();
    assert_eq!(
        window.gl_swap_buffers(),
        vec![Request::SwapBuffers { display: 0x1000, surface: 0x2000 }]
    );
}

#[test]
fn failed_call_is_let_through_before_the_context_is_bound() {
    let state = WaylandState::new(table());
    assert_eq!(state.panic_on_error(Reason::SwappingBuffers, 0, 0x300D, 0x3000), Ok(()));
    let state = configured();
    assert_eq!(state.panic_on_error(Reason::SwappingBuffers, 1, 0x3000, 0x3000), Ok(()));
    assert_eq!(
        state.panic_on_error(Reason::SwappingBuffers, 0, 0x300D, 0x3000),
        Err(Failure::Rejected { reason: Reason::SwappingBuffers, described: 0x300D, code: 0x3000 })
    );
}

#[test]
fn unknown_drawing_function_has_the_null_address() {
    let mut window = configured_window();
    assert_eq!(window.gl_get_proc_address(Ok(Some(0x5000))), Ok(0x5000));
    assert_eq!(window.gl_get_proc_address(Ok(None)), Ok(0));
    assert_eq!(window.gl_get_proc_address(Err(EGLError::NotFound)), Err(Failure::MissingEntry));
}

#[test]
fn wayland_window_pumps_while_it_waits() {
    let (mut window, _) = WaylandWindow::new(table());
    assert_eq!(window.delay(10, 0), Delay::Pump);
    assert_eq!(window.delay(10, 10), Delay::Pump);
    assert_eq!(window.delay(10, 11), Delay::Done);
}

#[test]
fn backend_goes_through_its_phases() {
    let mut state = WaylandState::new(table());
    assert_eq!(state.phase(), Phase::Connected);
    state.dispatch(global(1, "wl_compositor"));
    assert_eq!(state.phase(), Phase::GlobalsBound);
    state.dispatch(global(2, "xdg_wm_base"));
    assert!(state.xdg_surface());
    assert_eq!(state.phase(), Phase::SurfaceCommitted);
    state.dispatch(Event::SurfaceConfigure { serial: 5 });
    assert!(state.context_requested());
    assert_eq!(state.phase(), Phase::ConfigureReceived);
    state.context_bound(ready_context(0x31D8, EGLWindowType::Window(0x20))).unwrap();
    assert_eq!(state.phase(), Phase::ContextBound);
    state.dispatch(Event::SurfaceConfigure { serial: 6 });
    assert_eq!(state.phase(), Phase::ContextBound);
    state.dispatch(Event::ToplevelClose);
    assert_eq!(state.phase(), Phase::CloseRequested);
    let mut event = SDL_Event::new();
    for _ in 0..9 {
        state.poll_event(&mut event);
        assert_eq!(state.phase(), Phase::CloseRequested);
    }
    state.poll_event(&mut event);
    assert_eq!(state.phase(), Phase::Quitting);
}

#[test]
fn window_takes_the_keymap_that_was_compiled() {
    let (mut window, _) = WaylandWindow::new(table());
    assert_eq!(window.keymap_built(Err(KeymapError::Context)), Err(KeymapError::Context));
    window.dispatch(Event::Key { key: 30, state: 1 });
    assert_eq!(window.get_key_state()[97], 0);
    assert_eq!(window.keymap_built(compile(keymap_text())), Ok(()));
    window.dispatch(Event::Key { key: 30, state: 1 });
    assert_eq!(window.get_key_state()[97], 1);
    assert_eq!(window.state().key_table()[97], 1);
}

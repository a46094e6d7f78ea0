use sdl_shim::backend::drm::{
    choose_output, first_connected, first_typed_plane, has_type_property, Card, Connector,
    DRMWindow, DrmError, InputInterface, Mode, Output, Plane, RawKey, Request, Resources, Stage,
};
use sdl_shim::backend::{Delay, Unimplemented, Window};
use sdl_shim::egl::{EGLError, EGLWindowType, Failure, Reply, Step, EGL};
use sdl_shim::keymap::{KeymapError, Translator};
use sdl_shim::type_defs::{SDL_Event, SDL_Surface, SDL_VideoInfo};
use sdl_shim::xcb::KeyTable;

/// Compiles a keymap description as the caller of the library does.
fn compile(text: &str) -> Result<Translator, KeymapError> {
    let context = xkbcommon_rs::Context::new(xkbcommon_rs::xkb_context::ContextFlags::NO_FLAGS)
        .map_err(|_| KeymapError::Context)?;
    Translator::from_compiled(xkbcommon_rs::Keymap::new_from_string(
        context,
        text,
        xkbcommon_rs::KeymapFormat::TextV1,
        xkbcommon_rs::xkb_keymap::CompileFlags::NO_FLAGS,
    ))
}

fn keymap_text() -> &'static str {
    "xkb_keymap {\n\
     xkb_keycodes \"test\" {\n\
         minimum = 8;\n\
         maximum = 255;\n\
         <ESC> = 9;\n\
         <AC01> = 38;\n\
         <AC02> = 39;\n\
     };\n\
     xkb_types \"test\" {\n\
         type \"ONE_LEVEL\" {\n\
             modifiers = none;\n\
             map[None] = Level1;\n\
             level_name[Level1] = \"Any\";\n\
         };\n\
         type \"TWO_LEVEL\" {\n\
             modifiers = Shift;\n\
             map[Shift] = Level2;\n\
             level_name[Level1] = \"Base\";\n\
             level_name[Level2] = \"Shift\";\n\
         };\n\
     };\n\
     xkb_compatibility \"test\" {\n\
     };\n\
     xkb_symbols \"test\" {\n\
         key <ESC> { type = \"ONE_LEVEL\", symbols[Group1] = [ Escape ] };\n\
         key <AC01> { type = \"TWO_LEVEL\", symbols[Group1] = [ a, A ] };\n\
         key <AC02> { type = \"TWO_LEVEL\", symbols[Group1] = [ s, S ] };\n\
     };\n\
     };\n"
}

fn table() -> KeyTable {
    KeyTable::new(vec![(0x41, 97), (0x53, 115), (0xff1b, 27)]).unwrap()
}

fn connector(handle: u32, connected: bool, modes: Vec<Mode>) -> Option<Connector> {
    Some(Connector { handle, connected, modes })
}

fn plane(handle: u32, names: &[Option<&str>]) -> Plane {
    Plane { handle, properties: names.iter().map(|n| n.map(|s| s.to_string())).collect() }
}

fn resources() -> Resources {
    Resources {
        connectors: vec![
            None,
            connector(31, false, vec![Mode { width: 800, height: 600 }]),
            connector(
                32,
                true,
                vec![Mode { width: 1920, height: 1080 }, Mode { width: 1280, height: 720 }],
            ),
            connector(33, true, vec![Mode { width: 640, height: 480 }]),
        ],
        crtcs: vec![41, 42],
        planes: vec![
            plane(51, &[Some("rotation"), None]),
            plane(52, &[Some("alpha"), Some("type")]),
            plane(53, &[Some("type")]),
        ],
    }
}

/// A bring-up of the graphics context that has run to its end.
fn ready_context(platform: u32, window: EGLWindowType) -> EGL {
    let (mut egl, _) = EGL::setup(platform, 0x100, window);
    egl.resume(Reply::Text);
    egl.resume(Reply::Handle(0x400));
    egl.resume(Reply::NotFound);
    egl.resume(Reply::Status(1));
    egl.resume(Reply::Status(1));
    egl.resume(Reply::Count { status: 1, count: 1 });
    egl.resume(Reply::Configs { status: 1, configs: vec![7], matched: 1 });
    egl.resume(Reply::Handle(0x300));
    egl.resume(Reply::Handle(0x500));
    egl.resume(Reply::Status(1));
    egl.resume(Reply::Handle(0x500));
    assert_eq!(egl.resume(Reply::Loaded), Step::Finished { surface: 0x300, display: 0x400 });
    egl
}

fn gbm_context() -> EGL {
    ready_context(0x31D7, EGLWindowType::Pointer(0x200))
}

/// A window that was brought up as far as presenting.
fn presenting() -> DRMWindow {
    let mut window = DRMWindow::new(table());
    assert_eq!(window.device_opened(), Ok(Request::ReadResources));
    assert!(window.output_chosen(&resources()).is_ok());
    assert!(window.surface_created(0x100, 0x200).is_ok());
    assert_eq!(window.context_bound(gbm_context()), Ok(Request::OpenInput));
    let translator = compile(keymap_text()).unwrap();
    assert_eq!(window.keymap_built(Ok(translator)), Ok(Request::ReadTerminal));
    assert_eq!(window.stage(), Stage::Presenting);
    window
}

#[test]
fn device_nodes_are_tried_in_ascending_order() {
    assert_eq!(Card::open_first(0).map(|c| c.index), Some(0));
    assert_eq!(Card::open_first(1).map(|c| c.index), Some(1));
    assert_eq!(Card::open_first(254).map(|c| c.index), Some(254));
}

#[test]
fn no_device_node_is_left_after_the_last() {
    assert!(Card::open_first(255).is_none());
    assert!(Card::open_first(u32::MAX).is_none());
}

#[test]
fn access_follows_the_access_mode() {
    // read-only
    assert_eq!(InputInterface::open_restricted(0), (true, false));
    // write-only
    assert_eq!(InputInterface::open_restricted(1), (false, true));
    // read-write
    assert_eq!(InputInterface::open_restricted(2), (true, true));
    assert_eq!(InputInterface::open_restricted(3), (true, true));
}

#[test]
fn flags_beside_the_access_mode_do_not_count() {
    // non-blocking and close-on-exec
    assert_eq!(InputInterface::open_restricted(0o4000 | 0o2000000), (true, false));
    assert_eq!(InputInterface::open_restricted(0o4000 | 0o2000000 | 1), (false, true));
    assert_eq!(InputInterface::open_restricted(0o4000 | 0o2000000 | 2), (true, true));
    assert_eq!(InputInterface::open_restricted(0o4000), (true, false));
    assert_eq!(InputInterface::open_restricted(-4), (true, false));
    assert_eq!(InputInterface::open_restricted(-1), (true, true));
}

#[test]
fn seat_is_the_first() {
    assert_eq!(DRMWindow::seat_name(), "seat0");
}

#[test]
fn first_connected_connector_wins() {
    assert_eq!(first_connected(&resources().connectors), Some(2));
    assert_eq!(first_connected(&vec![None, connector(1, false, vec![])]), None);
    assert_eq!(first_connected(&Vec::new()), None);
}

#[test]
fn plane_needs_a_property_named_type() {
    assert!(!has_type_property(&plane(1, &[Some("rotation"), None])));
    assert!(has_type_property(&plane(1, &[None, Some("type")])));
    assert!(!has_type_property(&plane(1, &[Some("TYPE"), Some("types")])));
    assert!(!has_type_property(&plane(1, &[])));
    assert_eq!(first_typed_plane(&resources().planes), Some(1));
    assert_eq!(first_typed_plane(&vec![plane(1, &[Some("alpha")])]), None);
}

#[test]
fn output_is_the_first_of_each_kind() {
    assert_eq!(
        choose_output(&resources()),
        Ok(Output {
            connector: 32,
            crtc: 41,
            mode: Mode { width: 1920, height: 1080 },
            plane: 52
        })
    );
}

#[test]
fn no_connected_connector_is_an_error() {
    let mut r = resources();
    r.connectors = vec![None, connector(31, false, vec![Mode { width: 800, height: 600 }])];
    r.crtcs = Vec::new();
    assert_eq!(choose_output(&r), Err(DrmError::NoConnector));
}

#[test]
fn no_display_controller_is_an_error() {
    let mut r = resources();
    r.crtcs = Vec::new();
    r.planes = Vec::new();
    assert_eq!(choose_output(&r), Err(DrmError::NoCrtc));
}

#[test]
fn no_mode_on_the_connector_is_an_error() {
    let mut r = resources();
    r.connectors = vec![
        connector(32, true, Vec::new()),
        connector(33, true, vec![Mode { width: 640, height: 480 }]),
    ];
    r.planes = Vec::new();
    assert_eq!(choose_output(&r), Err(DrmError::NoMode));
}

#[test]
fn no_typed_plane_is_an_error() {
    let mut r = resources();
    r.planes = vec![plane(51, &[Some("rotation")])];
    assert_eq!(choose_output(&r), Err(DrmError::NoPlane));
}

#[test]
fn bring_up_goes_through_its_stages() {
    let mut window = DRMWindow::new(table());
    assert_eq!(window.stage(), Stage::Uninitialized);
    assert_eq!(window.output(), None);
    assert_eq!(window.device_opened(), Ok(Request::ReadResources));
    assert_eq!(window.stage(), Stage::DeviceOpened);
    assert_eq!(
        window.output_chosen(&resources()),
        Ok(Request::CreateSurface { width: 1920, height: 1080, format: 0x34325258, flags: 5 })
    );
    assert_eq!(window.stage(), Stage::OutputChosen);
    assert_eq!(
        window.surface_created(0x100, 0x200),
        Ok(Request::BindContext {
            platform: 0x31D7,
            native_display: 0x100,
            native_window: EGLWindowType::Pointer(0x200)
        })
    );
    assert_eq!(window.stage(), Stage::SurfaceCreated);
    assert_eq!(window.context_bound(gbm_context()), Ok(Request::OpenInput));
    assert_eq!(window.stage(), Stage::ContextBound);
    assert_eq!(window.egl_surface(), 0x300);
    assert_eq!(window.egl_display(), 0x400);
    let translator = compile(keymap_text()).unwrap();
    assert_eq!(window.keymap_built(Ok(translator)), Ok(Request::ReadTerminal));
    assert_eq!(window.stage(), Stage::Presenting);
    assert_eq!(window.init(0), (0, vec![Request::TerminalRaw]));
    assert_eq!(window.quit(), vec![Request::TerminalFlush, Request::TerminalRestore]);
    assert_eq!(window.stage(), Stage::Quitting);
    assert_eq!(window.restored(), Ok(()));
    assert_eq!(window.stage(), Stage::Restored);
}

#[test]
fn steps_out_of_order_are_refused() {
    let mut window = DRMWindow::new(table());
    assert_eq!(window.output_chosen(&resources()), Err(DrmError::OutOfOrder));
    assert_eq!(window.surface_created(1, 2), Err(DrmError::OutOfOrder));
    assert_eq!(window.context_bound(gbm_context()), Err(DrmError::OutOfOrder));
    assert_eq!(window.keymap_built(Err(KeymapError::Compile)), Err(DrmError::OutOfOrder));
    assert_eq!(window.restored(), Err(DrmError::OutOfOrder));
    assert_eq!(window.front_buffer_locked(9), Err(DrmError::OutOfOrder));
    assert_eq!(window.stage(), Stage::Uninitialized);
    assert_eq!(window.device_opened(), Ok(Request::ReadResources));
    assert_eq!(window.device_opened(), Err(DrmError::OutOfOrder));
    // The context is not bound before the surface exists.
    assert!(window.output_chosen(&resources()).is_ok());
    assert_eq!(window.context_bound(gbm_context()), Err(DrmError::OutOfOrder));
    assert_eq!(window.stage(), Stage::OutputChosen);
}

#[test]
fn context_is_taken_only_when_ready_and_made_for_the_surface() {
    let mut window = DRMWindow::new(table());
    window.device_opened().unwrap();
    window.output_chosen(&resources()).unwrap();
    window.surface_created(0x100, 0x200).unwrap();
    assert!(!window.wait_for_egl());
    assert!(window.egl().is_none());
    let (unfinished, _) = EGL::setup(0x31D7, 0x100, EGLWindowType::Pointer(0x200));
    assert_eq!(window.context_bound(unfinished), Err(DrmError::ContextNotReady));
    assert_eq!(
        window.context_bound(ready_context(0x31D8, EGLWindowType::Pointer(0x200))),
        Err(DrmError::WrongPlatform)
    );
    assert_eq!(
        window.context_bound(ready_context(0x31D7, EGLWindowType::Window(0x200))),
        Err(DrmError::WrongPlatform)
    );
    assert_eq!(window.stage(), Stage::SurfaceCreated);
    assert_eq!(window.context_bound(gbm_context()), Ok(Request::OpenInput));
    assert!(window.wait_for_egl());
    assert!(window.egl().is_some());
}

#[test]
fn refused_output_leaves_the_window_where_it_is() {
    let mut window = DRMWindow::new(table());
    window.device_opened().unwrap();
    let mut r = resources();
    r.crtcs = Vec::new();
    assert_eq!(window.output_chosen(&r), Err(DrmError::NoCrtc));
    assert_eq!(window.stage(), Stage::DeviceOpened);
    assert_eq!(window.output(), None);
}

#[test]
fn keymap_that_was_not_built_is_an_error() {
    let mut window = DRMWindow::new(table());
    window.device_opened().unwrap();
    window.output_chosen(&resources()).unwrap();
    window.surface_created(1, 2).unwrap();
    window.context_bound(gbm_context()).unwrap();
    assert_eq!(window.keymap_built(Err(KeymapError::Compile)), Err(DrmError::NoKeymap));
    assert_eq!(window.stage(), Stage::ContextBound);
}

#[test]
fn present_begins_with_the_vertical_blank() {
    let mut window = presenting();
    assert_eq!(
        window.gl_swap_buffers(),
        vec![
            Request::WaitVblank,
            Request::SwapBuffers { display: 0x400, surface: 0x300 },
            Request::LockFrontBuffer
        ]
    );
}

#[test]
fn buffer_is_registered_once_and_shown_every_time() {
    let mut window = presenting();
    let set_crtc = Request::SetCrtc {
        crtc: 41,
        framebuffer: 77,
        connector: 32,
        mode: Mode { width: 1920, height: 1080 },
    };
    let mut registrations = 0;
    let mut mode_sets = 0;
    for round in 0..5u32 {
        window.gl_swap_buffers();
        let next = match window.front_buffer_locked(0xabc).unwrap() {
            Request::AddFramebuffer { buffer, depth, bpp } => {
                assert_eq!((buffer, depth, bpp), (0xabc, 24, 32));
                registrations += 1;
                // The display would hand out another handle each time.
                window.framebuffer_added(0xabc, 77 + round).unwrap()
            }
            other => other,
        };
        assert_eq!(next, set_crtc);
        mode_sets += 1;
    }
    assert_eq!(registrations, 1);
    assert_eq!(mode_sets, 5);
}

#[test]
fn each_buffer_has_its_own_framebuffer() {
    let mut window = presenting();
    assert!(matches!(window.front_buffer_locked(1), Ok(Request::AddFramebuffer { .. })));
    window.framebuffer_added(1, 10).unwrap();
    assert!(matches!(window.front_buffer_locked(2), Ok(Request::AddFramebuffer { .. })));
    window.framebuffer_added(2, 20).unwrap();
    assert!(matches!(
        window.front_buffer_locked(1),
        Ok(Request::SetCrtc { framebuffer: 10, .. })
    ));
    assert!(matches!(
        window.front_buffer_locked(2),
        Ok(Request::SetCrtc { framebuffer: 20, .. })
    ));
    // A second registration of a buffer does not replace the first.
    assert!(matches!(
        window.framebuffer_added(1, 30),
        Ok(Request::SetCrtc { framebuffer: 10, .. })
    ));
}

#[test]
fn raw_keys_are_translated_and_queued() {
    let mut window = presenting();
    window.handle_libinput(&vec![
        RawKey { key: 30, state: 1 },
        RawKey { key: 1, state: 1 },
        RawKey { key: 100, state: 1 },
        RawKey { key: 30, state: 0 },
    ]);
    // Key 100 is not in the keymap and queues nothing.
    assert_eq!(window.pending(), 3);
    assert_eq!(window.get_key_state()[97], 0);
    assert_eq!(window.get_key_state()[27], 1);
    assert_eq!(window.get_key_state().len(), 323);
}

#[test]
fn poll_hands_out_the_key_queued_last() {
    let mut window = presenting();
    window.handle_libinput(&vec![RawKey { key: 30, state: 1 }, RawKey { key: 31, state: 0 }]);
    let mut event = SDL_Event::new();
    assert_eq!(window.poll_event(&mut event), 1);
    assert_eq!(event.type_, 3);
    assert_eq!(event.state, 0);
    assert_eq!(event.which, 0);
    assert_eq!(event.keysym.sym, 115);
    assert_eq!(event.keysym.scancode, 25);
    assert_eq!(window.poll_event(&mut event), 1);
    assert_eq!(event.type_, 2);
    assert_eq!(event.state, 1);
    assert_eq!(event.keysym.sym, 97);
    let before = event;
    assert_eq!(window.poll_event(&mut event), 0);
    assert_eq!(event, before);
    assert_eq!(window.pending(), 0);
}

#[test]
fn key_code_that_would_overflow_is_passed_over() {
    let mut window = presenting();
    window.handle_key(RawKey { key: u32::MAX, state: 1 });
    window.handle_key(RawKey { key: u32::MAX - 7, state: 1 });
    assert_eq!(window.pending(), 0);
}

#[test]
fn keys_before_the_keymap_queue_nothing() {
    let mut window = DRMWindow::new(table());
    window.handle_key(RawKey { key: 30, state: 1 });
    assert_eq!(window.pending(), 0);
    let mut event = SDL_Event::new();
    assert_eq!(window.poll_event(&mut event), 0);
}

#[test]
fn direct_path_has_no_pointer() {
    let mut window = presenting();
    assert_eq!(window.get_mouse_state(), (0, 0, 0));
    assert_eq!(window.warp_mouse(10, 20), Vec::new());
    assert_eq!(window.wm_set_caption("title", "icon"), Vec::new());
    assert_eq!(window.show_cursor(1), 0);
}

#[test]
fn direct_path_keeps_its_descriptor() {
    let mut window = presenting();
    let (surface, requests) = window.set_video_mode(1024, 768, 32, 0);
    assert_eq!(surface, SDL_Surface::new(640, 480));
    assert!(requests.is_empty());
    assert_eq!(surface.clip_rect.w, 640);
    assert_eq!(surface.clip_rect.h, 480);
}

#[test]
fn direct_path_keeps_no_attributes() {
    let mut window = presenting();
    assert_eq!(window.gl_set_attribute(5, 1), 0);
    assert_eq!(window.gl_get_attribute(5), 0);
    assert_eq!(
        window.get_video_info(),
        SDL_VideoInfo { capabilities: 255, blit_fill: 255, video_mem: 512000 }
    );
    assert_eq!(window.get_error(), None);
    assert_eq!(window.enable_key_repeat(1, 2), 0);
    assert_eq!(window.num_joysticks(), 0);
    assert_eq!(window.joystick_event_state(1), 0);
}

#[test]
fn direct_path_needs_every_drawing_function() {
    let mut window = presenting();
    assert_eq!(window.gl_get_proc_address(Ok(Some(0x5000))), Ok(0x5000));
    assert_eq!(window.gl_get_proc_address(Ok(None)), Err(Failure::MissingEntry));
    assert_eq!(window.gl_get_proc_address(Err(EGLError::NotFound)), Err(Failure::MissingEntry));
}

#[test]
fn direct_path_waits_on_the_clock() {
    let mut window = presenting();
    assert_eq!(window.delay(10, 0), Delay::Spin);
    assert_eq!(window.delay(10, 10), Delay::Spin);
    assert_eq!(window.delay(10, 11), Delay::Done);
    assert_eq!(window.delay(0, 0), Delay::Spin);
}

#[test]
fn joysticks_are_left_out() {
    let mut window = presenting();
    assert_eq!(window.joystick_get_axis(0, 0), Err(Unimplemented::JoystickGetAxis));
    assert_eq!(window.joystick_get_button(0, 0), Err(Unimplemented::JoystickGetButton));
    assert_eq!(window.joystick_name(0), Err(Unimplemented::JoystickName));
    assert_eq!(window.joystick_num_axes(0), Err(Unimplemented::JoystickNumAxes));
    assert_eq!(window.joystick_num_buttons(0), Err(Unimplemented::JoystickNumButtons));
    assert_eq!(window.joystick_open(0), Err(Unimplemented::JoystickOpen));
}

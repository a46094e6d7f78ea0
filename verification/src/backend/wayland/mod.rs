//! The Wayland backend: the state that the compositor's events drive, the
//! requests it answers them with, the latch that holds the graphics context
//! back until the surface is configured, and the poll that hands pointer
//! and key events to the application.

use vstd::prelude::*;
use crate::backend::same_text;
use crate::egl::{
    status_outcome, Failure, Reason, SetupState, Stage, EGL, EGL_PLATFORM_WAYLAND_KHR, EGL_TRUE,
};
use crate::keymap::{blank_keys, no_keys_down, Translator};
use crate::type_defs::{SDL_keysym, SDLK_LAST};
use crate::xcb::KeyTable;

pub mod dispatch;
pub mod keyboard;
pub mod pointer;
pub mod registry;
pub mod seat;
pub mod window;
pub mod xdg;

verus! {

/// The width and height of the surface before a mode is set.
pub const INITIAL_WIDTH: i32 = 640;

pub const INITIAL_HEIGHT: i32 = 480;

/// The version under which every global is bound.
pub const BIND_VERSION: u32 = 1;

/// How often a quit event is delivered before the process ends itself.
pub const QUIT_ATTEMPTS: u8 = 10;

/// The globals that the backend binds.
#[derive(Debug, Clone, Copy, PartialEq, Eq, Structural)]
pub enum Global {
    /// The surface compositor.
    Compositor,
    Seat,
    /// The shell base.
    WmBase,
    DecorationManager,
    PointerWarp,
}

/// What the backend asks its caller to send or do.
#[derive(Debug, Clone, Copy, PartialEq, Eq, Structural)]
pub enum Request {
    /// Ask the display for its registry.
    GetRegistry,
    /// Block until the compositor has answered all that was sent.
    Roundtrip,
    /// Bind the global that was advertised under `name`.
    Bind { name: u32, global: Global, version: u32 },
    /// Create the toplevel surface.
    CreateSurface,
    CreateRegion,
    /// Add a rectangle to the region.
    RegionAdd { x: i32, y: i32, width: i32, height: i32 },
    /// Make the region the opaque region of the surface.
    SetOpaqueRegion,
    /// Create the native window that backs the surface.
    CreateNativeWindow { width: i32, height: i32 },
    GetXdgSurface,
    GetToplevel,
    GetToplevelDecoration,
    /// Ask for decorations drawn by the compositor.
    SetServerSideDecoration,
    Commit,
    AckConfigure { serial: u32 },
    /// Bring the graphics context up on the native display and the native
    /// window, then report it as bound.
    SetupContext { platform: u32 },
    Pong { serial: u32 },
    GetKeyboard,
    GetPointer,
    /// Set the cursor to no surface, which hides it.
    HideCursor { serial: u32 },
    /// Set the cursor to the surface that the pointer left.
    RestoreCursor { serial: u32 },
    ResizeNativeWindow { width: i32, height: i32 },
    /// Move the pointer to a place on the surface.
    WarpPointer { target_x: u16, target_y: u16, serial: u32 },
    /// Set the title of the toplevel to the caption.
    SetTitle,
    SwapBuffers { display: usize, surface: usize },
}

/// A pointer event that waits for a poll. Positions are in the protocol's
/// fixed-point format: 256 to the pixel.
#[derive(Debug, Clone, Copy, PartialEq, Eq, Structural)]
pub enum PointerEvent {
    Motion { time: u32, surface_x: i32, surface_y: i32 },
    Button { serial: u32, time: u32, button: u32, state: u32 },
}

/// The state of the Wayland backend as a mathematical value.
pub struct WlState {
    /// The name under which the bound compositor was advertised.
    pub compositor: Option<u32>,
    /// Whether the toplevel surface exists.
    pub compositor_surface: bool,
    /// The name under which the bound shell base was advertised.
    pub wm_base: Option<u32>,
    pub xdg_surface: bool,
    pub xdg_top_level: bool,
    /// The drawable of the graphics context.
    pub native_surface: usize,
    /// Whether the native window that backs the surface exists.
    pub egl_surface: bool,
    /// The bring-up that bound the graphics context.
    pub egl: Option<SetupState>,
    /// The display of the graphics context.
    pub display: usize,
    /// Whether the bring-up of the graphics context was asked for.
    pub context_requested: bool,
    pub configured: bool,
    pub native_display: bool,
    pub running: bool,
    pub quit_attempts: u8,
    pub pointer: bool,
    pub pointer_serial: u32,
    /// The pointer events that wait for a poll, the latest last.
    pub pointer_events: Seq<PointerEvent>,
    pub last_pointer_x: i32,
    pub last_pointer_y: i32,
    pub keys: Seq<u8>,
    /// The key events that wait for a poll, the latest last.
    pub active_keysyms: Seq<(u32, SDL_keysym)>,
    pub translator: Option<Translator>,
    pub table: Seq<(u32, u32)>,
    pub decoration_manager: Option<u32>,
    pub toplevel_decoration: bool,
    pub pointer_warp: Option<u32>,
}

/// What holds of every state of the backend: the key state table has an
/// entry for every key code; a shell surface exists only on a surface and
/// a shell base; the context is bound only after it was asked for, which
/// happens only once the native window exists; and a bound context has a
/// bring-up that is ready and whose display and drawable are the ones
/// held.
pub open spec fn consistent(s: WlState) -> bool {
    &&& s.keys.len() == SDLK_LAST
    &&& s.quit_attempts <= QUIT_ATTEMPTS
    &&& (s.xdg_surface ==> s.compositor_surface && s.wm_base.is_some())
    &&& (s.compositor_surface ==> s.egl_surface)
    &&& (s.context_requested ==> s.egl_surface)
    &&& (s.configured ==> s.context_requested)
    &&& (s.configured == s.egl.is_some())
    &&& (s.egl matches Some(egl) ==> egl.stage == Stage::Ready && egl.display == s.display
        && egl.surface == s.native_surface)
}

/// The state in which the backend starts: connected, running, with
/// nothing bound.
pub open spec fn initial_state(table: Seq<(u32, u32)>) -> WlState {
    WlState {
        compositor: None,
        compositor_surface: false,
        wm_base: None,
        xdg_surface: false,
        xdg_top_level: false,
        native_surface: 0,
        egl_surface: false,
        egl: None,
        display: 0,
        context_requested: false,
        configured: false,
        native_display: true,
        running: true,
        quit_attempts: 0,
        pointer: false,
        pointer_serial: 0,
        pointer_events: Seq::empty(),
        last_pointer_x: 0,
        last_pointer_y: 0,
        keys: no_keys_down(),
        active_keysyms: Seq::empty(),
        translator: None,
        table,
        decoration_manager: None,
        toplevel_decoration: false,
        pointer_warp: None,
    }
}

/// The creation of the shell surface and its toplevel: both are asked
/// for, decorations by the compositor where a decoration manager is
/// bound, and the surface is committed.
pub open spec fn xdg_surface_created(s: WlState) -> (WlState, Seq<Request>) {
    if s.decoration_manager.is_some() {
        (
            WlState {
                xdg_surface: true,
                xdg_top_level: true,
                toplevel_decoration: true,
                ..s
            },
            seq![
                Request::GetXdgSurface,
                Request::GetToplevel,
                Request::GetToplevelDecoration,
                Request::SetServerSideDecoration,
                Request::Commit,
            ],
        )
    } else {
        (
            WlState { xdg_surface: true, xdg_top_level: true, ..s },
            seq![Request::GetXdgSurface, Request::GetToplevel, Request::Commit],
        )
    }
}

/// Whether a call's boolean lets the backend go on. A call that failed
/// before any context was bound is let through.
pub open spec fn status_check(
    s: WlState,
    reason: Reason,
    err: u32,
    described: i32,
    code: i32,
) -> Result<(), Failure> {
    if s.egl.is_some() {
        status_outcome(reason, err, described, code)
    } else {
        Ok(())
    }
}

/// The state of the Wayland backend.
pub struct WaylandState {
    compositor: Option<u32>,
    compositor_surface: bool,
    wm_base: Option<u32>,
    xdg_surface: bool,
    xdg_top_level: bool,
    native_surface: usize,
    egl_surface: bool,
    egl: Option<EGL>,
    display: usize,
    context_requested: bool,
    configured: bool,
    native_display: bool,
    running: bool,
    quit_attempts: u8,
    pointer: bool,
    pointer_serial: u32,
    pointer_events: Vec<PointerEvent>,
    last_pointer_x: i32,
    last_pointer_y: i32,
    keys: Vec<u8>,
    active_keysyms: Vec<(u32, SDL_keysym)>,
    translator: Option<Translator>,
    table: KeyTable,
    decoration_manager: Option<u32>,
    toplevel_decoration: bool,
    pointer_warp: Option<u32>,
}

impl View for WaylandState {
    type V = WlState;

    closed spec fn view(&self) -> WlState {
        WlState {
            compositor: self.compositor,
            compositor_surface: self.compositor_surface,
            wm_base: self.wm_base,
            xdg_surface: self.xdg_surface,
            xdg_top_level: self.xdg_top_level,
            native_surface: self.native_surface,
            egl_surface: self.egl_surface,
            egl: match self.egl {
                Some(egl) => Some(egl@),
                None => None,
            },
            display: self.display,
            context_requested: self.context_requested,
            configured: self.configured,
            native_display: self.native_display,
            running: self.running,
            quit_attempts: self.quit_attempts,
            pointer: self.pointer,
            pointer_serial: self.pointer_serial,
            pointer_events: self.pointer_events@,
            last_pointer_x: self.last_pointer_x,
            last_pointer_y: self.last_pointer_y,
            keys: self.keys@,
            active_keysyms: self.active_keysyms@,
            translator: self.translator,
            table: self.table@,
            decoration_manager: self.decoration_manager,
            toplevel_decoration: self.toplevel_decoration,
            pointer_warp: self.pointer_warp,
        }
    }
}

impl WaylandState {
    /// The state of a backend that is connected and has bound nothing.
    pub fn new(table: KeyTable) -> (state: WaylandState)
        ensures
            state@ == initial_state(table@),
            consistent(state@),
    {
        WaylandState {
            compositor: None,
            compositor_surface: false,
            wm_base: None,
            xdg_surface: false,
            xdg_top_level: false,
            native_surface: 0,
            egl_surface: false,
            egl: None,
            display: 0,
            context_requested: false,
            configured: false,
            native_display: true,
            running: true,
            quit_attempts: 0,
            pointer: false,
            pointer_serial: 0,
            pointer_events: Vec::new(),
            last_pointer_x: 0,
            last_pointer_y: 0,
            keys: blank_keys(),
            active_keysyms: Vec::new(),
            translator: None,
            table,
            decoration_manager: None,
            toplevel_decoration: false,
            pointer_warp: None,
        }
    }

    /// Whether the wait for the graphics context is over: the surface is
    /// configured and the context bound.
    pub fn wait_for_egl(&self) -> (over: bool)
        ensures
            over == self@.configured,
    {
        self.configured
    }

    /// The name under which the bound shell base was advertised.
    pub fn wm_base(&self) -> (name: Option<u32>)
        ensures
            name == self@.wm_base,
    {
        self.wm_base
    }

    /// The name under which the bound compositor was advertised.
    pub fn compositor(&self) -> (name: Option<u32>)
        ensures
            name == self@.compositor,
    {
        self.compositor
    }

    /// Whether the toplevel surface exists.
    pub fn compositor_surface(&self) -> (exists: bool)
        ensures
            exists == self@.compositor_surface,
    {
        self.compositor_surface
    }

    /// The bring-up that bound the graphics context, once it is bound.
    pub fn egl(&self) -> (egl: &Option<EGL>)
        ensures
            egl.is_some() == self@.egl.is_some(),
            egl matches Some(e) ==> Some(e@) == self@.egl,
    {
        &self.egl
    }

    /// Whether the native window that backs the surface exists.
    pub fn egl_surface(&self) -> (exists: bool)
        ensures
            exists == self@.egl_surface,
    {
        self.egl_surface
    }

    /// Whether the display is held.
    pub fn native_display(&self) -> (held: bool)
        ensures
            held == self@.native_display,
    {
        self.native_display
    }

    /// Whether the shell surface exists.
    pub fn xdg_surface(&self) -> (exists: bool)
        ensures
            exists == self@.xdg_surface,
    {
        self.xdg_surface
    }

    /// Whether the bring-up of the graphics context was asked for.
    pub fn context_requested(&self) -> (asked: bool)
        ensures
            asked == self@.context_requested,
    {
        self.context_requested
    }

    /// Whether the toplevel exists.
    pub fn xdg_top_level(&self) -> (exists: bool)
        ensures
            exists == self@.xdg_top_level,
    {
        self.xdg_top_level
    }

    /// The display of the graphics context, null until it is bound.
    pub fn display(&self) -> (display: usize)
        ensures
            display == self@.display,
    {
        self.display
    }

    /// The drawable of the graphics context, null until it is bound.
    pub fn native_surface(&self) -> (surface: usize)
        ensures
            surface == self@.native_surface,
    {
        self.native_surface
    }

    /// The key state table.
    pub fn key_table(&self) -> (keys: &Vec<u8>)
        ensures
            keys@ == self@.keys,
    {
        &self.keys
    }

    /// The position of the pointer known last, in fixed point.
    pub fn last_pointer(&self) -> (position: (i32, i32))
        ensures
            position == (self@.last_pointer_x, self@.last_pointer_y),
    {
        (self.last_pointer_x, self.last_pointer_y)
    }

    /// Whether a pointer is known.
    pub fn has_pointer(&self) -> (known: bool)
        ensures
            known == self@.pointer,
    {
        self.pointer
    }

    /// The serial of the pointer's entry onto the surface.
    pub fn pointer_serial(&self) -> (serial: u32)
        ensures
            serial == self@.pointer_serial,
    {
        self.pointer_serial
    }

    /// The name under which the bound pointer-warp global was advertised.
    pub fn pointer_warp(&self) -> (name: Option<u32>)
        ensures
            name == self@.pointer_warp,
    {
        self.pointer_warp
    }

    /// Whether the application is to go on.
    pub fn running(&self) -> (running: bool)
        ensures
            running == self@.running,
    {
        self.running
    }

    /// How often the quit event was delivered.
    pub fn quit_attempts(&self) -> (attempts: u8)
        ensures
            attempts == self@.quit_attempts,
    {
        self.quit_attempts
    }

    /// Creates the shell surface and its toplevel on the surface.
    fn init_xdg_surface(&mut self) -> (requests: Vec<Request>)
        requires
            consistent(old(self)@),
            old(self)@.compositor_surface,
            old(self)@.wm_base.is_some(),
        ensures
            consistent(final(self)@),
            (final(self)@, requests@) == xdg_surface_created(old(self)@),
    {
        let mut requests: Vec<Request> = Vec::new();
        requests.push(Request::GetXdgSurface);
        requests.push(Request::GetToplevel);
        if self.decoration_manager.is_some() {
            requests.push(Request::GetToplevelDecoration);
            requests.push(Request::SetServerSideDecoration);
            self.toplevel_decoration = true;
        }
        requests.push(Request::Commit);
        self.xdg_surface = true;
        self.xdg_top_level = true;
        assert(requests@ =~= xdg_surface_created(old(self)@).1);
        requests
    }

    /// Tests the boolean of a call into the graphics context: `Ok` where
    /// it reports success or no context is bound yet, else the failure to
    /// end with.
    pub fn panic_on_error(&self, reason: Reason, err: u32, described: i32, code: i32) -> (r:
        Result<(), Failure>)
        ensures
            r == status_check(self@, reason, err, described, code),
    {
        if err != EGL_TRUE && self.egl.is_some() {
            Err(Failure::Rejected { reason, described, code })
        } else {
            Ok(())
        }
    }
}

} // verus!

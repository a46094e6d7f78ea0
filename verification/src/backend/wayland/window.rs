//! The window of the Wayland backend: the poll that hands events to the
//! application, the pump of the event loop, and the capability set.

use vstd::prelude::*;
use crate::backend::wayland::dispatch::{step, Event};
use crate::backend::wayland::keyboard::keymap_installed;
use crate::backend::wayland::pointer::{
    coordinate_of, delta_of, pixel_of, to_coordinate, to_delta, to_pixel, BUTTON_BASE,
};
use crate::backend::wayland::{
    consistent, initial_state, PointerEvent, Request, WaylandState, WlState, INITIAL_HEIGHT,
    INITIAL_WIDTH, QUIT_ATTEMPTS,
};
use crate::backend::wayland::xdg::{context_reported, BindError};
use crate::backend::{Delay, Window};
use crate::egl::{EGLError, Failure, EGL};
use crate::keymap::{fill_key_event, key_event, KeymapError, Translator};
use crate::type_defs::{
    surface_of, SDL_Event, SDL_Rect, SDL_Surface, SDL_VideoInfo, KMOD_NONE, SDL_MOUSEBUTTONDOWN,
    SDL_MOUSEBUTTONUP, SDL_MOUSEMOTION, SDL_QUIT,
};
use crate::xcb::KeyTable;

verus! {

/// The number of attributes of the drawing context that are kept.
pub const GL_ATTRIBUTES: usize = 32;

/// The state of a button that came up.
pub const BUTTON_RELEASED: u32 = 0;

/// The state of a button that went down.
pub const BUTTON_PRESSED: u32 = 1;

/// The event record after a motion was written into it: the position in
/// pixels and the movement since the position known last. No button is
/// reported down.
pub open spec fn motion_event(
    previous: SDL_Event,
    s: WlState,
    surface_x: i32,
    surface_y: i32,
) -> SDL_Event {
    SDL_Event {
        type_: SDL_MOUSEMOTION,
        state: 0,
        x: to_pixel(surface_x),
        y: to_pixel(surface_y),
        xrel: to_delta(surface_x, s.last_pointer_x),
        yrel: to_delta(surface_y, s.last_pointer_y),
        ..previous
    }
}

/// Whether a wire code is one that the event record can carry as a
/// button: from the base on, as far as the field reaches.
pub open spec fn button_in_range(button: u32) -> bool {
    BUTTON_BASE <= button <= BUTTON_BASE + 0xff
}

/// The event record after a button was written into it: the kind and
/// state of a button that went down or came up, the wire code less the
/// base, and the position known last. A state that is neither, and a code
/// out of range, leave their fields as they are.
pub open spec fn button_event(
    previous: SDL_Event,
    s: WlState,
    button: u32,
    state: u32,
) -> SDL_Event {
    SDL_Event {
        type_: if state == BUTTON_RELEASED {
            SDL_MOUSEBUTTONUP
        } else if state == BUTTON_PRESSED {
            SDL_MOUSEBUTTONDOWN
        } else {
            previous.type_
        },
        state: if state == BUTTON_RELEASED {
            0
        } else if state == BUTTON_PRESSED {
            1
        } else {
            previous.state
        },
        button: if button_in_range(button) {
            (button - BUTTON_BASE) as u8
        } else {
            previous.button
        },
        x: to_pixel(s.last_pointer_x),
        y: to_pixel(s.last_pointer_y),
        ..previous
    }
}

/// The event record after a quit was written into it.
pub open spec fn quit_event(previous: SDL_Event) -> SDL_Event {
    SDL_Event { type_: SDL_QUIT, ..previous }
}

/// What a poll does. A pointer event goes before a key event, and a key
/// event before the quit event; of each queue the event queued last is
/// taken. The quit event is delivered at every poll while the backend
/// does not run, and counted up to the cap. With nothing to deliver, 0 is
/// returned and nothing changes.
pub open spec fn polled(s: WlState, event: SDL_Event) -> (WlState, SDL_Event, i32) {
    if s.pointer_events.len() >= 1 {
        match s.pointer_events.last() {
            PointerEvent::Motion { time, surface_x, surface_y } => (
                WlState {
                    pointer_events: s.pointer_events.drop_last(),
                    last_pointer_x: surface_x,
                    last_pointer_y: surface_y,
                    ..s
                },
                motion_event(event, s, surface_x, surface_y),
                1,
            ),
            PointerEvent::Button { serial, time, button, state } => (
                WlState { pointer_events: s.pointer_events.drop_last(), ..s },
                button_event(event, s, button, state),
                1,
            ),
        }
    } else if s.active_keysyms.len() >= 1 {
        (
            WlState { active_keysyms: s.active_keysyms.drop_last(), ..s },
            key_event(event, s.active_keysyms.last()),
            1,
        )
    } else if !s.running {
        (
            WlState {
                quit_attempts: if s.quit_attempts < QUIT_ATTEMPTS {
                    (s.quit_attempts + 1) as u8
                } else {
                    s.quit_attempts
                },
                ..s
            },
            quit_event(event),
            1,
        )
    } else {
        (s, event, 0)
    }
}

/// Whether the process is to end itself: the quit event was delivered as
/// often as the cap allows.
pub open spec fn must_exit(s: WlState) -> bool {
    s.quit_attempts >= QUIT_ATTEMPTS
}

impl WaylandState {
    /// Fills `event` with the pending event that is due and returns 1, or
    /// returns 0 where none is.
    pub fn poll_event(&mut self, event: &mut SDL_Event) -> (r: i32)
        requires
            consistent(old(self)@),
        ensures
            consistent(final(self)@),
            (final(self)@, *final(event), r) == polled(old(self)@, *old(event)),
    {
        if self.pointer_events.len() >= 1 {
            match self.pointer_events.pop() {
                Some(PointerEvent::Motion { time, surface_x, surface_y }) => {
                    event.type_ = SDL_MOUSEMOTION;
                    event.state = 0;
                    event.x = pixel_of(surface_x);
                    event.y = pixel_of(surface_y);
                    event.xrel = delta_of(surface_x, self.last_pointer_x);
                    event.yrel = delta_of(surface_y, self.last_pointer_y);
                    self.last_pointer_x = surface_x;
                    self.last_pointer_y = surface_y;
                },
                Some(PointerEvent::Button { serial, time, button, state }) => {
                    if state == BUTTON_RELEASED {
                        event.type_ = SDL_MOUSEBUTTONUP;
                        event.state = 0;
                    } else if state == BUTTON_PRESSED {
                        event.type_ = SDL_MOUSEBUTTONDOWN;
                        event.state = 1;
                    }
                    if button >= BUTTON_BASE && button - BUTTON_BASE <= 0xff {
                        event.button = (button - BUTTON_BASE) as u8;
                    }
                    event.x = pixel_of(self.last_pointer_x);
                    event.y = pixel_of(self.last_pointer_y);
                },
                None => {},
            }
            assert(self.pointer_events@ =~= old(self)@.pointer_events.drop_last());
            1
        } else if self.active_keysyms.len() >= 1 {
            match self.active_keysyms.pop() {
                Some(entry) => {
                    fill_key_event(event, entry);
                },
                None => {},
            }
            assert(self.active_keysyms@ =~= old(self)@.active_keysyms.drop_last());
            1
        } else if !self.running {
            if self.quit_attempts < QUIT_ATTEMPTS {
                self.quit_attempts = self.quit_attempts + 1;
            }
            event.type_ = SDL_QUIT;
            1
        } else {
            0
        }
    }

    /// Whether the process is to end itself, because the application did
    /// not react to the quit event.
    pub fn must_exit(&self) -> (exit: bool)
        ensures
            exit == self::must_exit(self@),
    {
        self.quit_attempts >= QUIT_ATTEMPTS
    }
}

/// Where a pump of the event loop stands: the step whose outcome it
/// waits for.
#[derive(Debug, Clone, Copy, PartialEq, Eq, Structural)]
pub enum PumpStage {
    Idle,
    Dispatching,
    Flushing,
    DisplayDispatching,
    Preparing,
    Reading,
    Finishing,
}

/// What a pump of the event loop does next.
#[derive(Debug, Clone, Copy, PartialEq, Eq, Structural)]
pub enum Pump {
    /// Dispatch the messages that are queued.
    DispatchPending,
    /// Send the outgoing messages.
    Flush,
    /// Dispatch the messages that are queued on the display itself.
    DispatchDisplay,
    /// Prepare to read without blocking.
    PrepareRead,
    /// Read the incoming messages.
    Read,
    /// The pump is over.
    Done,
}

/// The outcome of a step of the pump.
#[derive(Debug, Clone, Copy, PartialEq, Eq, Structural)]
pub enum PumpReply {
    /// So many messages were dispatched.
    Dispatched(usize),
    /// The outgoing messages were sent, or were not.
    Flushed(bool),
    DisplayDispatched,
    /// The read can be made, or the queue was not empty.
    Prepared(bool),
    /// So many messages were read.
    Read(usize),
}

/// One step of the pump. Queued messages are dispatched first, and the
/// pump ends there if there were any. Else the outgoing messages are sent,
/// again and again until they are, the display's own queue is dispatched,
/// new messages are read without blocking, and what the read gave is
/// dispatched. An outcome that does not answer the step ends the pump.
pub open spec fn pump_next(stage: PumpStage, native_display: bool, reply: PumpReply) -> (
    PumpStage,
    Pump,
) {
    match (stage, reply) {
        (PumpStage::Dispatching, PumpReply::Dispatched(n)) => if n > 0 {
            (PumpStage::Idle, Pump::Done)
        } else {
            (PumpStage::Flushing, Pump::Flush)
        },
        (PumpStage::Flushing, PumpReply::Flushed(sent)) => if !sent {
            (PumpStage::Flushing, Pump::Flush)
        } else if native_display {
            (PumpStage::DisplayDispatching, Pump::DispatchDisplay)
        } else {
            (PumpStage::Preparing, Pump::PrepareRead)
        },
        (PumpStage::DisplayDispatching, PumpReply::DisplayDispatched) => (
            PumpStage::Preparing,
            Pump::PrepareRead,
        ),
        (PumpStage::Preparing, PumpReply::Prepared(ready)) => if ready {
            (PumpStage::Reading, Pump::Read)
        } else {
            (PumpStage::Finishing, Pump::DispatchPending)
        },
        (PumpStage::Reading, PumpReply::Read(n)) => if n == 0 {
            (PumpStage::Idle, Pump::Done)
        } else {
            (PumpStage::Finishing, Pump::DispatchPending)
        },
        _ => (PumpStage::Idle, Pump::Done),
    }
}

/// The window of the Wayland backend as a mathematical value.
pub struct WlWindow {
    pub state: WlState,
    pub video_info: SDL_VideoInfo,
    pub fake_surface: SDL_Surface,
    pub gl_attrs: Seq<i32>,
    pub pump: PumpStage,
}

/// The video information of this backend.
pub open spec fn wayland_video_info() -> SDL_VideoInfo {
    SDL_VideoInfo { capabilities: 255, blit_fill: 0, video_mem: 2048000 }
}

/// The window in which the backend starts.
pub open spec fn initial_window(table: Seq<(u32, u32)>) -> WlWindow {
    WlWindow {
        state: initial_state(table),
        video_info: wayland_video_info(),
        fake_surface: surface_of(INITIAL_WIDTH, INITIAL_HEIGHT),
        gl_attrs: Seq::new(GL_ATTRIBUTES as nat, |i: int| 0i32),
        pump: PumpStage::Idle,
    }
}

/// The drawable descriptor after a change of video mode: the width and
/// the height are taken, and both sides of the clip rectangle are set to
/// the height.
pub open spec fn resized(surface: SDL_Surface, width: i32, height: i32) -> SDL_Surface {
    SDL_Surface {
        w: width,
        h: height,
        clip_rect: SDL_Rect { w: height, h: height, ..surface.clip_rect },
        ..surface
    }
}

/// The requests that move the pointer: one request, where a pointer is
/// known, the pointer-warp global is bound and the surface exists, and
/// none else.
pub open spec fn warp_requests(s: WlState, x: u16, y: u16) -> Seq<Request> {
    if s.pointer && s.pointer_warp.is_some() && s.compositor_surface {
        seq![Request::WarpPointer { target_x: x, target_y: y, serial: s.pointer_serial }]
    } else {
        Seq::empty()
    }
}

/// The address to hand out for a drawing function on this backend: null
/// for one that the lookup does not know.
pub open spec fn optional_address(looked_up: Result<Option<usize>, EGLError>) -> Result<
    usize,
    Failure,
> {
    match looked_up {
        Ok(Some(address)) => Ok(address),
        Ok(None) => Ok(0),
        Err(_) => Err(Failure::MissingEntry),
    }
}

/// The window of the Wayland backend.
pub struct WaylandWindow {
    state: WaylandState,
    video_info: SDL_VideoInfo,
    fake_surface: SDL_Surface,
    gl_attrs: Vec<i32>,
    pump: PumpStage,
}

impl View for WaylandWindow {
    type V = WlWindow;

    closed spec fn view(&self) -> WlWindow {
        WlWindow {
            state: self.state@,
            video_info: self.video_info,
            fake_surface: self.fake_surface,
            gl_attrs: self.gl_attrs@,
            pump: self.pump,
        }
    }
}

/// What holds of every window: its state is consistent and it keeps as
/// many attributes as there are.
pub open spec fn well_formed(w: WlWindow) -> bool {
    consistent(w.state) && w.gl_attrs.len() == GL_ATTRIBUTES
}

impl WaylandWindow {
    /// The window of a backend that is connected. The registry is asked
    /// for, and one round-trip lets the globals arrive.
    pub fn new(table: KeyTable) -> (r: (WaylandWindow, Vec<Request>))
        ensures
            r.0@ == initial_window(table@),
            well_formed(r.0@),
            r.1@ == seq![Request::GetRegistry, Request::Roundtrip],
    {
        let mut gl_attrs: Vec<i32> = Vec::new();
        let mut i: usize = 0;
        while i < GL_ATTRIBUTES
            invariant
                i <= GL_ATTRIBUTES,
                gl_attrs@ == Seq::new(i as nat, |k: int| 0i32),
            decreases GL_ATTRIBUTES - i,
        {
            gl_attrs.push(0);
            i += 1;
            assert(gl_attrs@ =~= Seq::new(i as nat, |k: int| 0i32));
        }
        let window = WaylandWindow {
            state: WaylandState::new(table),
            video_info: SDL_VideoInfo { capabilities: 255, blit_fill: 0, video_mem: 2048000 },
            fake_surface: SDL_Surface::new(INITIAL_WIDTH, INITIAL_HEIGHT),
            gl_attrs,
            pump: PumpStage::Idle,
        };
        let requests = vec![Request::GetRegistry, Request::Roundtrip];
        assert(requests@ =~= seq![Request::GetRegistry, Request::Roundtrip]);
        (window, requests)
    }

    /// The state that the events of the compositor drive.
    pub fn state(&self) -> (state: &WaylandState)
        ensures
            state@ == self@.state,
    {
        &self.state
    }

    /// Takes an event of the compositor and answers with the requests to
    /// send. Nothing but the state changes.
    pub fn dispatch(&mut self, event: Event) -> (requests: Vec<Request>)
        requires
            well_formed(old(self)@),
        ensures
            well_formed(final(self)@),
            (final(self)@.state, requests@) == step(old(self)@.state, event),
            final(self)@ == (WlWindow { state: final(self)@.state, ..old(self)@ }),
    {
        self.state.dispatch(event)
    }

    /// Takes the bring-up of the graphics context that a configure asked
    /// for. With it the window is configured, and can be started.
    pub fn context_bound(&mut self, egl: EGL) -> (r: Result<(), BindError>)
        requires
            well_formed(old(self)@),
        ensures
            well_formed(final(self)@),
            (final(self)@.state, r) == context_reported(old(self)@.state, egl@),
            final(self)@ == (WlWindow { state: final(self)@.state, ..old(self)@ }),
    {
        self.state.context_bound(egl)
    }

    /// Takes the keymap that was compiled from the layout description of
    /// the compositor, or the failure to compile it.
    pub fn keymap_built(&mut self, built: Result<Translator, KeymapError>) -> (r: Result<
        (),
        KeymapError,
    >)
        requires
            well_formed(old(self)@),
        ensures
            well_formed(final(self)@),
            (final(self)@.state, r) == keymap_installed(old(self)@.state, built),
            final(self)@ == (WlWindow { state: final(self)@.state, ..old(self)@ }),
    {
        self.state.keymap_built(built)
    }

    /// Begins a pump of the event loop.
    pub fn event_loop(&mut self) -> (next: Pump)
        ensures
            final(self)@ == (WlWindow { pump: PumpStage::Dispatching, ..old(self)@ }),
            next == Pump::DispatchPending,
    {
        self.pump = PumpStage::Dispatching;
        Pump::DispatchPending
    }

    /// Takes the outcome of a step of the pump and says what comes next.
    pub fn pumped(&mut self, reply: PumpReply) -> (next: Pump)
        ensures
            final(self)@ == (WlWindow {
                pump: pump_next(old(self)@.pump, old(self)@.state.native_display, reply).0,
                ..old(self)@
            }),
            next == pump_next(old(self)@.pump, old(self)@.state.native_display, reply).1,
    {
        let (stage, next) = match (self.pump, reply) {
            (PumpStage::Dispatching, PumpReply::Dispatched(n)) => if n > 0 {
                (PumpStage::Idle, Pump::Done)
            } else {
                (PumpStage::Flushing, Pump::Flush)
            },
            (PumpStage::Flushing, PumpReply::Flushed(sent)) => if !sent {
                (PumpStage::Flushing, Pump::Flush)
            } else if self.state.native_display() {
                (PumpStage::DisplayDispatching, Pump::DispatchDisplay)
            } else {
                (PumpStage::Preparing, Pump::PrepareRead)
            },
            (PumpStage::DisplayDispatching, PumpReply::DisplayDispatched) => (
                PumpStage::Preparing,
                Pump::PrepareRead,
            ),
            (PumpStage::Preparing, PumpReply::Prepared(ready)) => if ready {
                (PumpStage::Reading, Pump::Read)
            } else {
                (PumpStage::Finishing, Pump::DispatchPending)
            },
            (PumpStage::Reading, PumpReply::Read(n)) => if n == 0 {
                (PumpStage::Idle, Pump::Done)
            } else {
                (PumpStage::Finishing, Pump::DispatchPending)
            },
            _ => (PumpStage::Idle, Pump::Done),
        };
        self.pump = stage;
        next
    }

    /// The modifier keys that are down: none is tracked.
    pub fn get_mod_state(&self) -> (modifiers: u32)
        ensures
            modifiers == KMOD_NONE,
    {
        KMOD_NONE
    }

    /// Whether the process is to end itself, because the application did
    /// not react to the quit event.
    pub fn must_exit(&self) -> (exit: bool)
        ensures
            exit == self::must_exit(self@.state),
    {
        self.state.must_exit()
    }
}

impl Window for WaylandWindow {
    type Request = Request;

    open spec fn valid(&self) -> bool {
        well_formed(self@)
    }

    open spec fn drawable_known(&self) -> bool {
        self@.state.configured
    }

    open spec fn key_states(&self) -> Seq<u8> {
        self@.state.keys
    }

    /// Starts the window. Nothing is left to do once the surface is
    /// configured.
    fn init(&mut self, flags: u32) -> (r: (i32, Vec<Request>))
        ensures
            *final(self) == *old(self),
            r.1@ == Seq::<Request>::empty(),
    {
        (0, Vec::new())
    }

    /// Ends the window: the backend no longer runs.
    fn quit(&mut self) -> (requests: Vec<Request>)
        ensures
            final(self)@ == (WlWindow {
                state: WlState { running: false, ..old(self)@.state },
                ..old(self)@
            }),
            requests@ == Seq::<Request>::empty(),
    {
        self.state.xdg_toplevel_close();
        Vec::new()
    }

    fn get_error(&mut self) -> (text: Option<&'static str>) {
        None
    }

    fn get_key_state(&self) -> (keys: &Vec<u8>) {
        self.state.key_table()
    }

    fn egl(&self) -> (egl: &Option<EGL>)
        ensures
            egl matches Some(e) ==> Some(e@) == self@.state.egl,
    {
        self.state.egl()
    }

    fn wait_for_egl(&self) -> (over: bool) {
        self.state.wait_for_egl()
    }

    /// No button is reported down; the position is the one known last, in
    /// whole pixels.
    fn get_mouse_state(&self) -> (r: (u8, i32, i32))
        ensures
            r == (
                0u8,
                to_coordinate(self@.state.last_pointer_x),
                to_coordinate(self@.state.last_pointer_y),
            ),
    {
        let (x, y) = self.state.last_pointer();
        (0, coordinate_of(x), coordinate_of(y))
    }

    fn egl_display(&self) -> (display: usize)
        ensures
            display == self@.state.display,
    {
        self.state.display()
    }

    fn egl_surface(&self) -> (surface: usize)
        ensures
            surface == self@.state.native_surface,
    {
        self.state.native_surface()
    }

    /// The attribute as it was set, and 0 for one that is not kept.
    fn gl_get_attribute(&mut self, attr: u32) -> (value: i32)
        ensures
            value == (if attr < GL_ATTRIBUTES {
                old(self)@.gl_attrs[attr as int]
            } else {
                0
            }),
    {
        if (attr as usize) < GL_ATTRIBUTES {
            self.gl_attrs[attr as usize]
        } else {
            0
        }
    }

    /// Keeps the attribute. One that is not kept is passed over.
    fn gl_set_attribute(&mut self, attr: u32, value: i32) -> (r: i32)
        ensures
            final(self)@ == (WlWindow {
                gl_attrs: if attr < GL_ATTRIBUTES {
                    old(self)@.gl_attrs.update(attr as int, value)
                } else {
                    old(self)@.gl_attrs
                },
                ..old(self)@
            }),
    {
        if (attr as usize) < GL_ATTRIBUTES {
            self.gl_attrs.set(attr as usize, value);
        }
        0
    }

    /// A drawing function that the lookup does not know has the null
    /// address.
    fn gl_get_proc_address(&mut self, looked_up: Result<Option<usize>, EGLError>) -> (address:
        Result<usize, Failure>)
        ensures
            address == optional_address(looked_up),
    {
        match looked_up {
            Ok(Some(a)) => Ok(a),
            Ok(None) => Ok(0),
            Err(_) => Err(Failure::MissingEntry),
        }
    }

    /// Presents the frame: the buffers of the drawable are swapped.
    fn gl_swap_buffers(&mut self) -> (requests: Vec<Request>)
        ensures
            *final(self) == *old(self),
            requests@ == seq![
                Request::SwapBuffers {
                    display: old(self)@.state.display,
                    surface: old(self)@.state.native_surface,
                },
            ],
    {
        let requests = vec![
            Request::SwapBuffers {
                display: self.state.display(),
                surface: self.state.native_surface(),
            },
        ];
        assert(requests@ =~= seq![
            Request::SwapBuffers {
                display: self@.state.display,
                surface: self@.state.native_surface,
            },
        ]);
        requests
    }

    fn poll_event(&mut self, event: &mut SDL_Event) -> (r: i32)
        ensures
            (final(self)@.state, *final(event), r) == polled(old(self)@.state, *old(event)),
            final(self)@ == (WlWindow { state: final(self)@.state, ..old(self)@ }),
    {
        self.state.poll_event(event)
    }

    /// Changes the video mode: the native window is resized and the
    /// descriptor follows.
    fn set_video_mode(&mut self, width: i32, height: i32, bpp: i32, flags: u32) -> (r: (
        SDL_Surface,
        Vec<Request>,
    ))
        ensures
            final(self)@ == (WlWindow {
                fake_surface: resized(old(self)@.fake_surface, width, height),
                ..old(self)@
            }),
            r.0 == resized(old(self)@.fake_surface, width, height),
            r.1@ == seq![Request::ResizeNativeWindow { width, height }],
    {
        self.fake_surface.w = width;
        self.fake_surface.h = height;
        self.fake_surface.clip_rect.w = height;
        self.fake_surface.clip_rect.h = height;
        let requests = vec![Request::ResizeNativeWindow { width, height }];
        assert(requests@ =~= seq![Request::ResizeNativeWindow { width, height }]);
        (self.fake_surface, requests)
    }

    fn show_cursor(&mut self, toggle: i32) -> (r: i32) {
        0
    }

    fn warp_mouse(&mut self, x: u16, y: u16) -> (requests: Vec<Request>)
        ensures
            requests@ == warp_requests(old(self)@.state, x, y),
    {
        let mut requests: Vec<Request> = Vec::new();
        if self.state.has_pointer() && self.state.pointer_warp().is_some()
            && self.state.compositor_surface() {
            requests.push(
                Request::WarpPointer {
                    target_x: x,
                    target_y: y,
                    serial: self.state.pointer_serial(),
                },
            );
        }
        assert(requests@ =~= warp_requests(old(self)@.state, x, y));
        requests
    }

    /// Sets the title of the toplevel to the caption, where there is a
    /// toplevel. The icon is not used.
    fn wm_set_caption(&mut self, title: &str, icon: &str) -> (requests: Vec<Request>)
        ensures
            requests@ == (if old(self)@.state.xdg_top_level {
                seq![Request::SetTitle]
            } else {
                Seq::<Request>::empty()
            }),
    {
        let mut requests: Vec<Request> = Vec::new();
        if self.state.xdg_top_level() {
            requests.push(Request::SetTitle);
        }
        assert(requests@ =~= (if old(self)@.state.xdg_top_level {
            seq![Request::SetTitle]
        } else {
            Seq::<Request>::empty()
        }));
        requests
    }

    /// The event loop is pumped while the delay is waited out.
    fn delay(&mut self, ms: u32, elapsed_ms: u128) -> (next: Delay)
        ensures
            next == (if elapsed_ms > ms {
                Delay::Done
            } else {
                Delay::Pump
            }),
    {
        if elapsed_ms > ms as u128 {
            Delay::Done
        } else {
            Delay::Pump
        }
    }

    fn get_video_info(&mut self) -> (info: SDL_VideoInfo)
        ensures
            info == old(self)@.video_info,
    {
        self.video_info
    }
}


/// The state and the event record after `n` polls in a row.
pub open spec fn after_polls(s: WlState, event: SDL_Event, n: nat) -> (WlState, SDL_Event)
    decreases n,
{
    if n == 0 {
        (s, event)
    } else {
        after_polls(polled(s, event).0, polled(s, event).1, (n - 1) as nat)
    }
}

/// The quit event is delivered a bounded number of times. From the
/// moment the backend no longer runs and has nothing else to deliver,
/// every poll delivers the quit event, and the process is to end itself
/// after exactly as many deliveries as the cap says: not before, and at
/// every poll from then on.
pub proof fn lemma_quit_after_cap(s: WlState, event: SDL_Event, n: nat)
    requires
        consistent(s),
        !s.running,
        s.pointer_events.len() == 0,
        s.active_keysyms.len() == 0,
    ensures
        after_polls(s, event, n).0.quit_attempts == (if s.quit_attempts + n < QUIT_ATTEMPTS {
            s.quit_attempts + n
        } else {
            QUIT_ATTEMPTS as int
        }),
        must_exit(after_polls(s, event, n).0) == (s.quit_attempts + n >= QUIT_ATTEMPTS),
        n >= 1 ==> after_polls(s, event, n).1 == quit_event(event),
        polled(s, event).2 == 1,
        after_polls(s, event, n).0 == (WlState {
            quit_attempts: after_polls(s, event, n).0.quit_attempts,
            ..s
        }),
    decreases n,
{
    if n > 0 {
        let next = polled(s, event);
        lemma_quit_after_cap(next.0, next.1, (n - 1) as nat);
    }
}

/// The button code is corrected by the base. A wire code from the base
/// on, as far as the field reaches, is reported as the code less 271, a
/// button that went down as a button-down event with state 1 and one that
/// came up as a button-up event with state 0. A code out of range leaves
/// the button as it was in the record, and a state that is neither leaves
/// the kind and the state as they were.
pub proof fn lemma_button_correction(previous: SDL_Event, s: WlState, button: u32, state: u32)
    ensures
        button_in_range(button) ==> button_event(previous, s, button, state).button == button
            - 271,
        !button_in_range(button) ==> button_event(previous, s, button, state).button
            == previous.button,
        state == BUTTON_PRESSED ==> button_event(previous, s, button, state).type_
            == SDL_MOUSEBUTTONDOWN && button_event(previous, s, button, state).state == 1,
        state == BUTTON_RELEASED ==> button_event(previous, s, button, state).type_
            == SDL_MOUSEBUTTONUP && button_event(previous, s, button, state).state == 0,
        state != BUTTON_PRESSED && state != BUTTON_RELEASED ==> button_event(
            previous,
            s,
            button,
            state,
        ).type_ == previous.type_ && button_event(previous, s, button, state).state
            == previous.state,
{
}

} // verus!

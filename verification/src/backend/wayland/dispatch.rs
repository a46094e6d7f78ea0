//! All events of the compositor in one type, the step that each of them
//! makes, and what holds of every step.

use vstd::prelude::*;
use crate::backend::wayland::keyboard::{key_received, keymap_installed};
use crate::backend::wayland::pointer::{
    pointer_entered, pointer_left, pointer_queued, pointer_seen,
};
use crate::backend::wayland::registry::{
    bind, global_advertised, global_named, surface_requests,
};
use crate::backend::wayland::seat::capability_requests;
use crate::backend::wayland::window::{must_exit, polled};
use crate::backend::wayland::xdg::{
    close_requested, context_reported, for_wayland, surface_configured,
};
use crate::backend::wayland::{
    consistent, initial_state, xdg_surface_created, Global, PointerEvent, Request, WaylandState,
    WlState,
};
use crate::egl::{SetupState, Stage, EGL_PLATFORM_WAYLAND_KHR};
use crate::keymap::{KeymapError, Translator};
use crate::type_defs::SDL_Event;

verus! {

/// An event of the compositor, as far as the backend reads it.
pub enum Event {
    /// A global was advertised.
    Global { name: u32, interface: String },
    /// The seat tells what it has.
    Capabilities { capabilities: u32 },
    /// The shell base asks whether the client is alive.
    Ping { serial: u32 },
    /// The shell surface was configured.
    SurfaceConfigure { serial: u32 },
    /// The toplevel was given a size.
    ToplevelConfigure { width: i32, height: i32 },
    /// The toplevel is asked to close.
    ToplevelClose,
    /// A keymap was handed over and compiled, or failed to compile.
    Keymap(Result<Translator, KeymapError>),
    Key { key: u32, state: u32 },
    PointerEnter { serial: u32, surface_x: i32, surface_y: i32 },
    PointerLeave { serial: u32 },
    PointerMotion { time: u32, surface_x: i32, surface_y: i32 },
    PointerButton { serial: u32, time: u32, button: u32, state: u32 },
    /// Any other event of the pointer.
    PointerOther,
    /// Any event that the backend has no use for.
    Other,
}

/// The step that an event makes: the state after it and the requests that
/// answer it, in the order in which they are sent.
pub open spec fn step(s: WlState, event: Event) -> (WlState, Seq<Request>) {
    match event {
        Event::Global { name, interface } => global_advertised(s, name, global_named(interface@)),
        Event::Capabilities { capabilities } => (s, capability_requests(capabilities)),
        Event::Ping { serial } => (s, seq![Request::Pong { serial }]),
        Event::SurfaceConfigure { serial } => surface_configured(s, serial),
        Event::ToplevelConfigure { width, height } => (s, Seq::empty()),
        Event::ToplevelClose => (close_requested(s), Seq::empty()),
        Event::Keymap(built) => (keymap_installed(s, built).0, Seq::empty()),
        Event::Key { key, state } => (key_received(s, key, state), Seq::empty()),
        Event::PointerEnter { serial, surface_x, surface_y } => pointer_entered(
            s,
            serial,
            surface_x,
            surface_y,
        ),
        Event::PointerLeave { serial } => pointer_left(s, serial),
        Event::PointerMotion { time, surface_x, surface_y } => (
            pointer_queued(s, PointerEvent::Motion { time, surface_x, surface_y }),
            Seq::empty(),
        ),
        Event::PointerButton { serial, time, button, state } => (
            pointer_queued(s, PointerEvent::Button { serial, time, button, state }),
            Seq::empty(),
        ),
        Event::PointerOther => (pointer_seen(s), Seq::empty()),
        Event::Other => (s, Seq::empty()),
    }
}

impl WaylandState {
    /// Takes an event of the compositor and answers with the requests to
    /// send.
    pub fn dispatch(&mut self, event: Event) -> (requests: Vec<Request>)
        requires
            consistent(old(self)@),
        ensures
            consistent(final(self)@),
            (final(self)@, requests@) == step(old(self)@, event),
    {
        match event {
            Event::Global { name, interface } => self.event(name, interface.as_str()),
            Event::Capabilities { capabilities } => self.seat_event(capabilities),
            Event::Ping { serial } => self.xdg_wm_base_ping(serial),
            Event::SurfaceConfigure { serial } => self.xdg_surface_configure(serial),
            Event::ToplevelConfigure { width, height } => {
                self.xdg_toplevel_configure(width, height);
                Vec::new()
            },
            Event::ToplevelClose => {
                self.xdg_toplevel_close();
                Vec::new()
            },
            Event::Keymap(built) => {
                let _ = self.keymap_built(built);
                Vec::new()
            },
            Event::Key { key, state } => {
                self.key(key, state);
                Vec::new()
            },
            Event::PointerEnter { serial, surface_x, surface_y } => self.pointer_enter(
                serial,
                surface_x,
                surface_y,
            ),
            Event::PointerLeave { serial } => self.pointer_leave(serial),
            Event::PointerMotion { time, surface_x, surface_y } => {
                self.pointer_input(PointerEvent::Motion { time, surface_x, surface_y });
                Vec::new()
            },
            Event::PointerButton { serial, time, button, state } => {
                self.pointer_input(PointerEvent::Button { serial, time, button, state });
                Vec::new()
            },
            Event::PointerOther => {
                self.pointer_other();
                Vec::new()
            },
            Event::Other => Vec::new(),
        }
    }
}

/// Whether a request asks for the bring-up of the graphics context.
pub open spec fn asks_for_context(request: Request) -> bool {
    request is SetupContext
}

/// The bring-up of the graphics context never comes before its
/// precondition. A step asks for it only in answer to a configure of the
/// shell surface that is the first to be answered so, and only behind the
/// acknowledgement of that configure; no step configures the backend by
/// itself; and a bring-up is taken as the backend's context only after a
/// step asked for it.
pub proof fn lemma_context_after_acknowledge(s: WlState, event: Event, egl: SetupState)
    requires
        consistent(s),
    ensures
        forall|i: int|
            0 <= i < step(s, event).1.len() && asks_for_context(#[trigger] step(s, event).1[i])
                ==> {
                &&& event is SurfaceConfigure
                &&& !s.configured
                &&& !s.context_requested
                &&& i == 1
                &&& step(s, event).1.len() == 2
                &&& step(s, event).1[0] == Request::AckConfigure {
                    serial: event->SurfaceConfigure_serial,
                }
                &&& step(s, event).1[1] == Request::SetupContext {
                    platform: EGL_PLATFORM_WAYLAND_KHR,
                }
            },
        step(s, event).0.context_requested && !s.context_requested ==> exists|i: int|
            0 <= i < step(s, event).1.len() && asks_for_context(#[trigger] step(s, event).1[i]),
        step(s, event).0.configured == s.configured,
        step(s, event).0.egl == s.egl,
        context_reported(s, egl).1.is_ok() ==> s.context_requested && !s.configured,
        context_reported(s, egl).0.configured ==> s.context_requested,
{
    let (t, requests) = step(s, event);
    match event {
        Event::Global { name, interface } => {
            let global = global_named(interface@);
            assert forall|i: int| 0 <= i < requests.len() implies !asks_for_context(
                #[trigger] requests[i],
            ) by {
                lemma_bindings_ask_no_context(s, name, global, i);
            }
        },
        Event::SurfaceConfigure { serial } => {
            if t.context_requested && !s.context_requested {
                assert(asks_for_context(requests[1]));
            }
        },
        _ => {},
    }
}

/// No request that answers the advertisement of a global asks for the
/// bring-up of the graphics context.
pub proof fn lemma_bindings_ask_no_context(s: WlState, name: u32, global: Option<Global>, i: int)
    requires
        0 <= i < global_advertised(s, name, global).1.len(),
    ensures
        !asks_for_context(global_advertised(s, name, global).1[i]),
        global_advertised(s, name, global).0.context_requested == s.context_requested,
        global_advertised(s, name, global).0.configured == s.configured,
        global_advertised(s, name, global).0.egl == s.egl,
{
}

/// The configure of the shell surface is idempotent. Once the bring-up of
/// the graphics context was asked for, and so once the backend is
/// configured, a configure is acknowledged and nothing else: the state
/// stays as it is and no second bring-up is asked for.
pub proof fn lemma_configure_idempotent(s: WlState, serial: u32)
    requires
        consistent(s),
        s.configured || s.context_requested,
    ensures
        step(s, Event::SurfaceConfigure { serial }) == (
            s,
            seq![Request::AckConfigure { serial }],
        ),
{
}

/// Two configures in a row ask for the bring-up at most once: whatever
/// the first did, the second is acknowledged and nothing else.
pub proof fn lemma_second_configure_only_acknowledged(s: WlState, first: u32, second: u32)
    requires
        consistent(s),
    ensures
        step(step(s, Event::SurfaceConfigure { serial: first }).0, Event::SurfaceConfigure {
            serial: second,
        }).1 == seq![Request::AckConfigure { serial: second }],
{
}


/// Whether a request acknowledges a configure or asks for the bring-up of
/// the graphics context.
pub open spec fn of_the_handshake(request: Request) -> bool {
    request is AckConfigure || request is SetupContext
}

/// The state after the compositor, a seat and the shell base were
/// advertised to a backend that had bound nothing, in this order.
pub open spec fn globals_bound(
    table: Seq<(u32, u32)>,
    compositor: (u32, String),
    seat: (u32, String),
    shell: (u32, String),
) -> WlState {
    let first = step(
        initial_state(table),
        Event::Global { name: compositor.0, interface: compositor.1 },
    ).0;
    let second = step(first, Event::Global { name: seat.0, interface: seat.1 }).0;
    step(second, Event::Global { name: shell.0, interface: shell.1 }).0
}

/// The requests that answer the three advertisements, in their order.
pub open spec fn binding_requests(
    table: Seq<(u32, u32)>,
    compositor: (u32, String),
    seat: (u32, String),
    shell: (u32, String),
) -> Seq<Request> {
    let first = step(
        initial_state(table),
        Event::Global { name: compositor.0, interface: compositor.1 },
    );
    let second = step(first.0, Event::Global { name: seat.0, interface: seat.1 });
    let third = step(second.0, Event::Global { name: shell.0, interface: shell.1 });
    first.1 + second.1 + third.1
}

/// The round trip of the bring-up. A backend that has bound nothing is
/// advertised the compositor, a seat and the shell base, under any names,
/// and is then configured once, with any serial. The advertisements end
/// with the commit of the surface and hold nothing of the handshake. The
/// configure is answered by exactly its acknowledgement and, behind it,
/// one request for the bring-up of the graphics context on a Wayland
/// display. The backend is not configured until that bring-up, finished
/// and made for a Wayland display and a native window, is reported; then
/// it is, its state is consistent, so that the window can be started,
/// and any later configure is acknowledged and nothing else.
pub proof fn lemma_round_trip(
    table: Seq<(u32, u32)>,
    compositor: (u32, String),
    seat: (u32, String),
    shell: (u32, String),
    serial: u32,
    later: u32,
    egl: SetupState,
)
    requires
        global_named(compositor.1@) == Some(Global::Compositor),
        global_named(seat.1@) == Some(Global::Seat),
        global_named(shell.1@) == Some(Global::WmBase),
        egl.stage == Stage::Ready,
        for_wayland(egl),
    ensures
        ({
            let bound = globals_bound(table, compositor, seat, shell);
            let requests = binding_requests(table, compositor, seat, shell);
            let configured = step(bound, Event::SurfaceConfigure { serial });
            let reported = context_reported(configured.0, egl);
            &&& consistent(bound)
            &&& bound.xdg_surface
            &&& requests.len() == 11
            &&& requests.last() == Request::Commit
            &&& forall|i: int|
                0 <= i < requests.len() ==> !of_the_handshake(#[trigger] requests[i])
            &&& configured.1 == seq![
                Request::AckConfigure { serial },
                Request::SetupContext { platform: EGL_PLATFORM_WAYLAND_KHR },
            ]
            &&& !configured.0.configured
            &&& reported.1.is_ok()
            &&& reported.0.configured
            &&& reported.0.display == egl.display
            &&& reported.0.native_surface == egl.surface
            &&& consistent(reported.0)
            &&& step(reported.0, Event::SurfaceConfigure { serial: later }) == (
                reported.0,
                seq![Request::AckConfigure { serial: later }],
            )
        }),
{
    let s0 = initial_state(table);
    let first = step(s0, Event::Global { name: compositor.0, interface: compositor.1 });
    let second = step(first.0, Event::Global { name: seat.0, interface: seat.1 });
    let third = step(second.0, Event::Global { name: shell.0, interface: shell.1 });
    assert(first.1.len() == 6);
    assert(second.1.len() == 1);
    assert(third.1.len() == 4);
    let requests = first.1 + second.1 + third.1;
    assert forall|i: int| 0 <= i < requests.len() implies !of_the_handshake(
        #[trigger] requests[i],
    ) by {
        if i < 6 {
            assert(requests[i] == first.1[i]);
        } else if i < 7 {
            assert(requests[i] == second.1[i - 6]);
        } else {
            assert(requests[i] == third.1[i - 7]);
        }
    }
    assert(requests.last() == third.1[3]);
}

/// How far the backend has come.
#[derive(Debug, Clone, Copy, PartialEq, Eq, Structural)]
pub enum Phase {
    /// Connected, with nothing bound.
    Connected,
    /// The compositor or the shell base is bound.
    GlobalsBound,
    /// The shell surface exists and the surface was committed.
    SurfaceCommitted,
    /// The first configure was acknowledged and the graphics context is
    /// being brought up.
    ConfigureReceived,
    /// The graphics context is bound: the backend presents.
    ContextBound,
    /// The toplevel was asked to close, or the application quit.
    CloseRequested,
    /// The quit event was delivered as often as the cap allows.
    Quitting,
}

/// The phase that a state stands in.
pub open spec fn phase_of(s: WlState) -> Phase {
    if must_exit(s) {
        Phase::Quitting
    } else if !s.running {
        Phase::CloseRequested
    } else if s.configured {
        Phase::ContextBound
    } else if s.context_requested {
        Phase::ConfigureReceived
    } else if s.xdg_surface {
        Phase::SurfaceCommitted
    } else if s.compositor.is_some() || s.wm_base.is_some() {
        Phase::GlobalsBound
    } else {
        Phase::Connected
    }
}

/// The place of a phase in the order of the phases.
pub open spec fn phase_rank(phase: Phase) -> nat {
    match phase {
        Phase::Connected => 0,
        Phase::GlobalsBound => 1,
        Phase::SurfaceCommitted => 2,
        Phase::ConfigureReceived => 3,
        Phase::ContextBound => 4,
        Phase::CloseRequested => 5,
        Phase::Quitting => 6,
    }
}

impl WaylandState {
    /// The phase that the backend stands in.
    pub fn phase(&self) -> (phase: Phase)
        ensures
            phase == phase_of(self@),
    {
        if self.must_exit() {
            Phase::Quitting
        } else if !self.running() {
            Phase::CloseRequested
        } else if self.wait_for_egl() {
            Phase::ContextBound
        } else if self.context_requested() {
            Phase::ConfigureReceived
        } else if self.xdg_surface() {
            Phase::SurfaceCommitted
        } else if self.compositor().is_some() || self.wm_base().is_some() {
            Phase::GlobalsBound
        } else {
            Phase::Connected
        }
    }
}

/// The backend never falls back to an earlier phase: not by an event of
/// the compositor, not by a poll, and not by the report of the bring-up.
pub proof fn lemma_phase_never_falls(
    s: WlState,
    event: Event,
    record: SDL_Event,
    egl: SetupState,
)
    requires
        consistent(s),
    ensures
        phase_rank(phase_of(step(s, event).0)) >= phase_rank(phase_of(s)),
        phase_rank(phase_of(polled(s, record).0)) >= phase_rank(phase_of(s)),
        phase_rank(phase_of(context_reported(s, egl).0)) >= phase_rank(phase_of(s)),
{
}

} // verus!

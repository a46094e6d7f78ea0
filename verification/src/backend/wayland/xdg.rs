//! The shell: the configure handshake that the graphics context waits for,
//! the close request and the ping.

use vstd::prelude::*;
use crate::backend::wayland::{consistent, Request, WaylandState, WlState};
use crate::egl::{EGLWindowType, SetupState, Stage, EGL, EGL_PLATFORM_WAYLAND_KHR};

verus! {

/// Why a bring-up is not taken as the context of the backend.
#[derive(Debug, Clone, Copy, PartialEq, Eq, Structural)]
pub enum BindError {
    /// No bring-up was asked for, or one was taken already.
    OutOfOrder,
    /// The bring-up has not finished.
    NotReady,
    /// The bring-up was not made for a Wayland display and a native
    /// window.
    WrongPlatform,
}

/// Whether a bring-up was made for a Wayland display and a native window.
pub open spec fn for_wayland(egl: SetupState) -> bool {
    egl.platform == EGL_PLATFORM_WAYLAND_KHR && egl.native_window is Window
}

/// The backend after the shell surface was configured. The configure is
/// acknowledged each time. The first one, with the native window there,
/// also asks for the bring-up of the graphics context; no later one does.
pub open spec fn surface_configured(s: WlState, serial: u32) -> (WlState, Seq<Request>) {
    if s.configured || s.context_requested || !s.egl_surface {
        (s, seq![Request::AckConfigure { serial }])
    } else {
        (
            WlState { context_requested: true, ..s },
            seq![
                Request::AckConfigure { serial },
                Request::SetupContext { platform: EGL_PLATFORM_WAYLAND_KHR },
            ],
        )
    }
}

/// The backend after the bring-up that it asked for was reported: a
/// finished one is taken, with its display and drawable, and the backend
/// is configured.
pub open spec fn context_reported(s: WlState, egl: SetupState) -> (WlState, Result<(), BindError>) {
    if !s.context_requested || s.configured {
        (s, Err(BindError::OutOfOrder))
    } else if !for_wayland(egl) {
        (s, Err(BindError::WrongPlatform))
    } else if egl.stage != Stage::Ready {
        (s, Err(BindError::NotReady))
    } else {
        (
            WlState {
                egl: Some(egl),
                display: egl.display,
                native_surface: egl.surface,
                configured: true,
                ..s
            },
            Ok(()),
        )
    }
}

/// The backend after the compositor asked the toplevel to close: it no
/// longer runs. Nothing ends yet.
pub open spec fn close_requested(s: WlState) -> WlState {
    WlState { running: false, ..s }
}

impl WaylandState {
    /// Takes a configure of the shell surface.
    pub fn xdg_surface_configure(&mut self, serial: u32) -> (requests: Vec<Request>)
        requires
            consistent(old(self)@),
        ensures
            consistent(final(self)@),
            (final(self)@, requests@) == surface_configured(old(self)@, serial),
    {
        let mut requests: Vec<Request> = Vec::new();
        requests.push(Request::AckConfigure { serial });
        if !self.configured && !self.context_requested && self.egl_surface {
            requests.push(Request::SetupContext { platform: EGL_PLATFORM_WAYLAND_KHR });
            self.context_requested = true;
        }
        assert(requests@ =~= surface_configured(old(self)@, serial).1);
        requests
    }

    /// Takes the bring-up of the graphics context that a configure asked
    /// for. With it the backend is configured.
    pub fn context_bound(&mut self, egl: EGL) -> (r: Result<(), BindError>)
        requires
            consistent(old(self)@),
        ensures
            consistent(final(self)@),
            (final(self)@, r) == context_reported(old(self)@, egl@),
    {
        if !self.context_requested || self.configured {
            return Err(BindError::OutOfOrder);
        }
        let for_window = match egl.native_window() {
            EGLWindowType::Window(_) => true,
            EGLWindowType::Pointer(_) => false,
        };
        if egl.platform() != EGL_PLATFORM_WAYLAND_KHR || !for_window {
            return Err(BindError::WrongPlatform);
        }
        if !egl.is_ready() {
            return Err(BindError::NotReady);
        }
        self.display = egl.display();
        self.native_surface = egl.surface();
        self.egl = Some(egl);
        self.configured = true;
        Ok(())
    }

    /// Takes the request to close the toplevel.
    pub fn xdg_toplevel_close(&mut self)
        requires
            consistent(old(self)@),
        ensures
            consistent(final(self)@),
            final(self)@ == close_requested(old(self)@),
    {
        self.running = false;
    }

    /// Takes a configure of the toplevel. The size is not applied.
    pub fn xdg_toplevel_configure(&mut self, width: i32, height: i32)
        ensures
            *final(self) == *old(self),
    {
    }

    /// Takes a ping of the shell base, which is answered at once.
    pub fn xdg_wm_base_ping(&self, serial: u32) -> (requests: Vec<Request>)
        ensures
            requests@ == seq![Request::Pong { serial }],
    {
        let requests = vec![Request::Pong { serial }];
        assert(requests@ =~= seq![Request::Pong { serial }]);
        requests
    }
}

} // verus!

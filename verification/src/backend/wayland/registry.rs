//! The registry: which of the advertised globals are bound, and what the
//! binding of each sets going.

use vstd::prelude::*;
use crate::backend::same_text;
use crate::backend::wayland::{
    consistent, xdg_surface_created, Global, Request, WaylandState, WlState, BIND_VERSION,
    INITIAL_HEIGHT, INITIAL_WIDTH,
};

verus! {

/// The global that an interface name stands for, if the backend binds it.
pub open spec fn global_named(interface: Seq<char>) -> Option<Global> {
    if interface == "wl_compositor"@ {
        Some(Global::Compositor)
    } else if interface == "wl_seat"@ {
        Some(Global::Seat)
    } else if interface == "xdg_wm_base"@ {
        Some(Global::WmBase)
    } else if interface == "zxdg_decoration_manager_v1"@ {
        Some(Global::DecorationManager)
    } else if interface == "wp_pointer_warp_v1"@ {
        Some(Global::PointerWarp)
    } else {
        None
    }
}

/// Tells which global an interface name stands for. A name that is not
/// understood stands for none.
pub fn classify(interface: &str) -> (global: Option<Global>)
    ensures
        global == global_named(interface@),
{
    if same_text(interface, "wl_compositor") {
        Some(Global::Compositor)
    } else if same_text(interface, "wl_seat") {
        Some(Global::Seat)
    } else if same_text(interface, "xdg_wm_base") {
        Some(Global::WmBase)
    } else if same_text(interface, "zxdg_decoration_manager_v1") {
        Some(Global::DecorationManager)
    } else if same_text(interface, "wp_pointer_warp_v1") {
        Some(Global::PointerWarp)
    } else {
        None
    }
}

/// The request that binds a global.
pub open spec fn bind(name: u32, global: Global) -> Request {
    Request::Bind { name, global, version: BIND_VERSION }
}

/// What the binding of the compositor asks for: the toplevel surface, an
/// opaque region that covers its first size, and the native window.
pub open spec fn surface_requests(name: u32) -> Seq<Request> {
    seq![
        bind(name, Global::Compositor),
        Request::CreateSurface,
        Request::CreateRegion,
        Request::RegionAdd { x: 0, y: 0, width: INITIAL_WIDTH, height: INITIAL_HEIGHT },
        Request::SetOpaqueRegion,
        Request::CreateNativeWindow { width: INITIAL_WIDTH, height: INITIAL_HEIGHT },
    ]
}

/// The backend after a global was advertised under `name`. The compositor
/// gives the surface at once; of the compositor and the shell base, the
/// one that comes second gives the shell surface. A global that is not
/// understood is passed over.
pub open spec fn global_advertised(s: WlState, name: u32, global: Option<Global>) -> (
    WlState,
    Seq<Request>,
) {
    match global {
        Some(Global::Compositor) => {
            let bound = WlState {
                compositor: Some(name),
                compositor_surface: true,
                egl_surface: true,
                ..s
            };
            if s.wm_base.is_some() && !s.xdg_surface {
                (
                    xdg_surface_created(bound).0,
                    surface_requests(name) + xdg_surface_created(bound).1,
                )
            } else {
                (bound, surface_requests(name))
            }
        },
        Some(Global::Seat) => (s, seq![bind(name, Global::Seat)]),
        Some(Global::WmBase) => {
            let bound = WlState { wm_base: Some(name), ..s };
            if s.compositor_surface && !s.xdg_surface {
                (
                    xdg_surface_created(bound).0,
                    seq![bind(name, Global::WmBase)] + xdg_surface_created(bound).1,
                )
            } else {
                (bound, seq![bind(name, Global::WmBase)])
            }
        },
        Some(Global::DecorationManager) => (
            WlState { decoration_manager: Some(name), ..s },
            seq![bind(name, Global::DecorationManager)],
        ),
        Some(Global::PointerWarp) => (
            WlState { pointer_warp: Some(name), ..s },
            seq![bind(name, Global::PointerWarp)],
        ),
        None => (s, Seq::empty()),
    }
}

impl WaylandState {
    /// Takes the advertisement of a global under `name` with the given
    /// interface name, and answers with the requests that bind it and set
    /// up what depends on it.
    pub fn event(&mut self, name: u32, interface: &str) -> (requests: Vec<Request>)
        requires
            consistent(old(self)@),
        ensures
            consistent(final(self)@),
            (final(self)@, requests@) == global_advertised(
                old(self)@,
                name,
                global_named(interface@),
            ),
    {
        let mut requests: Vec<Request> = Vec::new();
        match classify(interface) {
            Some(Global::Compositor) => {
                requests.push(
                    Request::Bind { name, global: Global::Compositor, version: BIND_VERSION },
                );
                requests.push(Request::CreateSurface);
                requests.push(Request::CreateRegion);
                requests.push(
                    Request::RegionAdd { x: 0, y: 0, width: INITIAL_WIDTH, height: INITIAL_HEIGHT },
                );
                requests.push(Request::SetOpaqueRegion);
                requests.push(
                    Request::CreateNativeWindow { width: INITIAL_WIDTH, height: INITIAL_HEIGHT },
                );
                assert(requests@ =~= surface_requests(name));
                self.compositor = Some(name);
                self.compositor_surface = true;
                self.egl_surface = true;
                if self.wm_base.is_some() && !self.xdg_surface {
                    let mut more = self.init_xdg_surface();
                    requests.append(&mut more);
                }
            },
            Some(Global::Seat) => {
                requests.push(Request::Bind { name, global: Global::Seat, version: BIND_VERSION });
                assert(requests@ =~= seq![bind(name, Global::Seat)]);
            },
            Some(Global::WmBase) => {
                requests.push(
                    Request::Bind { name, global: Global::WmBase, version: BIND_VERSION },
                );
                assert(requests@ =~= seq![bind(name, Global::WmBase)]);
                self.wm_base = Some(name);
                if self.compositor_surface && !self.xdg_surface {
                    let mut more = self.init_xdg_surface();
                    requests.append(&mut more);
                }
            },
            Some(Global::DecorationManager) => {
                requests.push(
                    Request::Bind {
                        name,
                        global: Global::DecorationManager,
                        version: BIND_VERSION,
                    },
                );
                assert(requests@ =~= seq![bind(name, Global::DecorationManager)]);
                self.decoration_manager = Some(name);
            },
            Some(Global::PointerWarp) => {
                requests.push(
                    Request::Bind { name, global: Global::PointerWarp, version: BIND_VERSION },
                );
                assert(requests@ =~= seq![bind(name, Global::PointerWarp)]);
                self.pointer_warp = Some(name);
            },
            None => {},
        }
        requests
    }
}

} // verus!

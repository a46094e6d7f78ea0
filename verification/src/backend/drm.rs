//! The direct DRM/KMS backend: the choice of an output, the order of its
//! bring-up, the present cycle with its cache of registered framebuffers,
//! and the translation of raw key events.

use std::collections::HashMap;
use vstd::prelude::*;
use crate::backend::{default_video_info, required_address, same_text, Delay, Window};
use crate::egl::{
    EGLError, EGLWindowType, Failure, SetupState, EGL, EGL_PLATFORM_GBM_KHR,
};
use crate::keymap::{
    blank_keys, fill_key_event, key_entries, key_event, keys_after, no_keys_down,
    queue_key_events, KeymapError, Translator, KEYCODE_OFFSET,
};
use crate::type_defs::{
    surface_of, SDL_Event, SDL_Surface, SDL_VideoInfo, SDL_keysym, SDLK_LAST, SDL_KEYDOWN,
    SDL_KEYUP,
};
use crate::xcb::KeyTable;

verus! {

/// The device nodes that are tried are numbered from zero to below this.
pub const CARD_LIMIT: u32 = 255;

/// The colour format of the scanout surface: 32 bits, packed, no alpha.
pub const SCANOUT_FORMAT: u32 = 0x34325258;

/// The uses of the scanout surface: scanout and rendering.
pub const SURFACE_FLAGS: u32 = 5;

/// The colour depth under which a buffer is registered.
pub const FRAMEBUFFER_DEPTH: u32 = 24;

/// The bits per pixel under which a buffer is registered.
pub const FRAMEBUFFER_BPP: u32 = 32;

/// The width and height of the drawable before a mode is set.
pub const INITIAL_WIDTH: i32 = 640;

pub const INITIAL_HEIGHT: i32 = 480;

/// The access modes of an open, and the bits of the flags that hold them.
pub const O_RDONLY: u32 = 0;

pub const O_WRONLY: u32 = 1;

pub const O_RDWR: u32 = 2;

pub const O_ACCMODE: u32 = 3;

/// The access mode that the flags of an open ask for.
pub open spec fn access_mode(flags: i32) -> u32 {
    (flags as u32) & O_ACCMODE
}

/// Whether the flags of an open ask for read access: the mode is
/// read-only, or has the read-write bit.
pub open spec fn reads(flags: i32) -> bool {
    access_mode(flags) == O_RDONLY || access_mode(flags) & O_RDWR != 0
}

/// Whether the flags of an open ask for write access: the mode is
/// write-only, or has the read-write bit.
pub open spec fn writes(flags: i32) -> bool {
    access_mode(flags) == O_WRONLY || access_mode(flags) & O_RDWR != 0
}

/// Each access mode is honoured: read-only gives read access without
/// write access, write-only write access without read access, and
/// read-write both. No other bit of the flags counts.
pub proof fn lemma_access_modes(flags: i32)
    ensures
        access_mode(flags) <= 3,
        access_mode(flags) == O_RDONLY ==> reads(flags) && !writes(flags),
        access_mode(flags) == O_WRONLY ==> !reads(flags) && writes(flags),
        access_mode(flags) == O_RDWR ==> reads(flags) && writes(flags),
        access_mode(flags) == 3 ==> reads(flags) && writes(flags),
{
    let bits = flags as u32;
    assert(bits & 3 <= 3) by (bit_vector);
    assert(0u32 & 2 == 0) by (bit_vector);
    assert(1u32 & 2 == 0) by (bit_vector);
    assert(2u32 & 2 != 0) by (bit_vector);
    assert(3u32 & 2 != 0) by (bit_vector);
}

/// The graphics device node.
pub struct Card {
    pub index: u32,
}

impl Card {
    /// The node to try when `failed` nodes, counted up from zero, did not
    /// open: the next one, and none when all were tried.
    pub fn open_first(failed: u32) -> (next: Option<Card>)
        ensures
            next.is_some() == (failed < CARD_LIMIT),
            next matches Some(card) ==> card.index == failed,
    {
        if failed < CARD_LIMIT {
            Some(Card { index: failed })
        } else {
            None
        }
    }
}

/// The opening of input devices on behalf of the input subsystem.
pub struct InputInterface;

impl InputInterface {
    /// The read and write access with which a device is opened for the
    /// given flags. Of the flags only the access mode counts: read alone
    /// for read-only, write alone for write-only, and both for read-write.
    pub fn open_restricted(flags: i32) -> (access: (bool, bool))
        ensures
            access.0 == reads(flags),
            access.1 == writes(flags),
    {
        let mode = (flags as u32) & O_ACCMODE;
        (mode == O_RDONLY || mode & O_RDWR != 0, mode == O_WRONLY || mode & O_RDWR != 0)
    }
}

/// A display mode: its size in pixels.
#[derive(Debug, Clone, Copy, PartialEq, Eq, Structural)]
pub struct Mode {
    pub width: u16,
    pub height: u16,
}

/// A connector as the device describes it.
pub struct Connector {
    pub handle: u32,
    pub connected: bool,
    pub modes: Vec<Mode>,
}

/// A hardware plane: its handle and the names of its properties, `None`
/// for a property that could not be read.
pub struct Plane {
    pub handle: u32,
    pub properties: Vec<Option<String>>,
}

/// What the device offers: its connectors, `None` for one that could not
/// be queried, its display controllers and its planes.
pub struct Resources {
    pub connectors: Vec<Option<Connector>>,
    pub crtcs: Vec<u32>,
    pub planes: Vec<Plane>,
}

/// The output that is driven.
#[derive(Debug, Clone, Copy, PartialEq, Eq, Structural)]
pub struct Output {
    pub connector: u32,
    pub crtc: u32,
    pub mode: Mode,
    pub plane: u32,
}

/// Why the direct backend cannot go on.
#[derive(Debug, Clone, Copy, PartialEq, Eq, Structural)]
pub enum DrmError {
    /// The step does not follow the one before it.
    OutOfOrder,
    NoConnector,
    NoCrtc,
    NoMode,
    NoPlane,
    /// The bring-up of the graphics context has not finished.
    ContextNotReady,
    /// The bring-up was not made for a buffer-manager device and an opaque
    /// native pointer.
    WrongPlatform,
    NoKeymap,
}

/// The stages of the direct backend.
#[derive(Debug, Clone, Copy, PartialEq, Eq, Structural)]
pub enum Stage {
    Uninitialized,
    DeviceOpened,
    OutputChosen,
    SurfaceCreated,
    ContextBound,
    Presenting,
    Quitting,
    Restored,
}

/// What the direct backend asks its caller to do.
#[derive(Debug, Clone, Copy, PartialEq, Eq, Structural)]
pub enum Request {
    /// Read the connectors, display controllers and planes of the device.
    ReadResources,
    /// Create the buffer-manager device and a surface on it.
    CreateSurface { width: u32, height: u32, format: u32, flags: u32 },
    /// Bring the graphics context up on the surface.
    BindContext { platform: u32, native_display: usize, native_window: EGLWindowType },
    /// Open the input subsystem on the seat `seat_name` gives, build the
    /// keymap of the system's defaults, and report what was built.
    OpenInput,
    /// Save the terminal's attributes.
    ReadTerminal,
    /// Put the terminal into raw mode.
    TerminalRaw,
    /// Drop what the terminal holds unread and unwritten.
    TerminalFlush,
    /// Give the terminal the attributes that were saved.
    TerminalRestore,
    /// Wait for the vertical blank after the current one.
    WaitVblank,
    /// Swap the buffers of the graphics context.
    SwapBuffers { display: usize, surface: usize },
    /// Lock the front buffer of the surface and report its identity.
    LockFrontBuffer,
    /// Register the buffer with the display as a framebuffer.
    AddFramebuffer { buffer: u64, depth: u32, bpp: u32 },
    /// Point the display controller at the framebuffer, at the origin, for
    /// the connector in its first mode.
    SetCrtc { crtc: u32, framebuffer: u32, connector: u32, mode: Mode },
}

/// A key event of an input device: the key and whether it went down (1)
/// or came up (0).
#[derive(Debug, Clone, Copy, PartialEq, Eq, Structural)]
pub struct RawKey {
    pub key: u32,
    pub state: u32,
}

/// Whether a connector can be driven: it could be queried and reports a
/// display.
pub open spec fn usable(connector: Option<Connector>) -> bool {
    match connector {
        Some(c) => c.connected,
        None => false,
    }
}

/// Whether a property could be read and is named "type".
pub open spec fn is_type(property: Option<String>) -> bool {
    match property {
        Some(name) => name@ == "type"@,
        None => false,
    }
}

/// Whether a plane has a property named "type".
pub open spec fn typed(plane: Plane) -> bool {
    exists|k: int| 0 <= k < plane.properties@.len() && is_type(#[trigger] plane.properties@[k])
}

/// Whether `i` is the first connector that can be driven.
pub open spec fn first_usable(connectors: Seq<Option<Connector>>, i: int) -> bool {
    &&& 0 <= i < connectors.len()
    &&& usable(connectors[i])
    &&& forall|j: int| 0 <= j < i ==> !usable(#[trigger] connectors[j])
}

/// Whether `i` is the first plane with a property named "type".
pub open spec fn first_typed(planes: Seq<Plane>, i: int) -> bool {
    &&& 0 <= i < planes.len()
    &&& typed(planes[i])
    &&& forall|j: int| 0 <= j < i ==> !typed(#[trigger] planes[j])
}

/// Whether `output` is the choice among `resources`: the first connector
/// that can be driven in its first mode, the first display controller and
/// the first plane with a property named "type".
pub open spec fn chosen(resources: Resources, output: Output) -> bool {
    exists|c: int, p: int|
        {
            &&& first_usable(resources.connectors@, c)
            &&& first_typed(resources.planes@, p)
            &&& resources.crtcs@.len() > 0
            &&& resources.connectors@[c].unwrap().modes@.len() > 0
            &&& output == Output {
                connector: resources.connectors@[c].unwrap().handle,
                crtc: resources.crtcs@[0],
                mode: resources.connectors@[c].unwrap().modes@[0],
                plane: resources.planes@[p].handle,
            }
        }
}

/// What stands against a choice among `resources`, if anything: no
/// connector that can be driven, else no display controller, else no mode
/// on that connector, else no plane with a property named "type".
pub open spec fn refusal(resources: Resources) -> Option<DrmError> {
    let connectors = resources.connectors@;
    let planes = resources.planes@;
    if forall|i: int| 0 <= i < connectors.len() ==> !usable(#[trigger] connectors[i]) {
        Some(DrmError::NoConnector)
    } else if resources.crtcs@.len() == 0 {
        Some(DrmError::NoCrtc)
    } else if exists|c: int|
        first_usable(connectors, c) && connectors[c].unwrap().modes@.len() == 0 {
        Some(DrmError::NoMode)
    } else if forall|i: int| 0 <= i < planes.len() ==> !typed(#[trigger] planes[i]) {
        Some(DrmError::NoPlane)
    } else {
        None
    }
}

/// Finds the first connector that could be queried and reports a display.
pub fn first_connected(connectors: &Vec<Option<Connector>>) -> (found: Option<usize>)
    ensures
        match found {
            Some(i) => first_usable(connectors@, i as int),
            None => forall|i: int|
                0 <= i < connectors@.len() ==> !usable(#[trigger] connectors@[i]),
        },
{
    let mut i: usize = 0;
    while i < connectors.len()
        invariant
            i <= connectors.len(),
            forall|j: int| 0 <= j < i ==> !usable(#[trigger] connectors@[j]),
        decreases connectors.len() - i,
    {
        match &connectors[i] {
            Some(c) => {
                if c.connected {
                    return Some(i);
                }
            },
            None => {},
        }
        i += 1;
    }
    None
}

/// Whether the plane has a property named "type".
pub fn has_type_property(plane: &Plane) -> (found: bool)
    ensures
        found == typed(*plane),
{
    let mut k: usize = 0;
    while k < plane.properties.len()
        invariant
            k <= plane.properties.len(),
            forall|j: int| 0 <= j < k ==> !is_type(#[trigger] plane.properties@[j]),
        decreases plane.properties.len() - k,
    {
        match &plane.properties[k] {
            Some(name) => {
                if same_text(name.as_str(), "type") {
                    return true;
                }
            },
            None => {},
        }
        k += 1;
    }
    false
}

/// Finds the first plane with a property named "type".
pub fn first_typed_plane(planes: &Vec<Plane>) -> (found: Option<usize>)
    ensures
        match found {
            Some(i) => first_typed(planes@, i as int),
            None => forall|i: int| 0 <= i < planes@.len() ==> !typed(#[trigger] planes@[i]),
        },
{
    let mut i: usize = 0;
    while i < planes.len()
        invariant
            i <= planes.len(),
            forall|j: int| 0 <= j < i ==> !typed(#[trigger] planes@[j]),
        decreases planes.len() - i,
    {
        if has_type_property(&planes[i]) {
            return Some(i);
        }
        i += 1;
    }
    None
}

/// Chooses the output among what the device offers: the first connected
/// connector, its first mode, the first display controller and the first
/// plane with a property named "type".
pub fn choose_output(resources: &Resources) -> (r: Result<Output, DrmError>)
    ensures
        match r {
            Ok(output) => chosen(*resources, output) && refusal(*resources).is_none(),
            Err(e) => refusal(*resources) == Some(e),
        },
{
    let connector = match first_connected(&resources.connectors) {
        Some(c) => c,
        None => {
            return Err(DrmError::NoConnector);
        },
    };
    if resources.crtcs.len() == 0 {
        return Err(DrmError::NoCrtc);
    }
    let found = match &resources.connectors[connector] {
        Some(c) => c,
        None => {
            return Err(DrmError::NoConnector);
        },
    };
    if found.modes.len() == 0 {
        return Err(DrmError::NoMode);
    }
    let plane = match first_typed_plane(&resources.planes) {
        Some(p) => p,
        None => {
            return Err(DrmError::NoPlane);
        },
    };
    let output = Output {
        connector: found.handle,
        crtc: resources.crtcs[0],
        mode: found.modes[0],
        plane: resources.planes[plane].handle,
    };
    Ok(output)
}

/// The state of the direct backend as a mathematical value.
pub struct DrmState {
    pub stage: Stage,
    pub fake_surface: SDL_Surface,
    pub keys: Seq<u8>,
    pub table: Seq<(u32, u32)>,
    pub translator: Option<Translator>,
    /// The translated key events that wait for a poll, the latest last.
    pub pending_keys: Seq<(u32, SDL_keysym)>,
    /// The framebuffer under which each buffer is registered.
    pub framebuffers: Map<u64, u32>,
    pub output: Option<Output>,
    /// The bring-up that bound the graphics context.
    pub egl: Option<SetupState>,
    /// The drawable of the graphics context.
    pub surface: usize,
    /// The display of the graphics context.
    pub display: usize,
}

/// What holds of every state of the backend: the key state table has an
/// entry for every key code; from the choice of the output until the
/// backend quits the output is held; a context is bound only on an output
/// that was chosen, and is bound while the backend presents; and a bound
/// context has a bring-up that is ready and whose display and drawable are
/// the ones held.
pub open spec fn consistent(s: DrmState) -> bool {
    &&& s.keys.len() == SDLK_LAST
    &&& (s.stage == Stage::OutputChosen || s.stage == Stage::SurfaceCreated || bound(s.stage)
        ==> s.output.is_some())
    &&& (bound(s.stage) ==> s.egl.is_some())
    &&& (s.egl.is_some() ==> s.output.is_some())
    &&& (s.egl matches Some(egl) ==> egl.stage == crate::egl::Stage::Ready && egl.display
        == s.display && egl.surface == s.surface)
}

/// Whether the backend stands where the graphics context is bound.
pub open spec fn bound(stage: Stage) -> bool {
    stage == Stage::ContextBound || stage == Stage::Presenting
}

/// Whether a bring-up was made for a buffer-manager device and an opaque
/// native pointer.
pub open spec fn for_gbm(egl: SetupState) -> bool {
    egl.platform == EGL_PLATFORM_GBM_KHR && egl.native_window is Pointer
}

/// The backend after the bring-up of the graphics context was reported:
/// a finished one, made for the surface that was created, is taken with
/// its display and drawable, and the input subsystem is opened next.
pub open spec fn context_reported(s: DrmState, egl: SetupState) -> (
    DrmState,
    Result<Request, DrmError>,
) {
    if s.stage != Stage::SurfaceCreated {
        (s, Err(DrmError::OutOfOrder))
    } else if !for_gbm(egl) {
        (s, Err(DrmError::WrongPlatform))
    } else if egl.stage != crate::egl::Stage::Ready {
        (s, Err(DrmError::ContextNotReady))
    } else {
        (
            DrmState {
                stage: Stage::ContextBound,
                egl: Some(egl),
                surface: egl.surface,
                display: egl.display,
                ..s
            },
            Ok(Request::OpenInput),
        )
    }
}

/// The state in which the backend starts.
pub open spec fn initial_state(table: Seq<(u32, u32)>) -> DrmState {
    DrmState {
        stage: Stage::Uninitialized,
        fake_surface: surface_of(INITIAL_WIDTH, INITIAL_HEIGHT),
        keys: no_keys_down(),
        table,
        translator: None,
        pending_keys: Seq::empty(),
        framebuffers: Map::empty(),
        output: None,
        egl: None,
        surface: 0,
        display: 0,
    }
}

/// The request for the scanout surface of an output: as large as its
/// mode, in the packed 32-bit format, for scanout and rendering.
pub open spec fn surface_request(output: Output) -> Request {
    Request::CreateSurface {
        width: output.mode.width as u32,
        height: output.mode.height as u32,
        format: SCANOUT_FORMAT,
        flags: SURFACE_FLAGS,
    }
}

/// The request that points the output's display controller at a
/// framebuffer.
pub open spec fn set_crtc(output: Output, framebuffer: u32) -> Request {
    Request::SetCrtc {
        crtc: output.crtc,
        framebuffer,
        connector: output.connector,
        mode: output.mode,
    }
}

/// A step of the bring-up from `from` to `to`: taken where the backend
/// stands at `from`, and refused as out of order anywhere else.
pub open spec fn advance(s: DrmState, from: Stage, to: DrmState, request: Request) -> (
    DrmState,
    Result<Request, DrmError>,
) {
    if s.stage == from {
        (to, Ok(request))
    } else {
        (s, Err(DrmError::OutOfOrder))
    }
}

/// The backend after the keymap was built, or was not: with a keymap the
/// backend presents, without one it stays where it is.
pub open spec fn with_keymap(s: DrmState, built: Result<Translator, KeymapError>) -> (
    DrmState,
    Result<Request, DrmError>,
) {
    if s.stage != Stage::ContextBound {
        (s, Err(DrmError::OutOfOrder))
    } else {
        match built {
            Ok(translator) => (
                DrmState { stage: Stage::Presenting, translator: Some(translator), ..s },
                Ok(Request::ReadTerminal),
            ),
            Err(_) => (s, Err(DrmError::NoKeymap)),
        }
    }
}

/// What follows the locking of the front buffer: a buffer that is
/// registered is shown under its framebuffer, any other is registered
/// first.
pub open spec fn on_front_buffer(s: DrmState, buffer: u64) -> Result<Request, DrmError> {
    match s.output {
        None => Err(DrmError::OutOfOrder),
        Some(output) => if s.framebuffers.contains_key(buffer) {
            Ok(set_crtc(output, s.framebuffers[buffer]))
        } else {
            Ok(
                Request::AddFramebuffer {
                    buffer,
                    depth: FRAMEBUFFER_DEPTH,
                    bpp: FRAMEBUFFER_BPP,
                },
            )
        },
    }
}

/// The cache after a buffer was registered as `framebuffer`: a buffer that
/// is in the cache keeps the framebuffer it has.
pub open spec fn registered(framebuffers: Map<u64, u32>, buffer: u64, framebuffer: u32) -> Map<
    u64,
    u32,
> {
    if framebuffers.contains_key(buffer) {
        framebuffers
    } else {
        framebuffers.insert(buffer, framebuffer)
    }
}

/// The backend after one raw key event: the events of its symbols are
/// queued and their keys marked. A key that the keymap does not resolve
/// changes nothing.
pub open spec fn after_key(s: DrmState, raw: RawKey) -> DrmState {
    if raw.key > u32::MAX - KEYCODE_OFFSET {
        s
    } else {
        match s.translator {
            None => s,
            Some(translator) => match translator.symbols((raw.key + KEYCODE_OFFSET) as u32) {
                None => s,
                Some(syms) => DrmState {
                    pending_keys: s.pending_keys + key_entries(s.table, raw.state, syms),
                    keys: keys_after(s.keys, s.table, raw.state as u8, syms),
                    ..s
                },
            },
        }
    }
}

/// The backend after a run of raw key events, taken in their order.
pub open spec fn after_keys(s: DrmState, raw: Seq<RawKey>) -> DrmState
    decreases raw.len(),
{
    if raw.len() == 0 {
        s
    } else {
        after_keys(after_key(s, raw[0]), raw.drop_first())
    }
}

/// The direct backend.
pub struct DRMWindow {
    stage: Stage,
    fake_surface: SDL_Surface,
    keys: Vec<u8>,
    table: KeyTable,
    translator: Option<Translator>,
    pending_keys: Vec<(u32, SDL_keysym)>,
    framebuffers: HashMap<u64, u32>,
    output: Option<Output>,
    egl: Option<EGL>,
    surface: usize,
    display: usize,
}

impl View for DRMWindow {
    type V = DrmState;

    closed spec fn view(&self) -> DrmState {
        DrmState {
            stage: self.stage,
            fake_surface: self.fake_surface,
            keys: self.keys@,
            table: self.table@,
            translator: self.translator,
            pending_keys: self.pending_keys@,
            framebuffers: self.framebuffers@,
            output: self.output,
            egl: match self.egl {
                Some(egl) => Some(egl@),
                None => None,
            },
            surface: self.surface,
            display: self.display,
        }
    }
}

impl DRMWindow {
    /// The backend before its bring-up, with the table that translates
    /// keyboard symbols.
    pub fn new(table: KeyTable) -> (window: DRMWindow)
        ensures
            window@ == initial_state(table@),
            consistent(window@),
    {
        DRMWindow {
            stage: Stage::Uninitialized,
            fake_surface: SDL_Surface::new(INITIAL_WIDTH, INITIAL_HEIGHT),
            keys: blank_keys(),
            table,
            translator: None,
            pending_keys: Vec::new(),
            framebuffers: HashMap::new(),
            output: None,
            egl: None,
            surface: 0,
            display: 0,
        }
    }

    /// The name of the seat whose input devices are opened.
    pub fn seat_name() -> (name: &'static str)
        ensures
            name@ == "seat0"@,
    {
        "seat0"
    }

    /// Where the backend stands.
    pub fn stage(&self) -> (stage: Stage)
        ensures
            stage == self@.stage,
    {
        self.stage
    }

    /// The output that was chosen, if one was.
    pub fn output(&self) -> (output: Option<Output>)
        ensures
            output == self@.output,
    {
        self.output
    }

    /// The number of key events that wait for a poll.
    pub fn pending(&self) -> (n: usize)
        ensures
            n == self@.pending_keys.len(),
    {
        self.pending_keys.len()
    }

    /// The device node was opened.
    pub fn device_opened(&mut self) -> (r: Result<Request, DrmError>)
        requires
            consistent(old(self)@),
        ensures
            consistent(final(self)@),
            (final(self)@, r) == advance(
                old(self)@,
                Stage::Uninitialized,
                DrmState { stage: Stage::DeviceOpened, ..old(self)@ },
                Request::ReadResources,
            ),
    {
        match self.stage {
            Stage::Uninitialized => {
                self.stage = Stage::DeviceOpened;
                Ok(Request::ReadResources)
            },
            _ => Err(DrmError::OutOfOrder),
        }
    }

    /// The device's resources were read: the output is chosen among them.
    /// Without a choice the backend stays where it is.
    pub fn output_chosen(&mut self, resources: &Resources) -> (r: Result<Request, DrmError>)
        requires
            consistent(old(self)@),
        ensures
            consistent(final(self)@),
            old(self)@.stage != Stage::DeviceOpened ==> r == Err::<Request, DrmError>(
                DrmError::OutOfOrder,
            ) && final(self)@ == old(self)@,
            old(self)@.stage == Stage::DeviceOpened ==> match refusal(*resources) {
                Some(e) => r == Err::<Request, DrmError>(e) && final(self)@ == old(self)@,
                None => final(self)@.output matches Some(output) && chosen(*resources, output)
                    && r == Ok::<Request, DrmError>(surface_request(output)) && final(self)@
                    == (DrmState {
                    stage: Stage::OutputChosen,
                    output: Some(output),
                    ..old(self)@
                }),
            },
    {
        match self.stage {
            Stage::DeviceOpened => match choose_output(resources) {
                Err(e) => Err(e),
                Ok(output) => {
                    self.stage = Stage::OutputChosen;
                    self.output = Some(output);
                    Ok(
                        Request::CreateSurface {
                            width: output.mode.width as u32,
                            height: output.mode.height as u32,
                            format: SCANOUT_FORMAT,
                            flags: SURFACE_FLAGS,
                        },
                    )
                },
            },
            _ => Err(DrmError::OutOfOrder),
        }
    }

    /// The buffer-manager device and the scanout surface were created:
    /// the graphics context is brought up on them.
    pub fn surface_created(&mut self, device: usize, surface: usize) -> (r: Result<
        Request,
        DrmError,
    >)
        requires
            consistent(old(self)@),
        ensures
            consistent(final(self)@),
            (final(self)@, r) == advance(
                old(self)@,
                Stage::OutputChosen,
                DrmState { stage: Stage::SurfaceCreated, ..old(self)@ },
                Request::BindContext {
                    platform: EGL_PLATFORM_GBM_KHR,
                    native_display: device,
                    native_window: EGLWindowType::Pointer(surface),
                },
            ),
    {
        match self.stage {
            Stage::OutputChosen => {
                self.stage = Stage::SurfaceCreated;
                Ok(
                    Request::BindContext {
                        platform: EGL_PLATFORM_GBM_KHR,
                        native_display: device,
                        native_window: EGLWindowType::Pointer(surface),
                    },
                )
            },
            _ => Err(DrmError::OutOfOrder),
        }
    }

    /// Takes the bring-up of the graphics context on the surface. With it
    /// the context is bound.
    pub fn context_bound(&mut self, egl: EGL) -> (r: Result<Request, DrmError>)
        requires
            consistent(old(self)@),
        ensures
            consistent(final(self)@),
            (final(self)@, r) == context_reported(old(self)@, egl@),
    {
        match self.stage {
            Stage::SurfaceCreated => {
                let for_pointer = match egl.native_window() {
                    EGLWindowType::Window(_) => false,
                    EGLWindowType::Pointer(_) => true,
                };
                if egl.platform() != EGL_PLATFORM_GBM_KHR || !for_pointer {
                    return Err(DrmError::WrongPlatform);
                }
                if !egl.is_ready() {
                    return Err(DrmError::ContextNotReady);
                }
                self.stage = Stage::ContextBound;
                self.surface = egl.surface();
                self.display = egl.display();
                self.egl = Some(egl);
                Ok(Request::OpenInput)
            },
            _ => Err(DrmError::OutOfOrder),
        }
    }

    /// The input subsystem was opened and the keymap of the system's
    /// defaults was built, or was not. With a keymap the backend
    /// presents.
    pub fn keymap_built(&mut self, built: Result<Translator, KeymapError>) -> (r: Result<
        Request,
        DrmError,
    >)
        requires
            consistent(old(self)@),
        ensures
            consistent(final(self)@),
            (final(self)@, r) == with_keymap(old(self)@, built),
    {
        match self.stage {
            Stage::ContextBound => match built {
                Ok(translator) => {
                    self.stage = Stage::Presenting;
                    self.translator = Some(translator);
                    Ok(Request::ReadTerminal)
                },
                Err(_) => Err(DrmError::NoKeymap),
            },
            _ => Err(DrmError::OutOfOrder),
        }
    }

    /// The terminal has the attributes it had before the backend started.
    pub fn restored(&mut self) -> (r: Result<(), DrmError>)
        requires
            consistent(old(self)@),
        ensures
            consistent(final(self)@),
            old(self)@.stage == Stage::Quitting ==> r.is_ok() && final(self)@ == (DrmState {
                stage: Stage::Restored,
                ..old(self)@
            }),
            old(self)@.stage != Stage::Quitting ==> r == Err::<(), DrmError>(DrmError::OutOfOrder)
                && final(self)@ == old(self)@,
    {
        match self.stage {
            Stage::Quitting => {
                self.stage = Stage::Restored;
                Ok(())
            },
            _ => Err(DrmError::OutOfOrder),
        }
    }

    /// The front buffer was locked and is `buffer`: says whether it is
    /// shown under the framebuffer it has or must be registered first.
    pub fn front_buffer_locked(&self, buffer: u64) -> (r: Result<Request, DrmError>)
        ensures
            r == on_front_buffer(self@, buffer),
    {
        broadcast use vstd::std_specs::hash::group_hash_axioms;

        match self.output {
            None => Err(DrmError::OutOfOrder),
            Some(output) => match self.framebuffers.get(&buffer) {
                Some(framebuffer) => Ok(
                    Request::SetCrtc {
                        crtc: output.crtc,
                        framebuffer: *framebuffer,
                        connector: output.connector,
                        mode: output.mode,
                    },
                ),
                None => Ok(
                    Request::AddFramebuffer {
                        buffer,
                        depth: FRAMEBUFFER_DEPTH,
                        bpp: FRAMEBUFFER_BPP,
                    },
                ),
            },
        }
    }

    /// The display registered `buffer` as `framebuffer`: the cache takes
    /// it, unless the buffer is in it, and the buffer is shown under the
    /// framebuffer that the cache holds for it.
    pub fn framebuffer_added(&mut self, buffer: u64, framebuffer: u32) -> (r: Result<
        Request,
        DrmError,
    >)
        requires
            consistent(old(self)@),
        ensures
            consistent(final(self)@),
            final(self)@ == (DrmState {
                framebuffers: registered(old(self)@.framebuffers, buffer, framebuffer),
                ..old(self)@
            }),
            r == on_front_buffer(final(self)@, buffer),
            old(self)@.output.is_some() ==> r.is_ok(),
    {
        broadcast use vstd::std_specs::hash::group_hash_axioms;

        if !self.framebuffers.contains_key(&buffer) {
            self.framebuffers.insert(buffer, framebuffer);
        }
        assert(self.framebuffers@ =~= registered(old(self)@.framebuffers, buffer, framebuffer));
        self.front_buffer_locked(buffer)
    }

    /// Takes one raw key event of an input device.
    pub fn handle_key(&mut self, raw: RawKey)
        requires
            consistent(old(self)@),
        ensures
            consistent(final(self)@),
            final(self)@ == after_key(old(self)@, raw),
    {
        if raw.key > u32::MAX - KEYCODE_OFFSET {
            return ;
        }
        let keycode = raw.key + KEYCODE_OFFSET;
        let syms = match &self.translator {
            None => None,
            Some(translator) => translator.key_symbols(keycode),
        };
        match syms {
            None => {},
            Some(syms) => {
                queue_key_events(
                    &mut self.pending_keys,
                    &mut self.keys,
                    &self.table,
                    &syms,
                    raw.state,
                );
            },
        }
    }

    /// Takes the key events that one pump of the input subsystem gave, in
    /// their order.
    pub fn handle_libinput(&mut self, raw: &Vec<RawKey>)
        requires
            consistent(old(self)@),
        ensures
            consistent(final(self)@),
            final(self)@ == after_keys(old(self)@, raw@),
    {
        let mut i: usize = 0;
        assert(raw@.subrange(0, raw@.len() as int) =~= raw@);
        while i < raw.len()
            invariant
                i <= raw.len(),
                consistent(self@),
                after_keys(old(self)@, raw@) == after_keys(
                    self@,
                    raw@.subrange(i as int, raw@.len() as int),
                ),
            decreases raw.len() - i,
        {
            let ghost rest = raw@.subrange(i as int, raw@.len() as int);
            assert(rest[0] == raw@[i as int]);
            assert(rest.drop_first() =~= raw@.subrange(i as int + 1, raw@.len() as int));
            self.handle_key(raw[i]);
            i += 1;
        }
    }
}


/// What a poll does: with a key event waiting, the one queued last is
/// taken off and written into the record, and 1 returned; with none, 0 is
/// returned and nothing changes.
pub open spec fn polled(s: DrmState, event: SDL_Event) -> (DrmState, SDL_Event, i32) {
    if s.pending_keys.len() >= 1 {
        (
            DrmState { pending_keys: s.pending_keys.drop_last(), ..s },
            key_event(event, s.pending_keys.last()),
            1,
        )
    } else {
        (s, event, 0)
    }
}

impl Window for DRMWindow {
    type Request = Request;

    open spec fn valid(&self) -> bool {
        consistent(self@)
    }

    open spec fn drawable_known(&self) -> bool {
        self@.egl.is_some()
    }

    open spec fn key_states(&self) -> Seq<u8> {
        self@.keys
    }

    /// Starts the window: the terminal goes into raw mode.
    fn init(&mut self, flags: u32) -> (r: (i32, Vec<Request>))
        ensures
            final(self)@ == old(self)@,
            r.1@ == seq![Request::TerminalRaw],
    {
        let requests = vec![Request::TerminalRaw];
        assert(requests@ =~= seq![Request::TerminalRaw]);
        (0, requests)
    }

    /// Ends the window: the terminal is flushed and gets back the
    /// attributes it had.
    fn quit(&mut self) -> (requests: Vec<Request>)
        ensures
            final(self)@ == (DrmState { stage: Stage::Quitting, ..old(self)@ }),
            requests@ == seq![Request::TerminalFlush, Request::TerminalRestore],
    {
        self.stage = Stage::Quitting;
        let requests = vec![Request::TerminalFlush, Request::TerminalRestore];
        assert(requests@ =~= seq![Request::TerminalFlush, Request::TerminalRestore]);
        requests
    }

    fn get_error(&mut self) -> (text: Option<&'static str>) {
        None
    }

    fn get_key_state(&self) -> (keys: &Vec<u8>) {
        &self.keys
    }

    fn egl(&self) -> (egl: &Option<EGL>)
        ensures
            egl matches Some(e) ==> Some(e@) == self@.egl,
    {
        &self.egl
    }

    fn wait_for_egl(&self) -> (over: bool) {
        self.egl.is_some()
    }

    /// There is no pointer on this path: no button is down and the
    /// position is the origin.
    fn get_mouse_state(&self) -> (r: (u8, i32, i32))
        ensures
            r == (0u8, 0i32, 0i32),
    {
        (0, 0, 0)
    }

    fn egl_display(&self) -> (display: usize)
        ensures
            display == self@.display,
    {
        self.display
    }

    fn egl_surface(&self) -> (surface: usize)
        ensures
            surface == self@.surface,
    {
        self.surface
    }

    /// No attribute is kept: 0 is returned.
    fn gl_get_attribute(&mut self, attr: u32) -> (value: i32)
        ensures
            value == 0,
    {
        0
    }

    /// No attribute is kept: nothing changes.
    fn gl_set_attribute(&mut self, attr: u32, value: i32) -> (r: i32)
        ensures
            *final(self) == *old(self),
    {
        0
    }

    /// A drawing function that the lookup does not find is fatal.
    fn gl_get_proc_address(&mut self, looked_up: Result<Option<usize>, EGLError>) -> (address:
        Result<usize, Failure>)
        ensures
            address == required_address(looked_up),
    {
        match looked_up {
            Ok(Some(a)) => Ok(a),
            _ => Err(Failure::MissingEntry),
        }
    }

    /// Begins the present cycle: wait for the vertical blank, swap the
    /// buffers, lock the front buffer. What follows is decided when the
    /// buffer is known.
    fn gl_swap_buffers(&mut self) -> (requests: Vec<Request>)
        ensures
            *final(self) == *old(self),
            requests@ == seq![
                Request::WaitVblank,
                Request::SwapBuffers { display: old(self)@.display, surface: old(self)@.surface },
                Request::LockFrontBuffer,
            ],
    {
        let requests = vec![
            Request::WaitVblank,
            Request::SwapBuffers { display: self.display, surface: self.surface },
            Request::LockFrontBuffer,
        ];
        assert(requests@ =~= seq![
            Request::WaitVblank,
            Request::SwapBuffers { display: self.display, surface: self.surface },
            Request::LockFrontBuffer,
        ]);
        requests
    }

    fn poll_event(&mut self, event: &mut SDL_Event) -> (r: i32)
        ensures
            (final(self)@, *final(event), r) == polled(old(self)@, *old(event)),
    {
        match self.pending_keys.pop() {
            Some(entry) => {
                fill_key_event(event, entry);
                assert(self.pending_keys@ =~= old(self)@.pending_keys.drop_last());
                1
            },
            None => 0,
        }
    }

    /// The mode of the display is not changed: the descriptor is handed
    /// back as it is.
    fn set_video_mode(&mut self, width: i32, height: i32, bpp: i32, flags: u32) -> (r: (
        SDL_Surface,
        Vec<Request>,
    ))
        ensures
            *final(self) == *old(self),
            r.0 == old(self)@.fake_surface,
            r.1@ == Seq::<Request>::empty(),
    {
        (self.fake_surface, Vec::new())
    }

    fn show_cursor(&mut self, toggle: i32) -> (r: i32) {
        0
    }

    /// There is no pointer to move.
    fn warp_mouse(&mut self, x: u16, y: u16) -> (requests: Vec<Request>)
        ensures
            requests@ == Seq::<Request>::empty(),
    {
        Vec::new()
    }

    /// There is no caption to set.
    fn wm_set_caption(&mut self, title: &str, icon: &str) -> (requests: Vec<Request>)
        ensures
            requests@ == Seq::<Request>::empty(),
    {
        Vec::new()
    }

    /// The delay is waited out on the clock alone.
    fn delay(&mut self, ms: u32, elapsed_ms: u128) -> (next: Delay)
        ensures
            next == (if elapsed_ms > ms {
                Delay::Done
            } else {
                Delay::Spin
            }),
    {
        if elapsed_ms > ms as u128 {
            Delay::Done
        } else {
            Delay::Spin
        }
    }

    fn get_video_info(&mut self) -> (info: SDL_VideoInfo)
        ensures
            info == default_video_info(),
    {
        SDL_VideoInfo { capabilities: 255, blit_fill: 255, video_mem: 512000 }
    }
}

/// How often a run of presentations of `buffer` registers it, where
/// `offered[i]` is the framebuffer that a registration at the i-th of them
/// would give.
pub open spec fn registrations(framebuffers: Map<u64, u32>, buffer: u64, offered: Seq<u32>) -> nat
    decreases offered.len(),
{
    if offered.len() == 0 {
        0
    } else {
        let first: nat = if framebuffers.contains_key(buffer) {
            0
        } else {
            1
        };
        first + registrations(
            registered(framebuffers, buffer, offered[0]),
            buffer,
            offered.drop_first(),
        )
    }
}

/// The framebuffers that a run of presentations of `buffer` shows, one for
/// each presentation.
pub open spec fn shown(framebuffers: Map<u64, u32>, buffer: u64, offered: Seq<u32>) -> Seq<u32>
    decreases offered.len(),
{
    if offered.len() == 0 {
        Seq::empty()
    } else {
        seq![registered(framebuffers, buffer, offered[0])[buffer]] + shown(
            registered(framebuffers, buffer, offered[0]),
            buffer,
            offered.drop_first(),
        )
    }
}

/// A buffer is registered at most once. Presenting one buffer any number
/// of times, at least once, registers it exactly once where the cache did
/// not hold it and never where it did, and every presentation shows the
/// same framebuffer: the one of that registration, or the one the cache
/// held.
pub proof fn lemma_registered_once(framebuffers: Map<u64, u32>, buffer: u64, offered: Seq<u32>)
    requires
        offered.len() >= 1,
    ensures
        registrations(framebuffers, buffer, offered) == (if framebuffers.contains_key(buffer) {
            0nat
        } else {
            1nat
        }),
        shown(framebuffers, buffer, offered).len() == offered.len(),
        forall|i: int|
            0 <= i < offered.len() ==> #[trigger] shown(framebuffers, buffer, offered)[i] == (
            if framebuffers.contains_key(buffer) {
                framebuffers[buffer]
            } else {
                offered[0]
            }),
    decreases offered.len(),
{
    let next = registered(framebuffers, buffer, offered[0]);
    let rest = offered.drop_first();
    assert(next.contains_key(buffer));
    if rest.len() >= 1 {
        lemma_registered_once(next, buffer, rest);
        assert forall|i: int| 0 <= i < offered.len() implies #[trigger] shown(
            framebuffers,
            buffer,
            offered,
        )[i] == (if framebuffers.contains_key(buffer) {
            framebuffers[buffer]
        } else {
            offered[0]
        }) by {
            if i > 0 {
                assert(shown(framebuffers, buffer, offered)[i] == shown(next, buffer, rest)[i - 1]);
            }
        }
    } else {
        assert(registrations(next, buffer, rest) == 0);
        assert(shown(next, buffer, rest).len() == 0);
    }
}


/// The drawable comes before the graphics context. The bring-up of the
/// context is asked for only in answer to the creation of the surface,
/// and on that surface; and a bring-up is taken as the backend's context
/// only where the backend stands at the created surface.
pub proof fn lemma_surface_before_context(
    s: DrmState,
    device: usize,
    surface: usize,
    egl: SetupState,
)
    requires
        consistent(s),
    ensures
        context_reported(s, egl).1.is_ok() ==> s.stage == Stage::SurfaceCreated,
        context_reported(s, egl).0.egl.is_some() && s.egl.is_none() ==> s.stage
            == Stage::SurfaceCreated && egl.stage == crate::egl::Stage::Ready,
        advance(
            s,
            Stage::OutputChosen,
            DrmState { stage: Stage::SurfaceCreated, ..s },
            Request::BindContext {
                platform: EGL_PLATFORM_GBM_KHR,
                native_display: device,
                native_window: EGLWindowType::Pointer(surface),
            },
        ).1.is_ok() ==> s.stage == Stage::OutputChosen && s.output.is_some(),
{
}

} // verus!

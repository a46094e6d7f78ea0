//! The graphics-context layer: result codes, the attribute lists of the
//! bring-up, and the bring-up sequence itself as a step function.

use vstd::prelude::*;

verus! {

/// The boolean "true" of the context API.
pub const EGL_TRUE: u32 = 1;

/// The boolean "false" of the context API.
pub const EGL_FALSE: u32 = 0;

pub const EGL_SUCCESS: u32 = 0x3000;

pub const EGL_NOT_INITIALIZED: u32 = 0x3001;

pub const EGL_BAD_ACCESS: u32 = 0x3002;

pub const EGL_BAD_ALLOC: u32 = 0x3003;

pub const EGL_BAD_ATTRIBUTE: u32 = 0x3004;

pub const EGL_BAD_CONFIG: u32 = 0x3005;

pub const EGL_BAD_CONTEXT: u32 = 0x3006;

pub const EGL_BAD_CURRENT_SURFACE: u32 = 0x3007;

pub const EGL_BAD_DISPLAY: u32 = 0x3008;

pub const EGL_BAD_MATCH: u32 = 0x3009;

pub const EGL_BAD_NATIVE_PIXMAP: u32 = 0x300A;

pub const EGL_BAD_NATIVE_WINDOW: u32 = 0x300B;

pub const EGL_BAD_PARAMETER: u32 = 0x300C;

pub const EGL_BAD_SURFACE: u32 = 0x300D;

pub const EGL_CONTEXT_LOST: u32 = 0x300E;

/// What a call into the context API reports when its entry point was not
/// resolved on this installation.
#[derive(Debug, Clone, Copy, PartialEq, Eq, Structural)]
pub enum EGLError {
    NotFound,
}

impl EGLError {
    /// The text under which the error is shown.
    pub fn message(&self) -> (text: &'static str)
        ensures
            text@ == "EGLError::NotFound"@,
    {
        "EGLError::NotFound"
    }
}

/// The description that belongs to a result code of the context API.
pub open spec fn error_text(code: u32) -> Seq<char> {
    if code == EGL_SUCCESS {
        "No error"@
    } else if code == EGL_NOT_INITIALIZED {
        "EGL not initialized or failed to initialize"@
    } else if code == EGL_BAD_ACCESS {
        "Resource inaccessible"@
    } else if code == EGL_BAD_ALLOC {
        "Cannot allocate resources"@
    } else if code == EGL_BAD_ATTRIBUTE {
        "Unrecognized attribute or attribute value"@
    } else if code == EGL_BAD_CONTEXT {
        "Invalid EGL context"@
    } else if code == EGL_BAD_CONFIG {
        "Invalid EGL frame buffer configuration"@
    } else if code == EGL_BAD_CURRENT_SURFACE {
        "Current surface is no longer valid"@
    } else if code == EGL_BAD_DISPLAY {
        "Invalid EGL display"@
    } else if code == EGL_BAD_SURFACE {
        "Invalid surface"@
    } else if code == EGL_BAD_MATCH {
        "Inconsistent arguments"@
    } else if code == EGL_BAD_PARAMETER {
        "Invalid argument"@
    } else if code == EGL_BAD_NATIVE_PIXMAP {
        "Invalid native pixmap"@
    } else if code == EGL_BAD_NATIVE_WINDOW {
        "Invalid native window"@
    } else if code == EGL_CONTEXT_LOST {
        "Context lost"@
    } else {
        "Unknown"@
    }
}

/// Decodes a result code into its fixed description. Total: a code outside
/// the enumeration reads "Unknown".
pub fn describe_error(code: u32) -> (text: &'static str)
    ensures
        text@ == error_text(code),
{
    if code == EGL_SUCCESS {
        "No error"
    } else if code == EGL_NOT_INITIALIZED {
        "EGL not initialized or failed to initialize"
    } else if code == EGL_BAD_ACCESS {
        "Resource inaccessible"
    } else if code == EGL_BAD_ALLOC {
        "Cannot allocate resources"
    } else if code == EGL_BAD_ATTRIBUTE {
        "Unrecognized attribute or attribute value"
    } else if code == EGL_BAD_CONTEXT {
        "Invalid EGL context"
    } else if code == EGL_BAD_CONFIG {
        "Invalid EGL frame buffer configuration"
    } else if code == EGL_BAD_CURRENT_SURFACE {
        "Current surface is no longer valid"
    } else if code == EGL_BAD_DISPLAY {
        "Invalid EGL display"
    } else if code == EGL_BAD_SURFACE {
        "Invalid surface"
    } else if code == EGL_BAD_MATCH {
        "Inconsistent arguments"
    } else if code == EGL_BAD_PARAMETER {
        "Invalid argument"
    } else if code == EGL_BAD_NATIVE_PIXMAP {
        "Invalid native pixmap"
    } else if code == EGL_BAD_NATIVE_WINDOW {
        "Invalid native window"
    } else if code == EGL_CONTEXT_LOST {
        "Context lost"
    } else {
        "Unknown"
    }
}


/// What a call gives whose entry point was looked up when the library was
/// loaded: the entry point where it was resolved, and the error that
/// stands for a symbol that was not found where it was not.
pub fn entry_point<T>(resolved: Option<T>) -> (entry: Result<T, EGLError>)
    ensures
        match resolved {
            Some(e) => entry == Ok::<T, EGLError>(e),
            None => entry == Err::<T, EGLError>(EGLError::NotFound),
        },
{
    match resolved {
        Some(e) => Ok(e),
        None => Err(EGLError::NotFound),
    }
}

pub const EGL_BUFFER_SIZE: i32 = 0x3020;

pub const EGL_BLUE_SIZE: i32 = 0x3022;

pub const EGL_GREEN_SIZE: i32 = 0x3023;

pub const EGL_RED_SIZE: i32 = 0x3024;

pub const EGL_DEPTH_SIZE: i32 = 0x3025;

pub const EGL_STENCIL_SIZE: i32 = 0x3026;

pub const EGL_NATIVE_VISUAL_ID: i32 = 0x302E;

pub const EGL_SURFACE_TYPE: i32 = 0x3033;

pub const EGL_NONE: i32 = 0x3038;

pub const EGL_RENDERABLE_TYPE: i32 = 0x3040;

pub const EGL_EXTENSIONS: i32 = 0x3055;

pub const EGL_CONTEXT_MAJOR_VERSION: i32 = 0x3098;

pub const EGL_CONTEXT_MINOR_VERSION: i32 = 0x30FB;

pub const EGL_CONTEXT_OPENGL_PROFILE_MASK: i32 = 0x30FD;

pub const EGL_WINDOW_BIT: i32 = 0x0004;

pub const EGL_OPENGL_BIT: i32 = 0x0008;

pub const EGL_CONTEXT_OPENGL_CORE_PROFILE_BIT: i32 = 0x0001;

pub const EGL_DONT_CARE: i32 = -1;

pub const EGL_OPENGL_API: u32 = 0x30A2;

/// The platform kind of a Wayland display.
pub const EGL_PLATFORM_WAYLAND_KHR: u32 = 0x31D8;

/// The platform kind of a buffer-manager device.
pub const EGL_PLATFORM_GBM_KHR: u32 = 0x31D7;

/// What a frame buffer configuration must offer: window surfaces, the
/// desktop rendering API, eight bits per colour channel, buffer and
/// stencil, and any depth.
pub open spec fn config_attribute_list() -> Seq<i32> {
    seq![
        EGL_SURFACE_TYPE,
        EGL_WINDOW_BIT,
        EGL_RENDERABLE_TYPE,
        EGL_OPENGL_BIT,
        EGL_RED_SIZE,
        8i32,
        EGL_GREEN_SIZE,
        8i32,
        EGL_BLUE_SIZE,
        8i32,
        EGL_BUFFER_SIZE,
        8i32,
        EGL_DEPTH_SIZE,
        EGL_DONT_CARE,
        EGL_STENCIL_SIZE,
        8i32,
        EGL_NONE,
    ]
}

/// The context that is asked for: version 1.0 with the core profile.
pub open spec fn context_attribute_list() -> Seq<i32> {
    seq![
        EGL_CONTEXT_MAJOR_VERSION,
        1i32,
        EGL_CONTEXT_MINOR_VERSION,
        0i32,
        EGL_CONTEXT_OPENGL_PROFILE_MASK,
        EGL_CONTEXT_OPENGL_CORE_PROFILE_BIT,
        EGL_NONE,
    ]
}

/// The attribute list handed to the choice of a configuration.
pub fn config_attributes() -> (list: Vec<i32>)
    ensures
        list@ == config_attribute_list(),
{
    let list = vec![
        EGL_SURFACE_TYPE,
        EGL_WINDOW_BIT,
        EGL_RENDERABLE_TYPE,
        EGL_OPENGL_BIT,
        EGL_RED_SIZE,
        8i32,
        EGL_GREEN_SIZE,
        8i32,
        EGL_BLUE_SIZE,
        8i32,
        EGL_BUFFER_SIZE,
        8i32,
        EGL_DEPTH_SIZE,
        EGL_DONT_CARE,
        EGL_STENCIL_SIZE,
        8i32,
        EGL_NONE,
    ];
    assert(list@ =~= config_attribute_list());
    list
}

/// The attribute list handed to the creation of the context.
pub fn context_attributes() -> (list: Vec<i32>)
    ensures
        list@ == context_attribute_list(),
{
    let list = vec![
        EGL_CONTEXT_MAJOR_VERSION,
        1i32,
        EGL_CONTEXT_MINOR_VERSION,
        0i32,
        EGL_CONTEXT_OPENGL_PROFILE_MASK,
        EGL_CONTEXT_OPENGL_CORE_PROFILE_BIT,
        EGL_NONE,
    ];
    assert(list@ =~= context_attribute_list());
    list
}


/// The drawable target of the bring-up: a native window handle, or an
/// opaque native pointer where the platform has no window type. Either is
/// held as the address it stands for.
#[derive(Debug, Clone, Copy, PartialEq, Eq, Structural)]
pub enum EGLWindowType {
    Window(usize),
    Pointer(usize),
}

/// The step of the bring-up at which a call was refused.
#[derive(Debug, Clone, Copy, PartialEq, Eq, Structural)]
pub enum Reason {
    Initialization,
    BindingApi,
    GettingConfigs,
    ChoosingConfig,
    MakingCurrent,
    SwappingBuffers,
}

/// The words that name a refused step.
pub open spec fn reason_text(reason: Reason) -> Seq<char> {
    match reason {
        Reason::Initialization => "Error on initialization"@,
        Reason::BindingApi => "Error on binding API"@,
        Reason::GettingConfigs => "Error getting configs"@,
        Reason::ChoosingConfig => "Error choosing config"@,
        Reason::MakingCurrent => "Error making context current"@,
        Reason::SwappingBuffers => "Error swapping buffers"@,
    }
}

impl Reason {
    /// The words that name the refused step.
    pub fn text(&self) -> (text: &'static str)
        ensures
            text@ == reason_text(*self),
    {
        match self {
            Reason::Initialization => "Error on initialization",
            Reason::BindingApi => "Error on binding API",
            Reason::GettingConfigs => "Error getting configs",
            Reason::ChoosingConfig => "Error choosing config",
            Reason::MakingCurrent => "Error making context current",
            Reason::SwappingBuffers => "Error swapping buffers",
        }
    }
}

/// Why a bring-up cannot go on. Each is fatal: the platform cannot carry
/// the application.
#[derive(Debug, Clone, Copy, PartialEq, Eq, Structural)]
pub enum Failure {
    /// An entry point that the sequence needs was not resolved.
    MissingEntry,
    /// No display could be acquired.
    NullDisplay,
    /// A call reported failure. `described` is the result code read first,
    /// whose description is shown, and `code` the one read after it.
    Rejected { reason: Reason, described: i32, code: i32 },
    /// A count of configurations below zero.
    InvalidCount,
    /// More configurations were reported as matching than were returned.
    ConfigOutOfRange,
    /// No matching configuration gave a drawable.
    NullSurface,
    /// The context made current is not the one that was created.
    ContextNotCurrent,
    /// The reply does not answer the call that was asked for.
    UnexpectedReply,
}

/// A call into the context API.
#[derive(Debug, Clone, Copy, PartialEq, Eq, Structural)]
pub enum Call {
    /// Query a string of the display-less client; `name` says which.
    QueryString { name: i32 },
    /// Acquire the display through the platform extension.
    GetPlatformDisplayExt { platform: u32, native_display: usize },
    /// Acquire the display through the core entry point.
    GetPlatformDisplay { platform: u32, native_display: usize },
    Initialize { display: usize },
    BindApi { api: u32 },
    /// Count the configurations of the display.
    GetConfigs { display: usize },
    /// Choose, by the attribute list of `config_attributes`, at most
    /// `config_size` configurations.
    ChooseConfig { display: usize, config_size: i32 },
    CreateWindowSurface { display: usize, config: usize, window: usize },
    CreatePlatformWindowSurface { display: usize, config: usize, window: usize },
    GetConfigAttrib { display: usize, config: usize, attribute: i32 },
    /// Create a context by the attribute list of `context_attributes`,
    /// sharing with none.
    CreateContext { display: usize, config: usize },
    MakeCurrent { display: usize, draw: usize, read: usize, context: usize },
    GetCurrentContext,
    GetError,
    /// Resolve the drawing API's functions through the proc-address query.
    LoadGl,
}

/// What came back from a call.
#[derive(Debug, PartialEq, Eq)]
pub enum Reply {
    /// The entry point was not resolved.
    NotFound,
    /// A string, which the sequence only shows.
    Text,
    /// A display, a drawable or a context.
    Handle(usize),
    /// The boolean of a call that only succeeds or fails.
    Status(u32),
    /// The number of configurations, with the call's boolean.
    Count { status: u32, count: i32 },
    /// The configuration buffer as the call left it and the number of
    /// configurations it reports as matching, with the call's boolean.
    Configs { status: u32, configs: Vec<usize>, matched: i32 },
    /// The value of an attribute, with the call's boolean.
    Attrib { status: u32, value: i32 },
    /// A result code.
    Code(i32),
    /// The drawing API's functions were resolved.
    Loaded,
}

impl Reply {
    /// The reply of a call that gives a display, a drawable or a context.
    pub fn handle(result: Result<usize, EGLError>) -> (reply: Reply)
        ensures
            match result {
                Ok(h) => reply == Reply::Handle(h),
                Err(_) => reply == Reply::NotFound,
            },
    {
        match result {
            Ok(h) => Reply::Handle(h),
            Err(_) => Reply::NotFound,
        }
    }

    /// The reply of a call that only succeeds or fails.
    pub fn status(result: Result<u32, EGLError>) -> (reply: Reply)
        ensures
            match result {
                Ok(s) => reply == Reply::Status(s),
                Err(_) => reply == Reply::NotFound,
            },
    {
        match result {
            Ok(s) => Reply::Status(s),
            Err(_) => Reply::NotFound,
        }
    }

    /// The reply of a call that reads the result code.
    pub fn code(result: Result<i32, EGLError>) -> (reply: Reply)
        ensures
            match result {
                Ok(c) => reply == Reply::Code(c),
                Err(_) => reply == Reply::NotFound,
            },
    {
        match result {
            Ok(c) => Reply::Code(c),
            Err(_) => Reply::NotFound,
        }
    }
}

/// What the bring-up wants next.
#[derive(Debug, Clone, Copy, PartialEq, Eq, Structural)]
pub enum Step {
    /// Make this call and hand its reply back.
    Call(Call),
    /// The context is current on `surface` of `display`.
    Finished { surface: usize, display: usize },
    /// The bring-up ended without a context.
    Failed(Failure),
}

/// Where a bring-up stands: the call whose reply it waits for.
#[derive(Debug, Clone, Copy, PartialEq, Eq, Structural)]
pub enum Stage {
    Idle,
    Extensions,
    DisplayExt,
    Display,
    Initialize,
    BindApi,
    GetConfigs,
    ChooseConfig,
    CreateSurface,
    VisualId,
    CreateContext,
    MakeCurrent,
    CurrentContext,
    LoadGl,
    /// A call was refused; the result code to describe is being read.
    ErrorText(Reason),
    /// The result code to show is being read.
    ErrorCode(Reason, i32),
    Ready,
    Failed,
}

/// The state of a bring-up as a mathematical value.
pub struct SetupState {
    pub stage: Stage,
    pub platform: u32,
    pub native_display: usize,
    pub native_window: EGLWindowType,
    /// What the platform extension gave as display, if it was there.
    pub display_ext: Option<usize>,
    pub display: usize,
    pub configs: Seq<usize>,
    pub matched: i32,
    /// The index of the configuration that is tried, or was taken.
    pub candidate: usize,
    pub surface: usize,
    pub context: usize,
}

/// The state before anything was asked for.
pub open spec fn idle_state() -> SetupState {
    SetupState {
        stage: Stage::Idle,
        platform: 0,
        native_display: 0,
        native_window: EGLWindowType::Pointer(0),
        display_ext: None,
        display: 0,
        configs: Seq::empty(),
        matched: 0,
        candidate: 0,
        surface: 0,
        context: 0,
    }
}

/// The state in which a bring-up for the given platform starts.
pub open spec fn start_state(
    platform: u32,
    native_display: usize,
    native_window: EGLWindowType,
) -> SetupState {
    SetupState {
        stage: Stage::Extensions,
        platform,
        native_display,
        native_window,
        ..idle_state()
    }
}

/// The bring-up ends in failure `f`.
pub open spec fn fail(s: SetupState, f: Failure) -> (SetupState, Step) {
    (SetupState { stage: Stage::Failed, ..s }, Step::Failed(f))
}

/// The bring-up asks for `c` and waits at `stage`.
pub open spec fn ask(s: SetupState, stage: Stage, c: Call) -> (SetupState, Step) {
    (SetupState { stage, ..s }, Step::Call(c))
}

/// The call that creates a drawable of `config` on the target `window`.
pub open spec fn create_surface_call(window: EGLWindowType, display: usize, config: usize) -> Call {
    match window {
        EGLWindowType::Window(w) => Call::CreateWindowSurface { display, config, window: w },
        EGLWindowType::Pointer(p) => Call::CreatePlatformWindowSurface {
            display,
            config,
            window: p,
        },
    }
}

/// Tries the configuration at `s.candidate`: there is none left to try, or
/// a drawable is asked of it.
pub open spec fn try_candidate(s: SetupState) -> (SetupState, Step) {
    if s.candidate >= s.matched {
        fail(s, Failure::NullSurface)
    } else if s.candidate >= s.configs.len() {
        fail(s, Failure::ConfigOutOfRange)
    } else {
        ask(
            s,
            Stage::CreateSurface,
            create_surface_call(s.native_window, s.display, s.configs[s.candidate as int]),
        )
    }
}

/// A call that only succeeds or fails came back with `status`: on success
/// the bring-up goes on as `then` says, else it reads the result code.
pub open spec fn on_status(
    s: SetupState,
    status: u32,
    reason: Reason,
    then: (SetupState, Step),
) -> (SetupState, Step) {
    if status == EGL_TRUE {
        then
    } else {
        ask(s, Stage::ErrorText(reason), Call::GetError)
    }
}

/// One step of the bring-up: from the state `s`, which waits for the reply
/// to the call it asked for, and that reply, to the next state and what is
/// wanted next.
pub open spec fn next(s: SetupState, reply: Reply) -> (SetupState, Step) {
    match s.stage {
        Stage::Idle | Stage::Ready | Stage::Failed => (s, Step::Failed(Failure::UnexpectedReply)),
        Stage::Extensions => match reply {
            Reply::NotFound => fail(s, Failure::MissingEntry),
            Reply::Text => ask(
                s,
                Stage::DisplayExt,
                Call::GetPlatformDisplayExt {
                    platform: s.platform,
                    native_display: s.native_display,
                },
            ),
            _ => fail(s, Failure::UnexpectedReply),
        },
        Stage::DisplayExt => match reply {
            Reply::NotFound => ask(
                SetupState { display_ext: None, ..s },
                Stage::Display,
                Call::GetPlatformDisplay { platform: s.platform, native_display: s.native_display },
            ),
            Reply::Handle(h) => ask(
                SetupState { display_ext: Some(h), ..s },
                Stage::Display,
                Call::GetPlatformDisplay { platform: s.platform, native_display: s.native_display },
            ),
            _ => fail(s, Failure::UnexpectedReply),
        },
        Stage::Display => match reply {
            Reply::NotFound => match s.display_ext {
                Some(d) => with_display(s, d),
                None => fail(s, Failure::MissingEntry),
            },
            Reply::Handle(h) => match s.display_ext {
                Some(d) => with_display(s, d),
                None => with_display(s, h),
            },
            _ => fail(s, Failure::UnexpectedReply),
        },
        Stage::Initialize => match reply {
            Reply::NotFound => fail(s, Failure::MissingEntry),
            Reply::Status(status) => on_status(
                s,
                status,
                Reason::Initialization,
                ask(s, Stage::BindApi, Call::BindApi { api: EGL_OPENGL_API }),
            ),
            _ => fail(s, Failure::UnexpectedReply),
        },
        Stage::BindApi => match reply {
            Reply::NotFound => fail(s, Failure::MissingEntry),
            Reply::Status(status) => on_status(
                s,
                status,
                Reason::BindingApi,
                ask(s, Stage::GetConfigs, Call::GetConfigs { display: s.display }),
            ),
            _ => fail(s, Failure::UnexpectedReply),
        },
        Stage::GetConfigs => match reply {
            Reply::NotFound => fail(s, Failure::MissingEntry),
            Reply::Count { status, count } => on_status(
                s,
                status,
                Reason::GettingConfigs,
                if count < 0 {
                    fail(s, Failure::InvalidCount)
                } else {
                    ask(
                        s,
                        Stage::ChooseConfig,
                        Call::ChooseConfig { display: s.display, config_size: count },
                    )
                },
            ),
            _ => fail(s, Failure::UnexpectedReply),
        },
        Stage::ChooseConfig => match reply {
            Reply::NotFound => fail(s, Failure::MissingEntry),
            Reply::Configs { status, configs, matched } => on_status(
                s,
                status,
                Reason::ChoosingConfig,
                if matched < 0 {
                    fail(s, Failure::InvalidCount)
                } else {
                    try_candidate(SetupState { configs: configs@, matched, candidate: 0, ..s })
                },
            ),
            _ => fail(s, Failure::UnexpectedReply),
        },
        Stage::CreateSurface => match reply {
            Reply::NotFound => fail(s, Failure::MissingEntry),
            Reply::Handle(h) => if s.candidate >= s.configs.len() {
                fail(s, Failure::ConfigOutOfRange)
            } else if h != 0 {
                ask(
                    SetupState { surface: h, ..s },
                    Stage::CreateContext,
                    Call::CreateContext {
                        display: s.display,
                        config: s.configs[s.candidate as int],
                    },
                )
            } else {
                ask(
                    s,
                    Stage::VisualId,
                    Call::GetConfigAttrib {
                        display: s.display,
                        config: s.configs[s.candidate as int],
                        attribute: EGL_NATIVE_VISUAL_ID,
                    },
                )
            },
            _ => fail(s, Failure::UnexpectedReply),
        },
        Stage::VisualId => match reply {
            Reply::NotFound => fail(s, Failure::MissingEntry),
            Reply::Attrib { status, value } => if s.candidate >= s.configs.len() {
                fail(s, Failure::ConfigOutOfRange)
            } else {
                try_candidate(SetupState { candidate: (s.candidate + 1) as usize, ..s })
            },
            _ => fail(s, Failure::UnexpectedReply),
        },
        Stage::CreateContext => match reply {
            Reply::NotFound => fail(s, Failure::MissingEntry),
            Reply::Handle(c) => ask(
                SetupState { context: c, ..s },
                Stage::MakeCurrent,
                Call::MakeCurrent {
                    display: s.display,
                    draw: s.surface,
                    read: s.surface,
                    context: c,
                },
            ),
            _ => fail(s, Failure::UnexpectedReply),
        },
        Stage::MakeCurrent => match reply {
            Reply::NotFound => fail(s, Failure::MissingEntry),
            Reply::Status(status) => on_status(
                s,
                status,
                Reason::MakingCurrent,
                ask(s, Stage::CurrentContext, Call::GetCurrentContext),
            ),
            _ => fail(s, Failure::UnexpectedReply),
        },
        Stage::CurrentContext => match reply {
            Reply::NotFound => fail(s, Failure::MissingEntry),
            Reply::Handle(c) => if c == s.context {
                ask(s, Stage::LoadGl, Call::LoadGl)
            } else {
                fail(s, Failure::ContextNotCurrent)
            },
            _ => fail(s, Failure::UnexpectedReply),
        },
        Stage::LoadGl => match reply {
            Reply::NotFound => fail(s, Failure::MissingEntry),
            Reply::Loaded => (
                SetupState { stage: Stage::Ready, ..s },
                Step::Finished { surface: s.surface, display: s.display },
            ),
            _ => fail(s, Failure::UnexpectedReply),
        },
        Stage::ErrorText(reason) => match reply {
            Reply::NotFound => fail(s, Failure::MissingEntry),
            Reply::Code(described) => ask(s, Stage::ErrorCode(reason, described), Call::GetError),
            _ => fail(s, Failure::UnexpectedReply),
        },
        Stage::ErrorCode(reason, described) => match reply {
            Reply::NotFound => fail(s, Failure::MissingEntry),
            Reply::Code(code) => fail(s, Failure::Rejected { reason, described, code }),
            _ => fail(s, Failure::UnexpectedReply),
        },
    }
}

/// The display `d` was acquired: null ends the bring-up, any other is
/// initialized.
pub open spec fn with_display(s: SetupState, d: usize) -> (SetupState, Step) {
    if d == 0 {
        fail(s, Failure::NullDisplay)
    } else {
        ask(SetupState { display: d, ..s }, Stage::Initialize, Call::Initialize { display: d })
    }
}


/// Whether a call's boolean reports success; where it does not, the
/// failure that carries the step's name and the two result codes read
/// after it.
pub open spec fn status_outcome(reason: Reason, err: u32, described: i32, code: i32) -> Result<
    (),
    Failure,
> {
    if err == EGL_TRUE {
        Ok(())
    } else {
        Err(Failure::Rejected { reason, described, code })
    }
}

/// A bring-up of the graphics context: the session that is led, call by
/// call, from a native display and a drawable target to a current context.
pub struct EGL {
    stage: Stage,
    platform: u32,
    native_display: usize,
    native_window: EGLWindowType,
    display_ext: Option<usize>,
    display: usize,
    configs: Vec<usize>,
    matched: i32,
    candidate: usize,
    surface: usize,
    context: usize,
}

impl View for EGL {
    type V = SetupState;

    closed spec fn view(&self) -> SetupState {
        SetupState {
            stage: self.stage,
            platform: self.platform,
            native_display: self.native_display,
            native_window: self.native_window,
            display_ext: self.display_ext,
            display: self.display,
            configs: self.configs@,
            matched: self.matched,
            candidate: self.candidate,
            surface: self.surface,
            context: self.context,
        }
    }
}

impl EGL {
    /// A session in which nothing was asked for yet.
    pub fn new() -> (egl: EGL)
        ensures
            egl@ == idle_state(),
    {
        EGL {
            stage: Stage::Idle,
            platform: 0,
            native_display: 0,
            native_window: EGLWindowType::Pointer(0),
            display_ext: None,
            display: 0,
            configs: Vec::new(),
            matched: 0,
            candidate: 0,
            surface: 0,
            context: 0,
        }
    }

    /// Starts the bring-up for a platform kind, its native display and the
    /// drawable target. The first call asks which extensions there are.
    pub fn setup(platform: u32, native_display: usize, native_window: EGLWindowType) -> (r: (
        EGL,
        Step,
    ))
        ensures
            r.0@ == start_state(platform, native_display, native_window),
            r.1 == Step::Call(Call::QueryString { name: EGL_EXTENSIONS }),
    {
        let egl = EGL {
            stage: Stage::Extensions,
            platform,
            native_display,
            native_window,
            display_ext: None,
            display: 0,
            configs: Vec::new(),
            matched: 0,
            candidate: 0,
            surface: 0,
            context: 0,
        };
        (egl, Step::Call(Call::QueryString { name: EGL_EXTENSIONS }))
    }

    /// Reads the pending result code, where the entry point for it is
    /// there, as its description.
    pub fn get_error_str(code: Result<i32, EGLError>) -> (text: Result<&'static str, EGLError>)
        ensures
            match code {
                Ok(c) => text matches Ok(t) && t@ == error_text(c as u32),
                Err(e) => text == Err::<&'static str, EGLError>(e),
            },
    {
        match code {
            Ok(c) => Ok(describe_error(c as u32)),
            Err(e) => Err(e),
        }
    }

    /// Tests the boolean of a call: `Ok` where it reports success, else the
    /// failure to end with.
    pub fn panic_on_error(reason: Reason, err: u32, described: i32, code: i32) -> (r: Result<
        (),
        Failure,
    >)
        ensures
            r == status_outcome(reason, err, described, code),
    {
        if err == EGL_TRUE {
            Ok(())
        } else {
            Err(Failure::Rejected { reason, described, code })
        }
    }

    /// The call whose reply the session waits for.
    pub fn stage(&self) -> (stage: Stage)
        ensures
            stage == self@.stage,
    {
        self.stage
    }

    /// The platform kind that the bring-up was started for.
    pub fn platform(&self) -> (platform: u32)
        ensures
            platform == self@.platform,
    {
        self.platform
    }

    /// The drawable target that the bring-up was started for.
    pub fn native_window(&self) -> (window: EGLWindowType)
        ensures
            window == self@.native_window,
    {
        self.native_window
    }

    /// The display, null until one was acquired.
    pub fn display(&self) -> (display: usize)
        ensures
            display == self@.display,
    {
        self.display
    }

    /// The drawable, null until one was created.
    pub fn surface(&self) -> (surface: usize)
        ensures
            surface == self@.surface,
    {
        self.surface
    }

    /// The context, null until one was created.
    pub fn context(&self) -> (context: usize)
        ensures
            context == self@.context,
    {
        self.context
    }

    /// Whether the context is current and the drawing functions resolved.
    pub fn is_ready(&self) -> (ready: bool)
        ensures
            ready == (self@.stage == Stage::Ready),
    {
        match self.stage {
            Stage::Ready => true,
            _ => false,
        }
    }

    fn fail(&mut self, f: Failure) -> (step: Step)
        ensures
            (final(self)@, step) == self::fail(old(self)@, f),
    {
        self.stage = Stage::Failed;
        Step::Failed(f)
    }

    fn ask(&mut self, stage: Stage, c: Call) -> (step: Step)
        ensures
            (final(self)@, step) == self::ask(old(self)@, stage, c),
    {
        self.stage = stage;
        Step::Call(c)
    }

    fn refused(&mut self, reason: Reason) -> (step: Step)
        ensures
            (final(self)@, step) == self::ask(old(self)@, Stage::ErrorText(reason), Call::GetError),
    {
        self.ask(Stage::ErrorText(reason), Call::GetError)
    }

    fn with_display(&mut self, d: usize) -> (step: Step)
        ensures
            (final(self)@, step) == self::with_display(old(self)@, d),
    {
        if d == 0 {
            self.fail(Failure::NullDisplay)
        } else {
            self.display = d;
            self.ask(Stage::Initialize, Call::Initialize { display: d })
        }
    }

    fn try_candidate(&mut self) -> (step: Step)
        ensures
            (final(self)@, step) == self::try_candidate(old(self)@),
    {
        if self.matched < 0 || self.candidate >= self.matched as usize {
            proof {
                assert(self@.candidate >= self@.matched);
            }
            self.fail(Failure::NullSurface)
        } else if self.candidate >= self.configs.len() {
            self.fail(Failure::ConfigOutOfRange)
        } else {
            let config = self.configs[self.candidate];
            let call = match self.native_window {
                EGLWindowType::Window(w) => Call::CreateWindowSurface {
                    display: self.display,
                    config,
                    window: w,
                },
                EGLWindowType::Pointer(p) => Call::CreatePlatformWindowSurface {
                    display: self.display,
                    config,
                    window: p,
                },
            };
            self.ask(Stage::CreateSurface, call)
        }
    }

    /// Takes the reply to the call that was asked for and says what is
    /// wanted next: another call, or the end of the bring-up.
    pub fn resume(&mut self, reply: Reply) -> (step: Step)
        ensures
            (final(self)@, step) == next(old(self)@, reply),
    {
        match self.stage {
            Stage::Idle | Stage::Ready | Stage::Failed => Step::Failed(Failure::UnexpectedReply),
            Stage::Extensions => match reply {
                Reply::NotFound => self.fail(Failure::MissingEntry),
                Reply::Text => {
                    let call = Call::GetPlatformDisplayExt {
                        platform: self.platform,
                        native_display: self.native_display,
                    };
                    self.ask(Stage::DisplayExt, call)
                },
                _ => self.fail(Failure::UnexpectedReply),
            },
            Stage::DisplayExt => {
                let call = Call::GetPlatformDisplay {
                    platform: self.platform,
                    native_display: self.native_display,
                };
                match reply {
                    Reply::NotFound => {
                        self.display_ext = None;
                        self.ask(Stage::Display, call)
                    },
                    Reply::Handle(h) => {
                        self.display_ext = Some(h);
                        self.ask(Stage::Display, call)
                    },
                    _ => self.fail(Failure::UnexpectedReply),
                }
            },
            Stage::Display => match reply {
                Reply::NotFound => match self.display_ext {
                    Some(d) => self.with_display(d),
                    None => self.fail(Failure::MissingEntry),
                },
                Reply::Handle(h) => match self.display_ext {
                    Some(d) => self.with_display(d),
                    None => self.with_display(h),
                },
                _ => self.fail(Failure::UnexpectedReply),
            },
            Stage::Initialize => match reply {
                Reply::NotFound => self.fail(Failure::MissingEntry),
                Reply::Status(status) => if status == EGL_TRUE {
                    self.ask(Stage::BindApi, Call::BindApi { api: EGL_OPENGL_API })
                } else {
                    self.refused(Reason::Initialization)
                },
                _ => self.fail(Failure::UnexpectedReply),
            },
            Stage::BindApi => match reply {
                Reply::NotFound => self.fail(Failure::MissingEntry),
                Reply::Status(status) => if status == EGL_TRUE {
                    let call = Call::GetConfigs { display: self.display };
                    self.ask(Stage::GetConfigs, call)
                } else {
                    self.refused(Reason::BindingApi)
                },
                _ => self.fail(Failure::UnexpectedReply),
            },
            Stage::GetConfigs => match reply {
                Reply::NotFound => self.fail(Failure::MissingEntry),
                Reply::Count { status, count } => if status != EGL_TRUE {
                    self.refused(Reason::GettingConfigs)
                } else if count < 0 {
                    self.fail(Failure::InvalidCount)
                } else {
                    let call = Call::ChooseConfig { display: self.display, config_size: count };
                    self.ask(Stage::ChooseConfig, call)
                },
                _ => self.fail(Failure::UnexpectedReply),
            },
            Stage::ChooseConfig => match reply {
                Reply::NotFound => self.fail(Failure::MissingEntry),
                Reply::Configs { status, configs, matched } => if status != EGL_TRUE {
                    self.refused(Reason::ChoosingConfig)
                } else if matched < 0 {
                    self.fail(Failure::InvalidCount)
                } else {
                    self.configs = configs;
                    self.matched = matched;
                    self.candidate = 0;
                    self.try_candidate()
                },
                _ => self.fail(Failure::UnexpectedReply),
            },
            Stage::CreateSurface => match reply {
                Reply::NotFound => self.fail(Failure::MissingEntry),
                Reply::Handle(h) => if self.candidate >= self.configs.len() {
                    self.fail(Failure::ConfigOutOfRange)
                } else if h != 0 {
                    let call = Call::CreateContext {
                        display: self.display,
                        config: self.configs[self.candidate],
                    };
                    self.surface = h;
                    self.ask(Stage::CreateContext, call)
                } else {
                    let call = Call::GetConfigAttrib {
                        display: self.display,
                        config: self.configs[self.candidate],
                        attribute: EGL_NATIVE_VISUAL_ID,
                    };
                    self.ask(Stage::VisualId, call)
                },
                _ => self.fail(Failure::UnexpectedReply),
            },
            Stage::VisualId => match reply {
                Reply::NotFound => self.fail(Failure::MissingEntry),
                Reply::Attrib { status, value } => if self.candidate >= self.configs.len() {
                    self.fail(Failure::ConfigOutOfRange)
                } else {
                    self.candidate = self.candidate + 1;
                    self.try_candidate()
                },
                _ => self.fail(Failure::UnexpectedReply),
            },
            Stage::CreateContext => match reply {
                Reply::NotFound => self.fail(Failure::MissingEntry),
                Reply::Handle(c) => {
                    let call = Call::MakeCurrent {
                        display: self.display,
                        draw: self.surface,
                        read: self.surface,
                        context: c,
                    };
                    self.context = c;
                    self.ask(Stage::MakeCurrent, call)
                },
                _ => self.fail(Failure::UnexpectedReply),
            },
            Stage::MakeCurrent => match reply {
                Reply::NotFound => self.fail(Failure::MissingEntry),
                Reply::Status(status) => if status == EGL_TRUE {
                    self.ask(Stage::CurrentContext, Call::GetCurrentContext)
                } else {
                    self.refused(Reason::MakingCurrent)
                },
                _ => self.fail(Failure::UnexpectedReply),
            },
            Stage::CurrentContext => match reply {
                Reply::NotFound => self.fail(Failure::MissingEntry),
                Reply::Handle(c) => if c == self.context {
                    self.ask(Stage::LoadGl, Call::LoadGl)
                } else {
                    self.fail(Failure::ContextNotCurrent)
                },
                _ => self.fail(Failure::UnexpectedReply),
            },
            Stage::LoadGl => match reply {
                Reply::NotFound => self.fail(Failure::MissingEntry),
                Reply::Loaded => {
                    self.stage = Stage::Ready;
                    Step::Finished { surface: self.surface, display: self.display }
                },
                _ => self.fail(Failure::UnexpectedReply),
            },
            Stage::ErrorText(reason) => match reply {
                Reply::NotFound => self.fail(Failure::MissingEntry),
                Reply::Code(described) => self.ask(
                    Stage::ErrorCode(reason, described),
                    Call::GetError,
                ),
                _ => self.fail(Failure::UnexpectedReply),
            },
            Stage::ErrorCode(reason, described) => match reply {
                Reply::NotFound => self.fail(Failure::MissingEntry),
                Reply::Code(code) => self.fail(Failure::Rejected { reason, described, code }),
                _ => self.fail(Failure::UnexpectedReply),
            },
        }
    }
}


/// What holds of every state that a bring-up reaches: a display is held
/// once it is initialized, the configuration under trial is one of those
/// returned, and a drawable is held before a context is asked for.
pub open spec fn consistent(s: SetupState) -> bool {
    match s.stage {
        Stage::Idle
        | Stage::Extensions
        | Stage::DisplayExt
        | Stage::Display
        | Stage::Failed => true,
        Stage::Initialize | Stage::BindApi | Stage::GetConfigs | Stage::ChooseConfig => s.display
            != 0,
        Stage::ErrorText(_) | Stage::ErrorCode(_, _) => s.display != 0,
        Stage::CreateSurface | Stage::VisualId => s.display != 0 && s.candidate < s.configs.len()
            && s.candidate < s.matched,
        Stage::CreateContext
        | Stage::MakeCurrent
        | Stage::CurrentContext
        | Stage::LoadGl
        | Stage::Ready => s.display != 0 && s.surface != 0 && s.candidate < s.configs.len(),
    }
}

/// Whether the bring-up has ended, or has not begun.
pub open spec fn at_rest(stage: Stage) -> bool {
    stage == Stage::Idle || stage == Stage::Ready || stage == Stage::Failed
}

/// How far a stage is from the end of the sequence.
pub open spec fn phase(stage: Stage) -> nat {
    match stage {
        Stage::Idle | Stage::Ready | Stage::Failed => 0,
        Stage::ErrorCode(_, _) => 1,
        Stage::ErrorText(_) => 2,
        Stage::LoadGl => 2,
        Stage::CurrentContext => 3,
        Stage::MakeCurrent => 4,
        Stage::CreateContext => 5,
        Stage::CreateSurface | Stage::VisualId => 6,
        Stage::ChooseConfig => 7,
        Stage::GetConfigs => 8,
        Stage::BindApi => 9,
        Stage::Initialize => 10,
        Stage::Display => 11,
        Stage::DisplayExt => 12,
        Stage::Extensions => 13,
    }
}

/// The calls that the trial of configurations can still make.
pub open spec fn trials_left(s: SetupState) -> int {
    match s.stage {
        Stage::CreateSurface => 2 * (s.configs.len() - s.candidate),
        Stage::VisualId => 2 * (s.configs.len() - s.candidate) - 1,
        _ => 0,
    }
}

/// A bring-up starts in a consistent state.
pub proof fn lemma_start_consistent(
    platform: u32,
    native_display: usize,
    native_window: EGLWindowType,
)
    ensures
        consistent(start_state(platform, native_display, native_window)),
        consistent(idle_state()),
{
}

/// Every step leads from a consistent state to a consistent state.
pub proof fn lemma_next_consistent(s: SetupState, reply: Reply)
    requires
        consistent(s),
    ensures
        consistent(next(s, reply).0),
{
}

/// The order of the bring-up: a drawable is created only on a display that
/// was acquired, a context is asked for and made current only once a
/// drawable is held, and the bring-up finishes only with both, right after
/// the drawing functions were resolved.
pub proof fn lemma_drawable_precedes_context(s: SetupState, reply: Reply)
    requires
        consistent(s),
    ensures
        match next(s, reply).1 {
            Step::Call(Call::CreateWindowSurface { display, config, window }) => display != 0,
            Step::Call(Call::CreatePlatformWindowSurface { display, config, window }) => display
                != 0,
            Step::Call(Call::CreateContext { display, config }) => display != 0 && next(
                s,
                reply,
            ).0.surface != 0,
            Step::Call(Call::MakeCurrent { display, draw, read, context }) => display != 0 && draw
                != 0 && read == draw && next(s, reply).0.context == context,
            Step::Finished { surface, display } => surface != 0 && display != 0 && s.stage
                == Stage::LoadGl,
            _ => true,
        },
{
}

/// The bring-up ends: every step from a state that waits for a reply
/// leads nearer to the end of the sequence, or, within the trial of
/// configurations, leaves fewer trials.
pub proof fn lemma_next_progress(s: SetupState, reply: Reply)
    requires
        !at_rest(s.stage),
        s.configs.len() <= usize::MAX,
    ensures
        phase(next(s, reply).0.stage) < phase(s.stage) || (phase(next(s, reply).0.stage) == phase(
            s.stage,
        ) && 0 <= trials_left(next(s, reply).0) < trials_left(s)),
{
}

/// A state at rest stays as it is, whatever is handed to it.
pub proof fn lemma_rest_is_final(s: SetupState, reply: Reply)
    requires
        at_rest(s.stage),
    ensures
        next(s, reply) == (s, Step::Failed(Failure::UnexpectedReply)),
{
}

} // verus!

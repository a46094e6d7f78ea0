//! The backend abstraction: the capability set that both display backends
//! offer, and the choice between them at startup.

use vstd::prelude::*;
use crate::egl::{EGLError, Failure, EGL};
use crate::type_defs::{SDL_Event, SDL_Surface, SDL_VideoInfo, SDLK_LAST};

pub mod drm;
pub mod wayland;

verus! {

/// What the dispatcher decides from the session type.
#[derive(Debug, Clone, Copy, PartialEq, Eq, Structural)]
pub enum Selection {
    /// A desktop session: the Wayland backend.
    Wayland,
    /// A console session, or none named: the direct DRM backend.
    Drm,
    /// An X11 session, which is not supported. Fatal.
    FatalX11,
    /// Any other session type. Fatal.
    FatalUnknown,
}

/// The backend that belongs to a session type, `None` standing for a
/// session type that is not set.
pub open spec fn selection_for(session_type: Option<Seq<char>>) -> Selection {
    match session_type {
        None => Selection::Drm,
        Some(name) => if name == "wayland"@ {
            Selection::Wayland
        } else if name == "tty"@ {
            Selection::Drm
        } else if name == "x11"@ {
            Selection::FatalX11
        } else {
            Selection::FatalUnknown
        },
    }
}

/// Whether two strings hold the same text.
pub fn same_text(a: &str, b: &str) -> (same: bool)
    ensures
        same == (a@ == b@),
{
    let left = a.to_owned();
    let right = b.to_owned();
    left == right
}

/// Chooses the backend for a session type. The choice is total: every
/// value, and the absence of one, has exactly one outcome.
pub fn choose_window(session_type: Option<&str>) -> (selection: Selection)
    ensures
        selection == selection_for(
            match session_type {
                Some(name) => Some(name@),
                None => None,
            },
        ),
{
    match session_type {
        None => Selection::Drm,
        Some(name) => {
            if same_text(name, "wayland") {
                Selection::Wayland
            } else if same_text(name, "tty") {
                Selection::Drm
            } else if same_text(name, "x11") {
                Selection::FatalX11
            } else {
                Selection::FatalUnknown
            }
        },
    }
}

/// The four session types that the dispatcher is made for each have their
/// own outcome: the desktop token the Wayland backend, the console token
/// and the absent type the direct backend, the X11 token the refusal of
/// X11. The outcome for any other text is the refusal of an unknown type.
pub proof fn lemma_selection_total(session_type: Option<Seq<char>>)
    ensures
        selection_for(Some("wayland"@)) == Selection::Wayland,
        selection_for(Some("tty"@)) == Selection::Drm,
        selection_for(Some("x11"@)) == Selection::FatalX11,
        selection_for(None) == Selection::Drm,
        session_type != Some("wayland"@) && session_type != Some("tty"@) && session_type != Some(
            "x11"@,
        ) && session_type.is_some() ==> selection_for(session_type) == Selection::FatalUnknown,
{
    reveal_strlit("wayland");
    reveal_strlit("tty");
    reveal_strlit("x11");
    assert("wayland"@.len() == 7);
    assert("tty"@.len() == 3);
    assert("x11"@.len() == 3);
    assert("tty"@[0] == 't');
    assert("x11"@[0] == 'x');
}

/// An operation of the API that this layer leaves out on purpose. Calling
/// one is fatal.
#[derive(Debug, Clone, Copy, PartialEq, Eq, Structural)]
pub enum Unimplemented {
    JoystickGetAxis,
    JoystickGetButton,
    JoystickName,
    JoystickNumAxes,
    JoystickNumButtons,
    JoystickOpen,
}

/// The name of a left-out operation, as the abort shows it.
pub open spec fn unimplemented_name(operation: Unimplemented) -> Seq<char> {
    match operation {
        Unimplemented::JoystickGetAxis => "joystick_get_axis"@,
        Unimplemented::JoystickGetButton => "joystick_get_button"@,
        Unimplemented::JoystickName => "joystick_name"@,
        Unimplemented::JoystickNumAxes => "joystick_num_axes"@,
        Unimplemented::JoystickNumButtons => "joystick_num_buttons"@,
        Unimplemented::JoystickOpen => "joystick_open"@,
    }
}

impl Unimplemented {
    /// The name of the operation, as the abort shows it.
    pub fn name(&self) -> (name: &'static str)
        ensures
            name@ == unimplemented_name(*self),
    {
        match self {
            Unimplemented::JoystickGetAxis => "joystick_get_axis",
            Unimplemented::JoystickGetButton => "joystick_get_button",
            Unimplemented::JoystickName => "joystick_name",
            Unimplemented::JoystickNumAxes => "joystick_num_axes",
            Unimplemented::JoystickNumButtons => "joystick_num_buttons",
            Unimplemented::JoystickOpen => "joystick_open",
        }
    }
}

/// What a caller that waits out a delay does next.
#[derive(Debug, Clone, Copy, PartialEq, Eq, Structural)]
pub enum Delay {
    /// The delay is over.
    Done,
    /// Look at the clock again.
    Spin,
    /// Pump the event loop, then look at the clock again.
    Pump,
}

/// The video information of a backend that keeps none of its own.
pub open spec fn default_video_info() -> SDL_VideoInfo {
    SDL_VideoInfo { capabilities: 255, blit_fill: 255, video_mem: 512000 }
}

/// The address that a lookup of a drawing function gives where the
/// function must be there: a lookup that found nothing is fatal.
pub open spec fn required_address(looked_up: Result<Option<usize>, EGLError>) -> Result<
    usize,
    Failure,
> {
    match looked_up {
        Ok(Some(address)) => Ok(address),
        _ => Err(Failure::MissingEntry),
    }
}

/// The capability set of a window, which both backends offer. The caller
/// makes the system calls: where a capability needs some, it returns the
/// requests for them.
pub trait Window: Sized {
    /// What this backend asks its caller to do.
    type Request;

    /// The invariant of the backend's state.
    spec fn valid(&self) -> bool;

    /// Whether the drawable is known, so that the graphics context can be
    /// called.
    spec fn drawable_known(&self) -> bool;

    /// The key state table: one entry for every key code.
    spec fn key_states(&self) -> Seq<u8>;

    /// Starts the window. The drawable is known by then: a caller that
    /// has none yet pumps the event loop until it has.
    fn init(&mut self, flags: u32) -> (r: (i32, Vec<Self::Request>))
        requires
            old(self).valid(),
            old(self).drawable_known(),
        ensures
            final(self).valid(),
            final(self).drawable_known(),
            r.0 == 0,
    ;

    /// Ends the window.
    fn quit(&mut self) -> (requests: Vec<Self::Request>)
        requires
            old(self).valid(),
        ensures
            final(self).valid(),
    ;

    /// The pending error text. There never is one.
    fn get_error(&mut self) -> (text: Option<&'static str>)
        requires
            old(self).valid(),
        ensures
            *final(self) == *old(self),
            text.is_none(),
    ;

    /// The key state table. Its length is the number of key codes.
    fn get_key_state(&self) -> (keys: &Vec<u8>)
        requires
            self.valid(),
        ensures
            keys@ == self.key_states(),
            keys@.len() == SDLK_LAST,
    ;

    /// The bring-up that bound the graphics context, once it is bound.
    fn egl(&self) -> (egl: &Option<EGL>)
        requires
            self.valid(),
        ensures
            egl.is_some() == self.drawable_known(),
    ;

    /// Whether the wait for the graphics context is over: the drawable is
    /// known and the context bound.
    fn wait_for_egl(&self) -> (over: bool)
        requires
            self.valid(),
        ensures
            over == self.drawable_known(),
    ;

    /// The buttons that are down and the pointer's position.
    fn get_mouse_state(&self) -> (r: (u8, i32, i32))
        requires
            self.valid(),
        ensures
            r.0 == 0,
    ;

    /// The display of the graphics context.
    fn egl_display(&self) -> (display: usize)
        requires
            self.valid(),
            self.drawable_known(),
    ;

    /// The drawable of the graphics context.
    fn egl_surface(&self) -> (surface: usize)
        requires
            self.valid(),
            self.drawable_known(),
    ;

    /// Reads an attribute of the drawing context.
    fn gl_get_attribute(&mut self, attr: u32) -> (value: i32)
        requires
            old(self).valid(),
        ensures
            *final(self) == *old(self),
    ;

    /// Sets an attribute of the drawing context.
    fn gl_set_attribute(&mut self, attr: u32, value: i32) -> (r: i32)
        requires
            old(self).valid(),
        ensures
            final(self).valid(),
            final(self).drawable_known() == old(self).drawable_known(),
            r == 0,
    ;

    /// The address to hand out for a drawing function, from what its
    /// lookup gave.
    fn gl_get_proc_address(&mut self, looked_up: Result<Option<usize>, EGLError>) -> (address:
        Result<usize, Failure>)
        requires
            old(self).valid(),
            old(self).drawable_known(),
        ensures
            *final(self) == *old(self),
            looked_up matches Ok(Some(a)) ==> address == Ok::<usize, Failure>(a),
            looked_up is Err ==> address == Err::<usize, Failure>(Failure::MissingEntry),
    ;

    /// Presents the frame that was drawn.
    fn gl_swap_buffers(&mut self) -> (requests: Vec<Self::Request>)
        requires
            old(self).valid(),
            old(self).drawable_known(),
        ensures
            final(self).valid(),
            final(self).drawable_known(),
    ;

    /// Fills `event` with one pending event and returns 1, or returns 0
    /// and leaves `event` as it is.
    fn poll_event(&mut self, event: &mut SDL_Event) -> (r: i32)
        requires
            old(self).valid(),
        ensures
            final(self).valid(),
            final(self).drawable_known() == old(self).drawable_known(),
            r == 0 || r == 1,
            r == 0 ==> *final(event) == *old(event),
    ;

    /// Changes the video mode and hands back the drawable descriptor.
    fn set_video_mode(&mut self, width: i32, height: i32, bpp: i32, flags: u32) -> (r: (
        SDL_Surface,
        Vec<Self::Request>,
    ))
        requires
            old(self).valid(),
            old(self).drawable_known(),
        ensures
            final(self).valid(),
            final(self).drawable_known(),
    ;

    /// Shows or hides the cursor. Nothing is done here, and 0 returned.
    fn show_cursor(&mut self, toggle: i32) -> (r: i32)
        requires
            old(self).valid(),
        ensures
            *final(self) == *old(self),
            r == 0,
    ;

    /// Moves the pointer.
    fn warp_mouse(&mut self, x: u16, y: u16) -> (requests: Vec<Self::Request>)
        requires
            old(self).valid(),
        ensures
            *final(self) == *old(self),
    ;

    /// Sets the window's caption.
    fn wm_set_caption(&mut self, title: &str, icon: &str) -> (requests: Vec<Self::Request>)
        requires
            old(self).valid(),
        ensures
            *final(self) == *old(self),
    ;

    /// What to do while `ms` milliseconds are waited out and `elapsed_ms`
    /// of them are over: the wait lasts while no more than `ms` have
    /// elapsed.
    fn delay(&mut self, ms: u32, elapsed_ms: u128) -> (next: Delay)
        requires
            old(self).valid(),
        ensures
            *final(self) == *old(self),
            (next == Delay::Done) == (elapsed_ms > ms),
    ;

    /// What the hardware offers.
    fn get_video_info(&mut self) -> (info: SDL_VideoInfo)
        requires
            old(self).valid(),
        ensures
            *final(self) == *old(self),
    ;

    /// Sets the key repeat. Nothing is done here, and 0 returned.
    fn enable_key_repeat(&mut self, delay: i32, interval: i32) -> (r: i32)
        ensures
            *final(self) == *old(self),
            r == 0,
    {
        0
    }

    /// Switches joystick events. There are no joysticks, and 0 is returned.
    fn joystick_event_state(&mut self, state: i32) -> (r: i32)
        ensures
            *final(self) == *old(self),
            r == 0,
    {
        0
    }

    /// The number of joysticks: none.
    fn num_joysticks(&mut self) -> (r: i32)
        ensures
            *final(self) == *old(self),
            r == 0,
    {
        0
    }

    /// Left out on purpose.
    fn joystick_get_axis(&mut self, joystick: usize, axis: i32) -> (r: Result<i16, Unimplemented>)
        ensures
            *final(self) == *old(self),
            r == Err::<i16, Unimplemented>(Unimplemented::JoystickGetAxis),
    {
        Err(Unimplemented::JoystickGetAxis)
    }

    /// Left out on purpose.
    fn joystick_get_button(&mut self, joystick: usize, button: i32) -> (r: Result<
        u8,
        Unimplemented,
    >)
        ensures
            *final(self) == *old(self),
            r == Err::<u8, Unimplemented>(Unimplemented::JoystickGetButton),
    {
        Err(Unimplemented::JoystickGetButton)
    }

    /// Left out on purpose.
    fn joystick_name(&mut self, index: i32) -> (r: Result<&'static str, Unimplemented>)
        ensures
            *final(self) == *old(self),
            r == Err::<&'static str, Unimplemented>(Unimplemented::JoystickName),
    {
        Err(Unimplemented::JoystickName)
    }

    /// Left out on purpose.
    fn joystick_num_axes(&mut self, joystick: usize) -> (r: Result<i32, Unimplemented>)
        ensures
            *final(self) == *old(self),
            r == Err::<i32, Unimplemented>(Unimplemented::JoystickNumAxes),
    {
        Err(Unimplemented::JoystickNumAxes)
    }

    /// Left out on purpose.
    fn joystick_num_buttons(&mut self, joystick: usize) -> (r: Result<i32, Unimplemented>)
        ensures
            *final(self) == *old(self),
            r == Err::<i32, Unimplemented>(Unimplemented::JoystickNumButtons),
    {
        Err(Unimplemented::JoystickNumButtons)
    }

    /// Left out on purpose.
    fn joystick_open(&mut self, index: i32) -> (r: Result<usize, Unimplemented>)
        ensures
            *final(self) == *old(self),
            r == Err::<usize, Unimplemented>(Unimplemented::JoystickOpen),
    {
        Err(Unimplemented::JoystickOpen)
    }
}

} // verus!

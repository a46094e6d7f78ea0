//! The plain data records of the windowing API: event kinds, the event
//! record, the key symbol record and the drawable descriptor, each with the
//! integer encoding the API documents.

use vstd::prelude::*;

verus! {

/// A key code of the API.
pub type SDLKey = u32;

/// The key code of a symbol the translation table does not know.
pub const SDLK_UNKNOWN: u32 = 0;

/// The number of key codes: the length of the key state table.
pub const SDLK_LAST: u32 = 323;

/// The modifier state "none".
pub const KMOD_NONE: u32 = 0;

/// The scancode every translated key carries.
pub const KEY_SCANCODE: u8 = 25;

pub const SDL_NOEVENT: u8 = 0;

pub const SDL_KEYDOWN: u8 = 2;

pub const SDL_KEYUP: u8 = 3;

pub const SDL_MOUSEMOTION: u8 = 4;

pub const SDL_MOUSEBUTTONDOWN: u8 = 5;

pub const SDL_MOUSEBUTTONUP: u8 = 6;

pub const SDL_QUIT: u8 = 12;

/// A translated key: its scancode, key code, modifiers and character.
#[allow(non_camel_case_types)]
#[derive(Debug, Clone, Copy, PartialEq, Eq, Structural)]
pub struct SDL_keysym {
    pub scancode: u8,
    pub sym: u32,
    pub mod_: u32,
    pub unicode: u16,
}

/// The event record that a poll fills. `type_` says which of the other
/// fields the event uses; a poll leaves the fields it does not write as
/// they were.
#[allow(non_camel_case_types)]
#[derive(Debug, Clone, Copy, PartialEq, Eq, Structural)]
pub struct SDL_Event {
    pub type_: u8,
    pub which: u8,
    pub state: u8,
    pub keysym: SDL_keysym,
    pub button: u8,
    pub x: u16,
    pub y: u16,
    pub xrel: i16,
    pub yrel: i16,
}

/// A rectangle of a drawable.
#[allow(non_camel_case_types)]
#[derive(Debug, Clone, Copy, PartialEq, Eq, Structural)]
pub struct SDL_Rect {
    pub x: i16,
    pub y: i16,
    pub w: i32,
    pub h: i32,
}

/// The drawable descriptor handed back by a change of video mode. It
/// carries no pixels: both backends draw through the graphics context.
#[allow(non_camel_case_types)]
#[derive(Debug, Clone, Copy, PartialEq, Eq, Structural)]
pub struct SDL_Surface {
    pub flags: u32,
    pub w: i32,
    pub h: i32,
    pub pitch: u16,
    pub clip_rect: SDL_Rect,
    pub refcount: i32,
}

/// What the hardware offers, as the API reports it.
#[allow(non_camel_case_types)]
#[derive(Debug, Clone, Copy, PartialEq, Eq, Structural)]
pub struct SDL_VideoInfo {
    pub capabilities: u8,
    pub blit_fill: u32,
    pub video_mem: u32,
}

/// The zeroed key symbol.
pub open spec fn blank_keysym() -> SDL_keysym {
    SDL_keysym { scancode: 0, sym: 0, mod_: 0, unicode: 0 }
}

/// The record with no event in it.
pub open spec fn blank_event() -> SDL_Event {
    SDL_Event {
        type_: SDL_NOEVENT,
        which: 0,
        state: 0,
        keysym: blank_keysym(),
        button: 0,
        x: 0,
        y: 0,
        xrel: 0,
        yrel: 0,
    }
}

/// The drawable descriptor of a window of the given size.
pub open spec fn surface_of(w: i32, h: i32) -> SDL_Surface {
    SDL_Surface {
        flags: 0,
        w,
        h,
        pitch: 0,
        clip_rect: SDL_Rect { x: 0, y: 0, w, h },
        refcount: 0,
    }
}

impl SDL_Event {
    /// A record with no event in it.
    pub fn new() -> (event: SDL_Event)
        ensures
            event == blank_event(),
    {
        SDL_Event {
            type_: SDL_NOEVENT,
            which: 0,
            state: 0,
            keysym: SDL_keysym { scancode: 0, sym: 0, mod_: 0, unicode: 0 },
            button: 0,
            x: 0,
            y: 0,
            xrel: 0,
            yrel: 0,
        }
    }
}

impl SDL_Surface {
    /// The descriptor of a window of the given size, its clip rectangle
    /// covering all of it.
    pub fn new(w: i32, h: i32) -> (surface: SDL_Surface)
        ensures
            surface == surface_of(w, h),
    {
        SDL_Surface {
            flags: 0,
            w,
            h,
            pitch: 0,
            clip_rect: SDL_Rect { x: 0, y: 0, w, h },
            refcount: 0,
        }
    }
}

} // verus!

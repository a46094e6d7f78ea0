//! The pointer: what its events do to the backend, and the arithmetic that
//! turns fixed-point positions into the pixels of the event record.

use vstd::prelude::*;
use crate::backend::wayland::{consistent, PointerEvent, Request, WaylandState, WlState};

verus! {

/// The units of a fixed-point position in one pixel.
pub const FIXED_ONE: i32 = 256;

/// The wire code that stands just before the first button.
pub const BUTTON_BASE: u32 = 271;

/// The whole pixels of a fixed-point length, rounded towards zero.
pub open spec fn whole(fixed: int) -> int {
    if fixed >= 0 {
        fixed / 256
    } else {
        -((-fixed) / 256)
    }
}

/// A fixed-point position as the unsigned pixel of an event: below zero
/// it is 0, above the largest value it is the largest value.
pub open spec fn to_pixel(fixed: i32) -> u16 {
    if fixed < 0 {
        0
    } else if fixed / 256 > 0xffff {
        0xffff
    } else {
        (fixed / 256) as u16
    }
}

/// The movement from one fixed-point position to another as the signed
/// pixels of an event, held to the range of the field.
pub open spec fn to_delta(to: i32, from: i32) -> i16 {
    let pixels = whole(to - from);
    if pixels > i16::MAX {
        i16::MAX
    } else if pixels < i16::MIN {
        i16::MIN
    } else {
        pixels as i16
    }
}

/// A fixed-point position as a signed pixel.
pub open spec fn to_coordinate(fixed: i32) -> i32 {
    whole(fixed as int) as i32
}

/// The fixed-point position of a pixel.
pub open spec fn from_pixel(pixel: u16) -> i32 {
    (pixel * 256) as i32
}

/// A fixed-point position as the unsigned pixel of an event.
pub fn pixel_of(fixed: i32) -> (pixel: u16)
    ensures
        pixel == to_pixel(fixed),
{
    if fixed < 0 {
        0
    } else {
        let whole: i32 = fixed / FIXED_ONE;
        if whole > 0xffff {
            0xffff
        } else {
            whole as u16
        }
    }
}

/// The movement between two fixed-point positions as the signed pixels of
/// an event.
pub fn delta_of(to: i32, from: i32) -> (delta: i16)
    ensures
        delta == to_delta(to, from),
{
    let difference: i64 = to as i64 - from as i64;
    if difference >= 0 {
        let pixels: i64 = difference / 256;
        if pixels > 0x7fff {
            i16::MAX
        } else {
            pixels as i16
        }
    } else {
        let pixels: i64 = (0 - difference) / 256;
        if pixels > 0x8000 {
            i16::MIN
        } else {
            (0 - pixels) as i16
        }
    }
}

/// A fixed-point position as a signed pixel.
pub fn coordinate_of(fixed: i32) -> (pixel: i32)
    ensures
        pixel == to_coordinate(fixed),
{
    if fixed >= 0 {
        fixed / FIXED_ONE
    } else {
        let magnitude: i64 = (0 - fixed as i64) / 256;
        (0 - magnitude) as i32
    }
}

/// The pointer came onto the surface: its position and the serial are
/// kept, and the cursor is hidden.
pub open spec fn pointer_entered(s: WlState, serial: u32, surface_x: i32, surface_y: i32) -> (
    WlState,
    Seq<Request>,
) {
    (
        WlState {
            pointer: true,
            last_pointer_x: surface_x,
            last_pointer_y: surface_y,
            pointer_serial: serial,
            ..s
        },
        seq![Request::HideCursor { serial }],
    )
}

/// The pointer left the surface: a cursor is given back.
pub open spec fn pointer_left(s: WlState, serial: u32) -> (WlState, Seq<Request>) {
    (WlState { pointer: true, ..s }, seq![Request::RestoreCursor { serial }])
}

/// A motion or a button came: it is queued as it is, for the poll to
/// read.
pub open spec fn pointer_queued(s: WlState, event: PointerEvent) -> WlState {
    WlState { pointer: true, pointer_events: s.pointer_events.push(event), ..s }
}

/// Any other pointer event came: the pointer is known from then on.
pub open spec fn pointer_seen(s: WlState) -> WlState {
    WlState { pointer: true, ..s }
}

impl WaylandState {
    /// Takes the entry of the pointer onto the surface.
    pub fn pointer_enter(&mut self, serial: u32, surface_x: i32, surface_y: i32) -> (requests: Vec<
        Request,
    >)
        requires
            consistent(old(self)@),
        ensures
            consistent(final(self)@),
            (final(self)@, requests@) == pointer_entered(old(self)@, serial, surface_x, surface_y),
    {
        self.pointer = true;
        self.last_pointer_x = surface_x;
        self.last_pointer_y = surface_y;
        self.pointer_serial = serial;
        let requests = vec![Request::HideCursor { serial }];
        assert(requests@ =~= seq![Request::HideCursor { serial }]);
        requests
    }

    /// Takes the leaving of the pointer.
    pub fn pointer_leave(&mut self, serial: u32) -> (requests: Vec<Request>)
        requires
            consistent(old(self)@),
        ensures
            consistent(final(self)@),
            (final(self)@, requests@) == pointer_left(old(self)@, serial),
    {
        self.pointer = true;
        let requests = vec![Request::RestoreCursor { serial }];
        assert(requests@ =~= seq![Request::RestoreCursor { serial }]);
        requests
    }

    /// Takes a motion or a button of the pointer.
    pub fn pointer_input(&mut self, event: PointerEvent)
        requires
            consistent(old(self)@),
        ensures
            consistent(final(self)@),
            final(self)@ == pointer_queued(old(self)@, event),
    {
        self.pointer = true;
        self.pointer_events.push(event);
    }

    /// Takes a pointer event of any other kind.
    pub fn pointer_other(&mut self)
        requires
            consistent(old(self)@),
        ensures
            consistent(final(self)@),
            final(self)@ == pointer_seen(old(self)@),
    {
        self.pointer = true;
    }
}

} // verus!

//! The input router: what happens to each message that reaches the host
//! window while the overlay's window procedure is installed.
use vstd::prelude::*;
use crate::frame::FrameDescriptor;
use crate::keybind::{Action, KeyCombo, KeybindTable};
use crate::packet::{MouseEvent, MouseInputPacket};

verus! {

/// Window message: a key went down.
pub const WM_KEYDOWN: u32 = 0x0100;
/// Window message: the pointer moved.
pub const WM_MOUSEMOVE: u32 = 0x0200;
/// Window message: the left button went down.
pub const WM_LBUTTONDOWN: u32 = 0x0201;
/// Window message: the left button went up.
pub const WM_LBUTTONUP: u32 = 0x0202;
/// Window message: the right button went down.
pub const WM_RBUTTONDOWN: u32 = 0x0204;
/// Window message: the right button went up.
pub const WM_RBUTTONUP: u32 = 0x0205;

/// The client-relative x coordinate of a pointer message: the low word of
/// `lparam`, sign-extended.
pub fn get_x_lparam(lparam: isize) -> (r: i32)
    ensures
        r == lparam as u16 as i16 as i32,
{
    lparam as u16 as i16 as i32
}

/// The client-relative y coordinate of a pointer message: the second word of
/// `lparam`, sign-extended.
pub fn get_y_lparam(lparam: isize) -> (r: i32)
    ensures
        r == ((lparam as u32) >> 16u32) as u16 as i16 as i32,
{
    ((lparam as u32) >> 16u32) as u16 as i16 as i32
}

/// The pointer event that a window message carries, if it carries one.
pub open spec fn mouse_event_spec(msg: u32) -> Option<MouseEvent> {
    if msg == WM_LBUTTONDOWN {
        Some(MouseEvent::LeftDown)
    } else if msg == WM_LBUTTONUP {
        Some(MouseEvent::LeftUp)
    } else if msg == WM_MOUSEMOVE {
        Some(MouseEvent::Move)
    } else if msg == WM_RBUTTONDOWN {
        Some(MouseEvent::RightDown)
    } else if msg == WM_RBUTTONUP {
        Some(MouseEvent::RightUp)
    } else {
        None
    }
}

/// The pointer event that a window message carries, if it carries one.
pub fn mouse_event(msg: u32) -> (r: Option<MouseEvent>)
    ensures
        r == mouse_event_spec(msg),
{
    if msg == WM_LBUTTONDOWN {
        Some(MouseEvent::LeftDown)
    } else if msg == WM_LBUTTONUP {
        Some(MouseEvent::LeftUp)
    } else if msg == WM_MOUSEMOVE {
        Some(MouseEvent::Move)
    } else if msg == WM_RBUTTONDOWN {
        Some(MouseEvent::RightDown)
    } else if msg == WM_RBUTTONUP {
        Some(MouseEvent::RightUp)
    } else {
        None
    }
}

/// `a / b` rounded toward zero, for `b > 0`.
pub open spec fn div_toward_zero(a: int, b: int) -> int {
    if a >= 0 {
        a / b
    } else {
        -((-a) / b)
    }
}

/// An extent of the client area, at least one.
pub open spec fn at_least_one(e: int) -> int {
    if e < 1 {
        1
    } else {
        e
    }
}

/// A coordinate carried from a client extent of `client` into a companion
/// extent of `companion`, truncated toward zero and then to 32 bits.
pub open spec fn rescaled(v: i32, companion: u32, client: int) -> i32 {
    div_toward_zero(v * companion, at_least_one(client)) as i32
}

/// Carries one coordinate from client space into companion space:
/// `v * companion / max(1, client)`.
pub fn scale_coordinate(v: i32, companion: u32, client: i64) -> (r: i32)
    ensures
        r == rescaled(v, companion, client as int),
{
    let neg = v < 0;
    let mag: u64 = if neg {
        (-(v as i64)) as u64
    } else {
        v as u64
    };
    assert(mag * companion <= 0x8000_0000u64 * 0xFFFF_FFFFu64) by (nonlinear_arith)
        requires
            mag <= 0x8000_0000u64,
            companion <= 0xFFFF_FFFFu32,
    ;
    let product: u64 = mag * (companion as u64);
    let divisor: u64 = if client < 1 {
        1
    } else {
        client as u64
    };
    let q: u64 = product / divisor;
    assert(q <= product) by (nonlinear_arith)
        requires
            q == product / divisor,
            divisor >= 1,
    ;
    let signed: i64 = if neg {
        -(q as i64)
    } else {
        q as i64
    };
    proof {
        if neg {
            assert(-(v * companion) == mag * companion) by (nonlinear_arith)
                requires
                    mag == -v,
            ;
        }
    }
    #[verifier::truncate]
    (signed as i32)
}

/// The size of the host window's client area.
#[derive(Clone, Copy, Debug, PartialEq, Eq, Structural)]
pub struct ClientRect {
    pub left: i32,
    pub top: i32,
    pub right: i32,
    pub bottom: i32,
}

impl ClientRect {
    pub open spec fn width_spec(self) -> int {
        self.right - self.left
    }

    pub open spec fn height_spec(self) -> int {
        self.bottom - self.top
    }
}

/// Whether the frame block gives the companion's resolution for rescaling:
/// a live companion with non-zero dimensions.
pub open spec fn gives_resolution(frame: Option<FrameDescriptor>) -> bool {
    &&& frame is Some
    &&& frame->0.alive
    &&& frame->0.width != 0
    &&& frame->0.height != 0
}

/// The point `(x, y)` in companion space: rescaled when both the frame block
/// and the client rectangle are known, as given otherwise.
pub open spec fn companion_point(
    x: i32,
    y: i32,
    frame: Option<FrameDescriptor>,
    client: Option<ClientRect>,
) -> (i32, i32) {
    if gives_resolution(frame) && client is Some {
        (
            rescaled(x, frame->0.width, client->0.width_spec()),
            rescaled(y, frame->0.height, client->0.height_spec()),
        )
    } else {
        (x, y)
    }
}

/// Carries a client-relative point into the companion's resolution.
pub fn rescale_point(
    x: i32,
    y: i32,
    frame: Option<FrameDescriptor>,
    client: Option<ClientRect>,
) -> (r: (i32, i32))
    ensures
        r == companion_point(x, y, frame, client),
{
    match (frame, client) {
        (Some(f), Some(c)) => {
            if f.alive && f.width != 0 && f.height != 0 {
                let w = c.right as i64 - c.left as i64;
                let h = c.bottom as i64 - c.top as i64;
                (scale_coordinate(x, f.width, w), scale_coordinate(y, f.height, h))
            } else {
                (x, y)
            }
        },
        _ => (x, y),
    }
}

} // verus!

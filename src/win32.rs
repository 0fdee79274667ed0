//! Decisions of the Win32 backend: what a window message means to the window.

use vstd::prelude::*;

verus! {

/// The window is being destroyed.
pub const WM_DESTROY: u32 = 0x0002;

/// The window's client area changed size.
pub const WM_SIZE: u32 = 0x0005;

/// Part of the window needs painting.
pub const WM_PAINT: u32 = 0x000F;

/// What the window procedure does with a message.
#[derive(Clone, Copy, Debug, PartialEq, Eq, Structural)]
pub enum MessageStep {
    /// Post the quit message and return 0.
    Quit,
    /// Render a frame between BeginPaint and EndPaint, and return 0.
    Render,
    /// Report the new client size (never inside a live drag), then hand the
    /// message to the default procedure.
    Resize { width: u32, height: u32 },
    /// Hand the message to the default procedure.
    Default,
}

/// The low 16 bits of a message parameter.
pub open spec fn loword(v: u32) -> u32 {
    v & 0xFFFF
}

/// The high 16 bits of a message parameter.
pub open spec fn hiword(v: u32) -> u32 {
    (v >> 16) & 0xFFFF
}

/// Decides what the window procedure does with message `msg`, whose parameter
/// `lparam` holds, for `WM_SIZE`, the new width in its low word and the new
/// height in its high word.
pub fn message_step(msg: u32, lparam: u32) -> (r: MessageStep)
    ensures
        r == if msg == WM_DESTROY {
            MessageStep::Quit
        } else if msg == WM_PAINT {
            MessageStep::Render
        } else if msg == WM_SIZE {
            MessageStep::Resize { width: loword(lparam), height: hiword(lparam) }
        } else {
            MessageStep::Default
        },
        r matches MessageStep::Resize { width, height } ==> width <= 0xFFFF && height <= 0xFFFF,
{
    if msg == WM_DESTROY {
        MessageStep::Quit
    } else if msg == WM_PAINT {
        MessageStep::Render
    } else if msg == WM_SIZE {
        let width = lparam & 0xFFFF;
        let height = (lparam >> 16) & 0xFFFF;
        assert(width <= 0xFFFF && height <= 0xFFFF) by (bit_vector)
            requires
                width == lparam & 0xFFFF,
                height == (lparam >> 16) & 0xFFFF,
        ;
        MessageStep::Resize { width, height }
    } else {
        MessageStep::Default
    }
}

} // verus!

//! Window creation options and the native style bits they map to.

use vstd::prelude::*;
use crate::rxcb::Atom;
use crate::surface::Extent2D;
use crate::x11::{allowed_actions_spec, ActionAtoms};

verus! {

/// Win32 window style: a title bar.
pub const WS_CAPTION: u32 = 0x00C0_0000;

/// Win32 window style: a thin border.
pub const WS_BORDER: u32 = 0x0080_0000;

/// Win32 window style: a window menu.
pub const WS_SYSMENU: u32 = 0x0008_0000;

/// Win32 window style: a minimize button.
pub const WS_MINIMIZEBOX: u32 = 0x0002_0000;

/// Win32 window style: a maximize button.
pub const WS_MAXIMIZEBOX: u32 = 0x0001_0000;

/// Win32 window style: a sizing border.
pub const WS_THICKFRAME: u32 = 0x0004_0000;

/// Win32 class style: a private device context per window.
pub const CS_OWNDC: u32 = 0x0020;

/// Win32 class style: no close item in the window menu.
pub const CS_NOCLOSE: u32 = 0x0200;

/// AppKit window style: a title bar.
pub const NS_TITLED: u64 = 1;

/// AppKit window style: a close button.
pub const NS_CLOSABLE: u64 = 2;

/// AppKit window style: a minimize button.
pub const NS_MINIATURIZABLE: u64 = 4;

/// AppKit window style: resizable.
pub const NS_RESIZABLE: u64 = 8;

/// Win32 style of every window this builder creates.
pub const WIN32_BASE_STYLE: u32 = WS_CAPTION | WS_BORDER | WS_SYSMENU | WS_MINIMIZEBOX
    | WS_MAXIMIZEBOX | WS_THICKFRAME;

/// Win32 style bits that make a window resizable.
pub const WIN32_RESIZE_BITS: u32 = WS_THICKFRAME | WS_MAXIMIZEBOX;

/// The options a native window is created with.
pub struct NativeWindowBuilder<'c> {
    pub width: u16,
    pub height: u16,
    pub caption: &'c str,
    pub closable: bool,
    pub resizable: bool,
    pub transparent: bool,
}

impl<'c> NativeWindowBuilder<'c> {
    /// A closable, resizable, opaque window of the given client size.
    pub fn new(width: u16, height: u16, caption: &'c str) -> (r: Self)
        ensures
            r.width == width,
            r.height == height,
            r.caption == caption,
            r.closable,
            r.resizable,
            !r.transparent,
    {
        NativeWindowBuilder {
            width,
            height,
            caption,
            closable: true,
            resizable: true,
            transparent: false,
        }
    }

    /// Sets whether the window can be closed.
    pub fn closable(self, c: bool) -> (r: Self)
        ensures
            r == (NativeWindowBuilder { closable: c, ..self }),
    {
        NativeWindowBuilder { closable: c, ..self }
    }

    /// Sets whether the window can be resized.
    pub fn resizable(self, c: bool) -> (r: Self)
        ensures
            r == (NativeWindowBuilder { resizable: c, ..self }),
    {
        NativeWindowBuilder { resizable: c, ..self }
    }

    /// Sets whether the window's background is transparent.
    pub fn transparent(self, c: bool) -> (r: Self)
        ensures
            r == (NativeWindowBuilder { transparent: c, ..self }),
    {
        NativeWindowBuilder { transparent: c, ..self }
    }

    /// The client area's size: the window's logical size.
    pub fn client_extent(&self) -> (r: Extent2D)
        ensures
            r == (Extent2D { width: self.width as u32, height: self.height as u32 }),
    {
        Extent2D { width: self.width as u32, height: self.height as u32 }
    }

    /// The Win32 window style: without the sizing border and maximize button
    /// where the window is not resizable.
    pub fn win32_style(&self) -> (r: u32)
        ensures
            r == if self.resizable {
                WIN32_BASE_STYLE
            } else {
                WIN32_BASE_STYLE & !WIN32_RESIZE_BITS
            },
    {
        if self.resizable {
            WIN32_BASE_STYLE
        } else {
            WIN32_BASE_STYLE & !WIN32_RESIZE_BITS
        }
    }

    /// The Win32 class style: a private device context, and no close item where
    /// the window is not closable.
    pub fn win32_class_style(&self) -> (r: u32)
        ensures
            r == if self.closable {
                CS_OWNDC
            } else {
                CS_OWNDC | CS_NOCLOSE
            },
    {
        if self.closable {
            CS_OWNDC
        } else {
            CS_OWNDC | CS_NOCLOSE
        }
    }

    /// The AppKit style mask: titled and miniaturizable, closable and resizable as set.
    pub fn appkit_style_mask(&self) -> (r: u64)
        ensures
            r == (NS_TITLED | NS_MINIATURIZABLE) | (if self.closable {
                NS_CLOSABLE
            } else {
                0
            }) | (if self.resizable {
                NS_RESIZABLE
            } else {
                0
            }),
    {
        let closable: u64 = if self.closable {
            NS_CLOSABLE
        } else {
            0
        };
        let resizable: u64 = if self.resizable {
            NS_RESIZABLE
        } else {
            0
        };
        (NS_TITLED | NS_MINIATURIZABLE) | closable | resizable
    }

    /// The actions the window manager is told the window allows.
    pub fn x11_allowed_actions(&self, atoms: &ActionAtoms) -> (r: Vec<Atom>)
        ensures
            r@ == allowed_actions_spec(*atoms, self.closable, self.resizable),
    {
        atoms.allowed_actions(self.closable, self.resizable)
    }
}

} // verus!

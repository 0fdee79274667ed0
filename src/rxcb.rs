//! Values of the X11 protocol that the X11 backend reads and writes.
//!
//! The connection itself lives with the caller; this module holds what is read
//! from the server's setup and events, and builds the requests that are sent.

use vstd::prelude::*;
use vstd::string::StringSliceAdditionalSpecFns;
use xcb::{Xid, x};
use xcb::Connection as XcbConnection;

verus! {

pub type WindowID = u32;

pub type Atom = u32;

pub type VisualID = u32;

pub type ColormapID = u32;

/// The predefined atom `STRING`.
pub const ATOM_STRING: Atom = 31;

/// The predefined atom `ATOM`.
pub const ATOM_ATOM: Atom = 4;

/// The predefined atom `WM_NAME`.
pub const ATOM_WM_NAME: Atom = 39;

/// Mode of a property change that replaces the old value.
pub const PROP_MODE_REPLACE: u8 = 0;

/// Response type of a client message.
pub const CLIENT_MESSAGE: u8 = 33;

/// Response type of an expose event.
pub const EXPOSE: u8 = 12;

/// Visual class of a TrueColor visual.
pub const VISUAL_CLASS_TRUE_COLOR: u8 = 4;

/// Value-mask bit for a window's background pixel.
pub const CW_BACK_PIXEL: u32 = 0x2;

/// Value-mask bit for a window's border pixel.
pub const CW_BORDER_PIXEL: u32 = 0x8;

/// Value-mask bit for a window's event mask.
pub const CW_EVENT_MASK: u32 = 0x800;

/// Event-mask bit asking for expose events.
pub const EVENT_MASK_EXPOSURE: u32 = 0x8000;

/// Value-mask bit for a window's colormap.
pub const CW_COLORMAP: u32 = 0x2000;

/// Number of values a window value list can hold.
pub const WINDOW_VALUE_COUNT: usize = 15;

#[verifier::external_type_specification]
#[verifier::external_body]
pub struct ExXcbConnection(XcbConnection);

/// Relies on xcb::Connection::generate_id: a fresh resource id allocated by the
/// connection (all ones where the connection has failed); which one depends on
/// the connection's state.
#[verifier::external_body]
fn generate_id(c: &XcbConnection) -> u32 {
    c.generate_id::<x::Window>().resource_id()
}

/// An open connection to an X server.
pub struct Connection {
    inner: XcbConnection,
}

impl Connection {
    /// Wraps a connection that was opened to a server.
    pub fn from_inner(inner: XcbConnection) -> Self {
        Connection { inner }
    }

    /// The underlying connection, for sending requests and reading events.
    pub fn inner(&self) -> &XcbConnection {
        &self.inner
    }

    /// A fresh resource id.
    pub fn new_id(&self) -> u32 {
        generate_id(&self.inner)
    }

    /// A window with a fresh id.
    pub fn new_window_id(&self) -> Window {
        Window(self.new_id())
    }
}

/// The class of a window.
#[derive(Clone, Copy, Debug, PartialEq, Eq, Structural)]
pub enum WindowIOClass {
    InputOnly,
    InputOutput,
    FromParent,
}

impl WindowIOClass {
    /// The protocol's code for the class.
    pub fn code(&self) -> (r: u16)
        ensures
            r == match *self {
                WindowIOClass::InputOnly => 2u16,
                WindowIOClass::InputOutput => 1u16,
                WindowIOClass::FromParent => 0u16,
            },
    {
        match self {
            WindowIOClass::InputOnly => 2,
            WindowIOClass::InputOutput => 1,
            WindowIOClass::FromParent => 0,
        }
    }
}

/// A visual offered for a depth.
#[derive(Clone, Copy, Debug, PartialEq, Eq, Structural)]
pub struct VisualType {
    pub visual_id: VisualID,
    pub class: u8,
}

impl VisualType {
    pub fn id(&self) -> (r: VisualID)
        ensures
            r == self.visual_id,
    {
        self.visual_id
    }

    /// Whether this is a TrueColor visual.
    pub fn is_truecolor(&self) -> (r: bool)
        ensures
            r == (self.class == VISUAL_CLASS_TRUE_COLOR),
    {
        self.class == VISUAL_CLASS_TRUE_COLOR
    }
}

/// A depth that a screen allows, with its visuals.
#[derive(Debug)]
pub struct Depth {
    pub depth: u8,
    pub visuals: Vec<VisualType>,
}

impl Depth {
    pub fn depth(&self) -> (r: u8)
        ensures
            r == self.depth,
    {
        self.depth
    }

    /// A cursor over the visuals of this depth.
    pub fn iter_visuals(&self) -> (r: IterVisualTypes<'_>)
        ensures
            r.items@ == self.visuals@,
            r.pos == 0,
    {
        IterVisualTypes { items: &self.visuals, pos: 0 }
    }
}

/// A screen of the display.
#[derive(Debug)]
pub struct Screen {
    pub root: WindowID,
    pub allowed_depths: Vec<Depth>,
}

impl Screen {
    /// The screen's root window.
    pub fn root(&self) -> (r: WindowID)
        ensures
            r == self.root,
    {
        self.root
    }

    /// A cursor over the depths this screen allows.
    pub fn iter_allowed_depths(&self) -> (r: IterDepths<'_>)
        ensures
            r.items@ == self.allowed_depths@,
            r.pos == 0,
    {
        IterDepths { items: &self.allowed_depths, pos: 0 }
    }
}

/// What the server told about itself when the connection was set up.
#[derive(Debug)]
pub struct Setup {
    pub roots: Vec<Screen>,
}

impl Setup {
    /// A cursor over the screens.
    pub fn iter_roots(&self) -> (r: IterRootScreen<'_>)
        ensures
            r.items@ == self.roots@,
            r.pos == 0,
    {
        IterRootScreen { items: &self.roots, pos: 0 }
    }
}

/// A cursor over the screens of a setup.
pub struct IterRootScreen<'s> {
    pub items: &'s Vec<Screen>,
    pub pos: usize,
}

impl<'s> IterRootScreen<'s> {
    /// The screen at the cursor, moving past it; none after the last.
    pub fn next(&mut self) -> (r: Option<&'s Screen>)
        ensures
            final(self).items == old(self).items,
            old(self).pos < old(self).items@.len() ==> r == Some(&old(self).items@[old(
                self,
            ).pos as int]) && final(self).pos == old(self).pos + 1,
            old(self).pos >= old(self).items@.len() ==> r is None && final(self).pos == old(
                self,
            ).pos,
    {
        if self.pos < self.items.len() {
            let r = &self.items[self.pos];
            self.pos = self.pos + 1;
            Some(r)
        } else {
            None
        }
    }
}

/// A cursor over the depths of a screen.
pub struct IterDepths<'c> {
    pub items: &'c Vec<Depth>,
    pub pos: usize,
}

impl<'c> IterDepths<'c> {
    /// The depth at the cursor, moving past it; none after the last.
    pub fn next(&mut self) -> (r: Option<&'c Depth>)
        ensures
            final(self).items == old(self).items,
            old(self).pos < old(self).items@.len() ==> r == Some(&old(self).items@[old(
                self,
            ).pos as int]) && final(self).pos == old(self).pos + 1,
            old(self).pos >= old(self).items@.len() ==> r is None && final(self).pos == old(
                self,
            ).pos,
    {
        if self.pos < self.items.len() {
            let r = &self.items[self.pos];
            self.pos = self.pos + 1;
            Some(r)
        } else {
            None
        }
    }
}

/// A cursor over the visuals of a depth.
pub struct IterVisualTypes<'c> {
    pub items: &'c Vec<VisualType>,
    pub pos: usize,
}

impl<'c> IterVisualTypes<'c> {
    /// The visual at the cursor, moving past it; none after the last.
    pub fn next(&mut self) -> (r: Option<&'c VisualType>)
        ensures
            final(self).items == old(self).items,
            old(self).pos < old(self).items@.len() ==> r == Some(&old(self).items@[old(
                self,
            ).pos as int]) && final(self).pos == old(self).pos + 1,
            old(self).pos >= old(self).items@.len() ==> r is None && final(self).pos == old(
                self,
            ).pos,
    {
        if self.pos < self.items.len() {
            let r = &self.items[self.pos];
            self.pos = self.pos + 1;
            Some(r)
        } else {
            None
        }
    }
}

/// A window, by its id.
#[derive(Clone, Copy, Debug, PartialEq, Eq, Structural)]
pub struct Window(pub WindowID);

/// A request to change a property of a window: `elements` holds one value of
/// `format` bits each.
#[derive(Debug)]
pub struct PropertyChange {
    pub mode: u8,
    pub window: WindowID,
    pub property: Atom,
    pub type_atom: Atom,
    pub format: u8,
    pub elements: Vec<u32>,
}

/// A value that can be stored in a window property.
pub trait PropertyType {
    /// The atom naming the property's type.
    spec fn property_type(&self) -> Atom;

    /// The number of bits of one element.
    spec fn property_format(&self) -> u8;

    /// The elements that encode the value.
    spec fn property_elements(&self) -> Seq<u32>;

    fn type_atom(&self) -> (r: Atom)
        ensures
            r == self.property_type(),
    ;

    fn data_stride(&self) -> (r: u8)
        ensures
            r == self.property_format(),
    ;

    fn elements(&self) -> (r: Vec<u32>)
        ensures
            r@ == self.property_elements(),
    ;
}

/// The bytes of `b`, one element each.
pub open spec fn widen_bytes(b: Seq<u8>) -> Seq<u32> {
    Seq::new(b.len(), |i: int| b[i] as u32)
}

impl PropertyType for str {
    open spec fn property_type(&self) -> Atom {
        ATOM_STRING
    }

    open spec fn property_format(&self) -> u8 {
        8
    }

    open spec fn property_elements(&self) -> Seq<u32> {
        widen_bytes(self.spec_bytes())
    }

    fn type_atom(&self) -> (r: Atom) {
        ATOM_STRING
    }

    fn data_stride(&self) -> (r: u8) {
        8
    }

    fn elements(&self) -> (r: Vec<u32>) {
        let b = self.as_bytes();
        let mut r: Vec<u32> = Vec::new();
        let mut i: usize = 0;
        while i < b.len()
            invariant
                b@ == self.spec_bytes(),
                0 <= i <= b@.len(),
                r@ == widen_bytes(b@).subrange(0, i as int),
            decreases b.len() - i,
        {
            r.push(b[i] as u32);
            i = i + 1;
            assert(r@ =~= widen_bytes(b@).subrange(0, i as int));
        }
        assert(r@ =~= widen_bytes(b@));
        r
    }
}

impl PropertyType for Atom {
    open spec fn property_type(&self) -> Atom {
        ATOM_ATOM
    }

    open spec fn property_format(&self) -> u8 {
        32
    }

    open spec fn property_elements(&self) -> Seq<u32> {
        seq![*self]
    }

    fn type_atom(&self) -> (r: Atom) {
        ATOM_ATOM
    }

    fn data_stride(&self) -> (r: u8) {
        32
    }

    fn elements(&self) -> (r: Vec<u32>) {
        let r = vec![*self];
        assert(r@ =~= seq![*self]);
        r
    }
}

impl PropertyType for [Atom] {
    open spec fn property_type(&self) -> Atom {
        ATOM_ATOM
    }

    open spec fn property_format(&self) -> u8 {
        32
    }

    open spec fn property_elements(&self) -> Seq<u32> {
        self@
    }

    fn type_atom(&self) -> (r: Atom) {
        ATOM_ATOM
    }

    fn data_stride(&self) -> (r: u8) {
        32
    }

    fn elements(&self) -> (r: Vec<u32>) {
        let mut r: Vec<u32> = Vec::new();
        let mut i: usize = 0;
        while i < self.len()
            invariant
                0 <= i <= self@.len(),
                r@ == self@.subrange(0, i as int),
            decreases self@.len() - i,
        {
            r.push(self[i]);
            i = i + 1;
            assert(r@ =~= self@.subrange(0, i as int));
        }
        assert(r@ =~= self@);
        r
    }
}

impl Window {
    /// The window's id.
    pub fn id(&self) -> (r: WindowID)
        ensures
            r == self.0,
    {
        self.0
    }

    /// The request that replaces the window's `property` with `value`.
    pub fn replace_property<T: PropertyType + ?Sized>(&self, property: Atom, value: &T) -> (r:
        PropertyChange)
        ensures
            r.mode == PROP_MODE_REPLACE,
            r.window == self.0,
            r.property == property,
            r.type_atom == value.property_type(),
            r.format == value.property_format(),
            r.elements@ == value.property_elements(),
    {
        PropertyChange {
            mode: PROP_MODE_REPLACE,
            window: self.0,
            property,
            type_atom: value.type_atom(),
            format: value.data_stride(),
            elements: value.elements(),
        }
    }
}

/// An event as it comes from the server.
#[derive(Clone, Copy, Debug, PartialEq, Eq, Structural)]
pub struct GenericEvent {
    /// The response type byte, whose top bit marks an event sent by another client.
    pub raw_response_type: u8,
}

impl GenericEvent {
    /// The kind of the event, without the bit that marks a sent event.
    pub fn response_type(&self) -> (r: u8)
        ensures
            r == self.raw_response_type & 0x7f,
    {
        self.raw_response_type & 0x7f
    }
}

/// A message from another client.
#[derive(Clone, Copy, Debug)]
pub struct ClientMessageEvent {
    pub window: WindowID,
    pub type_atom: Atom,
    pub data: [u32; 5],
}

impl ClientMessageEvent {
    /// The atom naming the kind of message.
    pub fn msg_type(&self) -> (r: Atom)
        ensures
            r == self.type_atom,
    {
        self.type_atom
    }

    /// The first 32-bit word of the message's data.
    pub fn data_as_u32(&self) -> (r: u32)
        ensures
            r == self.data@[0],
    {
        self.data[0]
    }
}

/// An error reported by the server.
#[derive(Clone, Copy, Debug, PartialEq, Eq, Structural)]
pub struct GenericError {
    pub error_code: u8,
}

impl GenericError {
    pub fn error_code(&self) -> (r: u8)
        ensures
            r == self.error_code,
    {
        self.error_code
    }
}

/// A kind of message from the server, told apart by its response type.
pub trait Event {
    /// The response type of this kind of message.
    spec fn response_enum_spec() -> u8;

    fn response_enum() -> (r: u8)
        ensures
            r == Self::response_enum_spec(),
    ;
}

impl Event for ClientMessageEvent {
    open spec fn response_enum_spec() -> u8 {
        CLIENT_MESSAGE
    }

    fn response_enum() -> (r: u8) {
        CLIENT_MESSAGE
    }
}

impl Event for GenericError {
    open spec fn response_enum_spec() -> u8 {
        0
    }

    fn response_enum() -> (r: u8) {
        0
    }
}

/// The values a window can be created with, each sent only where its bit is in the mask.
#[allow(non_camel_case_types)]
#[derive(Clone, Copy, Debug, PartialEq, Eq, Structural)]
pub struct xcb_create_window_value_list_t {
    pub background_pixmap: u32,
    pub background_pixel: u32,
    pub border_pixmap: u32,
    pub border_pixel: u32,
    pub bit_gravity: u32,
    pub win_gravity: u32,
    pub backing_store: u32,
    pub backing_planes: u32,
    pub backing_pixel: u32,
    pub override_redirect: u32,
    pub save_under: u32,
    pub event_mask: u32,
    pub do_not_propagate_mask: u32,
    pub colormap: u32,
    pub cursor: u32,
}

/// The values of a list in the order of their mask bits, lowest first.
pub open spec fn value_slots(l: xcb_create_window_value_list_t) -> Seq<u32> {
    seq![
        l.background_pixmap,
        l.background_pixel,
        l.border_pixmap,
        l.border_pixel,
        l.bit_gravity,
        l.win_gravity,
        l.backing_store,
        l.backing_planes,
        l.backing_pixel,
        l.override_redirect,
        l.save_under,
        l.event_mask,
        l.do_not_propagate_mask,
        l.colormap,
        l.cursor,
    ]
}

/// The first `n` slots of `slots` whose bit is set in `mask`, in order.
pub open spec fn selected_values(mask: u32, slots: Seq<u32>, n: int) -> Seq<u32>
    decreases n,
{
    if n <= 0 {
        seq![]
    } else {
        let prefix = selected_values(mask, slots, n - 1);
        if mask & (1u32 << ((n - 1) as u32)) != 0 {
            prefix.push(slots[n - 1])
        } else {
            prefix
        }
    }
}

/// A value mask and the values it selects, for a window-creation request.
#[derive(Clone, Copy, Debug, PartialEq, Eq, Structural)]
pub struct WindowValueList(pub u32, pub xcb_create_window_value_list_t);

impl WindowValueList {
    /// A list that selects no value.
    pub fn new() -> (r: Self)
        ensures
            r.0 == 0,
            value_slots(r.1) == Seq::new(WINDOW_VALUE_COUNT as nat, |i: int| 0u32),
    {
        WindowValueList(
            0,
            xcb_create_window_value_list_t {
                background_pixmap: 0,
                background_pixel: 0,
                border_pixmap: 0,
                border_pixel: 0,
                bit_gravity: 0,
                win_gravity: 0,
                backing_store: 0,
                backing_planes: 0,
                backing_pixel: 0,
                override_redirect: 0,
                save_under: 0,
                event_mask: 0,
                do_not_propagate_mask: 0,
                colormap: 0,
                cursor: 0,
            },
        )
    }

    /// Selects `p` as the border pixel.
    pub fn border_pixel(&mut self, p: u32)
        ensures
            final(self).0 == old(self).0 | CW_BORDER_PIXEL,
            final(self).1 == (xcb_create_window_value_list_t { border_pixel: p, ..old(self).1 }),
    {
        self.0 = self.0 | CW_BORDER_PIXEL;
        self.1.border_pixel = p;
    }

    /// Selects `p` as the background pixel.
    pub fn back_pixel(&mut self, p: u32)
        ensures
            final(self).0 == old(self).0 | CW_BACK_PIXEL,
            final(self).1 == (xcb_create_window_value_list_t {
                background_pixel: p,
                ..old(self).1
            }),
    {
        self.0 = self.0 | CW_BACK_PIXEL;
        self.1.background_pixel = p;
    }

    /// Selects `m` as the set of events the window reports.
    pub fn event_mask(&mut self, m: u32)
        ensures
            final(self).0 == old(self).0 | CW_EVENT_MASK,
            final(self).1 == (xcb_create_window_value_list_t { event_mask: m, ..old(self).1 }),
    {
        self.0 = self.0 | CW_EVENT_MASK;
        self.1.event_mask = m;
    }

    /// Selects the colormap `c`.
    pub fn colormap(&mut self, c: &Colormap)
        ensures
            final(self).0 == old(self).0 | CW_COLORMAP,
            final(self).1 == (xcb_create_window_value_list_t { colormap: c.0, ..old(self).1 }),
    {
        self.0 = self.0 | CW_COLORMAP;
        self.1.colormap = c.id();
    }

    /// The selected values as they are sent: in the order of their mask bits.
    pub fn serialize(&self) -> (r: Vec<u32>)
        ensures
            r@ == selected_values(self.0, value_slots(self.1), WINDOW_VALUE_COUNT as int),
    {
        let l = self.1;
        let slots: [u32; 15] = [
            l.background_pixmap,
            l.background_pixel,
            l.border_pixmap,
            l.border_pixel,
            l.bit_gravity,
            l.win_gravity,
            l.backing_store,
            l.backing_planes,
            l.backing_pixel,
            l.override_redirect,
            l.save_under,
            l.event_mask,
            l.do_not_propagate_mask,
            l.colormap,
            l.cursor,
        ];
        assert(slots@ =~= value_slots(l));
        let mut r: Vec<u32> = Vec::new();
        let mut i: usize = 0;
        while i < WINDOW_VALUE_COUNT
            invariant
                0 <= i <= WINDOW_VALUE_COUNT,
                slots@ == value_slots(l),
                r@ == selected_values(self.0, slots@, i as int),
            decreases WINDOW_VALUE_COUNT - i,
        {
            if self.0 & (1u32 << (i as u32)) != 0 {
                r.push(slots[i]);
            }
            i = i + 1;
        }
        r
    }
}

/// A colormap, by its id.
#[derive(Clone, Copy, Debug, PartialEq, Eq, Structural)]
pub struct Colormap(pub ColormapID);

impl Colormap {
    pub fn id(&self) -> (r: ColormapID)
        ensures
            r == self.0,
    {
        self.0
    }
}

} // verus!

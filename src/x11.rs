//! Decisions of the X11 backend: the visual, the window-manager atoms, the
//! actions a window allows, and what each event means to the event loop.

use vstd::prelude::*;
use crate::rxcb::{
    Atom, ClientMessageEvent, Depth, GenericError, GenericEvent, Screen, Setup, VisualID,
    VisualType, WindowID, CLIENT_MESSAGE, EXPOSE, VISUAL_CLASS_TRUE_COLOR,
};

verus! {

/// Bit depth of the windows the backend creates (32 where transparency is wanted).
pub const BITDEPTH: u8 = 24;

/// Number of atoms that `ActionAtoms` holds.
pub const ACTION_ATOM_COUNT: usize = 13;

/// The atoms naming the actions a window manager may allow on a window.
#[derive(Clone, Copy, Debug, PartialEq, Eq, Structural)]
pub struct ActionAtoms {
    pub allowed_actions: Atom,
    pub move_: Atom,
    pub resize: Atom,
    pub minimize: Atom,
    pub shade: Atom,
    pub stick: Atom,
    pub maximize_h: Atom,
    pub maximize_v: Atom,
    pub fullscreen: Atom,
    pub change_desktop: Atom,
    pub close: Atom,
    pub above: Atom,
    pub below: Atom,
}

/// The names of the atoms of `ActionAtoms`, in the order of its fields.
pub open spec fn action_atom_names_spec() -> Seq<&'static str> {
    seq![
        "_NET_WM_ALLOWED_ACTIONS",
        "_NET_WM_ACTION_MOVE",
        "_NET_WM_ACTION_RESIZE",
        "_NET_WM_ACTION_MINIMIZE",
        "_NET_WM_ACTION_SHADE",
        "_NET_WM_ACTION_STICK",
        "_NET_WM_ACTION_MAXIMIZE_HORZ",
        "_NET_WM_ACTION_MAXIMIZE_VERT",
        "_NET_WM_ACTION_FULLSCREEN",
        "_NET_WM_ACTION_CHANGE_DESKTOP",
        "_NET_WM_ACTION_CLOSE",
        "_NET_WM_ACTION_ABOVE",
        "_NET_WM_ACTION_BELOW",
    ]
}

/// The atoms in the order of the fields of `ActionAtoms`.
pub open spec fn action_atoms_seq(a: ActionAtoms) -> Seq<Atom> {
    seq![
        a.allowed_actions,
        a.move_,
        a.resize,
        a.minimize,
        a.shade,
        a.stick,
        a.maximize_h,
        a.maximize_v,
        a.fullscreen,
        a.change_desktop,
        a.close,
        a.above,
        a.below,
    ]
}

/// Whether `i` is the index of the first failed reply.
pub open spec fn is_first_error(replies: Seq<Result<Atom, GenericError>>, i: int) -> bool {
    &&& 0 <= i < replies.len()
    &&& replies[i] is Err
    &&& forall|j: int| 0 <= j < i ==> (#[trigger] replies[j]) is Ok
}

/// The actions every window allows.
pub open spec fn base_actions(a: ActionAtoms) -> Seq<Atom> {
    seq![
        a.move_,
        a.minimize,
        a.shade,
        a.stick,
        a.maximize_h,
        a.maximize_v,
        a.fullscreen,
        a.change_desktop,
        a.above,
        a.below,
    ]
}

/// The actions a window allows: the base actions, then closing and resizing
/// where the window is closable and resizable.
pub open spec fn allowed_actions_spec(a: ActionAtoms, closable: bool, resizable: bool) -> Seq<
    Atom,
> {
    let with_close = if closable {
        base_actions(a).push(a.close)
    } else {
        base_actions(a)
    };
    if resizable {
        with_close.push(a.resize)
    } else {
        with_close
    }
}

impl ActionAtoms {
    /// The atom names to intern, in the order in which `init` takes their replies.
    pub fn names() -> (r: Vec<&'static str>)
        ensures
            r@ == action_atom_names_spec(),
    {
        let r = vec![
            "_NET_WM_ALLOWED_ACTIONS",
            "_NET_WM_ACTION_MOVE",
            "_NET_WM_ACTION_RESIZE",
            "_NET_WM_ACTION_MINIMIZE",
            "_NET_WM_ACTION_SHADE",
            "_NET_WM_ACTION_STICK",
            "_NET_WM_ACTION_MAXIMIZE_HORZ",
            "_NET_WM_ACTION_MAXIMIZE_VERT",
            "_NET_WM_ACTION_FULLSCREEN",
            "_NET_WM_ACTION_CHANGE_DESKTOP",
            "_NET_WM_ACTION_CLOSE",
            "_NET_WM_ACTION_ABOVE",
            "_NET_WM_ACTION_BELOW",
        ];
        assert(r@ =~= action_atom_names_spec());
        r
    }

    /// The atoms from the replies to interning `names()`, in that order; the
    /// first failed reply's error where one failed.
    pub fn init(replies: &Vec<Result<Atom, GenericError>>) -> (r: Result<Self, GenericError>)
        requires
            replies@.len() == ACTION_ATOM_COUNT,
        ensures
            r is Ok <==> forall|j: int| 0 <= j < replies@.len() ==> (#[trigger] replies@[j]) is Ok,
            r matches Ok(a) ==> forall|j: int|
                0 <= j < replies@.len() ==> replies@[j] == Ok::<Atom, GenericError>(
                    #[trigger] action_atoms_seq(a)[j],
                ),
            r matches Err(e) ==> exists|i: int|
                is_first_error(replies@, i) && replies@[i] == Err::<Atom, GenericError>(e),
    {
        let mut atoms: Vec<Atom> = Vec::new();
        let mut i: usize = 0;
        while i < replies.len()
            invariant
                0 <= i <= replies@.len(),
                atoms@.len() == i,
                forall|j: int| 0 <= j < i ==> replies@[j] == Ok::<Atom, GenericError>(#[trigger] atoms@[j]),
            decreases replies@.len() - i,
        {
            match &replies[i] {
                Ok(a) => {
                    atoms.push(*a);
                },
                Err(e) => {
                    assert forall|j: int| 0 <= j < i implies (#[trigger] replies@[j]) is Ok by {
                        assert(replies@[j] == Ok::<Atom, GenericError>(atoms@[j]));
                    }
                    assert(is_first_error(replies@, i as int));
                    return Err(*e);
                },
            }
            i = i + 1;
        }
        let a = ActionAtoms {
            allowed_actions: atoms[0],
            move_: atoms[1],
            resize: atoms[2],
            minimize: atoms[3],
            shade: atoms[4],
            stick: atoms[5],
            maximize_h: atoms[6],
            maximize_v: atoms[7],
            fullscreen: atoms[8],
            change_desktop: atoms[9],
            close: atoms[10],
            above: atoms[11],
            below: atoms[12],
        };
        assert(action_atoms_seq(a) =~= atoms@);
        Ok(a)
    }

    /// The actions a window allows; see `allowed_actions_spec`.
    pub fn allowed_actions(&self, closable: bool, resizable: bool) -> (r: Vec<Atom>)
        ensures
            r@ == allowed_actions_spec(*self, closable, resizable),
    {
        let mut r = vec![
            self.move_,
            self.minimize,
            self.shade,
            self.stick,
            self.maximize_h,
            self.maximize_v,
            self.fullscreen,
            self.change_desktop,
            self.above,
            self.below,
        ];
        assert(r@ =~= base_actions(*self));
        if closable {
            r.push(self.close);
        }
        if resizable {
            r.push(self.resize);
        }
        r
    }
}

/// Why no visual could be chosen.
#[derive(Clone, Copy, Debug, PartialEq, Eq, Structural)]
pub enum VisualError {
    /// The display has no screen.
    NoScreen,
    /// The first screen does not allow the wanted depth.
    NoDepth,
    /// The first depth of that bit count has no TrueColor visual.
    NoTrueColor,
}

/// The root window and visual that windows are created with.
#[derive(Clone, Copy, Debug, PartialEq, Eq, Structural)]
pub struct VisualChoice {
    pub root: WindowID,
    pub visual: VisualID,
}

/// Whether `i` is the index of the first depth of `bits` bits.
pub open spec fn is_first_depth(depths: Seq<Depth>, bits: u8, i: int) -> bool {
    &&& 0 <= i < depths.len()
    &&& depths[i].depth == bits
    &&& forall|j: int| 0 <= j < i ==> (#[trigger] depths[j]).depth != bits
}

/// Whether `i` is the index of the first TrueColor visual.
pub open spec fn is_first_truecolor(visuals: Seq<VisualType>, i: int) -> bool {
    &&& 0 <= i < visuals.len()
    &&& visuals[i].class == VISUAL_CLASS_TRUE_COLOR
    &&& forall|j: int| 0 <= j < i ==> (#[trigger] visuals[j]).class != VISUAL_CLASS_TRUE_COLOR
}

fn find_depth(screen: &Screen, bits: u8) -> (r: Option<&Depth>)
    ensures
        r is None <==> forall|j: int|
            0 <= j < screen.allowed_depths@.len() ==> (#[trigger] screen.allowed_depths@[j]).depth
                != bits,
        r matches Some(d) ==> exists|i: int|
            is_first_depth(screen.allowed_depths@, bits, i) && *d == screen.allowed_depths@[i],
{
    let mut it = screen.iter_allowed_depths();
    loop
        invariant
            it.items@ == screen.allowed_depths@,
            0 <= it.pos <= it.items@.len(),
            forall|j: int| 0 <= j < it.pos ==> (#[trigger] it.items@[j]).depth != bits,
        decreases it.items@.len() - it.pos,
    {
        let p = it.pos;
        match it.next() {
            Some(d) => {
                if d.depth() == bits {
                    assert(is_first_depth(screen.allowed_depths@, bits, p as int));
                    return Some(d);
                }
            },
            None => {
                return None;
            },
        }
    }
}

fn find_truecolor(depth: &Depth) -> (r: Option<VisualID>)
    ensures
        r is None <==> forall|j: int|
            0 <= j < depth.visuals@.len() ==> (#[trigger] depth.visuals@[j]).class
                != VISUAL_CLASS_TRUE_COLOR,
        r matches Some(v) ==> exists|i: int|
            is_first_truecolor(depth.visuals@, i) && v == depth.visuals@[i].visual_id,
{
    let mut it = depth.iter_visuals();
    loop
        invariant
            it.items@ == depth.visuals@,
            0 <= it.pos <= it.items@.len(),
            forall|j: int| 0 <= j < it.pos ==> (#[trigger] it.items@[j]).class
                != VISUAL_CLASS_TRUE_COLOR,
        decreases it.items@.len() - it.pos,
    {
        let p = it.pos;
        match it.next() {
            Some(v) => {
                if v.is_truecolor() {
                    assert(is_first_truecolor(depth.visuals@, p as int));
                    return Some(v.id());
                }
            },
            None => {
                return None;
            },
        }
    }
}

/// Chooses the root window of the first screen and the first TrueColor visual of
/// its first depth of `bits` bits.
pub fn select_visual(setup: &Setup, bits: u8) -> (r: Result<VisualChoice, VisualError>)
    ensures
        r == Err::<VisualChoice, VisualError>(VisualError::NoScreen) <==> setup.roots@.len() == 0,
        r is Ok <==> setup.roots@.len() > 0 && exists|i: int, k: int|
            #[trigger] is_first_depth(setup.roots@[0].allowed_depths@, bits, i)
                && #[trigger] is_first_truecolor(setup.roots@[0].allowed_depths@[i].visuals@, k),
        setup.roots@.len() > 0 ==> ({
            let s = setup.roots@[0];
            &&& (forall|j: int| 0 <= j < s.allowed_depths@.len() ==> (#[trigger] s.allowed_depths@[j]).depth != bits)
                <==> r == Err::<VisualChoice, VisualError>(VisualError::NoDepth)
            &&& (exists|i: int| #[trigger] is_first_depth(s.allowed_depths@, bits, i) && (forall|j: int|
                0 <= j < s.allowed_depths@[i].visuals@.len() ==> (#[trigger] s.allowed_depths@[i].visuals@[j]).class
                    != VISUAL_CLASS_TRUE_COLOR)) <==> r == Err::<VisualChoice, VisualError>(VisualError::NoTrueColor)
            &&& r matches Ok(c) ==> c.root == s.root && exists|i: int, k: int|
                #[trigger] is_first_depth(s.allowed_depths@, bits, i) && #[trigger] is_first_truecolor(s.allowed_depths@[i].visuals@, k)
                    && c.visual == s.allowed_depths@[i].visuals@[k].visual_id
        }),
{
    let mut roots = setup.iter_roots();
    let screen = match roots.next() {
        Some(s) => s,
        None => {
            return Err(VisualError::NoScreen);
        },
    };
    let depth = match find_depth(screen, bits) {
        Some(d) => d,
        None => {
            return Err(VisualError::NoDepth);
        },
    };
    proof {
        let ds = screen.allowed_depths@;
        assert forall|i: int, i2: int| is_first_depth(ds, bits, i) && is_first_depth(ds, bits, i2)
            implies i == i2 by {
            if i < i2 {
                assert(ds[i].depth != bits);
            }
            if i2 < i {
                assert(ds[i2].depth != bits);
            }
        }
    }
    match find_truecolor(depth) {
        Some(v) => Ok(VisualChoice { root: screen.root(), visual: v }),
        None => Err(VisualError::NoTrueColor),
    }
}

/// What the event loop does after an event.
#[derive(Clone, Copy, Debug, PartialEq, Eq, Structural)]
pub enum LoopStep {
    /// The window manager asked to close the window: leave the loop.
    Quit,
    /// Part of the window needs painting: render a frame.
    Render,
    /// Nothing to do.
    Continue,
}

/// Whether a client message is the window manager's request to close the window.
pub open spec fn is_delete_request(m: ClientMessageEvent, wm_protocols: Atom, wm_delete_window: Atom) -> bool {
    m.type_atom == wm_protocols && m.data@[0] == wm_delete_window
}

/// The loop step for event `e`; `message` is its content where it is a client message.
pub open spec fn loop_step_spec(
    e: GenericEvent,
    message: Option<ClientMessageEvent>,
    wm_protocols: Atom,
    wm_delete_window: Atom,
) -> LoopStep {
    let kind = e.raw_response_type & 0x7f;
    if kind == CLIENT_MESSAGE && (message matches Some(m) && is_delete_request(m, wm_protocols, wm_delete_window)) {
        LoopStep::Quit
    } else if kind == EXPOSE {
        LoopStep::Render
    } else {
        LoopStep::Continue
    }
}

/// Decides what the event loop does after event `e`.
pub fn loop_step(
    e: &GenericEvent,
    message: Option<&ClientMessageEvent>,
    wm_protocols: Atom,
    wm_delete_window: Atom,
) -> (r: LoopStep)
    ensures
        r == loop_step_spec(*e, match message { Some(m) => Some(*m), None => None }, wm_protocols, wm_delete_window),
{
    let kind = e.response_type();
    if kind == CLIENT_MESSAGE {
        if let Some(m) = message {
            if m.msg_type() == wm_protocols && m.data_as_u32() == wm_delete_window {
                return LoopStep::Quit;
            }
        }
    }
    if kind == EXPOSE {
        LoopStep::Render
    } else {
        LoopStep::Continue
    }
}

} // verus!

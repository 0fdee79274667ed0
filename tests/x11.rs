use appframe::rxcb::{
    ClientMessageEvent, Colormap, Depth, Event, GenericError, GenericEvent, PropertyType, Screen,
    Setup, VisualType, Window, WindowIOClass, WindowValueList, ATOM_ATOM, ATOM_STRING,
    ATOM_WM_NAME, CLIENT_MESSAGE, CW_BACK_PIXEL, CW_EVENT_MASK, EVENT_MASK_EXPOSURE, PROP_MODE_REPLACE,
};
use appframe::x11::{select_visual, loop_step, ActionAtoms, LoopStep, VisualChoice, VisualError, BITDEPTH};

fn atoms() -> ActionAtoms {
    let replies: Vec<Result<u32, GenericError>> = (100..113).map(Ok).collect();
    ActionAtoms::init(&replies).unwrap()
}

fn visual(id: u32, class: u8) -> VisualType {
    VisualType { visual_id: id, class }
}

fn setup() -> Setup {
    Setup {
        roots: vec![
            Screen {
                root: 0x1a5,
                allowed_depths: vec![
                    Depth { depth: 8, visuals: vec![visual(1, 4)] },
                    Depth { depth: 24, visuals: vec![visual(2, 3), visual(3, 4), visual(4, 4)] },
                    Depth { depth: 24, visuals: vec![visual(5, 4)] },
                    Depth { depth: 32, visuals: vec![visual(6, 2)] },
                ],
            },
            Screen { root: 0x2b0, allowed_depths: vec![] },
        ],
    }
}

#[test]
fn action_atoms_take_replies_in_order() {
    let a = atoms();
    assert_eq!(a.allowed_actions, 100);
    assert_eq!(a.move_, 101);
    assert_eq!(a.resize, 102);
    assert_eq!(a.close, 110);
    assert_eq!(a.below, 112);
    let names = ActionAtoms::names();
    assert_eq!(names.len(), 13);
    assert_eq!(names[0], "_NET_WM_ALLOWED_ACTIONS");
    assert_eq!(names[2], "_NET_WM_ACTION_RESIZE");
    assert_eq!(names[10], "_NET_WM_ACTION_CLOSE");
}

#[test]
fn action_atoms_report_first_failed_reply() {
    let mut replies: Vec<Result<u32, GenericError>> = (100..113).map(Ok).collect();
    replies[4] = Err(GenericError { error_code: 11 });
    replies[9] = Err(GenericError { error_code: 2 });
    assert_eq!(ActionAtoms::init(&replies), Err(GenericError { error_code: 11 }));
}

#[test]
fn allowed_actions_follow_closable_and_resizable() {
    let a = atoms();
    let base = vec![101, 103, 104, 105, 106, 107, 108, 109, 111, 112];
    assert_eq!(a.allowed_actions(false, false), base);
    let mut both = base.clone();
    both.push(110);
    both.push(102);
    assert_eq!(a.allowed_actions(true, true), both);
    let mut resize_only = base.clone();
    resize_only.push(102);
    assert_eq!(a.allowed_actions(false, true), resize_only);
}

#[test]
fn select_visual_takes_first_truecolor_of_first_matching_depth() {
    assert_eq!(select_visual(&setup(), BITDEPTH), Ok(VisualChoice { root: 0x1a5, visual: 3 }));
    assert_eq!(select_visual(&setup(), 8), Ok(VisualChoice { root: 0x1a5, visual: 1 }));
}

#[test]
fn select_visual_reports_each_failure() {
    assert_eq!(select_visual(&Setup { roots: vec![] }, 24), Err(VisualError::NoScreen));
    assert_eq!(select_visual(&setup(), 16), Err(VisualError::NoDepth));
    assert_eq!(select_visual(&setup(), 32), Err(VisualError::NoTrueColor));
}

#[test]
fn cursors_walk_every_item_once() {
    let s = setup();
    let mut roots = s.iter_roots();
    assert_eq!(roots.next().unwrap().root(), 0x1a5);
    assert_eq!(roots.next().unwrap().root(), 0x2b0);
    assert!(roots.next().is_none());
    let scr = &s.roots[0];
    let mut depths = scr.iter_allowed_depths();
    let mut seen = Vec::new();
    while let Some(d) = depths.next() {
        seen.push(d.depth());
    }
    assert_eq!(seen, vec![8, 24, 24, 32]);
    let mut visuals = scr.allowed_depths[1].iter_visuals();
    let v = visuals.next().unwrap();
    assert_eq!(v.id(), 2);
    assert!(!v.is_truecolor());
    assert!(visuals.next().unwrap().is_truecolor());
}

#[test]
fn response_type_drops_the_sent_bit() {
    assert_eq!(GenericEvent { raw_response_type: 0x80 | 33 }.response_type(), 33);
    assert_eq!(GenericEvent { raw_response_type: 12 }.response_type(), 12);
    assert_eq!(<ClientMessageEvent as Event>::response_enum(), CLIENT_MESSAGE);
    assert_eq!(<GenericError as Event>::response_enum(), 0);
}

#[test]
fn loop_quits_on_delete_request_only() {
    let wm_protocols = 300;
    let wm_delete = 301;
    let e = GenericEvent { raw_response_type: 33 };
    let m = ClientMessageEvent { window: 5, type_atom: 300, data: [301, 0, 0, 0, 0] };
    assert_eq!(m.msg_type(), 300);
    assert_eq!(m.data_as_u32(), 301);
    assert_eq!(loop_step(&e, Some(&m), wm_protocols, wm_delete), LoopStep::Quit);
    let other = ClientMessageEvent { window: 5, type_atom: 300, data: [999, 0, 0, 0, 0] };
    assert_eq!(loop_step(&e, Some(&other), wm_protocols, wm_delete), LoopStep::Continue);
    assert_eq!(loop_step(&e, None, wm_protocols, wm_delete), LoopStep::Continue);
    assert_eq!(loop_step(&GenericEvent { raw_response_type: 12 }, None, wm_protocols, wm_delete), LoopStep::Render);
    assert_eq!(loop_step(&GenericEvent { raw_response_type: 2 }, None, wm_protocols, wm_delete), LoopStep::Continue);
}

#[test]
fn replace_property_encodes_strings_and_atoms() {
    let w = Window(0x400001);
    assert_eq!(w.id(), 0x400001);
    let title = w.replace_property(ATOM_WM_NAME, "Hé");
    assert_eq!(title.mode, PROP_MODE_REPLACE);
    assert_eq!(title.window, 0x400001);
    assert_eq!(title.property, ATOM_WM_NAME);
    assert_eq!(title.type_atom, ATOM_STRING);
    assert_eq!(title.format, 8);
    assert_eq!(title.elements, vec![0x48, 0xC3, 0xA9]);
    let one = w.replace_property(300, &301u32);
    assert_eq!(one.type_atom, ATOM_ATOM);
    assert_eq!(one.format, 32);
    assert_eq!(one.elements, vec![301]);
    let list: Vec<u32> = vec![7, 8, 9];
    let many = w.replace_property(302, &list[..]);
    assert_eq!(many.format, 32);
    assert_eq!(many.elements, vec![7, 8, 9]);
    assert_eq!("ab".data_stride(), 8);
}

#[test]
fn value_list_serializes_in_mask_bit_order() {
    let mut l = WindowValueList::new();
    assert!(l.serialize().is_empty());
    l.colormap(&Colormap(0x77));
    l.border_pixel(0x11);
    l.back_pixel(0x22);
    assert_eq!(l.0, 0x2000 | 0x8 | 0x2);
    assert_eq!(l.serialize(), vec![0x22, 0x11, 0x77]);
    assert_eq!(Colormap(0x77).id(), 0x77);
}

#[test]
fn window_classes_have_protocol_codes() {
    assert_eq!(WindowIOClass::FromParent.code(), 0);
    assert_eq!(WindowIOClass::InputOutput.code(), 1);
    assert_eq!(WindowIOClass::InputOnly.code(), 2);
}

#[test]
fn fresh_value_list_holds_zeros_and_event_mask_serializes_in_order() {
    let mut l = WindowValueList::new();
    l.back_pixel(0);
    assert_eq!(l.0, CW_BACK_PIXEL);
    assert_eq!(l.1.background_pixel, 0);
    assert_eq!(l.1.border_pixel, 0);
    assert_eq!(l.1.colormap, 0);
    assert_eq!(l.1.cursor, 0);
    l.colormap(&Colormap(9));
    l.event_mask(EVENT_MASK_EXPOSURE);
    assert_eq!(l.0 & CW_EVENT_MASK, CW_EVENT_MASK);
    assert_eq!(l.serialize(), vec![0, EVENT_MASK_EXPOSURE, 9]);
}

use appframe::surface::Extent2D;
use appframe::win32::{message_step, MessageStep, WM_DESTROY, WM_PAINT, WM_SIZE};
use appframe::window::{NativeWindowBuilder, CS_NOCLOSE, CS_OWNDC, WS_MAXIMIZEBOX, WS_THICKFRAME};

#[test]
fn builder_defaults_to_closable_resizable_opaque() {
    let b = NativeWindowBuilder::new(640, 360, "AppFrame");
    assert!(b.closable && b.resizable && !b.transparent);
    assert_eq!(b.caption, "AppFrame");
    assert_eq!(b.client_extent(), Extent2D { width: 640, height: 360 });
    assert_eq!(b.win32_style(), 0x00CF_0000);
    assert_eq!(b.win32_class_style(), CS_OWNDC);
    assert_eq!(b.appkit_style_mask(), 0b1111);
}

#[test]
fn builder_flags_map_to_style_bits() {
    let b = NativeWindowBuilder::new(640, 360, "x").resizable(false).closable(false).transparent(true);
    assert!(b.transparent);
    assert_eq!(b.win32_style() & (WS_THICKFRAME | WS_MAXIMIZEBOX), 0);
    assert_eq!(b.win32_style(), 0x00CA_0000);
    assert_eq!(b.win32_class_style(), CS_OWNDC | CS_NOCLOSE);
    assert_eq!(b.appkit_style_mask(), 0b0101);
    let c = b.resizable(true);
    assert_eq!(c.appkit_style_mask(), 0b1101);
}

#[test]
fn win32_messages_map_to_window_steps() {
    assert_eq!(message_step(WM_DESTROY, 0), MessageStep::Quit);
    assert_eq!(message_step(WM_PAINT, 0), MessageStep::Render);
    assert_eq!(message_step(WM_SIZE, (360 << 16) | 640), MessageStep::Resize { width: 640, height: 360 });
    assert_eq!(message_step(WM_SIZE, 0xFFFF_0000), MessageStep::Resize { width: 0, height: 0xFFFF });
    assert_eq!(message_step(0x0100, 7), MessageStep::Default);
}

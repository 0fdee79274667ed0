use appframe::host::{ApplicationHost, Dispatch, NativeSignal};

#[test]
fn postinit_is_dispatched_once_whatever_the_activations() {
    let mut h = ApplicationHost::new();
    assert!(!h.is_launched());
    let signals = [
        NativeSignal::Activated,
        NativeSignal::Ready,
        NativeSignal::Activated,
        NativeSignal::Ready,
        NativeSignal::Activated,
        NativeSignal::Activated,
    ];
    let mut postinits = 0;
    let mut activations = 0;
    for s in signals.iter() {
        match h.signal(*s) {
            Dispatch::PostInit => postinits += 1,
            Dispatch::OnActivated => activations += 1,
            Dispatch::Nothing => {}
        }
    }
    assert_eq!(postinits, 1);
    assert_eq!(activations, 4);
    assert!(h.is_launched());
}

#[test]
fn second_ready_dispatches_nothing() {
    let mut h = ApplicationHost::new();
    assert_eq!(h.signal(NativeSignal::Ready), Dispatch::PostInit);
    assert_eq!(h.signal(NativeSignal::Ready), Dispatch::Nothing);
    assert_eq!(h.signal(NativeSignal::Activated), Dispatch::OnActivated);
}

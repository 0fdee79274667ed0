use appframe::render::{
    Phase, RenderAction, RenderCommandSet, RenderError, RenderEvent, RenderTargetSet,
    SurfaceLifecycle, TargetPlan, Work,
};
use appframe::surface::{
    ComponentLayout, ElementType, Extent2D, PresentMode, SurfaceCapabilities, SurfaceDescriptor,
    SurfaceFormat, UNDEFINED_EXTENT,
};

const W640: Extent2D = Extent2D { width: 640, height: 360 };

fn descriptor(min_images: u32) -> SurfaceDescriptor {
    let formats = vec![SurfaceFormat {
        code: 44,
        bits: 32,
        components: ComponentLayout::RGBA,
        element: ElementType::UNorm,
    }];
    let caps = SurfaceCapabilities {
        min_image_count: min_images,
        current_extent: W640,
        supported_composite_alpha: 1,
    };
    SurfaceDescriptor::resolve(true, &caps, &formats, &vec![PresentMode::Fifo]).unwrap()
}

fn send(m: &mut SurfaceLifecycle, e: RenderEvent) -> RenderAction {
    assert!(m.accepts(&e), "event out of order: {:?}", e);
    m.step(e)
}

/// A window of 640x360 whose view was realized and whose targets were built with `images` images.
fn live_window(min_images: u32, images: u32) -> SurfaceLifecycle {
    let mut m = SurfaceLifecycle::new(W640);
    let d = descriptor(min_images);
    let a = send(&mut m, RenderEvent::ViewRealized { descriptor: d, current_extent: W640 });
    assert_eq!(a, RenderAction::BuildTargets(TargetPlan { descriptor: d, extent: W640 }));
    let a = send(&mut m, RenderEvent::TargetsBuilt { image_count: images });
    assert_eq!(a, RenderAction::RecordCommands(RenderTargetSet { extent: W640, image_count: images }));
    assert_eq!(send(&mut m, RenderEvent::CommandsRecorded), RenderAction::Idle);
    m
}

#[test]
fn first_render_after_create_builds_one_swapchain() {
    let mut m = live_window(1, 2);
    assert_eq!(m.phase(), Phase::Live);
    assert_eq!(m.descriptor().unwrap().buffer_count, 2);
    let a = send(&mut m, RenderEvent::Tick { current_extent: W640 });
    assert_eq!(a, RenderAction::SubmitAndPresent(RenderCommandSet { extent: W640, sequence_count: 2 }));
    assert_eq!(send(&mut m, RenderEvent::Presented), RenderAction::FrameDone);
    assert_eq!(m.builds(), 1);
    assert_eq!(m.submissions(), 1);
    assert_eq!(m.work(), Work::Idle);
}

#[test]
fn scenario_640x360_one_swapchain_one_framebuffer_per_image() {
    let mut m = SurfaceLifecycle::new(W640);
    assert_eq!(m.phase(), Phase::Created);
    let d = descriptor(3);
    let a = send(&mut m, RenderEvent::ViewRealized { descriptor: d, current_extent: W640 });
    let plan = match a {
        RenderAction::BuildTargets(p) => p,
        other => panic!("expected a build, got {:?}", other),
    };
    assert_eq!(plan.extent, W640);
    assert_eq!(plan.descriptor.buffer_count, 3);
    send(&mut m, RenderEvent::TargetsBuilt { image_count: 3 });
    send(&mut m, RenderEvent::CommandsRecorded);
    // the view may be realized once only
    assert!(!m.accepts(&RenderEvent::ViewRealized { descriptor: d, current_extent: W640 }));
    let a = send(&mut m, RenderEvent::Tick { current_extent: W640 });
    assert_eq!(a, RenderAction::SubmitAndPresent(RenderCommandSet { extent: W640, sequence_count: 3 }));
    send(&mut m, RenderEvent::Presented);
    assert_eq!(m.builds(), 1);
    assert_eq!(m.targets(), Some(RenderTargetSet { extent: W640, image_count: 3 }));
    assert_eq!(m.commands().unwrap().sequence_count, m.targets().unwrap().image_count);
}

#[test]
fn scenario_resize_to_zero_width_skips_renders_until_nonzero_resize() {
    let mut m = live_window(2, 2);
    let zero = Extent2D { width: 0, height: 200 };
    let a = send(&mut m, RenderEvent::Resized { live: false, current_extent: zero });
    assert_eq!(a, RenderAction::Idle);
    assert_eq!(m.targets(), None);
    assert_eq!(m.commands(), None);
    for _ in 0..3 {
        assert_eq!(send(&mut m, RenderEvent::Tick { current_extent: zero }), RenderAction::Idle);
    }
    assert_eq!(m.submissions(), 0);
    assert_eq!(m.builds(), 1);
    let back = Extent2D { width: 300, height: 200 };
    let a = send(&mut m, RenderEvent::Resized { live: false, current_extent: back });
    assert_eq!(a, RenderAction::BuildTargets(TargetPlan { descriptor: descriptor(2), extent: back }));
    send(&mut m, RenderEvent::TargetsBuilt { image_count: 2 });
    assert_eq!(send(&mut m, RenderEvent::CommandsRecorded), RenderAction::RequestRedraw);
    assert_eq!(m.builds(), 2);
    let a = send(&mut m, RenderEvent::Tick { current_extent: back });
    assert_eq!(a, RenderAction::SubmitAndPresent(RenderCommandSet { extent: back, sequence_count: 2 }));
}

#[test]
fn render_after_zero_area_resize_makes_no_submission() {
    let mut m = live_window(2, 2);
    let zero = Extent2D { width: 500, height: 0 };
    send(&mut m, RenderEvent::Resized { live: false, current_extent: Extent2D { width: 400, height: 300 } });
    send(&mut m, RenderEvent::TargetsBuilt { image_count: 2 });
    send(&mut m, RenderEvent::CommandsRecorded);
    send(&mut m, RenderEvent::Resized { live: false, current_extent: zero });
    let before = m.submissions();
    assert_eq!(send(&mut m, RenderEvent::Tick { current_extent: zero }), RenderAction::Idle);
    assert_eq!(m.submissions(), before);
    assert_eq!(m.phase(), Phase::Live);
}

#[test]
fn live_drag_resize_defers_rebuild() {
    let mut m = live_window(2, 2);
    let a = send(&mut m, RenderEvent::Resized { live: true, current_extent: Extent2D { width: 700, height: 400 } });
    assert_eq!(a, RenderAction::Idle);
    assert_eq!(m.targets(), Some(RenderTargetSet { extent: W640, image_count: 2 }));
    assert_eq!(m.builds(), 1);
}

#[test]
fn out_of_date_once_recovers_within_the_tick() {
    let mut m = live_window(2, 2);
    send(&mut m, RenderEvent::Tick { current_extent: W640 });
    assert_eq!(send(&mut m, RenderEvent::OutOfDate), RenderAction::RetireAndRequery);
    assert_eq!(m.targets(), None);
    let bigger = Extent2D { width: 800, height: 450 };
    let a = send(&mut m, RenderEvent::Retired { current_extent: bigger });
    assert_eq!(a, RenderAction::BuildTargets(TargetPlan { descriptor: descriptor(2), extent: bigger }));
    send(&mut m, RenderEvent::TargetsBuilt { image_count: 3 });
    let a = send(&mut m, RenderEvent::CommandsRecorded);
    assert_eq!(a, RenderAction::SubmitAndPresent(RenderCommandSet { extent: bigger, sequence_count: 3 }));
    assert_eq!(send(&mut m, RenderEvent::Presented), RenderAction::FrameDone);
    assert_eq!(m.phase(), Phase::Live);
    assert_eq!(m.builds(), 2);
    assert_eq!(m.submissions(), 2);
}

#[test]
fn out_of_date_twice_is_fatal() {
    let mut m = live_window(2, 2);
    send(&mut m, RenderEvent::Tick { current_extent: W640 });
    send(&mut m, RenderEvent::OutOfDate);
    send(&mut m, RenderEvent::Retired { current_extent: W640 });
    send(&mut m, RenderEvent::TargetsBuilt { image_count: 2 });
    send(&mut m, RenderEvent::CommandsRecorded);
    assert_eq!(send(&mut m, RenderEvent::OutOfDate), RenderAction::Fatal(RenderError::SurfaceLost));
    assert_eq!(m.phase(), Phase::Failed);
    assert!(!m.accepts(&RenderEvent::Tick { current_extent: W640 }));
    assert_eq!(send(&mut m, RenderEvent::Closed), RenderAction::Teardown);
}

#[test]
fn retry_into_zero_area_skips_the_frame() {
    let mut m = live_window(2, 2);
    send(&mut m, RenderEvent::Tick { current_extent: W640 });
    send(&mut m, RenderEvent::OutOfDate);
    let a = send(&mut m, RenderEvent::Retired { current_extent: Extent2D { width: 0, height: 0 } });
    assert_eq!(a, RenderAction::Idle);
    assert_eq!(m.work(), Work::Idle);
    assert_eq!(m.phase(), Phase::Live);
}

#[test]
fn undefined_extent_builds_at_logical_size() {
    let mut m = SurfaceLifecycle::new(W640);
    let d = descriptor(2);
    let undefined = Extent2D { width: UNDEFINED_EXTENT, height: UNDEFINED_EXTENT };
    let a = send(&mut m, RenderEvent::ViewRealized { descriptor: d, current_extent: undefined });
    assert_eq!(a, RenderAction::BuildTargets(TargetPlan { descriptor: d, extent: W640 }));
}

#[test]
fn zero_sized_view_starts_empty_and_builds_on_first_tick() {
    let mut m = SurfaceLifecycle::new(W640);
    let d = descriptor(2);
    let zero = Extent2D { width: 0, height: 0 };
    assert_eq!(send(&mut m, RenderEvent::ViewRealized { descriptor: d, current_extent: zero }), RenderAction::Idle);
    assert_eq!(m.phase(), Phase::Live);
    assert_eq!(m.builds(), 0);
    let a = send(&mut m, RenderEvent::Tick { current_extent: W640 });
    assert_eq!(a, RenderAction::BuildTargets(TargetPlan { descriptor: d, extent: W640 }));
    send(&mut m, RenderEvent::TargetsBuilt { image_count: 2 });
    let a = send(&mut m, RenderEvent::CommandsRecorded);
    assert_eq!(a, RenderAction::SubmitAndPresent(RenderCommandSet { extent: W640, sequence_count: 2 }));
}

#[test]
fn events_out_of_order_are_refused() {
    let m = SurfaceLifecycle::new(W640);
    assert!(!m.accepts(&RenderEvent::Tick { current_extent: W640 }));
    assert!(!m.accepts(&RenderEvent::Resized { live: false, current_extent: W640 }));
    assert!(!m.accepts(&RenderEvent::Presented));
    assert!(!m.accepts(&RenderEvent::TargetsBuilt { image_count: 2 }));
    assert!(m.accepts(&RenderEvent::Closed));
}

#[test]
fn closing_tears_down_everything() {
    let mut m = live_window(2, 2);
    assert_eq!(send(&mut m, RenderEvent::Closed), RenderAction::Teardown);
    assert_eq!(m.phase(), Phase::Destroyed);
    assert_eq!(m.targets(), None);
    assert_eq!(m.commands(), None);
    assert!(!m.accepts(&RenderEvent::Closed));
    assert_eq!(m.logical_extent(), W640);
}

#[test]
fn failed_work_returns_to_idle_and_rebuilds_next_tick() {
    let mut m = live_window(2, 2);
    send(&mut m, RenderEvent::Resized { live: false, current_extent: Extent2D { width: 300, height: 200 } });
    assert!(m.accepts(&RenderEvent::WorkFailed));
    assert_eq!(send(&mut m, RenderEvent::WorkFailed), RenderAction::Idle);
    assert_eq!(m.work(), Work::Idle);
    assert_eq!(m.targets(), None);
    assert!(!m.accepts(&RenderEvent::WorkFailed));
    let a = send(&mut m, RenderEvent::Tick { current_extent: Extent2D { width: 300, height: 200 } });
    assert!(matches!(a, RenderAction::BuildTargets(_)));
}

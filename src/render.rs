//! The render-target state machine of one renderable window.
//!
//! The GPU and the native window are driven from outside: the caller reports
//! each event, performs the action that `SurfaceLifecycle::step` returns, and
//! reports its outcome as the next event.

use vstd::prelude::*;
use crate::cell::{DiscardableCell, LazyCell};
use crate::surface::{
    drawable_extent, is_undefined_extent, resolve_drawable_extent, Extent2D, SurfaceDescriptor,
};

verus! {

/// A swapchain with its image views and one framebuffer per image, all sized to one extent.
#[derive(Clone, Copy, Debug, PartialEq, Eq, Structural)]
pub struct RenderTargetSet {
    pub extent: Extent2D,
    pub image_count: u32,
}

/// One recorded command sequence per image of a render target set.
#[derive(Clone, Copy, Debug, PartialEq, Eq, Structural)]
pub struct RenderCommandSet {
    pub extent: Extent2D,
    pub sequence_count: u32,
}

/// What a render target set is to be built with.
#[derive(Clone, Copy, Debug, PartialEq, Eq, Structural)]
pub struct TargetPlan {
    pub descriptor: SurfaceDescriptor,
    pub extent: Extent2D,
}

/// Where a window stands in its life.
#[derive(Clone, Copy, Debug, PartialEq, Eq, Structural)]
pub enum Phase {
    /// The native view does not exist yet.
    Created,
    /// The view exists and its surface descriptor is resolved.
    Live,
    /// Presentation failed for good; only closing remains.
    Failed,
    /// The window was closed.
    Destroyed,
}

/// Why render targets are being built.
#[derive(Clone, Copy, Debug, PartialEq, Eq, Structural)]
pub enum BuildReason {
    /// The view was just realized.
    Setup,
    /// The window was resized outside a live drag.
    Resize,
    /// A frame is being rendered; `retried` once the surface was found out of date.
    Frame { retried: bool },
}

/// The outside work that the machine waits for.
#[derive(Clone, Copy, Debug, PartialEq, Eq, Structural)]
pub enum Work {
    Idle,
    Building { reason: BuildReason, extent: Extent2D },
    Recording { reason: BuildReason },
    Presenting { retried: bool },
    Retiring,
}

/// What happened outside.
#[derive(Clone, Copy, Debug, PartialEq, Eq, Structural)]
pub enum RenderEvent {
    /// The native view exists; its surface resolved to `descriptor` and reports `current_extent`.
    ViewRealized { descriptor: SurfaceDescriptor, current_extent: Extent2D },
    /// A periodic or paint signal asks for a frame; the surface reports `current_extent`.
    Tick { current_extent: Extent2D },
    /// The window was resized; `live` inside an interactive drag.
    Resized { live: bool, current_extent: Extent2D },
    /// The planned render target set was built with `image_count` images.
    TargetsBuilt { image_count: u32 },
    /// The command sequences were recorded.
    CommandsRecorded,
    /// The frame was submitted and presented, and its work retired.
    Presented,
    /// Acquiring or presenting reported the surface out of date.
    OutOfDate,
    /// In-flight work retired; the surface now reports `current_extent`.
    Retired { current_extent: Extent2D },
    /// The outside work that was asked for failed; whatever it built was released.
    WorkFailed,
    /// The native window was closed.
    Closed,
}

/// A presentation failure reported to the caller.
#[derive(Clone, Copy, Debug, PartialEq, Eq, Structural)]
pub enum RenderError {
    /// The surface was out of date twice in a row for one frame.
    SurfaceLost,
}

/// What the caller is to do next.
#[derive(Clone, Copy, Debug, PartialEq, Eq, Structural)]
pub enum RenderAction {
    /// Nothing: the machine is idle and no GPU work is owed.
    Idle,
    /// Build a swapchain, one view and one framebuffer per image, then report `TargetsBuilt`.
    BuildTargets(TargetPlan),
    /// Record one command sequence per image of the set, then report `CommandsRecorded`.
    RecordCommands(RenderTargetSet),
    /// Acquire an image, submit its sequence, present it and wait for the work to retire;
    /// report `Presented` or `OutOfDate`.
    SubmitAndPresent(RenderCommandSet),
    /// Wait for in-flight work, release the command and target sets, query the surface
    /// and report `Retired`.
    RetireAndRequery,
    /// The targets were rebuilt after a resize: ask for a repaint.
    RequestRedraw,
    /// The frame was presented.
    FrameDone,
    /// Release the command set, the target set, the surface and the native handle, in that order.
    Teardown,
    /// Presentation failed for good.
    Fatal(RenderError),
}

/// The state of a `SurfaceLifecycle`.
#[derive(Clone, Copy, Debug, PartialEq, Eq, Structural)]
pub struct LifecycleView {
    pub phase: Phase,
    /// The window's logical creation size.
    pub logical: Extent2D,
    pub surface: Option<SurfaceDescriptor>,
    pub targets: Option<RenderTargetSet>,
    pub commands: Option<RenderCommandSet>,
    pub work: Work,
    /// Render target sets built so far (saturating).
    pub builds: u64,
    /// Frames submitted so far (saturating).
    pub submissions: u64,
}

/// `x + 1`, or `x` at the top of the range.
pub open spec fn saturating_inc(x: u64) -> u64 {
    if x < u64::MAX {
        (x + 1) as u64
    } else {
        x
    }
}

/// The command set recorded against `t`.
pub open spec fn commands_for(t: RenderTargetSet) -> RenderCommandSet {
    RenderCommandSet { extent: t.extent, sequence_count: t.image_count }
}

/// The state of a window of logical size `logical` whose view does not exist yet.
pub open spec fn initial(logical: Extent2D) -> LifecycleView {
    LifecycleView {
        phase: Phase::Created,
        logical,
        surface: None,
        targets: None,
        commands: None,
        work: Work::Idle,
        builds: 0,
        submissions: 0,
    }
}

/// The invariant of the machine.
pub open spec fn lifecycle_wf(s: LifecycleView) -> bool {
    &&& s.commands matches Some(c) ==> (s.targets matches Some(t) && c == commands_for(t))
    &&& s.phase == Phase::Created ==> s.surface is None && s.targets is None && s.work
        == Work::Idle
    &&& s.phase == Phase::Live ==> s.surface is Some
    &&& s.phase != Phase::Live ==> s.commands is None && s.targets is None && s.work == Work::Idle
    &&& s.work matches Work::Building { .. } ==> s.targets is None
    &&& s.work matches Work::Recording { .. } ==> s.targets is Some && s.commands is None
    &&& s.work matches Work::Presenting { .. } ==> s.commands is Some
    &&& s.work == Work::Retiring ==> s.targets is None
}

/// Whether the event may come in state `s`; any other order breaks the protocol.
pub open spec fn accepts(s: LifecycleView, e: RenderEvent) -> bool {
    match e {
        RenderEvent::ViewRealized { .. } => s.phase == Phase::Created,
        RenderEvent::Tick { .. } => s.phase == Phase::Live && s.work == Work::Idle,
        RenderEvent::Resized { .. } => s.phase == Phase::Live && s.work == Work::Idle,
        RenderEvent::TargetsBuilt { .. } => s.work is Building,
        RenderEvent::CommandsRecorded => s.work is Recording,
        RenderEvent::Presented => s.work is Presenting,
        RenderEvent::OutOfDate => s.work is Presenting,
        RenderEvent::Retired { .. } => s.work == Work::Retiring,
        RenderEvent::WorkFailed => s.work != Work::Idle,
        RenderEvent::Closed => s.work == Work::Idle && s.phase != Phase::Destroyed,
    }
}

/// Plans render targets for the drawable size, or goes idle for a zero-sized area.
pub open spec fn begin_build(s: LifecycleView, reason: BuildReason, current: Extent2D) -> (
    LifecycleView,
    RenderAction,
) {
    match drawable_extent(current, s.logical) {
        None => (LifecycleView { work: Work::Idle, ..s }, RenderAction::Idle),
        Some(x) => (
            LifecycleView { work: Work::Building { reason, extent: x }, ..s },
            RenderAction::BuildTargets(TargetPlan { descriptor: s.surface.unwrap(), extent: x }),
        ),
    }
}

/// Submits the current command set.
pub open spec fn begin_present(s: LifecycleView, retried: bool) -> (LifecycleView, RenderAction) {
    (
        LifecycleView {
            work: Work::Presenting { retried },
            submissions: saturating_inc(s.submissions),
            ..s
        },
        RenderAction::SubmitAndPresent(s.commands.unwrap()),
    )
}

/// A render tick: rebuild what is missing, then submit.
pub open spec fn begin_frame(s: LifecycleView, current: Extent2D, retried: bool) -> (
    LifecycleView,
    RenderAction,
) {
    if s.targets is None {
        begin_build(s, BuildReason::Frame { retried }, current)
    } else if s.commands is None {
        (
            LifecycleView { work: Work::Recording { reason: BuildReason::Frame { retried } }, ..s },
            RenderAction::RecordCommands(s.targets.unwrap()),
        )
    } else {
        begin_present(s, retried)
    }
}

/// The transition of the machine: the next state and the action owed for event `e` in state `s`.
pub open spec fn next(s: LifecycleView, e: RenderEvent) -> (LifecycleView, RenderAction) {
    match e {
        RenderEvent::ViewRealized { descriptor, current_extent } => begin_build(
            LifecycleView { phase: Phase::Live, surface: Some(descriptor), ..s },
            BuildReason::Setup,
            current_extent,
        ),
        RenderEvent::Tick { current_extent } => begin_frame(s, current_extent, false),
        RenderEvent::Resized { live, current_extent } => if live {
            (s, RenderAction::Idle)
        } else {
            begin_build(
                LifecycleView { targets: None, commands: None, ..s },
                BuildReason::Resize,
                current_extent,
            )
        },
        RenderEvent::TargetsBuilt { image_count } => match s.work {
            Work::Building { reason, extent } => {
                let t = RenderTargetSet { extent, image_count };
                (
                    LifecycleView {
                        targets: Some(t),
                        builds: saturating_inc(s.builds),
                        work: Work::Recording { reason },
                        ..s
                    },
                    RenderAction::RecordCommands(t),
                )
            },
            _ => (s, RenderAction::Idle),
        },
        RenderEvent::CommandsRecorded => match s.work {
            Work::Recording { reason } => {
                let s1 = LifecycleView {
                    commands: Some(commands_for(s.targets.unwrap())),
                    work: Work::Idle,
                    ..s
                };
                match reason {
                    BuildReason::Setup => (s1, RenderAction::Idle),
                    BuildReason::Resize => (s1, RenderAction::RequestRedraw),
                    BuildReason::Frame { retried } => begin_present(s1, retried),
                }
            },
            _ => (s, RenderAction::Idle),
        },
        RenderEvent::Presented => (LifecycleView { work: Work::Idle, ..s }, RenderAction::FrameDone),
        RenderEvent::OutOfDate => match s.work {
            Work::Presenting { retried } => if retried {
                (
                    LifecycleView {
                        phase: Phase::Failed,
                        targets: None,
                        commands: None,
                        work: Work::Idle,
                        ..s
                    },
                    RenderAction::Fatal(RenderError::SurfaceLost),
                )
            } else {
                (
                    LifecycleView { targets: None, commands: None, work: Work::Retiring, ..s },
                    RenderAction::RetireAndRequery,
                )
            },
            _ => (s, RenderAction::Idle),
        },
        RenderEvent::Retired { current_extent } => begin_frame(
            LifecycleView { work: Work::Idle, ..s },
            current_extent,
            true,
        ),
        RenderEvent::WorkFailed => (
            LifecycleView { targets: None, commands: None, work: Work::Idle, ..s },
            RenderAction::Idle,
        ),
        RenderEvent::Closed => (
            LifecycleView {
                phase: Phase::Destroyed,
                targets: None,
                commands: None,
                work: Work::Idle,
                ..s
            },
            RenderAction::Teardown,
        ),
    }
}

/// The resources of one renderable window and the render protocol that keeps them valid.
pub struct SurfaceLifecycle {
    phase: Phase,
    logical: Extent2D,
    surface: LazyCell<SurfaceDescriptor>,
    targets: DiscardableCell<RenderTargetSet>,
    commands: DiscardableCell<RenderCommandSet>,
    work: Work,
    builds: u64,
    submissions: u64,
}

impl View for SurfaceLifecycle {
    type V = LifecycleView;

    closed spec fn view(&self) -> LifecycleView {
        LifecycleView {
            phase: self.phase,
            logical: self.logical,
            surface: self.surface@,
            targets: self.targets@,
            commands: self.commands@,
            work: self.work,
            builds: self.builds,
            submissions: self.submissions,
        }
    }
}

impl SurfaceLifecycle {
    /// The machine's invariant.
    pub open spec fn wf(&self) -> bool {
        lifecycle_wf(self@)
    }

    /// A window of logical size `logical` whose view does not exist yet.
    pub fn new(logical: Extent2D) -> (r: Self)
        ensures
            r@ == initial(logical),
            r.wf(),
    {
        SurfaceLifecycle {
            phase: Phase::Created,
            logical,
            surface: LazyCell::new(),
            targets: DiscardableCell::new(),
            commands: DiscardableCell::new(),
            work: Work::Idle,
            builds: 0,
            submissions: 0,
        }
    }

    pub fn phase(&self) -> (r: Phase)
        ensures
            r == self@.phase,
    {
        self.phase
    }

    /// The outside work the machine waits for.
    pub fn work(&self) -> (r: Work)
        ensures
            r == self@.work,
    {
        self.work
    }

    /// The window's logical creation size.
    pub fn logical_extent(&self) -> (r: Extent2D)
        ensures
            r == self@.logical,
    {
        self.logical
    }

    /// The resolved surface descriptor, once the view was realized.
    pub fn descriptor(&self) -> (r: Option<SurfaceDescriptor>)
        ensures
            r == self@.surface,
    {
        if self.surface.is_present() {
            Some(*self.surface.get())
        } else {
            None
        }
    }

    /// The current render target set, if it is valid.
    pub fn targets(&self) -> (r: Option<RenderTargetSet>)
        ensures
            r == self@.targets,
    {
        if self.targets.is_discarded() {
            None
        } else {
            Some(*self.targets.get())
        }
    }

    /// The current command set, if it is valid.
    pub fn commands(&self) -> (r: Option<RenderCommandSet>)
        ensures
            r == self@.commands,
    {
        if self.commands.is_discarded() {
            None
        } else {
            Some(*self.commands.get())
        }
    }

    /// How many render target sets were built (saturating).
    pub fn builds(&self) -> (r: u64)
        ensures
            r == self@.builds,
    {
        self.builds
    }

    /// How many frames were submitted (saturating).
    pub fn submissions(&self) -> (r: u64)
        ensures
            r == self@.submissions,
    {
        self.submissions
    }

    /// Whether `e` may come now.
    pub fn accepts(&self, e: &RenderEvent) -> (r: bool)
        ensures
            r == accepts(self@, *e),
    {
        match e {
            RenderEvent::ViewRealized { .. } => self.phase == Phase::Created,
            RenderEvent::Tick { .. } => self.phase == Phase::Live && self.work == Work::Idle,
            RenderEvent::Resized { .. } => self.phase == Phase::Live && self.work == Work::Idle,
            RenderEvent::TargetsBuilt { .. } => matches!(self.work, Work::Building { .. }),
            RenderEvent::CommandsRecorded => matches!(self.work, Work::Recording { .. }),
            RenderEvent::Presented => matches!(self.work, Work::Presenting { .. }),
            RenderEvent::OutOfDate => matches!(self.work, Work::Presenting { .. }),
            RenderEvent::Retired { .. } => self.work == Work::Retiring,
            RenderEvent::WorkFailed => self.work != Work::Idle,
            RenderEvent::Closed => self.work == Work::Idle && self.phase != Phase::Destroyed,
        }
    }

    fn begin_build(&mut self, reason: BuildReason, current: Extent2D) -> (r: RenderAction)
        requires
            old(self).surface@ is Some,
        ensures
            (final(self)@, r) == begin_build(old(self)@, reason, current),
    {
        match resolve_drawable_extent(current, self.logical) {
            None => {
                self.work = Work::Idle;
                RenderAction::Idle
            },
            Some(x) => {
                self.work = Work::Building { reason, extent: x };
                RenderAction::BuildTargets(TargetPlan { descriptor: *self.surface.get(), extent: x })
            },
        }
    }

    fn begin_present(&mut self, retried: bool) -> (r: RenderAction)
        requires
            old(self).commands@ is Some,
        ensures
            (final(self)@, r) == begin_present(old(self)@, retried),
    {
        self.work = Work::Presenting { retried };
        if self.submissions < u64::MAX {
            self.submissions = self.submissions + 1;
        }
        RenderAction::SubmitAndPresent(*self.commands.get())
    }

    fn begin_frame(&mut self, current: Extent2D, retried: bool) -> (r: RenderAction)
        requires
            old(self).surface@ is Some,
        ensures
            (final(self)@, r) == begin_frame(old(self)@, current, retried),
    {
        if self.targets.is_discarded() {
            self.begin_build(BuildReason::Frame { retried }, current)
        } else if self.commands.is_discarded() {
            self.work = Work::Recording { reason: BuildReason::Frame { retried } };
            RenderAction::RecordCommands(*self.targets.get())
        } else {
            self.begin_present(retried)
        }
    }

    /// Takes in one event and returns the action owed for it. The event must be
    /// one that `accepts` allows now.
    pub fn step(&mut self, e: RenderEvent) -> (r: RenderAction)
        requires
            old(self).wf(),
            accepts(old(self)@, e),
        ensures
            final(self).wf(),
            (final(self)@, r) == next(old(self)@, e),
    {
        match e {
            RenderEvent::ViewRealized { descriptor, current_extent } => {
                self.phase = Phase::Live;
                self.surface.init(descriptor);
                self.begin_build(BuildReason::Setup, current_extent)
            },
            RenderEvent::Tick { current_extent } => self.begin_frame(current_extent, false),
            RenderEvent::Resized { live, current_extent } => {
                if live {
                    RenderAction::Idle
                } else {
                    self.commands.discard();
                    self.targets.discard();
                    self.begin_build(BuildReason::Resize, current_extent)
                }
            },
            RenderEvent::TargetsBuilt { image_count } => match self.work {
                Work::Building { reason, extent } => {
                    let t = RenderTargetSet { extent, image_count };
                    self.targets.set(t);
                    if self.builds < u64::MAX {
                        self.builds = self.builds + 1;
                    }
                    self.work = Work::Recording { reason };
                    RenderAction::RecordCommands(t)
                },
                _ => RenderAction::Idle,
            },
            RenderEvent::CommandsRecorded => match self.work {
                Work::Recording { reason } => {
                    let t = *self.targets.get();
                    self.commands.set(RenderCommandSet { extent: t.extent, sequence_count: t.image_count });
                    self.work = Work::Idle;
                    match reason {
                        BuildReason::Setup => RenderAction::Idle,
                        BuildReason::Resize => RenderAction::RequestRedraw,
                        BuildReason::Frame { retried } => self.begin_present(retried),
                    }
                },
                _ => RenderAction::Idle,
            },
            RenderEvent::Presented => {
                self.work = Work::Idle;
                RenderAction::FrameDone
            },
            RenderEvent::OutOfDate => match self.work {
                Work::Presenting { retried } => {
                    self.commands.discard();
                    self.targets.discard();
                    if retried {
                        self.phase = Phase::Failed;
                        self.work = Work::Idle;
                        RenderAction::Fatal(RenderError::SurfaceLost)
                    } else {
                        self.work = Work::Retiring;
                        RenderAction::RetireAndRequery
                    }
                },
                _ => RenderAction::Idle,
            },
            RenderEvent::Retired { current_extent } => {
                self.work = Work::Idle;
                self.begin_frame(current_extent, true)
            },
            RenderEvent::WorkFailed => {
                self.commands.discard();
                self.targets.discard();
                self.work = Work::Idle;
                RenderAction::Idle
            },
            RenderEvent::Closed => {
                self.commands.discard();
                self.targets.discard();
                self.phase = Phase::Destroyed;
                self.work = Work::Idle;
                RenderAction::Teardown
            },
        }
    }
}

/// A window whose surface has a non-zero drawable size builds its render targets
/// once when its view is realized; the first frame after that is submitted and
/// presented without building them again.
pub proof fn lemma_first_frame_builds_once(
    logical: Extent2D,
    descriptor: SurfaceDescriptor,
    current: Extent2D,
    tick_extent: Extent2D,
    image_count: u32,
)
    requires
        drawable_extent(current, logical) is Some,
    ensures
        ({
            let x = drawable_extent(current, logical).unwrap();
            let t = RenderTargetSet { extent: x, image_count };
            let (s1, a1) = next(
                initial(logical),
                RenderEvent::ViewRealized { descriptor, current_extent: current },
            );
            let (s2, a2) = next(s1, RenderEvent::TargetsBuilt { image_count });
            let (s3, a3) = next(s2, RenderEvent::CommandsRecorded);
            let (s4, a4) = next(s3, RenderEvent::Tick { current_extent: tick_extent });
            let (s5, a5) = next(s4, RenderEvent::Presented);
            &&& a1 == RenderAction::BuildTargets(TargetPlan { descriptor, extent: x })
            &&& a2 == RenderAction::RecordCommands(t)
            &&& a3 == RenderAction::Idle
            &&& a4 == RenderAction::SubmitAndPresent(commands_for(t))
            &&& a5 == RenderAction::FrameDone
            &&& s5.phase == Phase::Live
            &&& s5.work == Work::Idle
            &&& s5.targets == Some(t)
            &&& s5.builds == 1
            &&& s5.submissions == 1
        }),
{
}

/// Once a resize outside a live drag leaves a zero-sized drawable area, the next
/// render tick submits nothing, reports no error and leaves the state as it was.
pub proof fn lemma_zero_area_render_submits_nothing(
    s: LifecycleView,
    resize_extent: Extent2D,
    tick_extent: Extent2D,
)
    requires
        lifecycle_wf(s),
        s.phase == Phase::Live,
        s.work == Work::Idle,
        resize_extent.width == 0 || resize_extent.height == 0,
        tick_extent.width == 0 || tick_extent.height == 0,
    ensures
        ({
            let (s1, a1) = next(
                s,
                RenderEvent::Resized { live: false, current_extent: resize_extent },
            );
            let (s2, a2) = next(s1, RenderEvent::Tick { current_extent: tick_extent });
            &&& a1 == RenderAction::Idle
            &&& s1.targets is None
            &&& s1.commands is None
            &&& a2 == RenderAction::Idle
            &&& s2 == s1
            &&& s2.submissions == s.submissions
            &&& s2.builds == s.builds
        }),
{
}

/// A frame whose presentation finds the surface out of date once is rebuilt and
/// presented within the same render tick, without an error.
pub proof fn lemma_out_of_date_once_recovers(
    s: LifecycleView,
    tick_extent: Extent2D,
    retry_extent: Extent2D,
    image_count: u32,
)
    requires
        lifecycle_wf(s),
        s.phase == Phase::Live,
        s.work == Work::Idle,
        s.commands is Some,
        drawable_extent(retry_extent, s.logical) is Some,
    ensures
        ({
            let x = drawable_extent(retry_extent, s.logical).unwrap();
            let t = RenderTargetSet { extent: x, image_count };
            let (s1, a1) = next(s, RenderEvent::Tick { current_extent: tick_extent });
            let (s2, a2) = next(s1, RenderEvent::OutOfDate);
            let (s3, a3) = next(s2, RenderEvent::Retired { current_extent: retry_extent });
            let (s4, a4) = next(s3, RenderEvent::TargetsBuilt { image_count });
            let (s5, a5) = next(s4, RenderEvent::CommandsRecorded);
            let (s6, a6) = next(s5, RenderEvent::Presented);
            &&& a1 == RenderAction::SubmitAndPresent(s.commands.unwrap())
            &&& a2 == RenderAction::RetireAndRequery
            &&& a3 == RenderAction::BuildTargets(TargetPlan { descriptor: s.surface.unwrap(), extent: x })
            &&& a4 == RenderAction::RecordCommands(t)
            &&& a5 == RenderAction::SubmitAndPresent(commands_for(t))
            &&& a6 == RenderAction::FrameDone
            &&& s6.phase == Phase::Live
            &&& s6.work == Work::Idle
            &&& s6.commands == Some(commands_for(t))
            &&& !is_undefined_extent(retry_extent) ==> x == retry_extent
            &&& s6.builds == saturating_inc(s.builds)
            &&& s6.submissions == saturating_inc(saturating_inc(s.submissions))
        }),
{
}

/// A frame whose presentation finds the surface out of date again after the
/// rebuild reports `SurfaceLost` instead of retrying further.
pub proof fn lemma_out_of_date_twice_is_fatal(
    s: LifecycleView,
    tick_extent: Extent2D,
    retry_extent: Extent2D,
    image_count: u32,
)
    requires
        lifecycle_wf(s),
        s.phase == Phase::Live,
        s.work == Work::Idle,
        s.commands is Some,
        drawable_extent(retry_extent, s.logical) is Some,
    ensures
        ({
            let (s1, a1) = next(s, RenderEvent::Tick { current_extent: tick_extent });
            let (s2, a2) = next(s1, RenderEvent::OutOfDate);
            let (s3, a3) = next(s2, RenderEvent::Retired { current_extent: retry_extent });
            let (s4, a4) = next(s3, RenderEvent::TargetsBuilt { image_count });
            let (s5, a5) = next(s4, RenderEvent::CommandsRecorded);
            let (s6, a6) = next(s5, RenderEvent::OutOfDate);
            let x = drawable_extent(retry_extent, s.logical).unwrap();
            &&& a1 is SubmitAndPresent
            &&& a2 == RenderAction::RetireAndRequery
            &&& a3 == RenderAction::BuildTargets(TargetPlan { descriptor: s.surface.unwrap(), extent: x })
            &&& !is_undefined_extent(retry_extent) ==> x == retry_extent
            &&& a4 is RecordCommands
            &&& a5 is SubmitAndPresent
            &&& a6 == RenderAction::Fatal(RenderError::SurfaceLost)
            &&& s6.phase == Phase::Failed
            &&& s6.work == Work::Idle
            &&& s6.submissions == saturating_inc(saturating_inc(s.submissions))
            &&& forall|e: RenderEvent| #[trigger] accepts(s6, e) ==> e is Closed
        }),
        forall|u: LifecycleView|
            #![auto]
            u.work == (Work::Presenting { retried: true }) ==> next(u, RenderEvent::OutOfDate).1
                == RenderAction::Fatal(RenderError::SurfaceLost),
{
}

/// Every accepted event keeps the machine's invariant.
pub proof fn lemma_next_preserves_wf(s: LifecycleView, e: RenderEvent)
    requires
        lifecycle_wf(s),
        accepts(s, e),
    ensures
        lifecycle_wf(next(s, e).0),
{
}

/// The view is realized once: only a window whose view does not exist yet takes
/// `ViewRealized`, and no accepted event brings a window back to that phase, so
/// renders and resizes come only after it.
pub proof fn lemma_view_realized_once(s: LifecycleView, e: RenderEvent)
    requires
        lifecycle_wf(s),
        accepts(s, e),
    ensures
        e is ViewRealized ==> s.phase == Phase::Created,
        (e is Tick || e is Resized) ==> s.phase == Phase::Live,
        next(s, e).0.phase != Phase::Created,
{
}

/// A command set belongs to the target set it was recorded for: whenever the
/// target set changes, the command set is gone, and a present command set
/// always matches the current target set.
pub proof fn lemma_commands_follow_targets(s: LifecycleView, e: RenderEvent)
    requires
        lifecycle_wf(s),
        accepts(s, e),
    ensures
        next(s, e).0.targets != s.targets ==> next(s, e).0.commands is None,
        next(s, e).0.commands matches Some(c) ==> c == commands_for(next(s, e).0.targets.unwrap()),
{
}

/// A resize outside a live drag to a non-zero drawable size rebuilds the render
/// targets and command set for that size, whether the window held valid targets
/// or had none (an empty cell means "rebuild", never an error): the two windows
/// end in the same state, ask for a repaint, and the next tick presents.
pub proof fn lemma_resize_rebuilds_whatever_the_cells(
    s: LifecycleView,
    t: LifecycleView,
    current: Extent2D,
    image_count: u32,
    tick_extent: Extent2D,
)
    requires
        lifecycle_wf(s),
        lifecycle_wf(t),
        s.phase == Phase::Live,
        s.work == Work::Idle,
        t == (LifecycleView { targets: t.targets, commands: t.commands, ..s }),
        drawable_extent(current, s.logical) is Some,
    ensures
        ({
            let x = drawable_extent(current, s.logical).unwrap();
            let tt = RenderTargetSet { extent: x, image_count };
            let resize = RenderEvent::Resized { live: false, current_extent: current };
            let (s1, a1) = next(s, resize);
            let (s2, a2) = next(s1, RenderEvent::TargetsBuilt { image_count });
            let (s3, a3) = next(s2, RenderEvent::CommandsRecorded);
            let (t1, b1) = next(t, resize);
            let (t2, b2) = next(t1, RenderEvent::TargetsBuilt { image_count });
            let (t3, b3) = next(t2, RenderEvent::CommandsRecorded);
            let (s4, a4) = next(s3, RenderEvent::Tick { current_extent: tick_extent });
            &&& !is_undefined_extent(current) ==> x == current
            &&& a1 == RenderAction::BuildTargets(TargetPlan { descriptor: s.surface.unwrap(), extent: x })
            &&& b1 == a1
            &&& a2 == RenderAction::RecordCommands(tt)
            &&& b2 == a2
            &&& a3 == RenderAction::RequestRedraw
            &&& b3 == a3
            &&& s3 == t3
            &&& s3.targets == Some(tt)
            &&& s3.commands == Some(commands_for(tt))
            &&& s3.work == Work::Idle
            &&& a4 == RenderAction::SubmitAndPresent(commands_for(tt))
        }),
{
}

} // verus!

//! The application host: which delegate callback each native signal dispatches.

use vstd::prelude::*;

verus! {

/// Runs the native event loop of an application around its event delegate `E`.
pub trait GUIApplicationRunner<E> {
    /// Takes ownership of the delegate, runs the native loop until it ends and
    /// returns the native exit code.
    fn run(delegate: E) -> i32;

    /// The delegate that `run` was given.
    fn event_delegate(&self) -> &E;
}

/// A native window.
pub trait Window {
    /// Makes the window visible and focused.
    fn show(&self);

    /// Asks for a render callback at the next repaint opportunity.
    fn mark_dirty(&self);
}

/// A lifecycle signal of the native application.
#[derive(Clone, Copy, Debug, PartialEq, Eq, Structural)]
pub enum NativeSignal {
    /// The native application finished launching.
    Ready,
    /// The application regained foreground focus.
    Activated,
}

/// The delegate callback owed for a signal.
#[derive(Clone, Copy, Debug, PartialEq, Eq, Structural)]
pub enum Dispatch {
    Nothing,
    PostInit,
    OnActivated,
}

/// The next launch state and the dispatch owed for `sig` when `launched` tells
/// whether the application already finished launching.
pub open spec fn dispatch_for(launched: bool, sig: NativeSignal) -> (bool, Dispatch) {
    match sig {
        NativeSignal::Ready => if launched {
            (true, Dispatch::Nothing)
        } else {
            (true, Dispatch::PostInit)
        },
        NativeSignal::Activated => (launched, Dispatch::OnActivated),
    }
}

/// The dispatches owed for a sequence of signals, from launch state `launched`.
pub open spec fn dispatches(launched: bool, sigs: Seq<NativeSignal>) -> Seq<Dispatch>
    decreases sigs.len(),
{
    if sigs.len() == 0 {
        Seq::empty()
    } else {
        let (l, d) = dispatch_for(launched, sigs[0]);
        seq![d].add(dispatches(l, sigs.drop_first()))
    }
}

/// How many `PostInit` dispatches a sequence holds.
pub open spec fn count_postinit(ds: Seq<Dispatch>) -> nat
    decreases ds.len(),
{
    if ds.len() == 0 {
        0
    } else {
        (if ds[0] == Dispatch::PostInit {
            1nat
        } else {
            0nat
        }) + count_postinit(ds.drop_first())
    }
}

/// The dispatch state of one application: whether `postinit` was dispatched.
pub struct ApplicationHost {
    launched: bool,
}

impl ApplicationHost {
    /// Whether the application finished launching and `postinit` was dispatched.
    pub closed spec fn launched(&self) -> bool {
        self.launched
    }

    /// A host whose application has not finished launching.
    pub fn new() -> (r: Self)
        ensures
            !r.launched(),
    {
        ApplicationHost { launched: false }
    }

    /// Whether `postinit` was dispatched.
    pub fn is_launched(&self) -> (r: bool)
        ensures
            r == self.launched(),
    {
        self.launched
    }

    /// The callback to dispatch for a native signal: `postinit` for the first
    /// `Ready` only, `on_activated` for each activation.
    pub fn signal(&mut self, sig: NativeSignal) -> (r: Dispatch)
        ensures
            (final(self).launched(), r) == dispatch_for(old(self).launched(), sig),
    {
        match sig {
            NativeSignal::Ready => {
                if self.launched {
                    Dispatch::Nothing
                } else {
                    self.launched = true;
                    Dispatch::PostInit
                }
            },
            NativeSignal::Activated => Dispatch::OnActivated,
        }
    }
}

/// Whatever signals an application receives, `postinit` is dispatched at most
/// once, and exactly once where a `Ready` signal came; once it was dispatched it
/// is never dispatched again.
pub proof fn lemma_postinit_at_most_once(launched: bool, sigs: Seq<NativeSignal>)
    ensures
        launched ==> count_postinit(dispatches(launched, sigs)) == 0,
        count_postinit(dispatches(launched, sigs)) <= 1,
        !launched ==> (count_postinit(dispatches(launched, sigs)) == 1 <==> sigs.contains(
            NativeSignal::Ready,
        )),
    decreases sigs.len(),
{
    if sigs.len() > 0 {
        let (l, d) = dispatch_for(launched, sigs[0]);
        let ds = dispatches(launched, sigs);
        let rest = sigs.drop_first();
        lemma_postinit_at_most_once(l, rest);
        assert(ds[0] == d);
        assert(ds.drop_first() =~= dispatches(l, rest));
        if !launched {
            if sigs[0] == NativeSignal::Ready {
                assert(sigs.contains(NativeSignal::Ready));
            } else {
                assert(sigs.contains(NativeSignal::Ready) <==> rest.contains(NativeSignal::Ready))
                    by {
                    if sigs.contains(NativeSignal::Ready) {
                        let i = choose|i: int| 0 <= i < sigs.len() && sigs[i] == NativeSignal::Ready;
                        assert(rest[i - 1] == NativeSignal::Ready);
                    }
                    if rest.contains(NativeSignal::Ready) {
                        let i = choose|i: int| 0 <= i < rest.len() && rest[i] == NativeSignal::Ready;
                        assert(sigs[i + 1] == NativeSignal::Ready);
                    }
                }
            }
        }
    } else {
        assert(!sigs.contains(NativeSignal::Ready));
    }
}

} // verus!

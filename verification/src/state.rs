//! The lifecycle state machine, abstracted from the executable state:
//! phases, the singleton-window slot, and the transition functions that
//! the executable operations are proved to follow.

use vstd::prelude::*;

verus! {

/// Phases of the application lifecycle.
#[derive(Clone, Copy, Debug, PartialEq, Eq, Structural)]
pub enum Phase {
    /// Fresh application object; `startup` has not run.
    Uninitialized,
    /// `startup` has run; no window exists yet.
    Started,
    /// At least one `activate` has run; the singleton window exists.
    Activated,
    /// `quit` has run; the event loop is ending.
    Terminated,
}

/// The state-machine view of the application: the phase, the set-once
/// window slot, and how many windows were ever constructed.
#[verifier::ext_equal]
pub struct LifecycleView {
    pub phase: Phase,
    pub window: Option<nat>,
    pub windows_created: nat,
}

/// Invariant of the lifecycle view: the window slot is populated exactly in
/// the activated and terminated phases, at most one window is ever
/// constructed, and the single window carries handle 1.
pub open spec fn lview_wf(v: LifecycleView) -> bool {
    &&& (v.window is Some <==> (v.phase is Activated || v.phase is Terminated))
    &&& v.windows_created == (if v.window is Some { 1nat } else { 0nat })
    &&& (v.window is Some ==> v.window->0 == 1)
}

/// `startup` registers the environment and moves to `Started`; it neither
/// creates nor touches a window.
pub open spec fn startup_step(v: LifecycleView) -> LifecycleView {
    LifecycleView { phase: Phase::Started, window: v.window, windows_created: v.windows_created }
}

/// `activate` constructs the singleton window on its first run and only
/// re-presents it on every later one.
pub open spec fn activate_step(v: LifecycleView) -> LifecycleView {
    if v.window is Some {
        v
    } else {
        LifecycleView {
            phase: Phase::Activated,
            window: Some(v.windows_created + 1),
            windows_created: v.windows_created + 1,
        }
    }
}

/// `quit` ends the event loop; the window slot, once set, stays set.
pub open spec fn quit_step(v: LifecycleView) -> LifecycleView {
    LifecycleView { phase: Phase::Terminated, window: v.window, windows_created: v.windows_created }
}

/// `quit` may run only from the activated phase.
pub open spec fn quit_allowed(v: LifecycleView) -> bool {
    v.phase is Activated
}

/// The state after `n` consecutive activations with nothing in between.
pub open spec fn activate_iter(v: LifecycleView, n: nat) -> LifecycleView
    decreases n,
{
    if n == 0 {
        v
    } else {
        activate_step(activate_iter(v, (n - 1) as nat))
    }
}

/// Law: activation is idempotent on the lifecycle state; every activation
/// after the one that created the window changes nothing.
pub proof fn lemma_activate_idempotent(v: LifecycleView)
    ensures
        activate_step(activate_step(v)) == activate_step(v),
{
}

/// Law: a run of activations with no intervening quit constructs exactly
/// one main window, and the whole run leaves the state — the window slot
/// in particular — exactly where the first activation left it.
pub proof fn lemma_single_window(v: LifecycleView, n: nat)
    requires
        lview_wf(v),
        v.phase is Started || v.phase is Activated,
        n >= 1,
    ensures
        activate_iter(v, n) == activate_step(v),
        activate_iter(v, n).windows_created == 1,
        activate_iter(v, n).window == activate_step(v).window,
        activate_iter(v, n).phase is Activated,
        lview_wf(activate_iter(v, n)),
    decreases n,
{
    if n == 1 {
        assert(activate_iter(v, 1) == activate_step(activate_iter(v, 0)));
        assert(activate_iter(v, 0) == v);
    } else {
        lemma_single_window(v, (n - 1) as nat);
        lemma_activate_idempotent(v);
        assert(activate_iter(v, n) == activate_step(activate_iter(v, (n - 1) as nat)));
    }
}

/// Law: quitting presupposes the window that only an activation constructs,
/// so quit is unreachable before the first activate.
pub proof fn lemma_quit_needs_activation(v: LifecycleView)
    requires
        lview_wf(v),
    ensures
        quit_allowed(v) ==> v.window is Some && v.windows_created == 1,
        v.windows_created == 0 ==> !quit_allowed(v),
{
}

} // verus!

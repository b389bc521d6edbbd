//! Per-thread record of the WinUI dispatcher loop, and the finalizer policy
//! that depends on it: native references are released only on their owner
//! thread and only while the thread's apartment is still usable.
use vstd::prelude::*;

verus! {

/// What the record holds: whether the loop runs now, and whether it ever ran
/// on this thread.
pub struct WinUiLoopModel {
    pub active: bool,
    pub entered: bool,
}

/// The dispatcher loop record of one thread.
#[derive(Debug)]
pub struct WinUiDispatcherLoop {
    active: bool,
    entered: bool,
}

impl WinUiDispatcherLoop {
    /// A running loop has been entered.
    #[verifier::type_invariant]
    spec fn active_was_entered(self) -> bool {
        self.active ==> self.entered
    }
}

impl View for WinUiDispatcherLoop {
    type V = WinUiLoopModel;

    closed spec fn view(&self) -> WinUiLoopModel {
        WinUiLoopModel { active: self.active, entered: self.entered }
    }
}

/// Whether the loop entered and has since returned.
pub open spec fn spec_loop_exited(m: WinUiLoopModel) -> bool {
    m.entered && !m.active
}

/// The record after the loop was marked running or stopped.
pub open spec fn spec_set_loop_active(m: WinUiLoopModel, active: bool) -> WinUiLoopModel {
    WinUiLoopModel { active, entered: m.entered || active }
}

/// A finalizer releases a native reference only on its owner thread and
/// only if the WinUI loop of this thread has not exited; otherwise the
/// reference is leaked on purpose.
pub open spec fn spec_finalizer_releases(on_owner_thread: bool, m: WinUiLoopModel) -> bool {
    on_owner_thread && !spec_loop_exited(m)
}

impl WinUiDispatcherLoop {
    /// A thread on which no loop ran yet.
    pub fn new() -> (r: WinUiDispatcherLoop)
        ensures
            r@ == (WinUiLoopModel { active: false, entered: false }),
    {
        WinUiDispatcherLoop { active: false, entered: false }
    }
}

/// Whether the WinUI dispatcher loop runs on this thread now.
pub fn winui_dispatcher_loop_active(state: &WinUiDispatcherLoop) -> (r: bool)
    ensures
        r == state@.active,
        r ==> state@.entered,
{
    proof {
        use_type_invariant(state);
    }
    state.active
}

/// Whether the WinUI dispatcher loop ran on this thread and has returned.
pub fn winui_dispatcher_loop_exited(state: &WinUiDispatcherLoop) -> (r: bool)
    ensures
        r == spec_loop_exited(state@),
{
    state.entered && !winui_dispatcher_loop_active(state)
}

/// Marks the loop as running (which also records that it was entered) or
/// as stopped.
pub fn set_winui_dispatcher_loop_active(state: &mut WinUiDispatcherLoop, active: bool)
    ensures
        final(state)@ == spec_set_loop_active(old(state)@, active),
{
    if active {
        state.entered = true;
    }
    state.active = active;
}

/// Whether a finalizer on this thread may release a native reference that
/// belongs to an owner thread (`on_owner_thread` tells whether this is it).
pub fn finalizer_releases(on_owner_thread: bool, state: &WinUiDispatcherLoop) -> (r: bool)
    ensures
        r == spec_finalizer_releases(on_owner_thread, state@),
{
    on_owner_thread && !winui_dispatcher_loop_exited(state)
}

/// Entering and then leaving the loop leaves the thread in the exited
/// state, whatever the record held before; from then on finalizers leak.
pub proof fn lemma_enter_then_leave_exits(m: WinUiLoopModel, on_owner_thread: bool)
    ensures
        spec_loop_exited(spec_set_loop_active(spec_set_loop_active(m, true), false)),
        !spec_finalizer_releases(
            on_owner_thread,
            spec_set_loop_active(spec_set_loop_active(m, true), false),
        ),
{
}

/// Once entered, a loop stays entered: marking it stopped or running again
/// never forgets that it ran.
pub proof fn lemma_entered_is_kept(m: WinUiLoopModel, active: bool)
    requires
        m.entered,
    ensures
        spec_set_loop_active(m, active).entered,
        spec_loop_exited(spec_set_loop_active(m, active)) == !active,
{
}

/// A thread whose loop never ran releases on its owner thread, and a
/// running loop never counts as exited.
pub proof fn lemma_running_loop_not_exited(m: WinUiLoopModel)
    requires
        m.active || !m.entered,
    ensures
        !spec_loop_exited(m),
        spec_finalizer_releases(true, m),
{
}

} // verus!

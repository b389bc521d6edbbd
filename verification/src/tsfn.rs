//! Lifecycle of the managed thread-safe functions of one Node environment:
//! an open flag and the handles registered while it is open.
use vstd::prelude::*;

verus! {

/// The flags the TSFN test hooks set and read.
pub struct TsfnTestHooks {
    pub pause_call: bool,
    pub call_paused: bool,
    pub cleanup_waiting: bool,
    pub cleanup_acquired: bool,
}

impl TsfnTestHooks {
    pub fn new() -> (r: Self)
        ensures
            !r.pause_call && !r.call_paused && !r.cleanup_waiting && !r.cleanup_acquired,
    {
        TsfnTestHooks { pause_call: false, call_paused: false, cleanup_waiting: false, cleanup_acquired: false }
    }
}

/// The hooks once armed: the observations cleared and the next call asked
/// to pause.
pub open spec fn spec_hooks_arm(h: TsfnTestHooks) -> TsfnTestHooks {
    TsfnTestHooks { pause_call: true, call_paused: false, cleanup_waiting: false, cleanup_acquired: false }
}

/// The hooks once the pause is released.
pub open spec fn spec_hooks_release(h: TsfnTestHooks) -> TsfnTestHooks {
    TsfnTestHooks { pause_call: false, ..h }
}

/// The hooks once a call entered its open section: it records the pause
/// if the pause is armed.
pub open spec fn spec_hooks_enter_call(h: TsfnTestHooks) -> TsfnTestHooks {
    TsfnTestHooks { call_paused: h.call_paused || h.pause_call, ..h }
}

/// The hooks once a cleanup starts waiting for the lifecycle lock.
pub open spec fn spec_hooks_cleanup_waiting(h: TsfnTestHooks) -> TsfnTestHooks {
    TsfnTestHooks { cleanup_waiting: true, ..h }
}

/// The hooks once a cleanup holds the lifecycle lock.
pub open spec fn spec_hooks_cleanup_acquired(h: TsfnTestHooks) -> TsfnTestHooks {
    TsfnTestHooks { cleanup_acquired: true, ..h }
}

/// Arms the call pause: clears the observations and asks the next call to pause.
pub fn test_arm_call_pause(hooks: &mut TsfnTestHooks)
    ensures
        *final(hooks) == spec_hooks_arm(*old(hooks)),
{
    hooks.call_paused = false;
    hooks.cleanup_waiting = false;
    hooks.cleanup_acquired = false;
    hooks.pause_call = true;
}

/// Whether a call has reached the armed pause.
pub fn test_call_paused(hooks: &TsfnTestHooks) -> (r: bool)
    ensures
        r == hooks.call_paused,
{
    hooks.call_paused
}

/// Whether an environment cleanup has started waiting for the lifecycle lock.
pub fn test_cleanup_waiting(hooks: &TsfnTestHooks) -> (r: bool)
    ensures
        r == hooks.cleanup_waiting,
{
    hooks.cleanup_waiting
}

/// Whether an environment cleanup has acquired the lifecycle lock.
pub fn test_cleanup_acquired(hooks: &TsfnTestHooks) -> (r: bool)
    ensures
        r == hooks.cleanup_acquired,
{
    hooks.cleanup_acquired
}

/// Lets a paused call go on.
pub fn test_release_call_pause(hooks: &mut TsfnTestHooks)
    ensures
        *final(hooks) == spec_hooks_release(*old(hooks)),
{
    hooks.pause_call = false;
}

/// Whether a call that entered its open section must wait at the armed
/// pause; records that it did.
pub fn test_enter_call(hooks: &mut TsfnTestHooks) -> (r: bool)
    ensures
        r == old(hooks).pause_call,
        *final(hooks) == spec_hooks_enter_call(*old(hooks)),
{
    if hooks.pause_call {
        hooks.call_paused = true;
        true
    } else {
        false
    }
}

/// Proof that an environment cleanup recorded that it waits for the
/// lifecycle lock; only `begin_cleanup` makes one, and closing uses it up.
pub struct CleanupTicket {
    started: bool,
}

/// Starts an environment cleanup: records in the test hooks that it waits
/// for the lifecycle's write lock, before the lock is requested.
pub fn begin_cleanup(hooks: &mut TsfnTestHooks) -> (r: CleanupTicket)
    ensures
        *final(hooks) == spec_hooks_cleanup_waiting(*old(hooks)),
{
    hooks.cleanup_waiting = true;
    CleanupTicket { started: true }
}

/// A registered handle: its id and the native function it releases.
pub struct RegisteredHandle<N> {
    pub id: u64,
    pub native: N,
}

/// Why a managed TSFN could not be created.
#[derive(Clone, Copy, Debug, PartialEq, Eq, Structural)]
pub enum TsfnError {
    EnvironmentClosing,
}

/// What a managed call does next.
#[derive(Clone, Copy, Debug, PartialEq, Eq, Structural)]
pub enum TsfnCallDecision {
    Closing,
    Call,
}

/// The lifecycle of one environment's managed TSFNs.
pub struct TsfnLifecycle<N> {
    open: bool,
    handles: Vec<RegisteredHandle<N>>,
}

/// What a lifecycle holds: whether it is open and its registered handles in
/// order.
pub struct TsfnModel<N> {
    pub open: bool,
    pub handles: Seq<RegisteredHandle<N>>,
}

pub open spec fn handle_ids<N>(handles: Seq<RegisteredHandle<N>>) -> Seq<u64> {
    handles.map_values(|h: RegisteredHandle<N>| h.id)
}

pub open spec fn natives_of<N>(handles: Seq<RegisteredHandle<N>>) -> Seq<N> {
    handles.map_values(|h: RegisteredHandle<N>| h.native)
}

/// The index of the first handle with `id`, or `handles.len()` if none.
pub open spec fn first_index<N>(handles: Seq<RegisteredHandle<N>>, id: u64) -> int
    decreases handles.len(),
{
    if handles.len() == 0 {
        0
    } else if handles[0].id == id {
        0
    } else {
        1 + first_index(handles.drop_first(), id)
    }
}

pub open spec fn spec_register<N>(m: TsfnModel<N>, id: u64, native: N) -> TsfnModel<N> {
    TsfnModel { open: m.open, handles: m.handles.push(RegisteredHandle { id, native }) }
}

/// Removes the first handle with `id`, moving the last handle into its place.
pub open spec fn spec_unregister<N>(m: TsfnModel<N>, id: u64) -> (TsfnModel<N>, Option<N>) {
    let i = first_index(m.handles, id);
    if i < m.handles.len() {
        (TsfnModel { open: m.open, handles: m.handles.update(i, m.handles.last()).drop_last() }, Some(m.handles[i].native))
    } else {
        (m, None)
    }
}

pub open spec fn spec_register_created<N>(m: TsfnModel<N>, id: u64, native: N) -> (TsfnModel<N>, Result<(), TsfnError>) {
    if m.open {
        (spec_register(m, id, native), Ok(()))
    } else {
        (m, Err(TsfnError::EnvironmentClosing))
    }
}

pub open spec fn spec_release_handle<N>(m: TsfnModel<N>, id: u64) -> (TsfnModel<N>, Option<N>) {
    if m.open { spec_unregister(m, id) } else { (m, None) }
}

pub open spec fn spec_call_decision<N>(m: TsfnModel<N>, native_released: bool) -> TsfnCallDecision {
    if !m.open || native_released { TsfnCallDecision::Closing } else { TsfnCallDecision::Call }
}

/// Closing: the first close empties the registry and returns its natives.
pub open spec fn spec_close<N>(m: TsfnModel<N>) -> (TsfnModel<N>, Seq<N>) {
    if m.open {
        (TsfnModel { open: false, handles: Seq::empty() }, natives_of(m.handles))
    } else {
        (m, Seq::empty())
    }
}

proof fn lemma_first_index<N>(handles: Seq<RegisteredHandle<N>>, id: u64)
    ensures
        0 <= first_index(handles, id) <= handles.len(),
        first_index(handles, id) < handles.len() ==> handles[first_index(handles, id)].id == id,
        forall|j: int| 0 <= j < first_index(handles, id) ==> handles[j].id != id,
    decreases handles.len(),
{
    if handles.len() > 0 && handles[0].id != id {
        lemma_first_index(handles.drop_first(), id);
        assert forall|j: int| 0 <= j < first_index(handles, id) implies handles[j].id != id by {
            if j > 0 {
                assert(handles[j] == handles.drop_first()[j - 1]);
            }
        }
    }
}

impl<N> View for TsfnLifecycle<N> {
    type V = TsfnModel<N>;

    closed spec fn view(&self) -> TsfnModel<N> {
        TsfnModel { open: self.open, handles: self.handles@ }
    }
}

impl<N> TsfnLifecycle<N> {
    /// A new, open lifecycle with nothing registered.
    pub fn new() -> (r: Self)
        ensures
            r@ == (TsfnModel { open: true, handles: Seq::<RegisteredHandle<N>>::empty() }),
    {
        TsfnLifecycle { open: true, handles: Vec::new() }
    }

    /// Whether the environment has begun closing.
    pub fn is_closing(&self) -> (r: bool)
        ensures
            r == !self@.open,
    {
        !self.open
    }

    /// Number of handles still registered.
    pub fn registered_handle_count(&self) -> (r: usize)
        ensures
            r == self@.handles.len(),
    {
        self.handles.len()
    }

    /// Appends a handle.
    pub fn register(&mut self, id: u64, native: N)
        ensures
            final(self)@ == spec_register(old(self)@, id, native),
    {
        self.handles.push(RegisteredHandle { id, native });
    }

    /// Removes the first handle with `id` (the last handle takes its place)
    /// and returns its native function.
    pub fn unregister(&mut self, id: u64) -> (r: Option<N>)
        ensures
            (final(self)@, r) == spec_unregister(old(self)@, id),
    {
        proof { lemma_first_index(self.handles@, id); }
        let mut i: usize = 0;
        while i < self.handles.len()
            invariant
                0 <= i <= self.handles@.len(),
                self.handles@ == old(self).handles@,
                self.open == old(self).open,
                i <= first_index(old(self).handles@, id),
                0 <= first_index(old(self).handles@, id) <= old(self).handles@.len(),
                first_index(old(self).handles@, id) < old(self).handles@.len()
                    ==> old(self).handles@[first_index(old(self).handles@, id)].id == id,
                forall|j: int| 0 <= j < first_index(old(self).handles@, id) ==> old(self).handles@[j].id != id,
            decreases self.handles@.len() - i,
        {
            if self.handles[i].id == id {
                let h = self.handles.swap_remove(i);
                return Some(h.native);
            }
            i = i + 1;
        }
        None
    }

    /// Registers a newly created function, refused once the environment closes.
    pub fn register_created(&mut self, id: u64, native: N) -> (r: Result<(), TsfnError>)
        ensures
            (final(self)@, r) == spec_register_created(old(self)@, id, native),
    {
        if !self.open {
            return Err(TsfnError::EnvironmentClosing);
        }
        self.register(id, native);
        Ok(())
    }

    /// A dropped handle unregisters itself while the environment is open;
    /// returns the native function to release.
    pub fn release_handle(&mut self, id: u64) -> (r: Option<N>)
        ensures
            (final(self)@, r) == spec_release_handle(old(self)@, id),
    {
        if !self.open {
            return None;
        }
        self.unregister(id)
    }

    /// Whether a call goes ahead: not once closing, nor through a released
    /// native function.
    pub fn call_decision(&self, native_released: bool) -> (r: TsfnCallDecision)
        ensures
            r == spec_call_decision(self@, native_released),
    {
        if !self.open || native_released {
            TsfnCallDecision::Closing
        } else {
            TsfnCallDecision::Call
        }
    }

    /// Closes the environment once, with the lifecycle's write lock held and
    /// the `ticket` of the cleanup that asked for it: records in the test
    /// hooks that the lock was acquired, marks the
    /// lifecycle closed and hands back every registered native function, in
    /// registration order, to abort.
    pub fn close_and_abort(&mut self, ticket: CleanupTicket, hooks: &mut TsfnTestHooks) -> (r: Vec<N>)
        ensures
            (final(self)@, r@) == spec_close(old(self)@),
            *final(hooks) == spec_hooks_cleanup_acquired(*old(hooks)),
    {
        hooks.cleanup_acquired = true;
        if !self.open {
            return Vec::new();
        }
        self.open = false;
        let mut handles: Vec<RegisteredHandle<N>> = Vec::new();
        std::mem::swap(&mut handles, &mut self.handles);
        let mut natives: Vec<N> = Vec::new();
        let ghost all = handles@;
        while handles.len() > 0
            invariant
                natives@ + natives_of(handles@) == natives_of(all),
            decreases handles@.len(),
        {
            let ghost before = handles@;
            let h = handles.remove(0);
            assert(natives_of(before) =~= seq![h.native] + natives_of(handles@));
            natives.push(h.native);
            assert(natives@ + natives_of(handles@) =~= natives_of(all));
        }
        assert(natives@ =~= natives@ + natives_of(handles@));
        natives
    }
}

/// Unregistering a freshly registered id gives back its native function and
/// the registry as it was before.
pub proof fn lemma_register_then_unregister<N>(m: TsfnModel<N>, id: u64, native: N)
    requires
        !handle_ids(m.handles).contains(id),
    ensures
        spec_unregister(spec_register(m, id, native), id) == (m, Some(native)),
{
    let h = m.handles.push(RegisteredHandle { id, native });
    lemma_first_index(h, id);
    assert forall|j: int| 0 <= j < m.handles.len() implies h[j].id != id by {
        assert(handle_ids(m.handles)[j] == m.handles[j].id);
        assert(h[j] == m.handles[j]);
    }
    assert(h[m.handles.len() as int].id == id);
    assert(first_index(h, id) == m.handles.len());
    assert(h.update(m.handles.len() as int, h.last()).drop_last() =~= m.handles);
}

/// Closing hands back every registered native function and leaves an empty,
/// closed registry; closing again hands back nothing.
pub proof fn lemma_close_once<N>(m: TsfnModel<N>)
    requires
        m.open,
    ensures
        spec_close(m).1 == natives_of(m.handles),
        !spec_close(m).0.open,
        spec_close(m).0.handles.len() == 0,
        spec_close(spec_close(m).0) == (spec_close(m).0, Seq::<N>::empty()),
{
}

/// Once closed, a lifecycle refuses new functions, releases nothing for a
/// dropped handle and reports every call as closing; none of these change it.
pub proof fn lemma_closed_lifecycle_is_inert<N>(m: TsfnModel<N>, id: u64, native: N, native_released: bool)
    requires
        !m.open,
    ensures
        spec_register_created(m, id, native) == (m, Err::<(), TsfnError>(TsfnError::EnvironmentClosing)),
        spec_release_handle(m, id) == (m, None::<N>),
        spec_call_decision(m, native_released) == TsfnCallDecision::Closing,
{
}


/// One step of the threads that share an environment's managed TSFNs and
/// its test hooks.
pub enum TsfnEvent {
    /// `test_arm_call_pause`.
    Arm,
    /// `test_release_call_pause`.
    Release,
    /// A call takes the lifecycle's read lock and, when the lifecycle is
    /// open, enters its open section.
    EnterCall,
    /// A call gives the read lock back.
    LeaveCall,
    /// A cleanup records that it waits, then requests the write lock.
    CleanupWaiting,
    /// The cleanup that waits obtains the write lock and records it.
    CleanupAcquired,
    /// The cleanup closes the lifecycle and gives the write lock back.
    CleanupDone,
}

/// The test hooks together with the lifecycle lock: how many calls hold
/// it for reading, whether a cleanup waits for it (holds a ticket), whether
/// the cleanup holds it for writing, and whether the lifecycle is open.
pub struct TsfnSystem {
    pub hooks: TsfnTestHooks,
    pub readers: nat,
    pub cleanup_waits: bool,
    pub writer: bool,
    pub open: bool,
}

/// One step, or `None` where the lock does not allow it: readers wait
/// while a writer holds the lock, and the writer waits for every reader.
pub open spec fn tsfn_step(s: TsfnSystem, e: TsfnEvent) -> Option<TsfnSystem> {
    match e {
        TsfnEvent::Arm => Some(TsfnSystem { hooks: spec_hooks_arm(s.hooks), ..s }),
        TsfnEvent::Release => Some(TsfnSystem { hooks: spec_hooks_release(s.hooks), ..s }),
        TsfnEvent::EnterCall => if s.writer {
            None
        } else {
            Some(TsfnSystem {
                hooks: if s.open { spec_hooks_enter_call(s.hooks) } else { s.hooks },
                readers: s.readers + 1,
                ..s
            })
        },
        TsfnEvent::LeaveCall => if s.readers == 0 {
            None
        } else {
            Some(TsfnSystem { readers: (s.readers - 1) as nat, ..s })
        },
        TsfnEvent::CleanupWaiting => Some(TsfnSystem {
            hooks: spec_hooks_cleanup_waiting(s.hooks),
            cleanup_waits: true,
            ..s
        }),
        TsfnEvent::CleanupAcquired => if !s.cleanup_waits || s.writer || s.readers > 0 {
            None
        } else {
            Some(TsfnSystem { hooks: spec_hooks_cleanup_acquired(s.hooks), cleanup_waits: false, writer: true, ..s })
        },
        TsfnEvent::CleanupDone => if !s.writer {
            None
        } else {
            Some(TsfnSystem { writer: false, open: false, ..s })
        },
    }
}

/// The state after `events`, or `None` if the lock forbids one of them.
pub open spec fn tsfn_run(s: TsfnSystem, events: Seq<TsfnEvent>) -> Option<TsfnSystem>
    decreases events.len(),
{
    if events.len() == 0 {
        Some(s)
    } else {
        match tsfn_run(s, events.drop_last()) {
            Some(t) => tsfn_step(t, events.last()),
            None => None,
        }
    }
}

/// Hooks just armed, with a consistent lock and no cleanup between its
/// start and its acquisition (the arm does not run during a cleanup).
pub open spec fn tsfn_armed(s: TsfnSystem) -> bool {
    &&& s.hooks == spec_hooks_arm(s.hooks)
    &&& s.writer ==> s.readers == 0
    &&& !s.cleanup_waits
}

/// No `Release` among the first `i` events.
pub open spec fn no_release_before(events: Seq<TsfnEvent>, i: int) -> bool {
    forall|j: int| 0 <= j < i ==> !(#[trigger] events[j] is Release)
}

/// Event `i` is a call that entered the open section while the pause was
/// still armed.
pub open spec fn paused_at(s0: TsfnSystem, events: Seq<TsfnEvent>, i: int) -> bool {
    &&& events[i] is EnterCall
    &&& no_release_before(events, i)
    &&& tsfn_run(s0, events.take(i)) matches Some(t) && t.open
}

/// Event `i` is a cleanup obtaining the write lock, when no call held it.
pub open spec fn acquired_at(s0: TsfnSystem, events: Seq<TsfnEvent>, i: int) -> bool {
    &&& events[i] is CleanupAcquired
    &&& tsfn_run(s0, events.take(i)) matches Some(t) && t.readers == 0 && !t.writer
}

/// From the moment the pause is armed, and as long as it is not armed
/// again: the pause stays requested until released; a call is reported
/// paused exactly when one entered the open section before the release
/// (and it stays reported); a cleanup is reported waiting exactly when one
/// started; it is reported holding the lock exactly when one obtained it
/// with no call inside, and a held write lock excludes every call.
pub proof fn lemma_test_hooks_after_arm(s0: TsfnSystem, events: Seq<TsfnEvent>)
    requires
        tsfn_armed(s0),
        tsfn_run(s0, events) is Some,
        forall|i: int| 0 <= i < events.len() ==> !(#[trigger] events[i] is Arm),
    ensures
        ({
            let s = tsfn_run(s0, events)->Some_0;
            &&& s.hooks.pause_call == no_release_before(events, events.len() as int)
            &&& s.hooks.call_paused == (exists|i: int| 0 <= i < events.len() && #[trigger] paused_at(s0, events, i))
            &&& s.hooks.cleanup_waiting == (exists|i: int| 0 <= i < events.len() && #[trigger] events[i] is CleanupWaiting)
            &&& s.hooks.cleanup_acquired == (exists|i: int| 0 <= i < events.len() && #[trigger] acquired_at(s0, events, i))
            &&& s.writer ==> s.readers == 0
            &&& s.cleanup_waits ==> s.hooks.cleanup_waiting
            &&& s.hooks.cleanup_acquired ==> s.hooks.cleanup_waiting
        }),
    decreases events.len(),
{
    if events.len() == 0 {
        assert(tsfn_run(s0, events) == Some(s0));
    } else {
        let n = events.len() - 1;
        let prev = events.drop_last();
        let e = events.last();
        assert forall|i: int| 0 <= i < prev.len() implies !(#[trigger] prev[i] is Arm) by {
            assert(prev[i] == events[i]);
        }
        lemma_test_hooks_after_arm(s0, prev);
        let t = tsfn_run(s0, prev)->Some_0;
        assert(events.take(n) =~= prev);
        assert(forall|i: int| 0 <= i < n ==> prev[i] == events[i]);
        assert(forall|i: int| 0 <= i <= n ==> #[trigger] events.take(i) == prev.take(i)) by {
            assert forall|i: int| 0 <= i <= n implies #[trigger] events.take(i) == prev.take(i) by {
                assert(events.take(i) =~= prev.take(i));
            }
        }
        assert(no_release_before(events, n) == no_release_before(prev, n));
        assert forall|i: int| 0 <= i < n implies #[trigger] paused_at(s0, events, i) == paused_at(s0, prev, i) by {
            assert(no_release_before(events, i) == no_release_before(prev, i));
        }
        assert forall|i: int| 0 <= i < n implies #[trigger] acquired_at(s0, events, i) == acquired_at(s0, prev, i) by {}
        assert(paused_at(s0, events, n) == (e is EnterCall && no_release_before(prev, n) && t.open));
        assert(acquired_at(s0, events, n) == (e is CleanupAcquired && t.readers == 0 && !t.writer));
        let s = tsfn_run(s0, events)->Some_0;
        if s.hooks.call_paused {
            if t.hooks.call_paused {
                let i = choose|i: int| 0 <= i < prev.len() && #[trigger] paused_at(s0, prev, i);
                assert(paused_at(s0, events, i));
            } else {
                assert(paused_at(s0, events, n));
            }
        }
        if exists|i: int| 0 <= i < events.len() && #[trigger] paused_at(s0, events, i) {
            let i = choose|i: int| 0 <= i < events.len() && #[trigger] paused_at(s0, events, i);
            if i < n {
                assert(paused_at(s0, prev, i));
            }
        }
        if s.hooks.cleanup_waiting {
            if t.hooks.cleanup_waiting {
                let i = choose|i: int| 0 <= i < prev.len() && #[trigger] prev[i] is CleanupWaiting;
                assert(events[i] is CleanupWaiting);
            } else {
                assert(events[n] is CleanupWaiting);
            }
        }
        if exists|i: int| 0 <= i < events.len() && #[trigger] events[i] is CleanupWaiting {
            let i = choose|i: int| 0 <= i < events.len() && #[trigger] events[i] is CleanupWaiting;
            if i < n {
                assert(prev[i] is CleanupWaiting);
            }
        }
        if s.hooks.cleanup_acquired {
            if t.hooks.cleanup_acquired {
                let i = choose|i: int| 0 <= i < prev.len() && #[trigger] acquired_at(s0, prev, i);
                assert(acquired_at(s0, events, i));
            } else {
                assert(acquired_at(s0, events, n));
            }
        }
        if exists|i: int| 0 <= i < events.len() && #[trigger] acquired_at(s0, events, i) {
            let i = choose|i: int| 0 <= i < events.len() && #[trigger] acquired_at(s0, events, i);
            if i < n {
                assert(acquired_at(s0, prev, i));
            }
        }
    }
}

/// A cleanup reports holding the lock only once it reported waiting for
/// it: after the pause is armed, and as long as it is not armed again, a
/// cleanup reported as holding the lock is also reported as waiting.
pub proof fn lemma_cleanup_acquired_implies_waiting(s0: TsfnSystem, events: Seq<TsfnEvent>)
    requires
        tsfn_armed(s0),
        tsfn_run(s0, events) is Some,
        forall|i: int| 0 <= i < events.len() ==> !(#[trigger] events[i] is Arm),
    ensures
        tsfn_run(s0, events)->Some_0.hooks.cleanup_acquired ==> tsfn_run(s0, events)->Some_0.hooks.cleanup_waiting,
{
    lemma_test_hooks_after_arm(s0, events);
}

} // verus!

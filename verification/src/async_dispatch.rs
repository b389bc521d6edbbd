//! The decisions of the shared async Promise dispatcher of one Node
//! environment: which promises keep the dispatcher referenced, where a
//! completed operation is settled, and what environment cleanup abandons.
use vstd::prelude::*;
use crate::id_set::IdSet;

verus! {

// ---------------------------------------------------------------------
// One promise
// ---------------------------------------------------------------------

/// What one pending promise holds: whether it is settled, whether its
/// fallback settlement was queued, and whether it still holds a completion
/// result and its async operation.
#[derive(Clone, Copy, Debug, PartialEq, Eq, Structural)]
pub struct PromiseFlags {
    pub settled: bool,
    pub fallback_queued: bool,
    pub has_result: bool,
    pub has_operation: bool,
}

/// What happens to a completed operation.
#[derive(Clone, Copy, Debug, PartialEq, Eq, Structural)]
pub enum CompletionDecision {
    Abandoned,
    Ignored,
    Route,
}

/// What settling a promise on the JavaScript thread does.
#[derive(Clone, Copy, Debug, PartialEq, Eq, Structural)]
pub enum SettleDecision {
    Abandoned,
    AlreadySettled,
    Resolve,
    ResultUnavailable,
}

pub open spec fn spec_abandon(p: PromiseFlags) -> PromiseFlags {
    if p.settled {
        p
    } else {
        PromiseFlags { settled: true, fallback_queued: p.fallback_queued, has_result: false, has_operation: false }
    }
}

pub open spec fn spec_complete(p: PromiseFlags, dispatcher_alive: bool, closing: bool) -> (PromiseFlags, CompletionDecision) {
    if !dispatcher_alive || closing {
        (spec_abandon(p), CompletionDecision::Abandoned)
    } else if p.has_result || p.settled {
        (p, CompletionDecision::Ignored)
    } else {
        (PromiseFlags { has_result: true, ..p }, CompletionDecision::Route)
    }
}

pub open spec fn spec_settle(p: PromiseFlags, dispatcher_alive: bool, closing: bool) -> (PromiseFlags, SettleDecision) {
    if !dispatcher_alive || closing {
        (spec_abandon(p), SettleDecision::Abandoned)
    } else if p.settled {
        (p, SettleDecision::AlreadySettled)
    } else if p.has_result {
        (PromiseFlags { settled: true, has_result: false, ..p }, SettleDecision::Resolve)
    } else {
        (PromiseFlags { settled: true, ..p }, SettleDecision::ResultUnavailable)
    }
}

impl PromiseFlags {
    /// A freshly created promise that holds its operation.
    pub fn new() -> (r: Self)
        ensures
            r == (PromiseFlags { settled: false, fallback_queued: false, has_result: false, has_operation: true }),
    {
        PromiseFlags { settled: false, fallback_queued: false, has_result: false, has_operation: true }
    }

    /// Settles the promise without a result, dropping what it holds, once.
    pub fn abandon(&mut self)
        ensures
            *final(self) == spec_abandon(*old(self)),
    {
        if !self.settled {
            self.settled = true;
            self.has_operation = false;
            self.has_result = false;
        }
    }

    /// Takes the async operation out; returns whether it was still held.
    pub fn take_operation(&mut self) -> (r: bool)
        ensures
            r == old(self).has_operation,
            *final(self) == (PromiseFlags { has_operation: false, ..*old(self) }),
    {
        let had = self.has_operation;
        self.has_operation = false;
        had
    }

    /// Stores a completion result unless the promise is settled or already
    /// holds one; abandons it when its dispatcher is gone or closing.
    pub fn complete(&mut self, dispatcher_alive: bool, closing: bool) -> (r: CompletionDecision)
        ensures
            (*final(self), r) == spec_complete(*old(self), dispatcher_alive, closing),
    {
        if !dispatcher_alive || closing {
            self.abandon();
            return CompletionDecision::Abandoned;
        }
        if self.has_result || self.settled {
            return CompletionDecision::Ignored;
        }
        self.has_result = true;
        CompletionDecision::Route
    }

    /// Marks the promise settled on the JavaScript thread and takes its
    /// result; a settled promise is never settled again.
    pub fn settle_on_js(&mut self, dispatcher_alive: bool, closing: bool) -> (r: SettleDecision)
        ensures
            (*final(self), r) == spec_settle(*old(self), dispatcher_alive, closing),
    {
        if !dispatcher_alive || closing {
            self.abandon();
            return SettleDecision::Abandoned;
        }
        if self.settled {
            return SettleDecision::AlreadySettled;
        }
        self.settled = true;
        if self.has_result {
            self.has_result = false;
            SettleDecision::Resolve
        } else {
            SettleDecision::ResultUnavailable
        }
    }
}

/// A promise settles at most once: after a settlement, neither a completion
/// nor another settlement delivers anything.
pub proof fn lemma_promise_settles_once(p: PromiseFlags, alive: bool, closing: bool, alive2: bool, closing2: bool)
    requires
        spec_settle(p, alive, closing).1 == SettleDecision::Resolve
            || spec_settle(p, alive, closing).1 == SettleDecision::ResultUnavailable,
    ensures
        ({
            let q = spec_settle(p, alive, closing).0;
            &&& q.settled
            &&& spec_settle(q, alive2, closing2).1 != SettleDecision::Resolve
            &&& spec_settle(q, alive2, closing2).1 != SettleDecision::ResultUnavailable
            &&& spec_complete(q, alive2, closing2).1 != CompletionDecision::Route
        }),
{
}

/// An abandoned promise holds nothing and stays settled.
pub proof fn lemma_abandon_releases(p: PromiseFlags)
    ensures
        spec_abandon(p).settled,
        !p.settled ==> !spec_abandon(p).has_result && !spec_abandon(p).has_operation,
        spec_abandon(spec_abandon(p)) == spec_abandon(p),
{
}

// ---------------------------------------------------------------------
// The dispatcher
// ---------------------------------------------------------------------

/// Why the dispatcher refused a request.
#[derive(Clone, Copy, Debug, PartialEq, Eq, Structural)]
pub enum DispatcherError {
    PromiseWhileClosing,
    QueueWhileClosing,
}

/// Where a completed promise is settled.
#[derive(Clone, Copy, Debug, PartialEq, Eq, Structural)]
pub enum RouteDecision {
    Abandon,
    Enqueue,
    Fallback,
}

/// What the Node fallback path does with a promise.
#[derive(Clone, Copy, Debug, PartialEq, Eq, Structural)]
pub enum FallbackDecision {
    Abandon,
    AlreadyQueued,
    Call,
}

pub struct QueueRegistration {
    accepting: bool,
    pending: IdSet,
}

/// The dispatcher of one environment.
pub struct AsyncDispatcher {
    closing: bool,
    registry: IdSet,
    tsfn_referenced: bool,
    queue: Option<QueueRegistration>,
}

pub struct QueueModel {
    pub accepting: bool,
    pub pending: Set<u64>,
}

pub struct DispatcherModel {
    pub closing: bool,
    pub registry: Set<u64>,
    pub referenced: bool,
    pub queue: Option<QueueModel>,
}

impl AsyncDispatcher {
    pub closed spec fn view(&self) -> DispatcherModel {
        DispatcherModel {
            closing: self.closing,
            registry: self.registry.view(),
            referenced: self.tsfn_referenced,
            queue: match self.queue {
                Some(q) => Some(QueueModel { accepting: q.accepting, pending: q.pending.view() }),
                None => None,
            },
        }
    }
}

pub open spec fn spec_register_promise(m: DispatcherModel, id: u64) -> (DispatcherModel, Result<bool, DispatcherError>) {
    if m.closing {
        (m, Err(DispatcherError::PromiseWhileClosing))
    } else {
        (DispatcherModel { registry: m.registry.insert(id), ..m }, Ok(m.registry == Set::<u64>::empty()))
    }
}

pub open spec fn spec_confirm_reference(m: DispatcherModel, id: u64, referenced: bool) -> DispatcherModel {
    if referenced {
        DispatcherModel { referenced: true, ..m }
    } else {
        DispatcherModel { registry: m.registry.remove(id), ..m }
    }
}

pub open spec fn spec_finish_promise(m: DispatcherModel, id: u64) -> (DispatcherModel, bool) {
    let registry = m.registry.remove(id);
    let swap = m.registry.contains(id) && registry == Set::<u64>::empty() && m.referenced;
    (DispatcherModel { registry, referenced: if swap { false } else { m.referenced }, ..m }, swap && !m.closing)
}

pub open spec fn spec_route_completion(m: DispatcherModel, id: u64) -> (DispatcherModel, RouteDecision) {
    if m.closing {
        (m, RouteDecision::Abandon)
    } else {
        match m.queue {
            Some(q) => if q.accepting {
                (DispatcherModel { queue: Some(QueueModel { accepting: true, pending: q.pending.insert(id) }), ..m },
                    RouteDecision::Enqueue)
            } else {
                (m, RouteDecision::Fallback)
            },
            None => (m, RouteDecision::Fallback),
        }
    }
}

pub open spec fn spec_remove_pending(m: DispatcherModel, id: u64) -> DispatcherModel {
    match m.queue {
        Some(q) => DispatcherModel { queue: Some(QueueModel { accepting: q.accepting, pending: q.pending.remove(id) }), ..m },
        None => m,
    }
}

pub open spec fn spec_queue_fallback(m: DispatcherModel, p: PromiseFlags) -> (PromiseFlags, FallbackDecision) {
    if m.closing {
        (spec_abandon(p), FallbackDecision::Abandon)
    } else if p.fallback_queued {
        (p, FallbackDecision::AlreadyQueued)
    } else {
        (PromiseFlags { fallback_queued: true, ..p }, FallbackDecision::Call)
    }
}

pub open spec fn spec_drain_pending(m: DispatcherModel) -> (DispatcherModel, Set<u64>) {
    match m.queue {
        Some(q) => (DispatcherModel { queue: Some(QueueModel { accepting: false, pending: Set::empty() }), ..m }, q.pending),
        None => (m, Set::empty()),
    }
}

/// Environment cleanup: once, mark closing, drop the queue and hand back the
/// queued and the registered promises to abandon.
pub open spec fn spec_cleanup(m: DispatcherModel) -> (DispatcherModel, Option<(Set<u64>, Set<u64>)>) {
    if m.closing {
        (m, None)
    } else {
        let queued = spec_drain_pending(m).1;
        (DispatcherModel { closing: true, registry: Set::empty(), referenced: m.referenced, queue: None }, Some((queued, m.registry)))
    }
}

impl AsyncDispatcher {
    pub fn new() -> (r: Self)
        ensures
            r.view() == (DispatcherModel { closing: false, registry: Set::empty(), referenced: false, queue: None }),
    {
        AsyncDispatcher { closing: false, registry: IdSet::new(), tsfn_referenced: false, queue: None }
    }

    pub fn is_closing(&self) -> (r: bool)
        ensures
            r == self.view().closing,
    {
        self.closing
    }

    /// Registers a pending promise; `Ok(true)` asks for the shared dispatcher
    /// to be referenced, which happens when it was the first.
    pub fn register_promise(&mut self, id: u64) -> (r: Result<bool, DispatcherError>)
        ensures
            (final(self).view(), r) == spec_register_promise(old(self).view(), id),
    {
        if self.closing {
            return Err(DispatcherError::PromiseWhileClosing);
        }
        let should_ref = self.registry.is_empty();
        self.registry.insert(id);
        Ok(should_ref)
    }

    /// Records whether referencing the dispatcher succeeded: on success the
    /// dispatcher counts as referenced, on failure the promise is
    /// unregistered again.
    pub fn confirm_promise_reference(&mut self, id: u64, referenced: bool)
        ensures
            final(self).view() == spec_confirm_reference(old(self).view(), id, referenced),
    {
        if referenced {
            self.tsfn_referenced = true;
        } else {
            self.registry.remove(id);
        }
    }

    /// Unregisters a settled promise; `true` asks for the dispatcher to be
    /// unreferenced, which happens when the last referenced promise leaves
    /// before the environment closes.
    pub fn finish_promise(&mut self, id: u64) -> (r: bool)
        ensures
            (final(self).view(), r) == spec_finish_promise(old(self).view(), id),
    {
        let removed = self.registry.remove(id);
        let swap = removed && self.registry.is_empty() && self.tsfn_referenced;
        if swap {
            self.tsfn_referenced = false;
        }
        swap && !self.closing
    }

    /// Chooses where a completed promise is settled: abandoned while closing,
    /// queued on an accepting DispatcherQueue, otherwise the Node fallback.
    pub fn route_completion(&mut self, id: u64) -> (r: RouteDecision)
        ensures
            (final(self).view(), r) == spec_route_completion(old(self).view(), id),
    {
        if self.closing {
            return RouteDecision::Abandon;
        }
        let accepting = match &self.queue {
            Some(q) => q.accepting,
            None => false,
        };
        if !accepting {
            return RouteDecision::Fallback;
        }
        let mut q = self.queue.take().unwrap();
        q.pending.insert(id);
        self.queue = Some(q);
        RouteDecision::Enqueue
    }

    /// Forgets a queued promise.
    pub fn remove_queue_pending(&mut self, id: u64)
        ensures
            final(self).view() == spec_remove_pending(old(self).view(), id),
    {
        match self.queue.take() {
            Some(mut q) => {
                q.pending.remove(id);
                self.queue = Some(q);
            },
            None => {},
        }
    }

    /// A queued promise reached the DispatcherQueue; `true` settles it,
    /// `false` abandons it because the environment is closing.
    pub fn run_queue_callback(&mut self, id: u64) -> (r: bool)
        ensures
            final(self).view() == spec_remove_pending(old(self).view(), id),
            r == !old(self).view().closing,
    {
        self.remove_queue_pending(id);
        !self.closing
    }

    /// Queues a promise on the Node fallback at most once.
    pub fn queue_fallback(&self, promise: &mut PromiseFlags) -> (r: FallbackDecision)
        ensures
            (*final(promise), r) == spec_queue_fallback(self.view(), *old(promise)),
    {
        if self.closing {
            promise.abandon();
            return FallbackDecision::Abandon;
        }
        if promise.fallback_queued {
            return FallbackDecision::AlreadyQueued;
        }
        promise.fallback_queued = true;
        FallbackDecision::Call
    }

    /// Whether a DispatcherQueue still has to be registered; refused while closing.
    pub fn queue_registration_needed(&self) -> (r: Result<bool, DispatcherError>)
        ensures
            self.view().closing ==> r == Err::<bool, DispatcherError>(DispatcherError::QueueWhileClosing),
            !self.view().closing ==> r == Ok::<bool, DispatcherError>(self.view().queue is None),
    {
        if self.closing {
            return Err(DispatcherError::QueueWhileClosing);
        }
        Ok(self.queue.is_none())
    }

    /// Installs an accepting, empty queue registration unless one exists.
    pub fn install_queue(&mut self)
        ensures
            old(self).view().queue is None ==> final(self).view()
                == (DispatcherModel { queue: Some(QueueModel { accepting: true, pending: Set::empty() }), ..old(self).view() }),
            old(self).view().queue is Some ==> final(self).view() == old(self).view(),
    {
        if self.queue.is_none() {
            self.queue = Some(QueueRegistration { accepting: true, pending: IdSet::new() });
        }
    }

    /// Stops the queue accepting and hands back its pending promises.
    pub fn drain_queue_pending(&mut self) -> (r: Vec<u64>)
        ensures
            final(self).view() == spec_drain_pending(old(self).view()).0,
            r@.to_set() == spec_drain_pending(old(self).view()).1,
            r@.no_duplicates(),
    {
        match self.queue.take() {
            Some(mut q) => {
                let ids = q.pending.drain();
                self.queue = Some(QueueRegistration { accepting: false, pending: q.pending });
                ids
            },
            None => {
                let r: Vec<u64> = Vec::new();
                assert(r@.to_set() =~= Set::<u64>::empty());
                r
            },
        }
    }

    /// On DispatcherQueue shutdown: the pending promises, and whether they can
    /// be settled directly (on the JavaScript thread, before closing).
    pub fn settle_queue_pending_on_ui(&mut self, on_js_thread: bool) -> (r: (Vec<u64>, bool))
        ensures
            final(self).view() == spec_drain_pending(old(self).view()).0,
            r.0@.to_set() == spec_drain_pending(old(self).view()).1,
            r.0@.no_duplicates(),
            r.1 == (!old(self).view().closing && on_js_thread),
    {
        let pending = self.drain_queue_pending();
        (pending, !self.closing && on_js_thread)
    }

    /// Removes the queue registration; returns whether there was one.
    pub fn take_queue(&mut self) -> (r: bool)
        ensures
            r == old(self).view().queue is Some,
            final(self).view() == (DispatcherModel { queue: None, ..old(self).view() }),
    {
        self.queue.take().is_some()
    }

    /// Environment cleanup, once: `Some((queued, registered))` names the
    /// promises to abandon.
    pub fn cleanup_env(&mut self) -> (r: Option<(Vec<u64>, Vec<u64>)>)
        ensures
            final(self).view() == spec_cleanup(old(self).view()).0,
            r is Some <==> spec_cleanup(old(self).view()).1 is Some,
            r matches Some((queued, registered)) ==> spec_cleanup(old(self).view()).1
                == Some((queued@.to_set(), registered@.to_set())) && queued@.no_duplicates() && registered@.no_duplicates(),
    {
        if self.closing {
            return None;
        }
        self.closing = true;
        let queued = self.drain_queue_pending();
        self.queue = None;
        let registered = self.registry.drain();
        Some((queued, registered))
    }
}

/// Cleanup happens once: afterwards the dispatcher is closing with nothing
/// registered and no queue, and a second cleanup hands back nothing.
pub proof fn lemma_cleanup_once(m: DispatcherModel)
    requires
        !m.closing,
    ensures
        spec_cleanup(m).0.closing,
        spec_cleanup(m).0.registry == Set::<u64>::empty(),
        spec_cleanup(m).0.queue is None,
        spec_cleanup(m).1 == Some((spec_drain_pending(m).1, m.registry)),
        spec_cleanup(spec_cleanup(m).0).1 is None,
{
}

/// A closing dispatcher refuses promises and queues, abandons completions and
/// abandons promises sent to its fallback.
pub proof fn lemma_closing_dispatcher_refuses(m: DispatcherModel, id: u64, p: PromiseFlags)
    requires
        m.closing,
    ensures
        spec_register_promise(m, id) == (m, Err::<bool, DispatcherError>(DispatcherError::PromiseWhileClosing)),
        spec_route_completion(m, id) == (m, RouteDecision::Abandon),
        spec_queue_fallback(m, p) == (spec_abandon(p), FallbackDecision::Abandon),
        !spec_finish_promise(m, id).1,
{
}

/// A lone promise on an idle dispatcher references it when registered and
/// unreferences it when finished, leaving the dispatcher as it was.
pub proof fn lemma_register_finish_roundtrip(m: DispatcherModel, id: u64)
    requires
        !m.closing,
        m.registry == Set::<u64>::empty(),
        !m.referenced,
    ensures
        spec_register_promise(m, id).1 == Ok::<bool, DispatcherError>(true),
        ({
            let registered = spec_confirm_reference(spec_register_promise(m, id).0, id, true);
            &&& registered.referenced
            &&& spec_finish_promise(registered, id) == (m, true)
        }),
{
    let r = spec_register_promise(m, id).0;
    assert(r.registry.contains(id));
    let c = spec_confirm_reference(r, id, true);
    assert(c.registry.remove(id) =~= Set::<u64>::empty());
}

// ---------------------------------------------------------------------
// Result workers
// ---------------------------------------------------------------------

/// How many threads collect async results: the available parallelism
/// capped at four, two when it is unknown.
pub fn async_worker_count(available: Option<usize>) -> (r: usize)
    ensures
        available matches Some(n) ==> r == (if n == 0 { 1 } else if n > 4 { 4 } else { n }),
        available is None ==> r == 2,
        1 <= r <= 4,
{
    match available {
        Some(n) => if n == 0 { 1 } else if n > 4 { 4 } else { n },
        None => 2,
    }
}

} // verus!

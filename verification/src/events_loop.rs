//! The event loop: owner of the platform message source, dispatcher of
//! queued events in FIFO order, and issuer of window identities.
//!
//! The loop has two dispatch modes. `poll_events` drains whatever is queued
//! and returns without blocking; `run_forever` dispatches until the callback
//! answers `ControlFlow::Break` or `interrupt` was requested. A cross-thread
//! `EventsLoopProxy` can wake the loop; the wake signal travels over a
//! channel whose disconnection is exactly how the proxy learns that the loop
//! is gone. This backend has no native message source of its own: the
//! platform layer hands native notifications to the loop through
//! `enqueue_event`, and the otherwise-blocking wait of `run_forever` is
//! degenerate (with nothing left to wait on, the loop returns).

use crate::events::ControlFlow;
use crate::events::Event;
use crate::identity::WindowId;
use crate::monitor::available_monitors;
use crate::monitor::spec_monitors;
use crate::monitor::spec_primary_monitor;
use crate::monitor::MonitorId;
use std::collections::VecDeque;
use std::sync::mpsc::Receiver;
use std::sync::mpsc::Sender;
use vstd::prelude::*;

verus! {

#[verifier::external_type_specification]
#[verifier::external_body]
#[verifier::reject_recursive_types(T)]
pub struct ExSender<T>(Sender<T>);

#[verifier::external_type_specification]
#[verifier::external_body]
#[verifier::reject_recursive_types(T)]
pub struct ExReceiver<T>(Receiver<T>);

/// Relies on `std::sync::mpsc::channel`: returns a connected sender and
/// receiver pair for an unbounded queue.
#[verifier::external_body]
fn wake_channel() -> (Sender<u8>, Receiver<u8>) {
    std::sync::mpsc::channel()
}

/// Relies on `std::sync::mpsc::Sender::clone`: the clone feeds the same
/// receiver as the original.
#[verifier::external_body]
fn clone_sender(sender: &Sender<u8>) -> Sender<u8> {
    sender.clone()
}

/// Relies on `std::sync::mpsc::Sender::send`: it never blocks, and it fails
/// exactly when the receiving half has been dropped. Whether that has
/// happened depends on another thread, so nothing is promised of the result.
#[verifier::external_body]
fn send_wake(sender: &Sender<u8>) -> bool {
    sender.send(1u8).is_ok()
}

/// Relies on `std::sync::mpsc::Receiver::try_recv`: it returns without
/// blocking, and is `Ok` exactly when a message was queued. Whether one was
/// depends on other threads, so nothing is promised of the result.
#[verifier::external_body]
fn try_recv_wake(receiver: &Receiver<u8>) -> bool {
    receiver.try_recv().is_ok()
}

/// The error a proxy `wakeup` reports when the owning loop has already
/// terminated. The caller decides whether to ignore it or treat it as fatal.
#[derive(Debug, Clone, Copy, PartialEq, Eq, Structural)]
pub struct EventsLoopClosed;

/// The state of an event loop that its contracts speak about: the queue of
/// events not yet dispatched, whether termination was requested, the next
/// fresh window identity, and the identities already issued and live.
#[verifier::ext_equal]
pub ghost struct EventsLoopView {
    pub pending: Seq<Event>,
    pub interrupted: bool,
    pub next_window: u32,
    pub live: Seq<WindowId>,
}

/// The event loop. It exclusively owns the platform message source (here:
/// the wake channel and the queue of injected native events) and is used
/// from the thread that created it; only the proxy crosses threads.
pub struct EventsLoop {
    wake_sender: Sender<u8>,
    wake_receiver: Receiver<u8>,
    pending: Vec<Event>,
    interrupted: bool,
    next_window: u32,
    live: Ghost<Seq<WindowId>>,
}

impl View for EventsLoop {
    type V = EventsLoopView;

    closed spec fn view(&self) -> EventsLoopView {
        EventsLoopView {
            pending: self.pending@,
            interrupted: self.interrupted,
            next_window: self.next_window,
            live: self.live@,
        }
    }
}

impl EventsLoop {
    /// Well-formedness: window identities are issued in strictly increasing
    /// order starting at 1, so every live identity is below the next fresh
    /// one and distinct from the dummy sentinel.
    pub open spec fn wf(&self) -> bool {
        &&& self@.next_window >= 1
        &&& forall|i: int|
            0 <= i < self@.live.len() ==> 1 <= (#[trigger] self@.live[i]).value()
                < self@.next_window
        &&& forall|i: int, j: int|
            0 <= i < j < self@.live.len() ==> self@.live[i].value() < self@.live[j].value()
    }

    /// Creates a loop in its constructed state: nothing queued, nothing
    /// interrupted, no window yet. Construction does not fail.
    pub fn new() -> (r: EventsLoop)
        ensures
            r@ == (EventsLoopView {
                pending: Seq::<Event>::empty(),
                interrupted: false,
                next_window: 1,
                live: Seq::<WindowId>::empty(),
            }),
            r.wf(),
    {
        let (wake_sender, wake_receiver) = wake_channel();
        let r = EventsLoop {
            wake_sender,
            wake_receiver,
            pending: Vec::new(),
            interrupted: false,
            next_window: 1,
            live: Ghost(Seq::empty()),
        };
        proof {
            assert(r@ =~= (EventsLoopView {
                pending: Seq::<Event>::empty(),
                interrupted: false,
                next_window: 1,
                live: Seq::<WindowId>::empty(),
            }));
        }
        r
    }

    /// Requests termination of an in-progress dispatch: `run_forever`
    /// returns before it would dispatch another event. Idempotent; the rest
    /// of the loop's state is untouched.
    pub fn interrupt(&mut self)
        ensures
            final (self)@ == (EventsLoopView { interrupted: true, ..old(self)@ }),
    {
        self.interrupted = true;
        proof {
            assert(self@ =~= (EventsLoopView { interrupted: true, ..old(self)@ }));
        }
    }

    /// Hands a native notification to the loop; it is dispatched after
    /// everything queued before it, so callback order stays FIFO.
    pub fn enqueue_event(&mut self, event: Event)
        ensures
            final (self)@ == (EventsLoopView {
                pending: old(self)@.pending.push(event),
                ..old(self)@
            }),
    {
        self.pending.push(event);
        proof {
            assert(self@ =~= (EventsLoopView {
                pending: old(self)@.pending.push(event),
                ..old(self)@
            }));
        }
    }

    /// Creates a cross-thread handle that can wake this loop.
    pub fn create_proxy(&self) -> EventsLoopProxy {
        EventsLoopProxy { sender: clone_sender(&self.wake_sender) }
    }

    /// Enumerates the available display surfaces: at least one, always.
    pub fn get_available_monitors(&self) -> (r: VecDeque<MonitorId>)
        ensures
            r@ == spec_monitors(),
            r@.len() >= 1,
    {
        available_monitors()
    }

    /// The primary display surface: the first enumerated one.
    pub fn get_primary_monitor(&self) -> (r: MonitorId)
        ensures
            r == spec_primary_monitor(),
    {
        MonitorId
    }

    /// Issues a fresh window identity and records it live, or reports that
    /// the identity space is exhausted.
    pub(crate) fn issue_window_id(&mut self) -> (r: Option<WindowId>)
        requires
            old(self).wf(),
        ensures
            final (self).wf(),
            r matches None <==> old(self)@.next_window == u32::MAX,
            r matches None ==> final (self)@ == old(self)@,
            r matches Some(id) ==> id.value() == old(self)@.next_window && final (self)@
                == (EventsLoopView {
                next_window: (old(self)@.next_window + 1) as u32,
                live: old(self)@.live.push(id),
                ..old(self)@
            }),
    {
        if self.next_window == u32::MAX {
            return None;
        }
        let id = WindowId::make(self.next_window);
        self.next_window = self.next_window + 1;
        proof {
            self.live@ = self.live@.push(id);
        }
        proof {
            assert(self@ =~= (EventsLoopView {
                next_window: (old(self)@.next_window + 1) as u32,
                live: old(self)@.live.push(id),
                ..old(self)@
            }));
            assert forall|i: int|
                0 <= i < self@.live.len() implies 1 <= (#[trigger] self@.live[i]).value()
                < self@.next_window by {
                if i < self@.live.len() - 1 {
                    assert(self@.live[i] == old(self)@.live[i]);
                }
            }
            assert forall|i: int, j: int|
                0 <= i < j < self@.live.len() implies self@.live[i].value()
                < self@.live[j].value() by {
                if j < self@.live.len() - 1 {
                    assert(self@.live[i] == old(self)@.live[i]);
                    assert(self@.live[j] == old(self)@.live[j]);
                } else {
                    assert(self@.live[i] == old(self)@.live[i]);
                }
            }
        }
        Some(id)
    }

    /// Coalesces every queued wake signal into one answer: did at least one
    /// `wakeup` arrive since the last dispatch cycle?
    fn drain_wakes(&self) -> bool {
        let mut woke = false;
        let mut budget: u32 = 1024;
        while budget > 0
            decreases budget,
        {
            budget = budget - 1;
            if !try_recv_wake(&self.wake_receiver) {
                break ;
            }
            woke = true;
        }
        woke
    }

    /// Drains the currently queued events, invoking the callback once per
    /// event in FIFO order, and returns without blocking. A pending proxy
    /// wake is delivered first as `Event::Awakened` (many wakes coalesce
    /// into one). With nothing queued and no wake pending, the loop's state
    /// is exactly what it was and the callback is never invoked.
    pub fn poll_events<F: Fn(Event)>(&mut self, callback: F) -> (woke: Ghost<bool>)
        requires
            forall|i: int|
                0 <= i < old(self)@.pending.len() ==> call_requires(
                    callback,
                    (old(self)@.pending[i],),
                ),
            call_requires(callback, (Event::Awakened,)),
        ensures
            final (self)@ == (EventsLoopView { pending: Seq::<Event>::empty(), ..old(self)@ }),
            forall|i: int|
                0 <= i < old(self)@.pending.len() ==> call_ensures(
                    callback,
                    (old(self)@.pending[i],),
                    (),
                ),
            woke@ ==> call_ensures(callback, (Event::Awakened,), ()),
    {
        let woke = self.drain_wakes();
        if woke {
            callback(Event::Awakened);
        }
        let ghost q = self@.pending;
        let mut i: usize = 0;
        while i < self.pending.len()
            invariant
                forall|k: int| 0 <= k < q.len() ==> call_requires(callback, (q[k],)),
                self@ == (EventsLoopView { pending: q, ..old(self)@ }),
                0 <= i <= q.len(),
                forall|k: int| 0 <= k < i ==> call_ensures(callback, (q[k],), ()),
            decreases q.len() - i,
        {
            let event = self.pending[i];
            i = i + 1;
            callback(event);
        }
        self.pending.clear();
        proof {
            assert(self@ =~= (EventsLoopView {
                pending: Seq::<Event>::empty(),
                ..old(self)@
            }));
        }
        Ghost(woke)
    }

    /// Dispatches events to the callback until it answers
    /// `ControlFlow::Break` or an `interrupt` was requested, checking
    /// between deliveries and never mid-dispatch. An interrupt requested
    /// before the call wins immediately: nothing is dispatched. A pending
    /// proxy wake is delivered first as `Event::Awakened`. Events not yet
    /// dispatched when the loop terminates stay queued; none is dropped and
    /// none is dispatched twice. On this backend the loop does not block:
    /// with no native message source, a drained queue ends the call.
    ///
    /// The ghost result reports whether a wake was delivered and how many
    /// queued events were dispatched.
    pub fn run_forever<F: Fn(Event) -> ControlFlow>(&mut self, callback: F) -> (r: Ghost<
        (bool, int),
    >)
        requires
            forall|i: int|
                0 <= i < old(self)@.pending.len() ==> call_requires(
                    callback,
                    (old(self)@.pending[i],),
                ),
            call_requires(callback, (Event::Awakened,)),
        ensures
            ({
                let woke = r@.0;
                let n = r@.1;
                let q = old(self)@.pending;
                &&& 0 <= n <= q.len()
                &&& final (self)@ == (EventsLoopView { pending: q.skip(n), ..old(self)@ })
                &&& old(self)@.interrupted ==> n == 0 && !woke
                &&& woke ==> (call_ensures(callback, (Event::Awakened,), ControlFlow::Continue)
                    || call_ensures(callback, (Event::Awakened,), ControlFlow::Break))
                &&& forall|k: int|
                    0 <= k < n - 1 ==> call_ensures(callback, (q[k],), ControlFlow::Continue)
                &&& n > 0 ==> (call_ensures(callback, (q[n - 1],), ControlFlow::Continue)
                    || call_ensures(callback, (q[n - 1],), ControlFlow::Break))
                &&& !old(self)@.interrupted && n < q.len() ==> ((n > 0 && call_ensures(
                    callback,
                    (q[n - 1],),
                    ControlFlow::Break,
                )) || (n == 0 && woke && call_ensures(
                    callback,
                    (Event::Awakened,),
                    ControlFlow::Break,
                )))
            }),
    {
        let ghost q = self@.pending;
        if self.interrupted {
            proof {
                assert(self@ =~= (EventsLoopView { pending: q.skip(0), ..old(self)@ }));
            }
            return Ghost((false, 0));
        }
        let woke = self.drain_wakes();
        if woke {
            let flow = callback(Event::Awakened);
            if flow == ControlFlow::Break {
                proof {
                    assert(self@ =~= (EventsLoopView { pending: q.skip(0), ..old(self)@ }));
                }
                return Ghost((true, 0));
            }
        }
        let mut i: usize = 0;
        let mut broke = false;
        while i < self.pending.len() && !broke
            invariant
                forall|k: int| 0 <= k < q.len() ==> call_requires(callback, (q[k],)),
                self@ == (EventsLoopView { pending: q, ..old(self)@ }),
                0 <= i <= q.len(),
                forall|k: int| 0 <= k < i - 1 ==> call_ensures(callback, (q[k],), ControlFlow::Continue),
                i > 0 ==> (call_ensures(callback, (q[i - 1],), ControlFlow::Continue)
                    || call_ensures(callback, (q[i - 1],), ControlFlow::Break)),
                !broke && i > 0 ==> call_ensures(callback, (q[i - 1],), ControlFlow::Continue),
                broke ==> i > 0 && call_ensures(callback, (q[i - 1],), ControlFlow::Break),
            decreases q.len() - i,
        {
            let event = self.pending[i];
            i = i + 1;
            let flow = callback(event);
            if flow == ControlFlow::Break {
                broke = true;
            }
        }
        let mut rest: Vec<Event> = Vec::new();
        let mut j: usize = i;
        while j < self.pending.len()
            invariant
                self@ == (EventsLoopView { pending: q, ..old(self)@ }),
                i <= j <= q.len(),
                rest@ == q.subrange(i as int, j as int),
            decreases q.len() - j,
        {
            let event = self.pending[j];
            rest.push(event);
            j = j + 1;
            proof {
                assert(rest@ =~= q.subrange(i as int, j as int));
            }
        }
        self.pending = rest;
        proof {
            assert(q.subrange(i as int, q.len() as int) =~= q.skip(i as int));
            assert(self@ =~= (EventsLoopView { pending: q.skip(i as int), ..old(self)@ }));
        }
        Ghost((woke, i as int))
    }
}

/// Law: requesting an interrupt is idempotent — the state `interrupt`
/// leaves behind when applied twice is the state it leaves after once.
pub proof fn lemma_interrupt_idempotent(v: EventsLoopView)
    ensures
        (EventsLoopView { interrupted: true, ..(EventsLoopView { interrupted: true, ..v }) })
            == (EventsLoopView { interrupted: true, ..v }),
{
}

/// Law: the identities of a well-formed loop's currently-live windows are
/// pairwise distinct, and none of them is the dummy sentinel.
pub proof fn lemma_live_ids_unique(events_loop: &EventsLoop)
    requires
        events_loop.wf(),
    ensures
        forall|i: int, j: int|
            0 <= i < events_loop@.live.len() && 0 <= j < events_loop@.live.len() && i != j
                ==> events_loop@.live[i] != events_loop@.live[j],
        forall|i: int|
            0 <= i < events_loop@.live.len() ==> (#[trigger] events_loop@.live[i]).value() >= 1,
{
    assert forall|i: int, j: int|
        0 <= i < events_loop@.live.len() && 0 <= j < events_loop@.live.len() && i != j
        implies events_loop@.live[i] != events_loop@.live[j] by {
        if i < j {
            assert(events_loop@.live[i].value() < events_loop@.live[j].value());
        } else {
            assert(events_loop@.live[j].value() < events_loop@.live[i].value());
        }
    }
}

/// A cross-thread handle to wake a (possibly blocked) event loop. Safe to
/// clone and to call concurrently with the loop's own dispatch.
pub struct EventsLoopProxy {
    sender: Sender<u8>,
}

impl Clone for EventsLoopProxy {
    /// Another handle to the same loop.
    fn clone(&self) -> EventsLoopProxy {
        EventsLoopProxy { sender: clone_sender(&self.sender) }
    }
}

/// Maps delivery of the wake signal to the proxy's answer: a delivered
/// signal is `Ok`, a refused one means the owning loop is gone.
pub fn wake_result(delivered: bool) -> (r: Result<(), EventsLoopClosed>)
    ensures
        r == if delivered {
            Ok::<(), EventsLoopClosed>(())
        } else {
            Err::<(), EventsLoopClosed>(EventsLoopClosed)
        },
{
    if delivered {
        Ok(())
    } else {
        Err(EventsLoopClosed)
    }
}

impl EventsLoopProxy {
    /// Wakes the owning loop: at least one wake is delivered per successful
    /// call, though rapid wakes may coalesce into one dispatch cycle. Fails
    /// with `EventsLoopClosed` exactly when the owning loop has already been
    /// dropped; a call racing with the loop's shutdown either wakes the
    /// still-live loop or reports closed. Whether the loop still lives is
    /// decided outside this crate, so only the shape of the answer is
    /// promised here.
    pub fn wakeup(&self) -> (r: Result<(), EventsLoopClosed>)
        ensures
            r == Ok::<(), EventsLoopClosed>(()) || r == Err::<(), EventsLoopClosed>(
                EventsLoopClosed,
            ),
    {
        let delivered = send_wake(&self.sender);
        wake_result(delivered)
    }
}

} // verus!

//! The dispatch channel and the main-thread executor.
//!
//! Worker threads hand units of main-thread-affine work to the executor
//! through a [`DispatchProxy`].  Each submission is given a ticket; the
//! executor services tickets strictly in submission order, one at a time,
//! and records one delivery per ticket: either the value the work produced,
//! or a rejection when the executor shut down before servicing it.
//!
//! The executor here is the bookkeeping core: the embedding program owns the
//! actual OS event loop and the cross-thread transport, performs the work of
//! each item it is handed ([`Executor::begin_service`]), and reports the
//! produced value back ([`Executor::finish_service`]).

use vstd::prelude::*;

verus! {

/// Description of a window/surface to create on the main thread.
#[derive(Clone, Copy, PartialEq, Eq, Structural, Debug)]
pub struct SurfaceDesc {
    pub width: u32,
    pub height: u32,
}

/// A unit of work that must run on the main thread.
#[derive(Clone, Copy, PartialEq, Eq, Structural, Debug)]
pub enum Request {
    /// Create a window and its surface from the given description.
    CreateWindow(SurfaceDesc),
    /// Run an arbitrary deferred task, identified by an opaque code.
    RunTask(u64),
}

/// The value the main thread produced by performing a request.
#[derive(Clone, Copy, PartialEq, Eq, Structural, Debug)]
pub enum WorkOutput {
    /// The handle of a newly created window/surface.
    Window(u64),
    /// The value a deferred task returned.
    Value(u64),
}

/// Why a submission was not accepted.
#[derive(Clone, Copy, PartialEq, Eq, Structural, Debug)]
pub enum SubmitError {
    /// The executor has already shut down; the item was not enqueued.
    ChannelClosed,
}

/// How one ticket was resolved.
#[derive(Clone, Copy, PartialEq, Eq, Structural, Debug)]
pub enum Resolution {
    /// The main thread performed the work and produced this value.
    Executed(WorkOutput),
    /// The executor shut down before servicing the item; the waiter is
    /// told so rather than left hanging.
    Rejected,
}

/// A queued unit of work: the ticket its submitter waits on, and the request.
#[derive(Clone, Copy, PartialEq, Eq, Structural, Debug)]
pub struct WorkItem {
    pub ticket: u64,
    pub request: Request,
}

/// The record of one resolved ticket.
#[derive(Clone, Copy, PartialEq, Eq, Structural, Debug)]
pub struct Delivery {
    pub ticket: u64,
    pub request: Request,
    pub resolution: Resolution,
}

/// The main-thread executor: accepts submissions, services them in FIFO
/// order, and delivers exactly one resolution per ticket.
pub struct Executor {
    /// Identifies this executor, so that proxies can be seen to target it.
    pub id: u64,
    /// False once the executor has shut down; submissions are then refused.
    pub open: bool,
    /// Work accepted but not yet serviced, oldest first.
    pub queue: Vec<WorkItem>,
    /// The item currently being performed on the main thread, if any.
    pub in_flight: Option<WorkItem>,
    /// One record per resolved ticket, in resolution order.
    pub deliveries: Vec<Delivery>,
    /// Number of tickets ever issued; the next submission gets this ticket.
    pub next_ticket: u64,
}

impl Executor {
    /// Tickets already taken off the queue (resolved or being performed).
    pub open spec fn serviced_count(self) -> int {
        self.deliveries@.len() + if self.in_flight is Some {
            1int
        } else {
            0int
        }
    }

    /// Well-formedness: tickets are issued consecutively from zero, are
    /// resolved in issue order, and every issued ticket is in exactly one
    /// place — delivered, in flight, or pending.
    pub open spec fn wf(self) -> bool {
        &&& forall|i: int|
            0 <= i < self.deliveries@.len() ==> (#[trigger] self.deliveries@[i]).ticket == i
        &&& (self.in_flight matches Some(w) ==> w.ticket == self.deliveries@.len())
        &&& forall|i: int|
            0 <= i < self.queue@.len() ==> (#[trigger] self.queue@[i]).ticket == self.serviced_count()
                + i
        &&& self.next_ticket == self.serviced_count() + self.queue@.len()
        &&& !self.open ==> self.queue@.len() == 0 && self.in_flight is None
    }

    /// A delivery exists for this ticket.
    pub open spec fn delivered_has(self, t: u64) -> bool {
        exists|i: int| 0 <= i < self.deliveries@.len() && (#[trigger] self.deliveries@[i]).ticket == t
    }

    /// The ticket is still queued.
    pub open spec fn pending_has(self, t: u64) -> bool {
        exists|i: int| 0 <= i < self.queue@.len() && (#[trigger] self.queue@[i]).ticket == t
    }

    /// The ticket is currently being performed.
    pub open spec fn in_flight_has(self, t: u64) -> bool {
        self.in_flight matches Some(w) && w.ticket == t
    }

    /// Accept a unit of work.  While the executor is open, the item is
    /// appended to the queue and its fresh ticket returned; after shutdown
    /// the submission is refused with `ChannelClosed` and nothing changes.
    pub fn submit(&mut self, request: Request) -> (r: Result<u64, SubmitError>)
        requires
            old(self).wf(),
            old(self).next_ticket < u64::MAX,
        ensures
            final(self).wf(),
            final(self).id == old(self).id,
            final(self).open == old(self).open,
            final(self).deliveries@ == old(self).deliveries@,
            final(self).in_flight == old(self).in_flight,
            old(self).open ==> r == Ok::<u64, SubmitError>(old(self).next_ticket),
            old(self).open ==> final(self).queue@ == old(self).queue@.push(
                (WorkItem { ticket: old(self).next_ticket, request }),
            ),
            old(self).open ==> final(self).next_ticket == old(self).next_ticket + 1,
            !old(self).open ==> r == Err::<u64, SubmitError>(SubmitError::ChannelClosed),
            !old(self).open ==> *final(self) == *old(self),
    {
        if self.open {
            let t = self.next_ticket;
            self.queue.push(WorkItem { ticket: t, request });
            self.next_ticket = t + 1;
            Ok(t)
        } else {
            Err(SubmitError::ChannelClosed)
        }
    }

    /// Take the oldest queued item off the queue so the main thread can
    /// perform it.  Returns its request, or `None` when nothing is queued.
    pub fn begin_service(&mut self) -> (r: Option<Request>)
        requires
            old(self).wf(),
            old(self).in_flight is None,
        ensures
            final(self).wf(),
            final(self).id == old(self).id,
            final(self).open == old(self).open,
            final(self).deliveries@ == old(self).deliveries@,
            final(self).next_ticket == old(self).next_ticket,
            old(self).queue@.len() == 0 ==> r is None && *final(self) == *old(self),
            old(self).queue@.len() > 0 ==> {
                &&& r == Some(old(self).queue@[0].request)
                &&& final(self).in_flight == Some(old(self).queue@[0])
                &&& final(self).queue@ == old(self).queue@.remove(0)
            },
    {
        if self.queue.len() == 0 {
            None
        } else {
            let item = self.queue.remove(0);
            self.in_flight = Some(item);
            Some(item.request)
        }
    }

    /// Record the value the main thread produced for the item in flight.
    /// The delivery carries exactly that value: the waiter's resolution
    /// equals what the work itself produced.
    pub fn finish_service(&mut self, produced: WorkOutput)
        requires
            old(self).wf(),
            old(self).in_flight is Some,
        ensures
            final(self).wf(),
            final(self).id == old(self).id,
            final(self).open == old(self).open,
            final(self).queue@ == old(self).queue@,
            final(self).next_ticket == old(self).next_ticket,
            final(self).in_flight is None,
            final(self).deliveries@ == old(self).deliveries@.push(
                (Delivery {
                    ticket: old(self).in_flight->Some_0.ticket,
                    request: old(self).in_flight->Some_0.request,
                    resolution: Resolution::Executed(produced),
                }),
            ),
    {
        let item = self.in_flight.unwrap();
        self.in_flight = None;
        self.deliveries.push(
            Delivery { ticket: item.ticket, request: item.request, resolution: Resolution::Executed(produced) },
        );
    }

    /// Shut the executor down: every still-pending item is drained and
    /// rejected (its waiter resolves with a rejection, never a hang), and
    /// submissions are refused from here on.
    pub fn shutdown(&mut self)
        requires
            old(self).wf(),
            old(self).in_flight is None,
        ensures
            final(self).wf(),
            final(self).id == old(self).id,
            !final(self).open,
            final(self).queue@.len() == 0,
            final(self).in_flight is None,
            final(self).next_ticket == old(self).next_ticket,
            final(self).deliveries@.len() == old(self).deliveries@.len() + old(self).queue@.len(),
            forall|i: int|
                0 <= i < old(self).deliveries@.len() ==> #[trigger] final(self).deliveries@[i]
                    == old(self).deliveries@[i],
            forall|k: int|
                old(self).deliveries@.len() <= k < final(self).deliveries@.len()
                    ==> #[trigger] final(self).deliveries@[k] == (Delivery {
                    ticket: old(self).queue@[k - old(self).deliveries@.len()].ticket,
                    request: old(self).queue@[k - old(self).deliveries@.len()].request,
                    resolution: Resolution::Rejected,
                }),
    {
        let ghost q0 = self.queue@;
        let ghost d0 = self.deliveries@;
        let n = self.queue.len();
        let mut i: usize = 0;
        while i < n
            invariant
                i <= n,
                self.in_flight is None,
                self.id == old(self).id,
                self.open == old(self).open,
                self.next_ticket == old(self).next_ticket,
                d0 == old(self).deliveries@,
                q0 == old(self).queue@,
                self.queue@ == q0,
                n == q0.len(),
                self.deliveries@.len() == d0.len() + i,
                forall|j: int| 0 <= j < d0.len() ==> #[trigger] self.deliveries@[j] == d0[j],
                forall|k: int|
                    d0.len() <= k < self.deliveries@.len() ==> #[trigger] self.deliveries@[k]
                        == (Delivery {
                        ticket: q0[k - d0.len()].ticket,
                        request: q0[k - d0.len()].request,
                        resolution: Resolution::Rejected,
                    }),
            decreases n - i,
        {
            let item = self.queue[i];
            self.deliveries.push(
                Delivery { ticket: item.ticket, request: item.request, resolution: Resolution::Rejected },
            );
            i += 1;
        }
        self.queue = Vec::new();
        self.open = false;
        proof {
            assert forall|i: int| 0 <= i < final(self).deliveries@.len() implies (
            #[trigger] final(self).deliveries@[i]).ticket == i by {
                if i < d0.len() {
                } else {
                    assert(final(self).deliveries@[i] == (Delivery {
                        ticket: q0[i - d0.len()].ticket,
                        request: q0[i - d0.len()].request,
                        resolution: Resolution::Rejected,
                    }));
                }
            }
        }
    }

    /// Look up the resolution of a ticket: `None` while the item is still
    /// pending or in flight, and the single recorded delivery once it has
    /// been resolved.  This is the "await" half of a submission.
    pub fn poll_resolution(&self, t: u64) -> (r: Option<Delivery>)
        requires
            self.wf(),
        ensures
            t < self.deliveries@.len() ==> r == Some(self.deliveries@[t as int]),
            t >= self.deliveries@.len() ==> r is None,
    {
        if t < self.deliveries.len() as u64 {
            Some(self.deliveries[t as usize])
        } else {
            None
        }
    }
}

/// Work items are resolved in submission order: tickets are handed out in
/// submission order, the `i`-th delivery ever recorded is the item with
/// ticket `i`, and so the recorded deliveries carry strictly increasing
/// tickets.  No reordering and no coalescing: still-queued items likewise
/// stand in submission order.
pub proof fn lemma_fifo_order(e: Executor)
    requires
        e.wf(),
    ensures
        forall|i: int| 0 <= i < e.deliveries@.len() ==> (#[trigger] e.deliveries@[i]).ticket == i,
        forall|i: int, j: int|
            0 <= i < j < e.deliveries@.len() ==> e.deliveries@[i].ticket < e.deliveries@[j].ticket,
        forall|i: int, j: int|
            0 <= i < j < e.queue@.len() ==> e.queue@[i].ticket < e.queue@[j].ticket,
{
}

/// Once the executor has shut down, nothing is pending or in flight and
/// every ticket ever issued has its delivery: no submission was dropped.
pub proof fn lemma_shutdown_resolves_all(e: Executor)
    requires
        e.wf(),
        !e.open,
    ensures
        e.queue@.len() == 0,
        e.in_flight is None,
        e.deliveries@.len() == e.next_ticket,
        forall|t: u64| t < e.next_ticket ==> e.delivered_has(t),
{
    assert forall|t: u64| t < e.next_ticket implies e.delivered_has(t) by {
        assert(e.deliveries@[t as int].ticket == t);
    }
}

/// Every issued ticket is in exactly one place — already delivered, in
/// flight on the main thread, or still pending — so each submission
/// eventually resolves exactly once and none is dropped or duplicated.
pub proof fn lemma_ticket_resolves_exactly_once(e: Executor, t: u64)
    requires
        e.wf(),
        t < e.next_ticket,
    ensures
        e.delivered_has(t) || e.in_flight_has(t) || e.pending_has(t),
        !(e.delivered_has(t) && e.in_flight_has(t)),
        !(e.delivered_has(t) && e.pending_has(t)),
        !(e.in_flight_has(t) && e.pending_has(t)),
        forall|i: int, j: int|
            0 <= i < e.deliveries@.len() && 0 <= j < e.deliveries@.len()
                && e.deliveries@[i].ticket == t && e.deliveries@[j].ticket == t ==> i == j,
        forall|i: int, j: int|
            0 <= i < e.queue@.len() && 0 <= j < e.queue@.len() && e.queue@[i].ticket == t
                && e.queue@[j].ticket == t ==> i == j,
{
    if t < e.deliveries@.len() {
        assert(e.deliveries@[t as int].ticket == t);
    } else if e.serviced_count() > e.deliveries@.len() && t == e.deliveries@.len() {
        assert(e.in_flight_has(t));
    } else {
        let k = t - e.serviced_count();
        assert(e.queue@[k].ticket == t);
    }
}

/// A cloneable handle held by worker threads; all copies of the proxy made
/// from one executor target that same executor.
#[derive(Clone, Copy, PartialEq, Eq, Structural, Debug)]
pub struct DispatchProxy {
    /// The identity of the executor every submission goes to.
    pub target: u64,
}

impl DispatchProxy {
    /// Submit a unit of work to the executor this proxy targets.
    pub fn submit(&self, exec: &mut Executor, request: Request) -> (r: Result<u64, SubmitError>)
        requires
            self.target == old(exec).id,
            old(exec).wf(),
            old(exec).next_ticket < u64::MAX,
        ensures
            final(exec).wf(),
            final(exec).id == old(exec).id,
            final(exec).open == old(exec).open,
            final(exec).deliveries@ == old(exec).deliveries@,
            old(exec).open ==> r == Ok::<u64, SubmitError>(old(exec).next_ticket),
            old(exec).open ==> final(exec).queue@ == old(exec).queue@.push(
                (WorkItem { ticket: old(exec).next_ticket, request }),
            ),
            old(exec).open ==> final(exec).next_ticket == old(exec).next_ticket + 1,
            !old(exec).open ==> r == Err::<u64, SubmitError>(SubmitError::ChannelClosed),
            !old(exec).open ==> *final(exec) == *old(exec),
    {
        exec.submit(request)
    }
}

/// Create the process's main-thread event loop: the executor itself and the
/// first proxy bound to it.  Every further proxy is a copy of this one and
/// so targets the same executor.
pub fn create_event_loop(id: u64) -> (r: (Executor, DispatchProxy))
    ensures
        r.0.wf(),
        r.0.id == id,
        r.0.open,
        r.0.queue@.len() == 0,
        r.0.in_flight is None,
        r.0.deliveries@.len() == 0,
        r.0.next_ticket == 0,
        r.1.target == id,
{
    let exec = Executor {
        id,
        open: true,
        queue: Vec::new(),
        in_flight: None,
        deliveries: Vec::new(),
        next_ticket: 0,
    };
    let proxy = DispatchProxy { target: id };
    (exec, proxy)
}

} // verus!

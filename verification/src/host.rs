//! The capability surface handed to the component's host-side
//! implementations.
//!
//! One [`HostState`] exists per running component instance.  It owns the
//! handle table (opaque integer handles to host-owned resources), the
//! execution context fixed at construction, the process's shared graphics
//! device handle, and a [`DispatchProxy`] bound to the single main-thread
//! executor.  Every host-implemented operation reaches these resources only
//! through the instance its call was given.

use crate::bridge::DispatchProxy;
use crate::bridge::Executor;
use crate::bridge::Request;
use crate::bridge::SubmitError;
use crate::bridge::SurfaceDesc;
use vstd::prelude::*;

verus! {

/// One table entry: an opaque handle and the resource datum it stands for.
#[derive(Clone, Copy, PartialEq, Eq, Structural, Debug)]
pub struct TableEntry {
    pub handle: u64,
    pub data: u64,
}

/// The host-owned mapping from opaque integer handles to resources.
/// Handles are never reused: each insertion takes a fresh one.
pub struct HandleTable {
    pub entries: Vec<TableEntry>,
    /// Strictly above every handle ever issued.
    pub next_handle: u64,
}

impl HandleTable {
    /// Well-formedness: handles are pairwise distinct and all below
    /// `next_handle`, so a fresh insertion can never collide.
    pub open spec fn wf(self) -> bool {
        &&& forall|i: int, j: int|
            0 <= i < j < self.entries@.len() ==> (#[trigger] self.entries@[i]).handle != (
            #[trigger] self.entries@[j]).handle
        &&& forall|i: int|
            0 <= i < self.entries@.len() ==> (#[trigger] self.entries@[i]).handle
                < self.next_handle
    }

    /// Some entry carries this handle.
    pub open spec fn has_handle(self, h: u64) -> bool {
        exists|i: int| 0 <= i < self.entries@.len() && (#[trigger] self.entries@[i]).handle == h
    }

    /// An empty table.
    pub fn new() -> (t: HandleTable)
        ensures
            t.wf(),
            t.entries@.len() == 0,
            t.next_handle == 0,
    {
        HandleTable { entries: Vec::new(), next_handle: 0 }
    }

    /// Insert a resource under a fresh handle and return that handle.
    pub fn insert(&mut self, data: u64) -> (h: u64)
        requires
            old(self).wf(),
            old(self).next_handle < u64::MAX,
        ensures
            final(self).wf(),
            h == old(self).next_handle,
            !old(self).has_handle(h),
            final(self).entries@ == old(self).entries@.push((TableEntry { handle: h, data })),
            final(self).next_handle == old(self).next_handle + 1,
            final(self).has_handle(h),
    {
        let h = self.next_handle;
        self.entries.push(TableEntry { handle: h, data });
        self.next_handle = h + 1;
        proof {
            assert(final(self).entries@[final(self).entries@.len() - 1].handle == h);
        }
        h
    }

    /// Look up the resource a handle stands for.
    pub fn get(&self, h: u64) -> (r: Option<u64>)
        requires
            self.wf(),
        ensures
            r matches Some(d) ==> exists|i: int|
                0 <= i < self.entries@.len() && (#[trigger] self.entries@[i]).handle == h
                    && self.entries@[i].data == d,
            r is None ==> !self.has_handle(h),
    {
        let mut i: usize = 0;
        while i < self.entries.len()
            invariant
                i <= self.entries@.len(),
                forall|j: int| 0 <= j < i ==> (#[trigger] self.entries@[j]).handle != h,
            decreases self.entries@.len() - i,
        {
            if self.entries[i].handle == h {
                return Some(self.entries[i].data);
            }
            i += 1;
        }
        None
    }

    /// Remove a handle's entry, returning its resource datum, or `None` and
    /// an unchanged table when the handle is absent.  Afterwards the handle
    /// is gone either way.
    pub fn remove(&mut self, h: u64) -> (r: Option<u64>)
        requires
            old(self).wf(),
        ensures
            final(self).wf(),
            final(self).next_handle == old(self).next_handle,
            r is None ==> *final(self) == *old(self) && !old(self).has_handle(h),
            r matches Some(d) ==> exists|i: int|
                0 <= i < old(self).entries@.len() && (#[trigger] old(self).entries@[i]).handle == h
                    && old(self).entries@[i].data == d && final(self).entries@ == old(
                self,
                ).entries@.remove(i),
            !final(self).has_handle(h),
    {
        let mut i: usize = 0;
        while i < self.entries.len()
            invariant
                old(self).wf(),
                *self == *old(self),
                i <= self.entries@.len(),
                forall|j: int| 0 <= j < i ==> (#[trigger] self.entries@[j]).handle != h,
            decreases self.entries@.len() - i,
        {
            if self.entries[i].handle == h {
                let d = self.entries[i].data;
                let ghost e0 = self.entries@;
                let ghost idx = i as int;
                self.entries.remove(i);
                proof {
                    e0.remove_ensures(idx);
                    assert(self.entries@ == e0.remove(idx));
                    assert forall|j: int| 0 <= j < self.entries@.len() implies (
                    #[trigger] self.entries@[j]).handle != h by {
                        let j0 = if j < idx {
                            j
                        } else {
                            j + 1
                        };
                        assert(e0.remove(idx)[j] == e0[j0]);
                        assert(e0[j0] == old(self).entries@[j0]);
                        if j0 < idx {
                            assert(old(self).entries@[j0].handle != old(self).entries@[idx].handle);
                        } else {
                            assert(old(self).entries@[idx].handle != old(self).entries@[j0].handle);
                        }
                    }
                    assert forall|j: int, k: int| 0 <= j < k < self.entries@.len() implies (
                    #[trigger] self.entries@[j]).handle != (#[trigger] self.entries@[k]).handle by {
                        let j0 = if j < idx {
                            j
                        } else {
                            j + 1
                        };
                        let k0 = if k < idx {
                            k
                        } else {
                            k + 1
                        };
                        assert(e0.remove(idx)[j] == e0[j0]);
                        assert(e0.remove(idx)[k] == e0[k0]);
                        assert(old(self).entries@[j0].handle != old(self).entries@[k0].handle);
                    }
                    assert forall|j: int| 0 <= j < self.entries@.len() implies (
                    #[trigger] self.entries@[j]).handle < self.next_handle by {
                        let j0 = if j < idx {
                            j
                        } else {
                            j + 1
                        };
                        assert(e0.remove(idx)[j] == e0[j0]);
                        assert(old(self).entries@[j0].handle < self.next_handle);
                    }
                }
                return Some(d);
            }
            i += 1;
        }
        None
    }

    /// The number of live handles.
    pub fn len(&self) -> (n: usize)
        ensures
            n == self.entries@.len(),
    {
        self.entries.len()
    }
}

/// The execution/OS context fixed when the capability surface is built.
#[derive(Clone, Copy, PartialEq, Eq, Structural, Debug)]
pub struct ExecContext {
    /// The component inherits the host's standard I/O streams.
    pub inherit_stdio: bool,
}

/// A reference-counted handle to the process's one graphics device; copies
/// of the handle all denote that same underlying device.
#[derive(Clone, Copy, PartialEq, Eq, Structural, Debug)]
pub struct DeviceHandle {
    /// The identity of the underlying device resource.
    pub device_id: u64,
    /// The device was opened accepting every available backend.
    pub all_backends: bool,
}

/// The identity of the single graphics device a process opens.
pub const PROCESS_DEVICE_ID: u64 = 0;

/// The capability surface: everything the component's host-side
/// implementations may touch during one component run.
pub struct HostState {
    pub table: HandleTable,
    pub ctx: ExecContext,
    pub instance: DeviceHandle,
    pub main_thread_proxy: DispatchProxy,
}

impl HostState {
    pub open spec fn wf(self) -> bool {
        self.table.wf()
    }

    /// Build the capability surface for one component run: an empty handle
    /// table, a context inheriting standard I/O, the process's shared
    /// graphics device handle (all backends accepted), and the given proxy
    /// to the main-thread executor.
    pub fn new(main_thread_proxy: DispatchProxy) -> (s: HostState)
        ensures
            s.wf(),
            s.table.entries@.len() == 0,
            s.table.next_handle == 0,
            s.ctx.inherit_stdio,
            s.instance.device_id == PROCESS_DEVICE_ID,
            s.instance.all_backends,
            s.main_thread_proxy == main_thread_proxy,
    {
        HostState {
            table: HandleTable::new(),
            ctx: ExecContext { inherit_stdio: true },
            instance: DeviceHandle { device_id: PROCESS_DEVICE_ID, all_backends: true },
            main_thread_proxy,
        }
    }

    /// The handle table, for capability operations that create or destroy
    /// handles.  Nothing else of the surface changes through this borrow.
    pub fn table(&mut self) -> (r: &mut HandleTable)
        ensures
            *r == old(self).table,
            final(self).table == *final(r),
            final(self).ctx == old(self).ctx,
            final(self).instance == old(self).instance,
            final(self).main_thread_proxy == old(self).main_thread_proxy,
    {
        &mut self.table
    }

    /// The execution context; immutable after construction.
    pub fn ctx(&self) -> (r: ExecContext)
        ensures
            r == self.ctx,
    {
        self.ctx
    }

    /// A handle to the shared graphics device.  Every access within one
    /// surface's lifetime returns the same handle: the same underlying
    /// device.
    pub fn instance(&self) -> (r: DeviceHandle)
        ensures
            r == self.instance,
    {
        self.instance
    }

    /// A fresh spawner for "run this closure on the main thread": a copy of
    /// the dispatch proxy, so it targets the same executor as every other
    /// spawner handed out by this surface.
    pub fn ui_thread_spawner(&self) -> (r: UiThreadSpawner)
        ensures
            r.0 == self.main_thread_proxy,
    {
        UiThreadSpawner(self.main_thread_proxy)
    }

    /// Request creation of a window/surface on the main thread.  The
    /// request is enqueued through the dispatch proxy; the returned ticket
    /// resolves (the embedding program blocks on it) once the main thread
    /// has serviced the creation, or with a rejection if the executor has
    /// shut down.
    pub fn create_canvas(&self, exec: &mut Executor, desc: SurfaceDesc) -> (r: Result<
        u64,
        SubmitError,
    >)
        requires
            self.main_thread_proxy.target == old(exec).id,
            old(exec).wf(),
            old(exec).next_ticket < u64::MAX,
        ensures
            final(exec).wf(),
            final(exec).id == old(exec).id,
            final(exec).open == old(exec).open,
            final(exec).deliveries@ == old(exec).deliveries@,
            old(exec).open ==> r == Ok::<u64, SubmitError>(old(exec).next_ticket),
            old(exec).open ==> final(exec).queue@ == old(exec).queue@.push(
                (crate::bridge::WorkItem {
                    ticket: old(exec).next_ticket,
                    request: Request::CreateWindow(desc),
                }),
            ),
            !old(exec).open ==> r == Err::<u64, SubmitError>(SubmitError::ChannelClosed),
            !old(exec).open ==> *final(exec) == *old(exec),
    {
        self.main_thread_proxy.submit(exec, Request::CreateWindow(desc))
    }
}

/// The boxed "run on the main (UI) thread" capability handed to graphics
/// operations; it wraps one copy of the dispatch proxy.
#[derive(Clone, Copy, PartialEq, Eq, Structural, Debug)]
pub struct UiThreadSpawner(pub DispatchProxy);

impl UiThreadSpawner {
    /// Submit a deferred task to the main thread and return the ticket its
    /// result will be delivered under.
    pub fn spawn(&self, exec: &mut Executor, task: u64) -> (r: Result<u64, SubmitError>)
        requires
            self.0.target == old(exec).id,
            old(exec).wf(),
            old(exec).next_ticket < u64::MAX,
        ensures
            final(exec).wf(),
            final(exec).id == old(exec).id,
            final(exec).open == old(exec).open,
            final(exec).deliveries@ == old(exec).deliveries@,
            old(exec).open ==> r == Ok::<u64, SubmitError>(old(exec).next_ticket),
            old(exec).open ==> final(exec).queue@ == old(exec).queue@.push(
                (crate::bridge::WorkItem {
                    ticket: old(exec).next_ticket,
                    request: Request::RunTask(task),
                }),
            ),
            !old(exec).open ==> r == Err::<u64, SubmitError>(SubmitError::ChannelClosed),
            !old(exec).open ==> *final(exec) == *old(exec),
    {
        self.0.submit(exec, Request::RunTask(task))
    }
}

/// The shared graphics device handle is identical across accesses: any two
/// reads of the device from one capability surface yield the same handle,
/// denoting the same underlying device resource.
pub proof fn lemma_shared_device_identical(s: HostState, a: DeviceHandle, b: DeviceHandle)
    requires
        a == s.instance,
        b == s.instance,
    ensures
        a == b,
        a.device_id == b.device_id,
{
}

} // verus!

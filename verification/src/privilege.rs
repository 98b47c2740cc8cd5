//! Privilege scoping: acquiring an exclusive capability over the current
//! process, toggling a code region between writable and executable states,
//! and the guarantee that the executable state is restored and the capability
//! released on every exit path.
//!
//! The host OS is a model: an [`Os`] value holds the raw result codes the
//! next system calls will return (inputs of the caller), and a log of the
//! calls made, so that the order of the privilege operations is part of every
//! contract.

use vstd::prelude::*;

use crate::memory::{
    apply_writes, apply_writes_seq, region_word_addr, MemoryImage, MemoryPermission, PatchWrite,
};
use crate::PatchError;

verus! {

/// One recorded action of a privilege scope, in the order performed.
#[derive(Clone, Copy, Debug, PartialEq, Eq, Structural)]
pub enum ScopeEvent {
    /// A process handle was acquired.
    Acquire,
    /// The protection of the patched region was set to this state.
    SetPermission(MemoryPermission),
    /// The body of the scope ran.
    BodyRun,
    /// The process handle was closed.
    Release,
}

/// An exclusive capability over the current process's address space, returned
/// by a successful acquire and consumed by the close that releases it.
pub struct ProcessHandle {
    raw: u32,
}

/// The host operating system, modeled: the raw result codes its next system
/// calls will return, and the log of calls made so far. A code of zero means
/// the call succeeds; any other code is surfaced as `OsCallFailed`.
pub struct Os {
    results: Vec<u32>,
    cursor: usize,
    events: Vec<ScopeEvent>,
}

impl Os {
    /// The Os model stays well formed.
    pub closed spec fn wf(&self) -> bool {
        self.cursor <= self.results@.len()
    }

    /// The result codes the next system calls will return, in order.
    pub closed spec fn pending(&self) -> Seq<u32> {
        self.results@.skip(self.cursor as int)
    }

    /// The calls made so far, in order.
    pub closed spec fn log(&self) -> Seq<ScopeEvent> {
        self.events@
    }

    /// Describes a host whose next system calls return `results`, in order.
    pub fn new(results: Vec<u32>) -> (os: Os)
        ensures
            os.wf(),
            os.pending() == results@,
            os.log() == Seq::<ScopeEvent>::empty(),
    {
        let os = Os { results, cursor: 0, events: Vec::new() };
        proof {
            assert(os.pending() =~= os.results@);
        }
        os
    }

    /// How many result codes are still queued.
    pub fn pending_len(&self) -> (n: usize)
        requires
            self.wf(),
        ensures
            n == self.pending().len(),
    {
        self.results.len() - self.cursor
    }

    /// The calls made so far, in order.
    pub fn event_log(&self) -> (l: &Vec<ScopeEvent>)
        ensures
            l@ == self.log(),
    {
        &self.events
    }

    /// Consumes the next queued result code.
    fn next_code(&mut self) -> (c: u32)
        requires
            old(self).wf(),
            old(self).pending().len() > 0,
        ensures
            final(self).wf(),
            c == old(self).pending()[0],
            final(self).pending() == old(self).pending().skip(1),
            final(self).log() == old(self).log(),
    {
        let n = self.results.len();
        proof {
            assert(old(self).pending().len() == n - self.cursor);
        }
        let c = self.results[self.cursor];
        self.cursor = self.cursor + 1;
        proof {
            assert(self.pending() =~= old(self).pending().skip(1));
        }
        c
    }

    /// Records an action in the call log.
    fn note(&mut self, event: ScopeEvent)
        requires
            old(self).wf(),
        ensures
            final(self).wf(),
            final(self).pending() == old(self).pending(),
            final(self).log() == old(self).log().push(event),
    {
        self.events.push(event);
    }

    /// Acquires an exclusive capability over the current process: resolves
    /// the caller's own process id, then opens a handle to it. Each of the
    /// two chained calls consumes one result code; any nonzero code is
    /// surfaced as `OsCallFailed` and the second call is not made.
    pub fn acquire_process_handle(&mut self) -> (r: Result<ProcessHandle, PatchError>)
        requires
            old(self).wf(),
            old(self).pending().len() >= 2,
        ensures
            final(self).wf(),
            ({
                let pid_code = old(self).pending()[0];
                let open_code = old(self).pending()[1];
                if pid_code != 0 {
                    &&& r == Err::<ProcessHandle, PatchError>(PatchError::OsCallFailed(pid_code))
                    &&& final(self).pending() == old(self).pending().skip(1)
                    &&& final(self).log() == old(self).log()
                } else if open_code != 0 {
                    &&& r == Err::<ProcessHandle, PatchError>(PatchError::OsCallFailed(open_code))
                    &&& final(self).pending() == old(self).pending().skip(2)
                    &&& final(self).log() == old(self).log()
                } else {
                    &&& r is Ok
                    &&& final(self).pending() == old(self).pending().skip(2)
                    &&& final(self).log() == old(self).log().push(ScopeEvent::Acquire)
                }
            }),
    {
        let pid_code = self.next_code();
        if pid_code != 0 {
            return Err(PatchError::OsCallFailed(pid_code));
        }
        let open_code = self.next_code();
        proof {
            assert(old(self).pending().skip(1).skip(1) =~= old(self).pending().skip(2));
        }
        if open_code != 0 {
            return Err(PatchError::OsCallFailed(open_code));
        }
        self.note(ScopeEvent::Acquire);
        Ok(ProcessHandle { raw: 1 })
    }

    /// Changes the protection of the patched region through the handle, as
    /// one OS call consuming one result code. The attempt is logged whether
    /// it succeeds or not; the region's protection changes only on success.
    pub fn set_permissions(
        &mut self,
        _handle: &ProcessHandle,
        region: &mut MemoryImage,
        perm: MemoryPermission,
    ) -> (r: Result<(), PatchError>)
        requires
            old(self).wf(),
            old(self).pending().len() >= 1,
        ensures
            final(self).wf(),
            final(self).pending() == old(self).pending().skip(1),
            final(self).log() == old(self).log().push(ScopeEvent::SetPermission(perm)),
            final(region)@ == old(region)@,
            final(region).base_spec() == old(region).base_spec(),
            old(self).pending()[0] == 0 ==> r == Ok::<(), PatchError>(())
                && final(region).perm_spec() == perm,
            old(self).pending()[0] != 0 ==> r == Err::<(), PatchError>(
                PatchError::OsCallFailed(old(self).pending()[0]),
            ) && final(region).perm_spec() == old(region).perm_spec(),
    {
        let code = self.next_code();
        self.note(ScopeEvent::SetPermission(perm));
        if code == 0 {
            region.set_perm(perm);
            Ok(())
        } else {
            Err(PatchError::OsCallFailed(code))
        }
    }

    /// Releases the capability, as one OS call consuming one result code.
    /// The handle is consumed: it can be closed exactly once.
    pub fn close_handle(&mut self, handle: ProcessHandle) -> (r: Result<(), PatchError>)
        requires
            old(self).wf(),
            old(self).pending().len() >= 1,
        ensures
            final(self).wf(),
            final(self).pending() == old(self).pending().skip(1),
            final(self).log() == old(self).log().push(ScopeEvent::Release),
            old(self).pending()[0] == 0 ==> r == Ok::<(), PatchError>(()),
            old(self).pending()[0] != 0 ==> r == Err::<(), PatchError>(
                PatchError::OsCallFailed(old(self).pending()[0]),
            ),
    {
        let _ = handle;
        let code = self.next_code();
        self.note(ScopeEvent::Release);
        if code == 0 {
            Ok(())
        } else {
            Err(PatchError::OsCallFailed(code))
        }
    }
}

/// The calls a writable-code scope makes once the handle is acquired: the
/// region is set writable, the body runs only when that call succeeded, and
/// the restore to the executable state and the release follow in every case.
pub open spec fn scope_log(set_writable_code: u32) -> Seq<ScopeEvent> {
    if set_writable_code == 0 {
        seq![
            ScopeEvent::Acquire,
            ScopeEvent::SetPermission(MemoryPermission::ReadWrite),
            ScopeEvent::BodyRun,
            ScopeEvent::SetPermission(MemoryPermission::ReadExecute),
            ScopeEvent::Release,
        ]
    } else {
        seq![
            ScopeEvent::Acquire,
            ScopeEvent::SetPermission(MemoryPermission::ReadWrite),
            ScopeEvent::SetPermission(MemoryPermission::ReadExecute),
            ScopeEvent::Release,
        ]
    }
}

/// Everything a writable-code scope does, as a relation between the host and
/// region before the call, the body's write list, and the host, region and
/// result after it. The first five queued result codes answer, in order: the
/// process-id resolution, the handle open, the set-writable call, the
/// restore-to-executable call, and the close.
pub open spec fn scope_result(
    pre_os: Os,
    pre_region: MemoryImage,
    writes: Seq<PatchWrite>,
    post_os: Os,
    post_region: MemoryImage,
    r: Result<(), PatchError>,
) -> bool {
    let p = pre_os.pending();
    let pid_code = p[0];
    let open_code = p[1];
    let rw_code = p[2];
    let rx_code = p[3];
    let all_in_range = forall|k: int|
        0 <= k < writes.len() ==> region_word_addr(
            pre_region.base_spec(),
            pre_region@.len(),
            writes[k].addr,
        );
    &&& post_os.wf()
    &&& post_region.base_spec() == pre_region.base_spec()
    &&& post_region@.len() == pre_region@.len()
    &&& if pid_code != 0 {
        &&& r == Err::<(), PatchError>(PatchError::OsCallFailed(pid_code))
        &&& post_os.pending() == p.skip(1)
        &&& post_os.log() == pre_os.log()
        &&& post_region@ == pre_region@
        &&& post_region.perm_spec() == pre_region.perm_spec()
    } else if open_code != 0 {
        &&& r == Err::<(), PatchError>(PatchError::OsCallFailed(open_code))
        &&& post_os.pending() == p.skip(2)
        &&& post_os.log() == pre_os.log()
        &&& post_region@ == pre_region@
        &&& post_region.perm_spec() == pre_region.perm_spec()
    } else {
        &&& post_os.pending() == p.skip(5)
        &&& post_os.log() == pre_os.log() + scope_log(rw_code)
        &&& post_region.perm_spec() == (if rx_code == 0 {
            MemoryPermission::ReadExecute
        } else if rw_code == 0 {
            MemoryPermission::ReadWrite
        } else {
            pre_region.perm_spec()
        })
        &&& if rw_code != 0 {
            &&& r == Err::<(), PatchError>(PatchError::OsCallFailed(rw_code))
            &&& post_region@ == pre_region@
        } else if !all_in_range {
            &&& r == Err::<(), PatchError>(PatchError::OutOfRange)
            &&& post_region@ == pre_region@
        } else {
            &&& post_region@ == apply_writes_seq(pre_region@, pre_region.base_spec(), writes)
            &&& r == (if rx_code == 0 {
                Ok::<(), PatchError>(())
            } else {
                Err::<(), PatchError>(PatchError::OsCallFailed(rx_code))
            })
        }
    }
}

/// Acquires a handle, sets the region writable, performs the body's writes,
/// and always attempts to restore the executable state afterward, releasing
/// the handle last, unconditionally. The first error encountered is the one
/// surfaced; a failure of the restore call after a failed body stays behind
/// the body's error, and the close call's own result is not surfaced at all.
pub fn with_writable_code(
    os: &mut Os,
    region: &mut MemoryImage,
    writes: &Vec<PatchWrite>,
) -> (r: Result<(), PatchError>)
    requires
        old(os).wf(),
        old(os).pending().len() >= 5,
    ensures
        scope_result(*old(os), *old(region), writes@, *final(os), *final(region), r),
{
    let handle = match os.acquire_process_handle() {
        Ok(h) => h,
        Err(e) => {
            return Err(e);
        },
    };
    let rw_result = os.set_permissions(&handle, region, MemoryPermission::ReadWrite);
    let body_result: Result<(), PatchError> = if rw_result.is_ok() {
        os.note(ScopeEvent::BodyRun);
        apply_writes(region, writes)
    } else {
        Ok(())
    };
    let rx_result = os.set_permissions(&handle, region, MemoryPermission::ReadExecute);
    let _ = os.close_handle(handle);
    proof {
        let p = old(os).pending();
        assert(p.skip(2).skip(1) =~= p.skip(3));
        assert(p.skip(3).skip(1) =~= p.skip(4));
        assert(p.skip(4).skip(1) =~= p.skip(5));
        assert(os.log() =~= old(os).log() + scope_log(p[2]));
    }
    match rw_result {
        Err(e) => Err(e),
        Ok(_) => match body_result {
            Err(e) => Err(e),
            Ok(_) => rx_result,
        },
    }
}

} // verus!

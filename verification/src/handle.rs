//! The two handles on a region, and the steps that lead to one.
//!
//! A `Mmap` is a region to read from, a `MmapMut` a region to write to. A
//! value of either stands for one mapping and cannot be copied. A change of
//! protection takes the handle and gives a handle of the other kind, or
//! gives the region up.

use vstd::prelude::*;
use crate::abi::{FlushMode, Protection};
use crate::error::MapError;
use crate::options::MmapOptions;
use crate::unix::{
    creation, map_failed_addr, MapCall, MmapInner, ProtectCall, Region, Span, SyncCall,
};

verus! {

/// A region that may be read, and perhaps executed, but not written.
pub struct Mmap {
    inner: MmapInner,
}

/// A region that may be read and written.
pub struct MmapMut {
    inner: MmapInner,
}

/// A `Mmap` in the making: its `mmap` call is planned and not answered yet.
pub struct MmapRequest {
    call: MapCall,
}

/// A `MmapMut` in the making: its `mmap` call is planned and not answered
/// yet.
pub struct MmapMutRequest {
    call: MapCall,
}

/// A region on its way to a `Mmap`: its `mprotect` call is planned and not
/// answered yet.
pub struct MmapTransition {
    inner: MmapInner,
    target: Protection,
}

/// A region on its way to a `MmapMut`: its `mprotect` call is planned and
/// not answered yet.
pub struct MmapMutTransition {
    inner: MmapInner,
}

/// What is left of a region whose change of protection failed: the error,
/// and the range to hand to `munmap`. The region itself is gone.
#[derive(Clone, Copy, Debug, PartialEq, Eq, Structural)]
pub struct Released {
    pub error: MapError,
    pub unmap: Span,
}

/// What the answer to a change of protection makes of `region`: the region
/// under `target` where the call returned 0, and else the error number
/// with the region's envelope to unmap.
pub open spec fn transition(region: Region, target: Protection, ret: i32, errno: i32) -> Result<
    Region,
    Released,
> {
    if ret == 0 {
        Ok(region.with_protection(target))
    } else {
        Err(Released { error: MapError::Os(errno), unmap: region.envelope() })
    }
}

impl View for Mmap {
    type V = Region;

    closed spec fn view(&self) -> Region {
        self.inner@
    }
}

impl View for MmapMut {
    type V = Region;

    closed spec fn view(&self) -> Region {
        self.inner@
    }
}

impl View for MmapRequest {
    type V = MapCall;

    closed spec fn view(&self) -> MapCall {
        self.call
    }
}

impl View for MmapMutRequest {
    type V = MapCall;

    closed spec fn view(&self) -> MapCall {
        self.call
    }
}

impl MmapRequest {
    #[verifier::type_invariant]
    spec fn inv(&self) -> bool {
        self.call.wf() && self.call.protection != Protection::ReadWrite
    }

    pub(crate) fn new(call: MapCall) -> (r: MmapRequest)
        requires
            call.wf(),
            call.protection != Protection::ReadWrite,
        ensures
            r@ == call,
    {
        MmapRequest { call }
    }

    /// The `mmap` call to make.
    pub fn call(&self) -> (r: MapCall)
        ensures
            r == self@,
            r.wf(),
            r.protection != Protection::ReadWrite,
    {
        proof {
            use_type_invariant(self);
        }
        self.call
    }

    /// Takes the answer of the `mmap` call: the address `raw` that it
    /// returned, and the error number `errno` read right after it.
    pub fn finish(self, raw: usize, errno: i32) -> (r: Result<Mmap, MapError>)
        requires
            raw != map_failed_addr() ==> raw + self@.len <= usize::MAX,
        ensures
            match r {
                Ok(mmap) => creation(self@, raw, errno) == Ok::<Region, MapError>(mmap@),
                Err(e) => creation(self@, raw, errno) == Err::<Region, MapError>(e),
            },
    {
        proof {
            use_type_invariant(&self);
        }
        match MmapInner::mapped(self.call, raw, errno) {
            Ok(inner) => Ok(Mmap { inner }),
            Err(e) => Err(e),
        }
    }
}

impl MmapMutRequest {
    #[verifier::type_invariant]
    spec fn inv(&self) -> bool {
        self.call.wf() && self.call.protection == Protection::ReadWrite
    }

    pub(crate) fn new(call: MapCall) -> (r: MmapMutRequest)
        requires
            call.wf(),
            call.protection == Protection::ReadWrite,
        ensures
            r@ == call,
    {
        MmapMutRequest { call }
    }

    /// The `mmap` call to make.
    pub fn call(&self) -> (r: MapCall)
        ensures
            r == self@,
            r.wf(),
            r.protection == Protection::ReadWrite,
    {
        proof {
            use_type_invariant(self);
        }
        self.call
    }

    /// Takes the answer of the `mmap` call: the address `raw` that it
    /// returned, and the error number `errno` read right after it.
    pub fn finish(self, raw: usize, errno: i32) -> (r: Result<MmapMut, MapError>)
        requires
            raw != map_failed_addr() ==> raw + self@.len <= usize::MAX,
        ensures
            match r {
                Ok(mmap) => creation(self@, raw, errno) == Ok::<Region, MapError>(mmap@),
                Err(e) => creation(self@, raw, errno) == Err::<Region, MapError>(e),
            },
    {
        proof {
            use_type_invariant(&self);
        }
        match MmapInner::mapped(self.call, raw, errno) {
            Ok(inner) => Ok(MmapMut { inner }),
            Err(e) => Err(e),
        }
    }
}

impl MmapTransition {
    #[verifier::type_invariant]
    spec fn inv(&self) -> bool {
        self.target != Protection::ReadWrite
    }

    /// The region that is changing.
    pub closed spec fn region(&self) -> Region {
        self.inner@
    }

    /// The protection that it is changing to.
    pub closed spec fn target(&self) -> Protection {
        self.target
    }

    /// The `mprotect` call to make.
    pub fn call(&self) -> (r: ProtectCall)
        ensures
            r == (ProtectCall { span: self.region().envelope(), protection: self.target() }),
            self.target() != Protection::ReadWrite,
    {
        proof {
            use_type_invariant(self);
        }
        match self.target {
            Protection::ReadExecute => self.inner.make_exec(),
            _ => self.inner.make_read_only(),
        }
    }

    /// Takes the answer of the `mprotect` call. Where it failed, the region
    /// is given up: the caller gets the error and the range to unmap, and
    /// no handle.
    pub fn finish(self, ret: i32, errno: i32) -> (r: Result<Mmap, Released>)
        ensures
            match r {
                Ok(mmap) => transition(self.region(), self.target(), ret, errno) == Ok::<
                    Region,
                    Released,
                >(mmap@),
                Err(released) => transition(self.region(), self.target(), ret, errno) == Err::<
                    Region,
                    Released,
                >(released),
            },
    {
        proof {
            use_type_invariant(&self);
        }
        let call = self.call();
        let mut inner = self.inner;
        match inner.protected(call, ret, errno) {
            Ok(()) => Ok(Mmap { inner }),
            Err(error) => Err(Released { error, unmap: inner.unmap() }),
        }
    }
}

impl MmapMutTransition {
    /// The region that is changing.
    pub closed spec fn region(&self) -> Region {
        self.inner@
    }

    /// The `mprotect` call to make.
    pub fn call(&self) -> (r: ProtectCall)
        ensures
            r == (ProtectCall {
                span: self.region().envelope(),
                protection: Protection::ReadWrite,
            }),
    {
        self.inner.make_mut()
    }

    /// Takes the answer of the `mprotect` call. Where it failed, the region
    /// is given up: the caller gets the error and the range to unmap, and
    /// no handle.
    pub fn finish(self, ret: i32, errno: i32) -> (r: Result<MmapMut, Released>)
        ensures
            match r {
                Ok(mmap) => transition(self.region(), Protection::ReadWrite, ret, errno) == Ok::<
                    Region,
                    Released,
                >(mmap@),
                Err(released) => transition(self.region(), Protection::ReadWrite, ret, errno)
                    == Err::<Region, Released>(released),
            },
    {
        let call = self.call();
        let mut inner = self.inner;
        match inner.protected(call, ret, errno) {
            Ok(()) => Ok(MmapMut { inner }),
            Err(error) => Err(Released { error, unmap: inner.unmap() }),
        }
    }
}

impl Mmap {
    #[verifier::type_invariant]
    spec fn inv(&self) -> bool {
        self.inner@.protection != Protection::ReadWrite
    }

    /// Plans a read-only mapping of the whole file `file`, which has
    /// `file_len` bytes.
    pub fn map(file: i32, file_len: u64, page_size: usize) -> (r: Result<MmapRequest, MapError>)
        requires
            MmapOptions::initial().plannable(file_len, page_size),
        ensures
            match r {
                Ok(pending) => MmapOptions::initial().file_request(
                    Protection::ReadOnly,
                    false,
                    file,
                    file_len,
                    page_size,
                ) == Ok::<MapCall, MapError>(pending@),
                Err(e) => MmapOptions::initial().file_request(
                    Protection::ReadOnly,
                    false,
                    file,
                    file_len,
                    page_size,
                ) == Err::<MapCall, MapError>(e),
            },
    {
        MmapOptions::new().map(file, file_len, page_size)
    }

    /// Starts the change to a writable region. The handle is used up.
    pub fn make_mut(self) -> (r: MmapMutTransition)
        ensures
            r.region() == self@,
    {
        MmapMutTransition { inner: self.inner }
    }

    /// The range to lock into physical memory: the whole region.
    pub fn mlock(&mut self) -> (r: Span)
        ensures
            r == old(self)@.visible(),
            final(self)@ == old(self)@,
    {
        self.inner.mlock()
    }

    /// The range to unlock: the whole region.
    pub fn munlock(&mut self) -> (r: Span)
        ensures
            r == old(self)@.visible(),
            final(self)@ == old(self)@,
    {
        self.inner.munlock()
    }

    /// The address of the region's first byte.
    pub fn as_ptr(&self) -> (r: usize)
        ensures
            r == self@.base,
    {
        self.inner.ptr()
    }

    /// How many bytes the region has.
    pub fn len(&self) -> (r: usize)
        ensures
            r == self@.len,
            r > 0,
    {
        self.inner.len()
    }

    /// What the region may be used for: never writing.
    pub fn protection(&self) -> (r: Protection)
        ensures
            r == self@.protection,
            r != Protection::ReadWrite,
    {
        proof {
            use_type_invariant(self);
        }
        self.inner.protection()
    }

    /// Gives the region up and says what to hand to `munmap`.
    pub fn unmap(self) -> (r: Span)
        ensures
            r == self@.envelope(),
    {
        self.inner.unmap()
    }
}

impl MmapMut {
    #[verifier::type_invariant]
    spec fn inv(&self) -> bool {
        self.inner@.protection == Protection::ReadWrite
    }

    /// Plans a writable mapping of the whole file `file`, which has
    /// `file_len` bytes.
    pub fn map_mut(file: i32, file_len: u64, page_size: usize) -> (r: Result<
        MmapMutRequest,
        MapError,
    >)
        requires
            MmapOptions::initial().plannable(file_len, page_size),
        ensures
            match r {
                Ok(pending) => MmapOptions::initial().file_request(
                    Protection::ReadWrite,
                    false,
                    file,
                    file_len,
                    page_size,
                ) == Ok::<MapCall, MapError>(pending@),
                Err(e) => MmapOptions::initial().file_request(
                    Protection::ReadWrite,
                    false,
                    file,
                    file_len,
                    page_size,
                ) == Err::<MapCall, MapError>(e),
            },
    {
        MmapOptions::new().map_mut(file, file_len, page_size)
    }

    /// Plans a mapping of `length` bytes of anonymous memory.
    pub fn map_anon(length: usize, page_size: usize) -> (r: Result<MmapMutRequest, MapError>)
        requires
            page_size > 0,
        ensures
            match r {
                Ok(pending) => length > 0 && pending@ == MapCall::anonymous(
                    length,
                    false,
                    false,
                    false,
                    0,
                    false,
                ),
                Err(e) => length == 0 && e == MapError::ZeroLength,
            },
    {
        let mut options = MmapOptions::new();
        options.len(length);
        options.map_anon(page_size)
    }

    /// Plans the flush of the whole region, to be waited for.
    pub fn flush(&self, page_size: usize) -> (r: Result<SyncCall, MapError>)
        requires
            page_size > 0,
        ensures
            r is Ok,
            r == self@.flush(0, self@.len as usize, FlushMode::Synchronous, page_size),
    {
        let len = self.inner.len();
        self.inner.flush(0, len, page_size)
    }

    /// Plans the flush of the whole region, not to be waited for.
    pub fn flush_async(&self, page_size: usize) -> (r: Result<SyncCall, MapError>)
        requires
            page_size > 0,
        ensures
            r is Ok,
            r == self@.flush(0, self@.len as usize, FlushMode::Asynchronous, page_size),
    {
        let len = self.inner.len();
        self.inner.flush_async(0, len, page_size)
    }

    /// Plans the flush of `len` bytes from `offset` on, to be waited for.
    pub fn flush_range(&self, offset: usize, len: usize, page_size: usize) -> (r: Result<
        SyncCall,
        MapError,
    >)
        requires
            page_size > 0,
        ensures
            r == self@.flush(offset, len, FlushMode::Synchronous, page_size),
    {
        self.inner.flush(offset, len, page_size)
    }

    /// Plans the flush of `len` bytes from `offset` on, not to be waited
    /// for.
    pub fn flush_async_range(&self, offset: usize, len: usize, page_size: usize) -> (r: Result<
        SyncCall,
        MapError,
    >)
        requires
            page_size > 0,
        ensures
            r == self@.flush(offset, len, FlushMode::Asynchronous, page_size),
    {
        self.inner.flush_async(offset, len, page_size)
    }

    /// Starts the change to a read-only region. The handle is used up.
    pub fn make_read_only(self) -> (r: MmapTransition)
        ensures
            r.region() == self@,
            r.target() == Protection::ReadOnly,
    {
        MmapTransition { inner: self.inner, target: Protection::ReadOnly }
    }

    /// Starts the change to a readable and executable region. The handle
    /// is used up.
    pub fn make_exec(self) -> (r: MmapTransition)
        ensures
            r.region() == self@,
            r.target() == Protection::ReadExecute,
    {
        MmapTransition { inner: self.inner, target: Protection::ReadExecute }
    }

    /// The range to lock into physical memory: the whole region.
    pub fn mlock(&mut self) -> (r: Span)
        ensures
            r == old(self)@.visible(),
            final(self)@ == old(self)@,
    {
        self.inner.mlock()
    }

    /// The range to unlock: the whole region.
    pub fn munlock(&mut self) -> (r: Span)
        ensures
            r == old(self)@.visible(),
            final(self)@ == old(self)@,
    {
        self.inner.munlock()
    }

    /// The address of the region's first byte.
    pub fn as_ptr(&self) -> (r: usize)
        ensures
            r == self@.base,
    {
        self.inner.ptr()
    }

    /// The address of the region's first byte, for writing.
    pub fn as_mut_ptr(&mut self) -> (r: usize)
        ensures
            r == old(self)@.base,
            final(self)@ == old(self)@,
    {
        self.inner.ptr()
    }

    /// How many bytes the region has.
    pub fn len(&self) -> (r: usize)
        ensures
            r == self@.len,
            r > 0,
    {
        self.inner.len()
    }

    /// Gives the region up and says what to hand to `munmap`.
    pub fn unmap(self) -> (r: Span)
        ensures
            r == self@.envelope(),
    {
        self.inner.unmap()
    }
}

} // verus!

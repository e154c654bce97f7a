//! The mapping backend: what to ask of the operating system for each
//! operation on a region, and what its answer makes of the region.
//!
//! Nothing here makes a system call. Each operation is cut in two: a
//! function that computes the call to make, and a function that takes the
//! call's answer. The caller makes the call in between.

use vstd::prelude::*;
use crate::abi::{map_failed, map_flags, flag_word, FlushMode, Protection, Sharing};
use crate::error::{completion, MapError};

verus! {

/// A range of addresses: `len` bytes from `addr` on.
#[derive(Clone, Copy, Debug, PartialEq, Eq, Structural)]
pub struct Span {
    pub addr: usize,
    pub len: usize,
}

/// The arguments of one `mmap` call, with what the region that comes of it
/// will be.
#[derive(Clone, Copy, Debug, PartialEq, Eq, Structural)]
pub struct MapCall {
    /// How many bytes to map: the length that was asked for and the
    /// alignment correction.
    pub len: usize,
    /// How far the byte that was asked for first lies behind the page
    /// boundary that the mapping starts at.
    pub alignment: usize,
    /// Where in the file the mapping starts. Zero for an anonymous mapping.
    pub offset: u64,
    pub protection: Protection,
    pub sharing: Sharing,
    /// The descriptor of the file to map, or `None` for anonymous memory.
    pub backing: Option<i32>,
    /// The whole flag word.
    pub flags: i32,
}

/// The arguments of one `mprotect` call.
#[derive(Clone, Copy, Debug, PartialEq, Eq, Structural)]
pub struct ProtectCall {
    pub span: Span,
    pub protection: Protection,
}

/// The arguments of one `msync` call.
#[derive(Clone, Copy, Debug, PartialEq, Eq, Structural)]
pub struct SyncCall {
    pub span: Span,
    pub mode: FlushMode,
}

/// A mapped region, as contracts see it.
pub struct Region {
    /// The address of the first byte that the caller sees. It need not lie
    /// on a page boundary.
    pub base: int,
    /// How many bytes the caller sees.
    pub len: int,
    /// How far `base` lies behind the start of what was mapped.
    pub alignment: int,
    pub protection: Protection,
    pub sharing: Sharing,
    /// The descriptor that the region was mapped from, or `None`.
    pub backing: Option<i32>,
}

/// The largest multiple of `page` that is not above `x`.
pub open spec fn page_floor(x: int, page: int) -> int {
    x - x % page
}

/// The address that `mmap` answers with when it fails.
pub open spec fn map_failed_addr() -> int {
    usize::MAX as int
}

impl Region {
    /// The region has bytes, its envelope does not start below address
    /// zero, and it ends within the address space.
    pub open spec fn wf(self) -> bool {
        &&& 0 < self.len
        &&& 0 <= self.alignment <= self.base
        &&& self.base + self.len <= usize::MAX
    }

    /// Everything the operating system mapped for the region: the bytes the
    /// caller sees and the alignment correction in front of them.
    pub open spec fn envelope(self) -> Span {
        Span {
            addr: (self.base - self.alignment) as usize,
            len: (self.len + self.alignment) as usize,
        }
    }

    /// The bytes the caller sees, and no more.
    pub open spec fn visible(self) -> Span {
        Span { addr: self.base as usize, len: self.len as usize }
    }

    /// The window of `len` bytes from `offset` lies within the region.
    pub open spec fn holds(self, offset: int, len: int) -> bool {
        0 <= offset && 0 <= len && offset + len <= self.len
    }

    /// What a flush of the window is to cover: from the page boundary at or
    /// below the window's first byte to the window's end.
    pub open spec fn flush_span(self, offset: int, len: int, page: int) -> Span {
        let first = self.base + offset;
        Span {
            addr: page_floor(first, page) as usize,
            len: (first + len - page_floor(first, page)) as usize,
        }
    }

    /// What planning a flush of the window comes to: a window that does not
    /// lie within the region is refused, and every other one gives the call
    /// over `flush_span`.
    pub open spec fn flush(
        self,
        offset: usize,
        len: usize,
        mode: FlushMode,
        page_size: usize,
    ) -> Result<SyncCall, MapError> {
        if self.holds(offset as int, len as int) {
            Ok(
                SyncCall {
                    span: self.flush_span(offset as int, len as int, page_size as int),
                    mode,
                },
            )
        } else {
            Err(MapError::OutOfRange)
        }
    }

    /// The same region under another protection.
    pub open spec fn with_protection(self, protection: Protection) -> Region {
        Region { protection, ..self }
    }
}

/// A mapping of `len` bytes from `offset` on can be planned: pages have a
/// size, and the length with its alignment correction is a `usize`.
pub open spec fn fits(len: usize, offset: u64, page_size: usize) -> bool {
    &&& page_size > 0
    &&& len + (offset as int) % (page_size as int) <= usize::MAX
}

/// What planning a mapping of `len` bytes comes to: a request for no bytes
/// is refused, and every other one gives the call.
pub open spec fn request(len: usize, call: MapCall) -> Result<MapCall, MapError> {
    if len == 0 {
        Err(MapError::ZeroLength)
    } else {
        Ok(call)
    }
}

/// What the answer to an `mmap` call makes of `call`: the error number
/// where the call failed, and else the region at the address it returned.
pub open spec fn creation(call: MapCall, raw: usize, errno: i32) -> Result<Region, MapError> {
    if raw == map_failed_addr() {
        Err(MapError::Os(errno))
    } else {
        Ok(call.region(raw as int))
    }
}

impl MapCall {
    /// More is mapped than the alignment correction: the caller sees at
    /// least one byte.
    pub open spec fn wf(self) -> bool {
        self.alignment < self.len
    }

    /// The call that maps `len` bytes of a file from `offset` on, or of
    /// anonymous memory, where pages have `page` bytes: the mapping starts
    /// at the page boundary at or below `offset` and is longer by what lies
    /// between the two.
    pub open spec fn plan(
        len: int,
        protection: Protection,
        sharing: Sharing,
        backing: Option<i32>,
        flags: i32,
        offset: int,
        page: int,
    ) -> MapCall {
        MapCall {
            len: (len + offset % page) as usize,
            alignment: (offset % page) as usize,
            offset: page_floor(offset, page) as u64,
            protection,
            sharing,
            backing,
            flags,
        }
    }

    /// The call for `len` bytes of the file `file` from `offset` on. A
    /// file-backed mapping is never a stack.
    pub open spec fn file(
        len: usize,
        protection: Protection,
        file: i32,
        offset: u64,
        locked: bool,
        private: bool,
        huge: u8,
        noreserve: bool,
        page_size: usize,
    ) -> MapCall {
        MapCall::plan(
            len as int,
            protection,
            Sharing::of(private),
            Some(file),
            flag_word(false, false, locked, private, huge, noreserve),
            offset as int,
            page_size as int,
        )
    }

    /// The call for `len` bytes of anonymous memory: writable, without a
    /// descriptor, at offset zero and with no alignment correction.
    pub open spec fn anonymous(
        len: usize,
        stack: bool,
        locked: bool,
        private: bool,
        huge: u8,
        noreserve: bool,
    ) -> MapCall {
        MapCall {
            len,
            alignment: 0,
            offset: 0,
            protection: Protection::ReadWrite,
            sharing: Sharing::of(private),
            backing: None,
            flags: flag_word(true, stack, locked, private, huge, noreserve),
        }
    }

    /// The region that the call makes where the operating system answers
    /// with the address `raw`.
    pub open spec fn region(self, raw: int) -> Region {
        Region {
            base: raw + self.alignment,
            len: self.len - self.alignment,
            alignment: self.alignment as int,
            protection: self.protection,
            sharing: self.sharing,
            backing: self.backing,
        }
    }

    /// The position in the file of the byte that the call puts at `addr`,
    /// where the mapping starts at `raw`: `mmap` lays the file out from
    /// `self.offset` on.
    pub open spec fn file_position(self, raw: int, addr: int) -> int {
        self.offset + (addr - raw)
    }

    /// The protection argument.
    pub fn prot(&self) -> (r: i32)
        ensures
            r == self.protection.word(),
    {
        self.protection.bits()
    }

    /// The descriptor argument: -1 where no file is mapped.
    pub fn fd(&self) -> (r: i32)
        ensures
            r == match self.backing {
                Some(fd) => fd,
                None => -1i32,
            },
    {
        match self.backing {
            Some(fd) => fd,
            None => -1,
        }
    }
}

impl ProtectCall {
    /// The protection argument.
    pub fn prot(&self) -> (r: i32)
        ensures
            r == self.protection.word(),
    {
        self.protection.bits()
    }
}

impl SyncCall {
    /// The flag argument.
    pub fn flags(&self) -> (r: i32)
        ensures
            r == self.mode.word(),
    {
        self.mode.bits()
    }
}

/// A live mapping: where it lies and what state it is in.
///
/// A value of this type stands for one mapping of the operating system. It
/// cannot be copied, and `unmap` takes it by value: a region is released at
/// most once.
pub struct MmapInner {
    ptr: usize,
    len: usize,
    alignment: usize,
    protection: Protection,
    sharing: Sharing,
    backing: Option<i32>,
}

impl View for MmapInner {
    type V = Region;

    closed spec fn view(&self) -> Region {
        Region {
            base: self.ptr as int,
            len: self.len as int,
            alignment: self.alignment as int,
            protection: self.protection,
            sharing: self.sharing,
            backing: self.backing,
        }
    }
}

impl MmapInner {
    #[verifier::type_invariant]
    spec fn inv(&self) -> bool {
        self@.wf()
    }

    /// Plans the `mmap` call for `len` bytes from `offset` on.
    ///
    /// The operating system maps whole pages from a page boundary on, so
    /// the call starts at the page boundary at or below `offset` and maps
    /// as many bytes more as lie between the two. A request for no bytes is
    /// refused here, before any system call.
    fn new(
        len: usize,
        protection: Protection,
        sharing: Sharing,
        backing: Option<i32>,
        flags: i32,
        offset: u64,
        page_size: usize,
    ) -> (r: Result<MapCall, MapError>)
        requires
            fits(len, offset, page_size),
        ensures
            r == request(
                len,
                MapCall::plan(
                    len as int,
                    protection,
                    sharing,
                    backing,
                    flags,
                    offset as int,
                    page_size as int,
                ),
            ),
            r matches Ok(call) ==> call.wf(),
    {
        if len == 0 {
            return Err(MapError::ZeroLength);
        }
        let alignment: u64 = offset % (page_size as u64);
        assert(alignment <= offset && alignment < page_size) by (nonlinear_arith)
            requires
                alignment == offset % (page_size as u64),
                page_size > 0,
        ;
        let aligned_offset: u64 = offset - alignment;
        let alignment: usize = alignment as usize;
        let aligned_len: usize = len + alignment;
        Ok(MapCall {
            len: aligned_len,
            alignment,
            offset: aligned_offset,
            protection,
            sharing,
            backing,
            flags,
        })
    }

    /// Plans a mapping of `len` bytes of the file `file` from `offset` on.
    fn map_file(
        len: usize,
        protection: Protection,
        file: i32,
        offset: u64,
        locked: bool,
        private: bool,
        huge: u8,
        noreserve: bool,
        page_size: usize,
    ) -> (r: Result<MapCall, MapError>)
        requires
            fits(len, offset, page_size),
        ensures
            r == request(
                len,
                MapCall::file(
                    len,
                    protection,
                    file,
                    offset,
                    locked,
                    private,
                    huge,
                    noreserve,
                    page_size,
                ),
            ),
            r matches Ok(call) ==> call.wf(),
    {
        let flags: i32 = map_flags(false, false, locked, private, huge, noreserve);
        MmapInner::new(
            len,
            protection,
            Sharing::from_private(private),
            Some(file),
            flags,
            offset,
            page_size,
        )
    }

    /// Plans a read-only mapping of `len` bytes of the file `file` from
    /// `offset` on.
    pub fn map(
        len: usize,
        file: i32,
        offset: u64,
        locked: bool,
        private: bool,
        huge: u8,
        noreserve: bool,
        page_size: usize,
    ) -> (r: Result<MapCall, MapError>)
        requires
            fits(len, offset, page_size),
        ensures
            r == request(
                len,
                MapCall::file(
                    len,
                    Protection::ReadOnly,
                    file,
                    offset,
                    locked,
                    private,
                    huge,
                    noreserve,
                    page_size,
                ),
            ),
            r matches Ok(call) ==> call.wf(),
    {
        MmapInner::map_file(
            len,
            Protection::ReadOnly,
            file,
            offset,
            locked,
            private,
            huge,
            noreserve,
            page_size,
        )
    }

    /// Plans a readable and executable mapping of `len` bytes of the file
    /// `file` from `offset` on.
    pub fn map_exec(
        len: usize,
        file: i32,
        offset: u64,
        locked: bool,
        private: bool,
        huge: u8,
        noreserve: bool,
        page_size: usize,
    ) -> (r: Result<MapCall, MapError>)
        requires
            fits(len, offset, page_size),
        ensures
            r == request(
                len,
                MapCall::file(
                    len,
                    Protection::ReadExecute,
                    file,
                    offset,
                    locked,
                    private,
                    huge,
                    noreserve,
                    page_size,
                ),
            ),
            r matches Ok(call) ==> call.wf(),
    {
        MmapInner::map_file(
            len,
            Protection::ReadExecute,
            file,
            offset,
            locked,
            private,
            huge,
            noreserve,
            page_size,
        )
    }

    /// Plans a writable mapping of `len` bytes of the file `file` from
    /// `offset` on.
    pub fn map_mut(
        len: usize,
        file: i32,
        offset: u64,
        locked: bool,
        private: bool,
        huge: u8,
        noreserve: bool,
        page_size: usize,
    ) -> (r: Result<MapCall, MapError>)
        requires
            fits(len, offset, page_size),
        ensures
            r == request(
                len,
                MapCall::file(
                    len,
                    Protection::ReadWrite,
                    file,
                    offset,
                    locked,
                    private,
                    huge,
                    noreserve,
                    page_size,
                ),
            ),
            r matches Ok(call) ==> call.wf(),
    {
        MmapInner::map_file(
            len,
            Protection::ReadWrite,
            file,
            offset,
            locked,
            private,
            huge,
            noreserve,
            page_size,
        )
    }

    /// Plans a writable copy-on-write mapping of `len` bytes of the file
    /// `file` from `offset` on: it is private whatever else is asked.
    pub fn map_copy(
        len: usize,
        file: i32,
        offset: u64,
        locked: bool,
        huge: u8,
        noreserve: bool,
        page_size: usize,
    ) -> (r: Result<MapCall, MapError>)
        requires
            fits(len, offset, page_size),
        ensures
            r == request(
                len,
                MapCall::file(
                    len,
                    Protection::ReadWrite,
                    file,
                    offset,
                    locked,
                    true,
                    huge,
                    noreserve,
                    page_size,
                ),
            ),
            r matches Ok(call) ==> call.wf(),
    {
        MmapInner::map_file(
            len,
            Protection::ReadWrite,
            file,
            offset,
            locked,
            true,
            huge,
            noreserve,
            page_size,
        )
    }

    /// Plans a writable mapping of `len` bytes of anonymous memory. No file
    /// and no offset go into it, so nothing is there to align.
    pub fn map_anon(
        len: usize,
        stack: bool,
        locked: bool,
        private: bool,
        huge: u8,
        noreserve: bool,
        page_size: usize,
    ) -> (r: Result<MapCall, MapError>)
        requires
            page_size > 0,
        ensures
            r == request(len, MapCall::anonymous(len, stack, locked, private, huge, noreserve)),
            r matches Ok(call) ==> call.wf(),
    {
        let flags: i32 = map_flags(true, stack, locked, private, huge, noreserve);
        assert(0u64 % (page_size as u64) == 0) by (nonlinear_arith)
            requires
                page_size > 0,
        ;
        MmapInner::new(
            len,
            Protection::ReadWrite,
            Sharing::from_private(private),
            None,
            flags,
            0,
            page_size,
        )
    }

    /// Takes the answer of the `mmap` call that `call` describes: `raw` is
    /// the address it returned, `errno` the error number read right after
    /// it. Where the call failed the error number is handed on unchanged;
    /// else the region starts `call.alignment` bytes into what was mapped
    /// and has the length that was asked for.
    ///
    /// What was mapped must end within the address space, as every mapping
    /// of the operating system does.
    pub fn mapped(call: MapCall, raw: usize, errno: i32) -> (r: Result<MmapInner, MapError>)
        requires
            call.wf(),
            raw != map_failed_addr() ==> raw + call.len <= usize::MAX,
        ensures
            match r {
                Ok(inner) => creation(call, raw, errno) == Ok::<Region, MapError>(inner@),
                Err(e) => creation(call, raw, errno) == Err::<Region, MapError>(e),
            },
    {
        if raw == map_failed() {
            Err(MapError::Os(errno))
        } else {
            Ok(
                MmapInner {
                    ptr: raw + call.alignment,
                    len: call.len - call.alignment,
                    alignment: call.alignment,
                    protection: call.protection,
                    sharing: call.sharing,
                    backing: call.backing,
                },
            )
        }
    }

    /// Plans the `msync` call for the window of `len` bytes from `offset`
    /// on. A window that reaches past the region is refused before any
    /// system call. The call starts at the page boundary at or below the
    /// window's first byte, as `msync` wants it, and ends with the window.
    fn sync(&self, offset: usize, len: usize, mode: FlushMode, page_size: usize) -> (r: Result<
        SyncCall,
        MapError,
    >)
        requires
            page_size > 0,
        ensures
            r == self@.flush(offset, len, mode, page_size),
    {
        proof {
            use_type_invariant(self);
        }
        if offset > self.len || len > self.len - offset {
            return Err(MapError::OutOfRange);
        }
        let first: usize = self.ptr + offset;
        let alignment: usize = first % page_size;
        assert(alignment <= first) by (nonlinear_arith)
            requires
                alignment == first % page_size,
                page_size > 0,
        ;
        Ok(SyncCall { span: Span { addr: first - alignment, len: len + alignment }, mode })
    }

    /// Plans the call that writes the window of `len` bytes from `offset`
    /// on back to the file, and returns when that is done.
    pub fn flush(&self, offset: usize, len: usize, page_size: usize) -> (r: Result<
        SyncCall,
        MapError,
    >)
        requires
            page_size > 0,
        ensures
            r == self@.flush(offset, len, FlushMode::Synchronous, page_size),
    {
        self.sync(offset, len, FlushMode::Synchronous, page_size)
    }

    /// Plans the call that starts writing the window of `len` bytes from
    /// `offset` on back to the file, without waiting for it.
    pub fn flush_async(&self, offset: usize, len: usize, page_size: usize) -> (r: Result<
        SyncCall,
        MapError,
    >)
        requires
            page_size > 0,
        ensures
            r == self@.flush(offset, len, FlushMode::Asynchronous, page_size),
    {
        self.sync(offset, len, FlushMode::Asynchronous, page_size)
    }

    /// Plans the `mprotect` call that puts the region under `protection`:
    /// one call over the whole envelope.
    fn mprotect(&self, protection: Protection) -> (r: ProtectCall)
        ensures
            r == (ProtectCall { span: self@.envelope(), protection }),
    {
        proof {
            use_type_invariant(self);
        }
        ProtectCall {
            span: Span { addr: self.ptr - self.alignment, len: self.len + self.alignment },
            protection,
        }
    }

    /// Plans the call that makes the region read-only.
    pub fn make_read_only(&self) -> (r: ProtectCall)
        ensures
            r == (ProtectCall { span: self@.envelope(), protection: Protection::ReadOnly }),
    {
        self.mprotect(Protection::ReadOnly)
    }

    /// Plans the call that makes the region readable and executable.
    pub fn make_exec(&self) -> (r: ProtectCall)
        ensures
            r == (ProtectCall { span: self@.envelope(), protection: Protection::ReadExecute }),
    {
        self.mprotect(Protection::ReadExecute)
    }

    /// Plans the call that makes the region readable and writable.
    pub fn make_mut(&self) -> (r: ProtectCall)
        ensures
            r == (ProtectCall { span: self@.envelope(), protection: Protection::ReadWrite }),
    {
        self.mprotect(Protection::ReadWrite)
    }

    /// Takes the answer of the `mprotect` call that `call` describes. The
    /// region is under the new protection if the call succeeded, and is
    /// what it was if not.
    pub fn protected(&mut self, call: ProtectCall, ret: i32, errno: i32) -> (r: Result<
        (),
        MapError,
    >)
        ensures
            r == completion(ret, errno),
            final(self)@ == if ret == 0 {
                old(self)@.with_protection(call.protection)
            } else {
                old(self)@
            },
    {
        proof {
            use_type_invariant(&*self);
        }
        if ret == 0 {
            self.protection = call.protection;
            Ok(())
        } else {
            Err(MapError::Os(errno))
        }
    }

    /// The address of the first byte of the region.
    pub fn ptr(&self) -> (r: usize)
        ensures
            r == self@.base,
    {
        self.ptr
    }

    /// The address of the first byte of the region, for writing.
    pub fn mut_ptr(&mut self) -> (r: usize)
        ensures
            r == old(self)@.base,
            final(self)@ == old(self)@,
    {
        self.ptr
    }

    /// How many bytes the region has.
    pub fn len(&self) -> (r: usize)
        ensures
            r == self@.len,
            r > 0,
    {
        proof {
            use_type_invariant(self);
        }
        self.len
    }

    /// What the region's pages may be used for.
    pub fn protection(&self) -> (r: Protection)
        ensures
            r == self@.protection,
    {
        self.protection
    }

    /// Whether writes to the region reach the file.
    pub fn sharing(&self) -> (r: Sharing)
        ensures
            r == self@.sharing,
    {
        self.sharing
    }

    /// The descriptor that the region was mapped from, or `None` for
    /// anonymous memory.
    pub fn backing(&self) -> (r: Option<i32>)
        ensures
            r == self@.backing,
    {
        self.backing
    }

    /// The range that `mlock` is called with: the bytes the caller sees,
    /// without the alignment correction.
    pub fn mlock(&self) -> (r: Span)
        ensures
            r == self@.visible(),
    {
        Span { addr: self.ptr, len: self.len }
    }

    /// The range that `munlock` is called with: the bytes the caller sees,
    /// without the alignment correction.
    pub fn munlock(&self) -> (r: Span)
        ensures
            r == self@.visible(),
    {
        Span { addr: self.ptr, len: self.len }
    }

    /// Gives the region up and says what to hand to `munmap`: the whole
    /// envelope. The region is gone after this, so it cannot be unmapped
    /// again.
    pub fn unmap(self) -> (r: Span)
        ensures
            r == self@.envelope(),
    {
        proof {
            use_type_invariant(&self);
        }
        Span { addr: self.ptr - self.alignment, len: self.len + self.alignment }
    }
}

} // verus!

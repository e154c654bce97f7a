//! The options that a mapping is made with.

use vstd::prelude::*;
use crate::abi::Protection;
use crate::error::MapError;
use crate::handle::{MmapMutRequest, MmapRequest};
use crate::unix::{fits, request, MapCall, MmapInner};

verus! {

/// Collects the options of a mapping, then plans it.
///
/// A file comes in as two plain values: its descriptor, and its length in
/// bytes. The length is looked at only where no length was configured.
#[derive(Clone, Copy, Debug)]
pub struct MmapOptions {
    /// Where in the file the mapping begins. Anonymous mappings ignore it.
    pub offset: u64,
    /// How many bytes to map; `None` stands for the rest of the file.
    pub len: Option<usize>,
    /// Whether the mapping is meant for a stack. File-backed mappings
    /// ignore it.
    pub stack: bool,
    /// Whether the mapping is to be kept in physical memory.
    pub locked: bool,
    /// Whether writes stay out of the file.
    pub private: bool,
    /// The huge page size class: 1 for 2 MB, 2 for 1 GB, anything else for
    /// ordinary pages.
    pub huge: u8,
    /// Whether no swap space is reserved.
    pub noreserve: bool,
}

impl MmapOptions {
    /// The options that `new` returns: offset zero, no length, every flag
    /// off, ordinary pages.
    pub open spec fn initial() -> MmapOptions {
        MmapOptions {
            offset: 0,
            len: None,
            stack: false,
            locked: false,
            private: false,
            huge: 0,
            noreserve: false,
        }
    }

    /// The length of the mapping over a file of `file_len` bytes: the
    /// configured length, or else what the file holds from the offset on,
    /// if that is a `usize`.
    pub open spec fn length(self, file_len: u64) -> Result<usize, MapError> {
        match self.len {
            Some(len) => Ok(len),
            None => if file_len - self.offset > usize::MAX {
                Err(MapError::LengthOverflow)
            } else {
                Ok((file_len - self.offset) as usize)
            },
        }
    }

    /// Where no length is configured, the offset lies within the file.
    pub open spec fn measurable(self, file_len: u64) -> bool {
        self.len is None ==> self.offset <= file_len
    }

    /// A mapping of the file can be planned: its length can be taken, and
    /// with the alignment correction that length is a `usize`.
    pub open spec fn plannable(self, file_len: u64, page_size: usize) -> bool {
        &&& page_size > 0
        &&& self.measurable(file_len)
        &&& self.length(file_len) matches Ok(len) ==> fits(len, self.offset, page_size)
    }

    /// What planning a mapping of the file `file` comes to: the length is
    /// taken first, then the call is planned for it. Stack mappings are for
    /// anonymous memory only, so the option is left out here.
    pub open spec fn file_request(
        self,
        protection: Protection,
        private: bool,
        file: i32,
        file_len: u64,
        page_size: usize,
    ) -> Result<MapCall, MapError> {
        match self.length(file_len) {
            Ok(len) => request(
                len,
                MapCall::file(
                    len,
                    protection,
                    file,
                    self.offset,
                    self.locked,
                    private,
                    self.huge,
                    self.noreserve,
                    page_size,
                ),
            ),
            Err(e) => Err(e),
        }
    }

    /// What planning an anonymous mapping comes to. A length that was not
    /// configured counts as zero, and the offset plays no part.
    pub open spec fn anon_request(self) -> Result<MapCall, MapError> {
        let len = match self.len {
            Some(len) => len,
            None => 0usize,
        };
        request(
            len,
            MapCall::anonymous(
                len,
                self.stack,
                self.locked,
                self.private,
                self.huge,
                self.noreserve,
            ),
        )
    }

    /// Creates a new set of options.
    pub fn new() -> (r: MmapOptions)
        ensures
            r == MmapOptions::initial(),
    {
        MmapOptions {
            offset: 0,
            len: None,
            stack: false,
            locked: false,
            private: false,
            huge: 0,
            noreserve: false,
        }
    }

    /// Lets the mapping begin `offset` bytes into the file.
    pub fn offset(&mut self, offset: u64) -> (ret: &mut Self)
        ensures
            *ret == (MmapOptions { offset, ..*old(self) }),
            *final(self) == *final(ret),
    {
        self.offset = offset;
        self
    }

    /// Lets the mapping be `len` bytes long.
    pub fn len(&mut self, len: usize) -> (ret: &mut Self)
        ensures
            *ret == (MmapOptions { len: Some(len), ..*old(self) }),
            *final(self) == *final(ret),
    {
        self.len = Some(len);
        self
    }

    /// Marks the mapping as one for a stack.
    pub fn stack(&mut self) -> (ret: &mut Self)
        ensures
            *ret == (MmapOptions { stack: true, ..*old(self) }),
            *final(self) == *final(ret),
    {
        self.stack = true;
        self
    }

    /// Asks for the mapping to be kept in physical memory.
    pub fn lock(&mut self) -> (ret: &mut Self)
        ensures
            *ret == (MmapOptions { locked: true, ..*old(self) }),
            *final(self) == *final(ret),
    {
        self.locked = true;
        self
    }

    /// Makes the mapping private.
    pub fn private(&mut self) -> (ret: &mut Self)
        ensures
            *ret == (MmapOptions { private: true, ..*old(self) }),
            *final(self) == *final(ret),
    {
        self.private = true;
        self
    }

    /// Sets the huge page size class.
    pub fn huge(&mut self, huge: u8) -> (ret: &mut Self)
        ensures
            *ret == (MmapOptions { huge, ..*old(self) }),
            *final(self) == *final(ret),
    {
        self.huge = huge;
        self
    }

    /// Asks for no swap space to be reserved.
    pub fn noreserve(&mut self) -> (ret: &mut Self)
        ensures
            *ret == (MmapOptions { noreserve: true, ..*old(self) }),
            *final(self) == *final(ret),
    {
        self.noreserve = true;
        self
    }

    /// Whether the file's length is needed to plan a mapping of it.
    pub fn needs_file_len(&self) -> (r: bool)
        ensures
            r == (self.len is None),
    {
        self.len.is_none()
    }

    /// Returns the configured length, or the length that a file of
    /// `file_len` bytes leaves from the offset on.
    pub fn get_len(&self, file_len: u64) -> (r: Result<usize, MapError>)
        requires
            self.measurable(file_len),
        ensures
            r == self.length(file_len),
    {
        match self.len {
            Some(len) => Ok(len),
            None => {
                let len: u64 = file_len - self.offset;
                if len > usize::MAX as u64 {
                    return Err(MapError::LengthOverflow);
                }
                Ok(len as usize)
            },
        }
    }

    /// Plans a read-only mapping of the file `file`.
    pub fn map(&self, file: i32, file_len: u64, page_size: usize) -> (r: Result<
        MmapRequest,
        MapError,
    >)
        requires
            self.plannable(file_len, page_size),
        ensures
            match r {
                Ok(pending) => self.file_request(
                    Protection::ReadOnly,
                    self.private,
                    file,
                    file_len,
                    page_size,
                ) == Ok::<MapCall, MapError>(pending@),
                Err(e) => self.file_request(
                    Protection::ReadOnly,
                    self.private,
                    file,
                    file_len,
                    page_size,
                ) == Err::<MapCall, MapError>(e),
            },
    {
        let len: usize = match self.get_len(file_len) {
            Ok(len) => len,
            Err(e) => { return Err(e); },
        };
        match MmapInner::map(
            len,
            file,
            self.offset,
            self.locked,
            self.private,
            self.huge,
            self.noreserve,
            page_size,
        ) {
            Ok(call) => Ok(MmapRequest::new(call)),
            Err(e) => Err(e),
        }
    }

    /// Plans a readable and executable mapping of the file `file`.
    pub fn map_exec(&self, file: i32, file_len: u64, page_size: usize) -> (r: Result<
        MmapRequest,
        MapError,
    >)
        requires
            self.plannable(file_len, page_size),
        ensures
            match r {
                Ok(pending) => self.file_request(
                    Protection::ReadExecute,
                    self.private,
                    file,
                    file_len,
                    page_size,
                ) == Ok::<MapCall, MapError>(pending@),
                Err(e) => self.file_request(
                    Protection::ReadExecute,
                    self.private,
                    file,
                    file_len,
                    page_size,
                ) == Err::<MapCall, MapError>(e),
            },
    {
        let len: usize = match self.get_len(file_len) {
            Ok(len) => len,
            Err(e) => { return Err(e); },
        };
        match MmapInner::map_exec(
            len,
            file,
            self.offset,
            self.locked,
            self.private,
            self.huge,
            self.noreserve,
            page_size,
        ) {
            Ok(call) => Ok(MmapRequest::new(call)),
            Err(e) => Err(e),
        }
    }

    /// Plans a writable mapping of the file `file`.
    pub fn map_mut(&self, file: i32, file_len: u64, page_size: usize) -> (r: Result<
        MmapMutRequest,
        MapError,
    >)
        requires
            self.plannable(file_len, page_size),
        ensures
            match r {
                Ok(pending) => self.file_request(
                    Protection::ReadWrite,
                    self.private,
                    file,
                    file_len,
                    page_size,
                ) == Ok::<MapCall, MapError>(pending@),
                Err(e) => self.file_request(
                    Protection::ReadWrite,
                    self.private,
                    file,
                    file_len,
                    page_size,
                ) == Err::<MapCall, MapError>(e),
            },
    {
        let len: usize = match self.get_len(file_len) {
            Ok(len) => len,
            Err(e) => { return Err(e); },
        };
        match MmapInner::map_mut(
            len,
            file,
            self.offset,
            self.locked,
            self.private,
            self.huge,
            self.noreserve,
            page_size,
        ) {
            Ok(call) => Ok(MmapMutRequest::new(call)),
            Err(e) => Err(e),
        }
    }

    /// Plans a writable copy-on-write mapping of the file `file`: what is
    /// written to it reaches neither the file nor another mapping of it.
    /// The mapping is private whether or not the option is set.
    pub fn map_copy(&self, file: i32, file_len: u64, page_size: usize) -> (r: Result<
        MmapMutRequest,
        MapError,
    >)
        requires
            self.plannable(file_len, page_size),
        ensures
            match r {
                Ok(pending) => self.file_request(
                    Protection::ReadWrite,
                    true,
                    file,
                    file_len,
                    page_size,
                ) == Ok::<MapCall, MapError>(pending@),
                Err(e) => self.file_request(
                    Protection::ReadWrite,
                    true,
                    file,
                    file_len,
                    page_size,
                ) == Err::<MapCall, MapError>(e),
            },
    {
        let len: usize = match self.get_len(file_len) {
            Ok(len) => len,
            Err(e) => { return Err(e); },
        };
        match MmapInner::map_copy(
            len,
            file,
            self.offset,
            self.locked,
            self.huge,
            self.noreserve,
            page_size,
        ) {
            Ok(call) => Ok(MmapMutRequest::new(call)),
            Err(e) => Err(e),
        }
    }

    /// Plans a mapping of anonymous memory. The length must have been
    /// configured, and to more than zero.
    pub fn map_anon(&self, page_size: usize) -> (r: Result<MmapMutRequest, MapError>)
        requires
            page_size > 0,
        ensures
            match r {
                Ok(pending) => self.anon_request() == Ok::<MapCall, MapError>(pending@),
                Err(e) => self.anon_request() == Err::<MapCall, MapError>(e),
            },
    {
        let len: usize = match self.len {
            Some(len) => len,
            None => 0,
        };
        match MmapInner::map_anon(
            len,
            self.stack,
            self.locked,
            self.private,
            self.huge,
            self.noreserve,
            page_size,
        ) {
            Ok(call) => Ok(MmapMutRequest::new(call)),
            Err(e) => Err(e),
        }
    }
}

impl Default for MmapOptions {
    fn default() -> (r: MmapOptions)
        ensures
            r == MmapOptions::initial(),
    {
        MmapOptions::new()
    }
}

} // verus!

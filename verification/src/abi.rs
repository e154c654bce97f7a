//! The words that the mapping system calls take: protection bits, mapping
//! flags and flush flags.
//!
//! The values are those of Linux on x86-64. Executable code takes each of
//! them from `libc`; the constants below are what contracts speak of.

use vstd::prelude::*;

verus! {

/// Pages may be read.
pub const PROT_READ: i32 = 0x1;

/// Pages may be written.
pub const PROT_WRITE: i32 = 0x2;

/// Pages may be executed.
pub const PROT_EXEC: i32 = 0x4;

/// Writes are carried through to the file and seen by other mappings.
pub const MAP_SHARED: i32 = 0x0001;

/// Writes stay in a copy of this mapping's own.
pub const MAP_PRIVATE: i32 = 0x0002;

/// The mapping has no file behind it.
pub const MAP_ANON: i32 = 0x0020;

/// The mapping is kept in physical memory.
pub const MAP_LOCKED: i32 = 0x0_2000;

/// No swap space is reserved for the mapping.
pub const MAP_NORESERVE: i32 = 0x0_4000;

/// The mapping is meant for a stack.
pub const MAP_STACK: i32 = 0x02_0000;

/// The mapping uses huge pages.
pub const MAP_HUGETLB: i32 = 0x04_0000;

/// Where the flag word holds the base-two logarithm of the huge page size.
pub const MAP_HUGE_SHIFT: i32 = 26;

/// Huge pages of 2 MB: 21 at `MAP_HUGE_SHIFT`.
pub const MAP_HUGE_2MB: i32 = 0x5400_0000;

/// Huge pages of 1 GB: 30 at `MAP_HUGE_SHIFT`.
pub const MAP_HUGE_1GB: i32 = 0x7800_0000;

/// Start the write-back and return.
pub const MS_ASYNC: i32 = 0x1;

/// Return when the write-back is complete.
pub const MS_SYNC: i32 = 0x4;

/// What pages of a region may be used for.
#[derive(Clone, Copy, Debug, PartialEq, Eq, Structural)]
pub enum Protection {
    ReadOnly,
    ReadWrite,
    ReadExecute,
}

/// Whether writes reach the file and other mappings of it.
#[derive(Clone, Copy, Debug, PartialEq, Eq, Structural)]
pub enum Sharing {
    Shared,
    Private,
}

/// Whether a flush waits for the write-back.
#[derive(Clone, Copy, Debug, PartialEq, Eq, Structural)]
pub enum FlushMode {
    Synchronous,
    Asynchronous,
}

impl Protection {
    /// The protection argument of `mmap` and `mprotect`.
    pub open spec fn word(self) -> i32 {
        match self {
            Protection::ReadOnly => PROT_READ,
            Protection::ReadWrite => PROT_READ | PROT_WRITE,
            Protection::ReadExecute => PROT_READ | PROT_EXEC,
        }
    }

    /// Computes the protection argument from the bits that `libc` names.
    pub fn bits(self) -> (r: i32)
        ensures
            r == self.word(),
    {
        match self {
            Protection::ReadOnly => prot_read(),
            Protection::ReadWrite => prot_read() | prot_write(),
            Protection::ReadExecute => prot_read() | prot_exec(),
        }
    }
}

impl Sharing {
    /// Private if `private`, shared otherwise.
    pub open spec fn of(private: bool) -> Sharing {
        if private {
            Sharing::Private
        } else {
            Sharing::Shared
        }
    }

    /// The flag that asks `mmap` for this sharing mode.
    pub open spec fn word(self) -> i32 {
        match self {
            Sharing::Shared => MAP_SHARED,
            Sharing::Private => MAP_PRIVATE,
        }
    }

    /// The sharing mode that the `private` option asks for.
    pub fn from_private(private: bool) -> (r: Sharing)
        ensures
            r == Sharing::of(private),
    {
        if private {
            Sharing::Private
        } else {
            Sharing::Shared
        }
    }

    /// Takes the sharing flag from `libc`.
    pub fn bits(self) -> (r: i32)
        ensures
            r == self.word(),
    {
        match self {
            Sharing::Shared => map_shared(),
            Sharing::Private => map_private(),
        }
    }
}

impl FlushMode {
    /// The flag argument of `msync`.
    pub open spec fn word(self) -> i32 {
        match self {
            FlushMode::Synchronous => MS_SYNC,
            FlushMode::Asynchronous => MS_ASYNC,
        }
    }

    /// Takes the flush flag from `libc`.
    pub fn bits(self) -> (r: i32)
        ensures
            r == self.word(),
    {
        match self {
            FlushMode::Synchronous => ms_sync(),
            FlushMode::Asynchronous => ms_async(),
        }
    }
}

/// The flags of a huge page size class: 1 asks for 2 MB pages, 2 for 1 GB
/// pages, and every other class for ordinary pages.
pub open spec fn huge_word(huge: u8) -> i32 {
    if huge == 1 {
        MAP_HUGETLB | MAP_HUGE_2MB
    } else if huge == 2 {
        MAP_HUGETLB | MAP_HUGE_1GB
    } else {
        0
    }
}

/// `flag` if `set`, and no bit otherwise.
pub open spec fn flag_if(set: bool, flag: i32) -> i32 {
    if set {
        flag
    } else {
        0
    }
}

/// The flag word of a mapping: each option contributes its own flag, or
/// nothing.
pub open spec fn flag_word(
    anonymous: bool,
    stack: bool,
    locked: bool,
    private: bool,
    huge: u8,
    noreserve: bool,
) -> i32 {
    flag_if(anonymous, MAP_ANON) | flag_if(stack, MAP_STACK) | flag_if(locked, MAP_LOCKED)
        | Sharing::of(private).word() | huge_word(huge) | flag_if(noreserve, MAP_NORESERVE)
}

/// Computes the flags of a huge page size class.
pub fn huge_flags(huge: u8) -> (r: i32)
    ensures
        r == huge_word(huge),
{
    if huge == 1 {
        map_hugetlb() | map_huge_2mb()
    } else if huge == 2 {
        map_hugetlb() | map_huge_1gb()
    } else {
        0
    }
}

/// Computes the flag word that `mmap` is called with.
pub fn map_flags(
    anonymous: bool,
    stack: bool,
    locked: bool,
    private: bool,
    huge: u8,
    noreserve: bool,
) -> (r: i32)
    ensures
        r == flag_word(anonymous, stack, locked, private, huge, noreserve),
{
    let anonymous: i32 = if anonymous { map_anon() } else { 0 };
    let stack: i32 = if stack { map_stack() } else { 0 };
    let locked: i32 = if locked { map_locked() } else { 0 };
    let sharing: i32 = Sharing::from_private(private).bits();
    let huge: i32 = huge_flags(huge);
    let noreserve: i32 = if noreserve { map_noreserve() } else { 0 };
    anonymous | stack | locked | sharing | huge | noreserve
}

/// The three protection words are 1, 3 and 5.
pub proof fn lemma_protection_words()
    ensures
        Protection::ReadOnly.word() == 1,
        Protection::ReadWrite.word() == 3,
        Protection::ReadExecute.word() == 5,
{
    assert(0x1i32 | 0x2i32 == 3i32) by (bit_vector);
    assert(0x1i32 | 0x4i32 == 5i32) by (bit_vector);
}

/// Every option can be read back from the flag word, whatever the others
/// are: the options are set independently of each other. Exactly one of
/// the two sharing flags is there, and a huge page class leaves the
/// logarithm of its page size (21 or 30) at `MAP_HUGE_SHIFT`.
pub proof fn lemma_flag_word_options(
    anonymous: bool,
    stack: bool,
    locked: bool,
    private: bool,
    huge: u8,
    noreserve: bool,
)
    ensures
        ({
            let w = flag_word(anonymous, stack, locked, private, huge, noreserve);
            &&& (w & MAP_ANON != 0) == anonymous
            &&& (w & MAP_STACK != 0) == stack
            &&& (w & MAP_LOCKED != 0) == locked
            &&& (w & MAP_PRIVATE != 0) == private
            &&& (w & MAP_SHARED != 0) == !private
            &&& (w & MAP_NORESERVE != 0) == noreserve
            &&& (w & MAP_HUGETLB != 0) == (huge == 1 || huge == 2)
            &&& (w >> MAP_HUGE_SHIFT) & 0x3f == (if huge == 1 {
                21i32
            } else if huge == 2 {
                30i32
            } else {
                0i32
            })
        }),
{
    let a = flag_if(anonymous, MAP_ANON);
    let s = flag_if(stack, MAP_STACK);
    let l = flag_if(locked, MAP_LOCKED);
    let p = Sharing::of(private).word();
    let h = huge_word(huge);
    let n = flag_if(noreserve, MAP_NORESERVE);
    assert(0x04_0000i32 | 0x5400_0000i32 == 0x5404_0000i32) by (bit_vector);
    assert(0x04_0000i32 | 0x7800_0000i32 == 0x7804_0000i32) by (bit_vector);
    let w = a | s | l | p | h | n;
    assert({
        &&& (w & 0x20 != 0) == (a != 0)
        &&& (w & 0x02_0000 != 0) == (s != 0)
        &&& (w & 0x2000 != 0) == (l != 0)
        &&& (w & 0x2 != 0) == (p == 2)
        &&& (w & 0x1 != 0) == (p == 1)
        &&& (w & 0x4000 != 0) == (n != 0)
        &&& (w & 0x04_0000 != 0) == (h != 0)
        &&& (w >> 26) & 0x3f == (if h == 0x5404_0000i32 {
            21i32
        } else if h == 0x7804_0000i32 {
            30i32
        } else {
            0i32
        })
    }) by (bit_vector)
        requires
            a == 0 || a == 0x20,
            s == 0 || s == 0x02_0000,
            l == 0 || l == 0x2000,
            p == 1 || p == 2,
            h == 0 || h == 0x5404_0000i32 || h == 0x7804_0000i32,
            n == 0 || n == 0x4000,
            w == a | s | l | p | h | n,
    ;
}

/// `libc::PROT_READ`, which `libc` defines as 1.
#[verifier::external_body]
pub(crate) fn prot_read() -> (r: i32)
    ensures
        r == PROT_READ,
{
    libc::PROT_READ
}

/// `libc::PROT_WRITE`, which `libc` defines as 2.
#[verifier::external_body]
pub(crate) fn prot_write() -> (r: i32)
    ensures
        r == PROT_WRITE,
{
    libc::PROT_WRITE
}

/// `libc::PROT_EXEC`, which `libc` defines as 4.
#[verifier::external_body]
pub(crate) fn prot_exec() -> (r: i32)
    ensures
        r == PROT_EXEC,
{
    libc::PROT_EXEC
}

/// `libc::MAP_SHARED`, which `libc` defines as 0x0001.
#[verifier::external_body]
pub(crate) fn map_shared() -> (r: i32)
    ensures
        r == MAP_SHARED,
{
    libc::MAP_SHARED
}

/// `libc::MAP_PRIVATE`, which `libc` defines as 0x0002.
#[verifier::external_body]
pub(crate) fn map_private() -> (r: i32)
    ensures
        r == MAP_PRIVATE,
{
    libc::MAP_PRIVATE
}

/// `libc::MAP_ANON`, which `libc` defines as 0x0020 for Linux on x86-64.
#[verifier::external_body]
pub(crate) fn map_anon() -> (r: i32)
    ensures
        r == MAP_ANON,
{
    libc::MAP_ANON
}

/// `libc::MAP_STACK`, which `libc` defines as 0x020000 for Linux on x86-64.
#[verifier::external_body]
pub(crate) fn map_stack() -> (r: i32)
    ensures
        r == MAP_STACK,
{
    libc::MAP_STACK
}

/// `libc::MAP_LOCKED`, which `libc` defines as 0x02000 for Linux on x86-64.
#[verifier::external_body]
pub(crate) fn map_locked() -> (r: i32)
    ensures
        r == MAP_LOCKED,
{
    libc::MAP_LOCKED
}

/// `libc::MAP_NORESERVE`, which `libc` defines as 0x04000 for Linux on
/// x86-64.
#[verifier::external_body]
pub(crate) fn map_noreserve() -> (r: i32)
    ensures
        r == MAP_NORESERVE,
{
    libc::MAP_NORESERVE
}

/// `libc::MAP_HUGETLB`, which `libc` defines as 0x040000 for Linux on
/// x86-64.
#[verifier::external_body]
pub(crate) fn map_hugetlb() -> (r: i32)
    ensures
        r == MAP_HUGETLB,
{
    libc::MAP_HUGETLB
}

/// `libc::MAP_HUGE_2MB`, which `libc` defines as 21 shifted left by 26.
#[verifier::external_body]
pub(crate) fn map_huge_2mb() -> (r: i32)
    ensures
        r == MAP_HUGE_2MB,
{
    libc::MAP_HUGE_2MB
}

/// `libc::MAP_HUGE_1GB`, which `libc` defines as 30 shifted left by 26.
#[verifier::external_body]
pub(crate) fn map_huge_1gb() -> (r: i32)
    ensures
        r == MAP_HUGE_1GB,
{
    libc::MAP_HUGE_1GB
}

/// `libc::MS_SYNC`, which `libc` defines as 0x0004.
#[verifier::external_body]
pub(crate) fn ms_sync() -> (r: i32)
    ensures
        r == MS_SYNC,
{
    libc::MS_SYNC
}

/// `libc::MS_ASYNC`, which `libc` defines as 0x0001.
#[verifier::external_body]
pub(crate) fn ms_async() -> (r: i32)
    ensures
        r == MS_ASYNC,
{
    libc::MS_ASYNC
}

/// `libc::MAP_FAILED` as an address. `libc` defines it as the pointer with
/// every bit set, which is the largest address there is.
#[verifier::external_body]
pub(crate) fn map_failed() -> (r: usize)
    ensures
        r == usize::MAX,
{
    libc::MAP_FAILED as usize
}

} // verus!

//! What holds of every mapping call and of every region.

use vstd::prelude::*;
use crate::abi::{flag_word, lemma_flag_word_options, Protection, MAP_PRIVATE, MAP_SHARED};
use crate::error::{completion, MapError};
use crate::handle::{transition, Released};
use crate::options::MmapOptions;
use crate::unix::{fits, page_floor, MapCall, Region, Span};

verus! {

/// `inner` lies within `outer`.
pub open spec fn within(inner: Span, outer: Span) -> bool {
    outer.addr <= inner.addr && inner.addr + inner.len <= outer.addr + outer.len
}

/// The alignment correction does not show. Where `len` bytes of a file are
/// mapped from `offset` on, the region has `len` bytes, and its byte `i` is
/// the file's byte `offset + i`, wherever the page boundaries lie. The
/// call itself starts on a page boundary of the file.
pub proof fn lemma_window_matches_request(
    len: usize,
    protection: Protection,
    file: i32,
    offset: u64,
    locked: bool,
    private: bool,
    huge: u8,
    noreserve: bool,
    page_size: usize,
    raw: usize,
)
    requires
        len > 0,
        fits(len, offset, page_size),
        raw + len + (offset as int) % (page_size as int) <= usize::MAX,
    ensures
        ({
            let call = MapCall::file(
                len,
                protection,
                file,
                offset,
                locked,
                private,
                huge,
                noreserve,
                page_size,
            );
            let region = call.region(raw as int);
            &&& call.wf()
            &&& call.offset as int % page_size as int == 0
            &&& region.wf()
            &&& region.len == len
            &&& forall|i: int|
                0 <= i < len ==> #[trigger] call.file_position(raw as int, region.base + i)
                    == offset + i
        }),
{
    lemma_page_floor(offset as int, page_size as int);
}

/// `page_floor(x, page)` is a multiple of `page`, is not above `x`, and is
/// less than `page` below it.
pub proof fn lemma_page_floor(x: int, page: int)
    by (nonlinear_arith)
    requires
        0 <= x,
        0 < page,
    ensures
        0 <= x % page < page,
        x % page <= x,
        0 <= page_floor(x, page) <= x,
        x - page_floor(x, page) < page,
        page_floor(x, page) % page == 0,
{
}

/// What a region gives back is what was mapped for it: the envelope of the
/// region that a call makes at `raw` is the `call.len` bytes from `raw` on.
/// The envelope is what `mprotect` and `munmap` are called with.
pub proof fn lemma_envelope_is_what_was_mapped(call: MapCall, raw: usize)
    requires
        call.wf(),
        raw + call.len <= usize::MAX,
    ensures
        call.region(raw as int).wf(),
        call.region(raw as int).envelope() == (Span { addr: raw, len: call.len }),
        within(call.region(raw as int).visible(), call.region(raw as int).envelope()),
{
}

/// Where a mapping starts on a page boundary, as the operating system
/// places it, the alignment that the region keeps is its base address
/// modulo the page size.
pub proof fn lemma_alignment_is_base_mod_page(call: MapCall, raw: usize, page_size: usize)
    by (nonlinear_arith)
    requires
        call.wf(),
        raw + call.len <= usize::MAX,
        page_size > 0,
        raw as int % page_size as int == 0,
        call.alignment < page_size,
    ensures
        call.region(raw as int).alignment == call.region(raw as int).base % (page_size as int),
{
}

/// A flush covers its window and stays within what was mapped. For every
/// window that lies within a region whose envelope starts on a page
/// boundary, the span to flush starts on a page boundary, holds every byte
/// of the window, and lies within the envelope.
pub proof fn lemma_flush_span_covers_window(
    region: Region,
    offset: usize,
    len: usize,
    page_size: usize,
)
    requires
        region.wf(),
        page_size > 0,
        region.envelope().addr as int % page_size as int == 0,
        region.holds(offset as int, len as int),
    ensures
        ({
            let span = region.flush_span(offset as int, len as int, page_size as int);
            &&& span.addr as int % page_size as int == 0
            &&& span.addr <= region.base + offset
            &&& span.addr + span.len == region.base + offset + len
            &&& within(span, region.envelope())
        }),
{
    let first = region.base + offset;
    let start = region.base - region.alignment;
    lemma_page_floor(first, page_size as int);
    lemma_floor_above_multiple(start, first, page_size as int);
}

/// A multiple of `page` that is not above `x` is not above the page
/// boundary below `x` either.
proof fn lemma_floor_above_multiple(m: int, x: int, page: int)
    by (nonlinear_arith)
    requires
        0 < page,
        0 <= m <= x,
        m % page == 0,
    ensures
        m <= page_floor(x, page),
{
    let q = x / page;
    let k = m / page;
    assert(x == q * page + x % page);
    assert(m == k * page);
    assert(0 <= x % page < page);
    if k > q {
        assert(k >= q + 1);
        assert(k * page >= (q + 1) * page);
        assert(false);
    }
    assert(k * page <= q * page);
}

/// A change of protection leaves the region where it is: its bytes, its
/// envelope and its backing are what they were.
pub proof fn lemma_protection_keeps_the_region(region: Region, protection: Protection)
    requires
        region.wf(),
    ensures
        region.with_protection(protection).wf(),
        region.with_protection(protection).visible() == region.visible(),
        region.with_protection(protection).envelope() == region.envelope(),
        region.with_protection(protection).sharing == region.sharing,
        region.with_protection(protection).backing == region.backing,
        region.with_protection(protection).protection == protection,
{
}

/// Making a region writable and then giving it its first protection back
/// gives the region that it was: the round trip loses nothing.
pub proof fn lemma_protection_round_trip(region: Region, between: Protection)
    ensures
        region.with_protection(between).with_protection(region.protection) == region,
{
}

/// A failed change of protection leaks nothing. Whatever the region's
/// protection was and whatever was asked for, a failure hands back the
/// error number and, to unmap, the very range that `mmap` was asked for.
pub proof fn lemma_failed_transition_releases_the_mapping(
    call: MapCall,
    raw: usize,
    target: Protection,
    ret: i32,
    errno: i32,
)
    requires
        call.wf(),
        raw + call.len <= usize::MAX,
        ret != 0,
    ensures
        transition(call.region(raw as int), target, ret, errno) == Err::<Region, Released>(
            Released { error: MapError::Os(errno), unmap: Span { addr: raw, len: call.len } },
        ),
{
}

/// A successful change of protection leads to the protection that was
/// asked for, from each of the three protections to each of them, and
/// leaves the region where it is.
pub proof fn lemma_transition_reaches_its_target(region: Region, target: Protection, errno: i32)
    requires
        region.wf(),
    ensures
        transition(region, target, 0, errno) == Ok::<Region, Released>(
            region.with_protection(target),
        ),
        region.with_protection(target).protection == target,
        region.with_protection(target).visible() == region.visible(),
{
}

/// A mapping of no bytes is refused before any system call, whatever the
/// offset, the page size and the other options are: where the length is
/// zero, and so where the length with its alignment correction is zero,
/// planning gives the input error. Every plan that is made is for a call
/// in which the caller sees at least one byte.
pub proof fn lemma_zero_length_is_refused(
    options: MmapOptions,
    protection: Protection,
    private: bool,
    file: i32,
    file_len: u64,
    page_size: usize,
)
    requires
        page_size > 0,
    ensures
        options.length(file_len) == Ok::<usize, MapError>(0) ==> options.file_request(
            protection,
            private,
            file,
            file_len,
            page_size,
        ) == Err::<MapCall, MapError>(MapError::ZeroLength),
        options.length(file_len) matches Ok(len) && len + (options.offset as int) % (
        page_size as int) == 0 ==> options.file_request(
            protection,
            private,
            file,
            file_len,
            page_size,
        ) == Err::<MapCall, MapError>(MapError::ZeroLength),
        options.plannable(file_len, page_size) ==> (options.file_request(
            protection,
            private,
            file,
            file_len,
            page_size,
        ) matches Ok(call) ==> call.wf()),
        (options.len is None || options.len == Some(0usize)) <==> options.anon_request() == Err::<
            MapCall,
            MapError,
        >(MapError::ZeroLength),
        options.anon_request() matches Ok(call) ==> call.wf(),
{
    lemma_page_floor(options.offset as int, page_size as int);
}

/// The answer of a system call is surfaced as it is: success if and only
/// if the call returned 0, and else the error number that came with it.
pub proof fn lemma_completion_is_verbatim(ret: i32, errno: i32)
    ensures
        completion(ret, errno) is Ok <==> ret == 0,
        ret != 0 ==> completion(ret, errno) == Err::<(), MapError>(MapError::Os(errno)),
{
}

/// A file-backed call asks for exactly one sharing mode: the private flag
/// if the mapping is to be private, the shared flag if not, never both.
pub proof fn lemma_call_sharing(
    len: usize,
    protection: Protection,
    file: i32,
    offset: u64,
    locked: bool,
    private: bool,
    huge: u8,
    noreserve: bool,
    page_size: usize,
)
    ensures
        ({
            let call = MapCall::file(
                len,
                protection,
                file,
                offset,
                locked,
                private,
                huge,
                noreserve,
                page_size,
            );
            &&& (call.flags & MAP_PRIVATE != 0) == private
            &&& (call.flags & MAP_SHARED != 0) == !private
            &&& call.flags == flag_word(false, false, locked, private, huge, noreserve)
        }),
{
    lemma_flag_word_options(false, false, locked, private, huge, noreserve);
}

} // verus!

use mapr::abi::{huge_flags, map_flags};
use mapr::{
    completed, FlushMode, MapCall, MapError, MmapInner, MmapMut, MmapOptions, Protection,
    ProtectCall, Sharing, Span, SyncCall,
};

const PAGE: usize = 4096;
const RAW: usize = 0x10_0000;

fn region(len: usize, offset: u64) -> MmapInner {
    let call = MmapInner::map_mut(len, 5, offset, false, false, 0, false, PAGE).unwrap();
    MmapInner::mapped(call, RAW, 0).unwrap()
}

#[test]
fn protection_words_are_those_of_libc() {
    assert_eq!(libc::PROT_READ, Protection::ReadOnly.bits());
    assert_eq!(libc::PROT_READ | libc::PROT_WRITE, Protection::ReadWrite.bits());
    assert_eq!(libc::PROT_READ | libc::PROT_EXEC, Protection::ReadExecute.bits());
    assert_eq!(1, Protection::ReadOnly.bits());
    assert_eq!(3, Protection::ReadWrite.bits());
    assert_eq!(5, Protection::ReadExecute.bits());
}

#[test]
fn sharing_and_flush_words_are_those_of_libc() {
    assert_eq!(libc::MAP_SHARED, Sharing::Shared.bits());
    assert_eq!(libc::MAP_PRIVATE, Sharing::Private.bits());
    assert_eq!(Sharing::Private, Sharing::from_private(true));
    assert_eq!(Sharing::Shared, Sharing::from_private(false));
    assert_eq!(libc::MS_SYNC, FlushMode::Synchronous.bits());
    assert_eq!(libc::MS_ASYNC, FlushMode::Asynchronous.bits());
}

#[test]
fn huge_page_classes() {
    assert_eq!(0, huge_flags(0));
    assert_eq!(libc::MAP_HUGETLB | libc::MAP_HUGE_2MB, huge_flags(1));
    assert_eq!(libc::MAP_HUGETLB | libc::MAP_HUGE_1GB, huge_flags(2));
    assert_eq!(0, huge_flags(3));
    assert_eq!(0, huge_flags(255));
    assert_eq!(21, (huge_flags(1) >> 26) & 0x3f);
    assert_eq!(30, (huge_flags(2) >> 26) & 0x3f);
}

#[test]
fn every_option_has_its_own_flag() {
    assert_eq!(libc::MAP_SHARED, map_flags(false, false, false, false, 0, false));
    assert_eq!(libc::MAP_PRIVATE, map_flags(false, false, false, true, 0, false));
    assert_eq!(libc::MAP_ANON | libc::MAP_SHARED, map_flags(true, false, false, false, 0, false));
    assert_eq!(libc::MAP_STACK | libc::MAP_SHARED, map_flags(false, true, false, false, 0, false));
    assert_eq!(libc::MAP_LOCKED | libc::MAP_SHARED, map_flags(false, false, true, false, 0, false));
    assert_eq!(
        libc::MAP_NORESERVE | libc::MAP_SHARED,
        map_flags(false, false, false, false, 0, true)
    );
    assert_eq!(
        libc::MAP_ANON
            | libc::MAP_STACK
            | libc::MAP_LOCKED
            | libc::MAP_PRIVATE
            | libc::MAP_HUGETLB
            | libc::MAP_HUGE_1GB
            | libc::MAP_NORESERVE,
        map_flags(true, true, true, true, 2, true)
    );
    assert_eq!(0x7806_6022, map_flags(true, true, true, true, 2, true));
}

#[test]
fn options_can_be_read_back_from_the_flag_word() {
    for bits in 0..32u32 {
        let (anonymous, stack, locked, private, noreserve) =
            (bits & 1 != 0, bits & 2 != 0, bits & 4 != 0, bits & 8 != 0, bits & 16 != 0);
        for huge in 0..4u8 {
            let word = map_flags(anonymous, stack, locked, private, huge, noreserve);
            assert_eq!(anonymous, word & libc::MAP_ANON != 0);
            assert_eq!(stack, word & libc::MAP_STACK != 0);
            assert_eq!(locked, word & libc::MAP_LOCKED != 0);
            assert_eq!(private, word & libc::MAP_PRIVATE != 0);
            assert_eq!(!private, word & libc::MAP_SHARED != 0);
            assert_eq!(noreserve, word & libc::MAP_NORESERVE != 0);
            assert_eq!(huge == 1 || huge == 2, word & libc::MAP_HUGETLB != 0);
        }
    }
}

#[test]
fn builder_sets_one_option_at_a_time() {
    let fresh = MmapOptions::new();
    assert_eq!(0, fresh.offset);
    assert_eq!(None, fresh.len);
    assert!(!fresh.stack && !fresh.locked && !fresh.private && !fresh.noreserve);
    assert_eq!(0, fresh.huge);
    assert!(fresh.needs_file_len());

    let mut options = MmapOptions::new();
    options.offset(7).len(9).stack().lock().private().huge(2).noreserve();
    assert_eq!(7, options.offset);
    assert_eq!(Some(9), options.len);
    assert!(options.stack && options.locked && options.private && options.noreserve);
    assert_eq!(2, options.huge);
    assert!(!options.needs_file_len());

    let default = MmapOptions::default();
    assert_eq!(0, default.offset);
    assert_eq!(None, default.len);
}

#[test]
fn options_reach_the_call() {
    let mut options = MmapOptions::new();
    options.len(64).stack().lock().private().huge(1).noreserve();
    let call = options.map_anon(PAGE).unwrap().call();
    assert_eq!(
        libc::MAP_ANON
            | libc::MAP_STACK
            | libc::MAP_LOCKED
            | libc::MAP_PRIVATE
            | libc::MAP_HUGETLB
            | libc::MAP_HUGE_2MB
            | libc::MAP_NORESERVE,
        call.flags
    );
    assert_eq!(Sharing::Private, call.sharing);

    // A file-backed mapping leaves the stack option out.
    let call = options.map(9, 1000, PAGE).unwrap().call();
    assert_eq!(
        libc::MAP_LOCKED
            | libc::MAP_PRIVATE
            | libc::MAP_HUGETLB
            | libc::MAP_HUGE_2MB
            | libc::MAP_NORESERVE,
        call.flags
    );
    assert_eq!(libc::PROT_READ, call.prot());
    assert_eq!(Some(9), call.backing);
    assert_eq!(9, call.fd());

    let call = options.map_exec(9, 1000, PAGE).unwrap().call();
    assert_eq!(libc::PROT_READ | libc::PROT_EXEC, call.prot());
    assert_eq!(Protection::ReadExecute, call.protection);
}

#[test]
fn anonymous_mapping_ignores_the_offset() {
    let mut options = MmapOptions::new();
    options.offset(4097).len(10);
    let call = options.map_anon(PAGE).unwrap().call();
    assert_eq!(0, call.offset);
    assert_eq!(0, call.alignment);
    assert_eq!(10, call.len);
}

#[test]
fn length_is_configured_or_inferred() {
    let mut options = MmapOptions::new();
    assert_eq!(Ok(128), options.get_len(128));
    options.offset(28);
    assert_eq!(Ok(100), options.get_len(128));
    assert_eq!(Ok(0), options.get_len(28));
    options.len(5);
    assert_eq!(Ok(5), options.get_len(128));
    // A configured length is taken whatever the file holds.
    assert_eq!(Ok(5), options.get_len(0));
}

#[test]
fn zero_length_is_refused_before_any_call() {
    assert_eq!(Some(MapError::ZeroLength), MmapMut::map_anon(0, PAGE).err());
    assert_eq!(Some(MapError::ZeroLength), MmapOptions::new().len(0).map(3, 100, PAGE).err());
    assert_eq!(Some(MapError::ZeroLength), MmapOptions::new().map_mut(3, 0, PAGE).err());
    assert_eq!(Some(MapError::ZeroLength), MmapOptions::new().map_exec(3, 0, PAGE).err());
    assert_eq!(Some(MapError::ZeroLength), MmapOptions::new().map_copy(3, 0, PAGE).err());
    // The whole file lies before the offset: nothing is left to map.
    assert_eq!(Some(MapError::ZeroLength), MmapOptions::new().offset(100).map(3, 100, PAGE).err());
    // Zero bytes are refused at an offset off the page boundary too.
    assert_eq!(Some(MapError::ZeroLength), MmapOptions::new().offset(2).len(0).map(3, 100, PAGE).err());
    assert_eq!(
        Err(MapError::ZeroLength),
        MmapInner::map_anon(0, false, false, false, 0, false, PAGE)
    );
    assert_eq!(Err(MapError::ZeroLength), MmapInner::map(0, 3, 2, false, false, 0, false, PAGE));
}

#[test]
fn call_starts_on_the_page_boundary_below_the_offset() {
    let call = MmapInner::map(100, 3, 3 * 4096 + 17, false, false, 0, false, PAGE).unwrap();
    assert_eq!(
        MapCall {
            len: 117,
            alignment: 17,
            offset: 3 * 4096,
            protection: Protection::ReadOnly,
            sharing: Sharing::Shared,
            backing: Some(3),
            flags: libc::MAP_SHARED,
        },
        call
    );

    let call = MmapInner::map_copy(1, 4, 8191, true, 0, true, PAGE).unwrap();
    assert_eq!(4096, call.len);
    assert_eq!(4095, call.alignment);
    assert_eq!(4096, call.offset);
    assert_eq!(libc::MAP_PRIVATE | libc::MAP_LOCKED | libc::MAP_NORESERVE, call.flags);
    assert_eq!(Protection::ReadWrite, call.protection);

    // Another page size gives another correction.
    let call = MmapInner::map_exec(10, 4, 8191, false, false, 0, false, 1 << 21).unwrap();
    assert_eq!(8191, call.alignment);
    assert_eq!(0, call.offset);
    assert_eq!(8201, call.len);
}

#[test]
fn region_hides_the_alignment_correction() {
    let inner = region(100, 4096 + 17);
    assert_eq!(RAW + 17, inner.ptr());
    assert_eq!(100, inner.len());
    assert_eq!(Protection::ReadWrite, inner.protection());
    assert_eq!(Sharing::Shared, inner.sharing());
    assert_eq!(Some(5), inner.backing());
    assert_eq!(Span { addr: RAW, len: 117 }, inner.unmap());
}

#[test]
fn mapped_takes_the_failure_address_of_libc() {
    let call = MmapInner::map_anon(10, false, false, false, 0, false, PAGE).unwrap();
    let r = MmapInner::mapped(call, libc::MAP_FAILED as usize, libc::EINVAL);
    assert_eq!(Some(MapError::Os(libc::EINVAL)), r.err());
    let r = MmapInner::mapped(call, RAW, libc::EINVAL);
    assert!(r.is_ok());
}

#[test]
fn lock_covers_the_visible_bytes_only() {
    let inner = region(100, 17);
    assert_eq!(Span { addr: RAW + 17, len: 100 }, inner.mlock());
    assert_eq!(Span { addr: RAW + 17, len: 100 }, inner.munlock());

    let mut mmap = MmapOptions::new().offset(17).len(100).map_mut(5, 4096, PAGE).unwrap()
        .finish(RAW, 0)
        .unwrap();
    assert_eq!(Span { addr: RAW + 17, len: 100 }, mmap.mlock());
    assert_eq!(Span { addr: RAW + 17, len: 100 }, mmap.munlock());
    assert_eq!(RAW + 17, mmap.as_mut_ptr());
}

#[test]
fn lock_result_is_surfaced_unchanged() {
    assert_eq!(Ok(()), completed(0, 0));
    assert_eq!(Ok(()), completed(0, libc::EPERM));
    assert_eq!(Err(MapError::Os(libc::EPERM)), completed(-1, libc::EPERM));
    assert_eq!(Err(MapError::Os(libc::ENOMEM)), completed(-1, libc::ENOMEM));
    assert_eq!(Err(MapError::Os(0)), completed(1, 0));
}

#[test]
fn protect_covers_the_envelope() {
    let inner = region(100, 17);
    let envelope = Span { addr: RAW, len: 117 };
    assert_eq!(
        ProtectCall { span: envelope, protection: Protection::ReadOnly },
        inner.make_read_only()
    );
    assert_eq!(
        ProtectCall { span: envelope, protection: Protection::ReadExecute },
        inner.make_exec()
    );
    assert_eq!(ProtectCall { span: envelope, protection: Protection::ReadWrite }, inner.make_mut());
    assert_eq!(libc::PROT_READ | libc::PROT_EXEC, inner.make_exec().prot());
}

#[test]
fn protection_changes_on_success_only() {
    let mut inner = region(100, 17);
    let call = inner.make_read_only();
    assert_eq!(Err(MapError::Os(libc::EACCES)), inner.protected(call, -1, libc::EACCES));
    assert_eq!(Protection::ReadWrite, inner.protection());
    assert_eq!(Ok(()), inner.protected(call, 0, 0));
    assert_eq!(Protection::ReadOnly, inner.protection());

    // Every protection can be reached from every other.
    let all = [Protection::ReadOnly, Protection::ReadWrite, Protection::ReadExecute];
    for from in all {
        for to in all {
            let mut inner = region(100, 17);
            assert_eq!(Ok(()), inner.protected(ProtectCall { span: inner.mlock(), protection: from }, 0, 0));
            assert_eq!(Ok(()), inner.protected(ProtectCall { span: inner.mlock(), protection: to }, 0, 0));
            assert_eq!(to, inner.protection());
            assert_eq!(RAW + 17, inner.ptr());
            assert_eq!(100, inner.len());
        }
    }
}

#[test]
fn flush_starts_on_a_page_boundary() {
    let inner = region(3 * 4096, 17);
    // The window starts in the region's second page.
    let call = inner.flush(4096, 10, PAGE).unwrap();
    assert_eq!(
        SyncCall { span: Span { addr: RAW + 4096, len: 27 }, mode: FlushMode::Synchronous },
        call
    );
    assert_eq!(0, call.span.addr % PAGE);

    // Both modes cover the same span.
    let call = inner.flush_async(4096, 10, PAGE).unwrap();
    assert_eq!(
        SyncCall { span: Span { addr: RAW + 4096, len: 27 }, mode: FlushMode::Asynchronous },
        call
    );
    assert_eq!(libc::MS_ASYNC, call.flags());

    // A window of no bytes is no error.
    let call = inner.flush(0, 0, PAGE).unwrap();
    assert_eq!(Span { addr: RAW, len: 17 }, call.span);

    // The whole region.
    let call = inner.flush(0, 3 * 4096, PAGE).unwrap();
    assert_eq!(Span { addr: RAW, len: 3 * 4096 + 17 }, call.span);
}

#[test]
fn flush_window_must_lie_within_the_region() {
    let inner = region(100, 17);
    assert_eq!(Err(MapError::OutOfRange), inner.flush(0, 101, PAGE));
    assert_eq!(Err(MapError::OutOfRange), inner.flush(101, 0, PAGE));
    assert_eq!(Err(MapError::OutOfRange), inner.flush(50, 51, PAGE));
    assert_eq!(Err(MapError::OutOfRange), inner.flush_async(1, 100, PAGE));
    assert_eq!(Err(MapError::OutOfRange), inner.flush(usize::MAX, 2, PAGE));
    assert_eq!(Err(MapError::OutOfRange), inner.flush(2, usize::MAX, PAGE));
    assert!(inner.flush(100, 0, PAGE).is_ok());
    assert!(inner.flush(50, 50, PAGE).is_ok());

    let mmap = MmapMut::map_anon(100, PAGE).unwrap().finish(RAW, 0).unwrap();
    assert_eq!(Err(MapError::OutOfRange), mmap.flush_range(1, 100, PAGE));
    assert_eq!(Err(MapError::OutOfRange), mmap.flush_async_range(1, 100, PAGE));
    assert!(mmap.flush_async_range(1, 99, PAGE).is_ok());
    assert_eq!(
        Ok(SyncCall { span: Span { addr: RAW, len: 100 }, mode: FlushMode::Asynchronous }),
        mmap.flush_async(PAGE)
    );
}

#[test]
fn round_trip_keeps_the_region() {
    let mmap = MmapOptions::new().offset(17).len(100).map(5, 4096, PAGE).unwrap()
        .finish(RAW, 0)
        .unwrap();
    let (ptr, len) = (mmap.as_ptr(), mmap.len());
    assert_eq!(Protection::ReadOnly, mmap.protection());

    let writable = mmap.make_mut().finish(0, 0).unwrap();
    assert_eq!((ptr, len), (writable.as_ptr(), writable.len()));

    let mmap = writable.make_read_only().finish(0, 0).unwrap();
    assert_eq!((ptr, len), (mmap.as_ptr(), mmap.len()));
    assert_eq!(Protection::ReadOnly, mmap.protection());
    assert_eq!(Span { addr: RAW, len: 117 }, mmap.unmap());
}

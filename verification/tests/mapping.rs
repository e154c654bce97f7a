use mapr::{
    completed, FlushMode, MapError, Mmap, MmapMut, MmapOptions, Protection, Released, Sharing,
    Span,
};

const PAGE: usize = 4096;

/// An address on a page boundary, as `mmap` would answer with.
const RAW: usize = 0x7f00_0000_0000;

/// The descriptor that the file-backed tests map.
const FILE: i32 = 3;

#[test]
fn map_file() {
    let expected_len = 128;

    let pending = MmapMut::map_mut(FILE, expected_len as u64, PAGE).unwrap();
    let call = pending.call();
    assert_eq!(expected_len, call.len);
    assert_eq!(0, call.alignment);
    assert_eq!(0, call.offset);
    assert_eq!(libc::PROT_READ | libc::PROT_WRITE, call.prot());
    assert_eq!(libc::MAP_SHARED, call.flags);
    assert_eq!(FILE, call.fd());

    let mmap = pending.finish(RAW, 0).unwrap();
    let len = mmap.len();
    assert_eq!(expected_len, len);
    assert_eq!(RAW, mmap.as_ptr());
}

/// Checks that a 0-length file will not be mapped.
#[test]
fn map_empty_file() {
    let mmap = Mmap::map(FILE, 0, PAGE);
    assert!(mmap.is_err());
    assert_eq!(Some(MapError::ZeroLength), mmap.err());
}

#[test]
fn map_anon() {
    let expected_len = 128;
    let pending = MmapMut::map_anon(expected_len, PAGE).unwrap();
    let call = pending.call();
    assert_eq!(expected_len, call.len);
    assert_eq!(0, call.offset);
    assert_eq!(-1, call.fd());
    assert_eq!(None, call.backing);
    assert_eq!(libc::PROT_READ | libc::PROT_WRITE, call.prot());
    assert_eq!(libc::MAP_ANON | libc::MAP_SHARED, call.flags);

    let mmap = pending.finish(RAW, 0).unwrap();
    let len = mmap.len();
    assert_eq!(expected_len, len);
}

#[test]
fn map_anon_zero_len() {
    assert!(MmapOptions::new().map_anon(PAGE).is_err())
}

#[test]
fn file_write() {
    let mmap = MmapMut::map_mut(FILE, 128, PAGE).unwrap().finish(RAW, 0).unwrap();

    let call = mmap.flush(PAGE).unwrap();
    assert_eq!(Span { addr: RAW, len: 128 }, call.span);
    assert_eq!(FlushMode::Synchronous, call.mode);
    assert_eq!(libc::MS_SYNC, call.flags());
    assert_eq!(Ok(()), completed(0, 0));
}

#[test]
fn flush_range() {
    let write = b"abc123";

    let pending = MmapOptions::new().offset(2).len(write.len()).map_mut(FILE, 128, PAGE).unwrap();
    let call = pending.call();
    assert_eq!(2, call.alignment);
    assert_eq!(write.len() + 2, call.len);
    assert_eq!(0, call.offset);

    let mmap = pending.finish(RAW, 0).unwrap();
    assert_eq!(RAW + 2, mmap.as_ptr());
    assert_eq!(write.len(), mmap.len());

    let call = mmap.flush_range(0, write.len(), PAGE).unwrap();
    assert_eq!(Span { addr: RAW, len: write.len() + 2 }, call.span);
    assert_eq!(libc::MS_SYNC, call.flags());
}

#[test]
fn map_copy() {
    let pending = MmapOptions::new().map_copy(FILE, 128, PAGE).unwrap();
    let call = pending.call();
    assert_eq!(Sharing::Private, call.sharing);
    assert_eq!(libc::MAP_PRIVATE, call.flags);
    assert_eq!(libc::PROT_READ | libc::PROT_WRITE, call.prot());
    assert_eq!(128, call.len);

    let mmap = pending.finish(RAW, 0).unwrap();
    assert!(mmap.flush(PAGE).is_ok());

    // Another mapping of the same file is planned as a shared one.
    let pending2 = MmapOptions::new().map(FILE, 128, PAGE).unwrap();
    assert_eq!(Sharing::Shared, pending2.call().sharing);
    assert_eq!(libc::MAP_SHARED, pending2.call().flags);
}

#[test]
fn map_offset() {
    let offset = u32::max_value() as u64 + 2;
    let len = 5432;
    let file_len = offset + len as u64;

    // Check inferred length mmap.
    let pending = MmapOptions::new().offset(offset).map_mut(FILE, file_len, PAGE).unwrap();
    let mmap = pending.finish(RAW, 0).unwrap();
    assert_eq!(len, mmap.len());

    // Check explicit length mmap.
    let pending = MmapOptions::new().offset(offset).len(len).map_mut(FILE, file_len, PAGE).unwrap();
    let call = pending.call();
    assert_eq!(1, call.alignment);
    assert_eq!(len + 1, call.len);
    assert_eq!(1u64 << 32, call.offset);
    assert_eq!(0, call.offset % PAGE as u64);

    let mmap = pending.finish(RAW, 0).unwrap();
    assert_eq!(len, mmap.len());

    // The first byte seen is the file's byte at `offset`.
    assert_eq!(offset, call.offset + (mmap.as_ptr() - RAW) as u64);

    // What is given back is what was mapped.
    assert_eq!(Span { addr: RAW, len: len + 1 }, mmap.unmap());
}

fn is_sync_send<T: Sync + Send>() -> bool {
    true
}

#[test]
fn sync_send() {
    assert!(is_sync_send::<MmapMut>());
    assert!(is_sync_send::<Mmap>());
}

fn jit_x86(mmap: MmapMut) {
    let ptr = mmap.as_ptr();
    let len = mmap.len();

    let step = mmap.make_exec();
    let call = step.call();
    assert_eq!(libc::PROT_READ | libc::PROT_EXEC, call.prot());
    assert_eq!(Span { addr: ptr, len }, call.span);

    let mmap = step.finish(0, 0).expect("make_exec");
    assert_eq!(Protection::ReadExecute, mmap.protection());
    assert_eq!(ptr, mmap.as_ptr());
    assert_eq!(len, mmap.len());
}

#[test]
fn jit_x86_anon() {
    jit_x86(MmapMut::map_anon(4096, PAGE).unwrap().finish(RAW, 0).unwrap());
}

#[test]
fn jit_x86_file() {
    jit_x86(MmapMut::map_mut(FILE, 4096, PAGE).expect("map_mut").finish(RAW, 0).expect("map_mut"));
}

fn mprotect(mmap: MmapMut) {
    let envelope = Span { addr: mmap.as_ptr(), len: mmap.len() };

    let step = mmap.make_read_only();
    assert_eq!(libc::PROT_READ, step.call().prot());
    assert_eq!(envelope, step.call().span);
    let mmap = step.finish(0, 0).expect("make_read_only");
    assert_eq!(Protection::ReadOnly, mmap.protection());

    let step = mmap.make_mut();
    assert_eq!(libc::PROT_READ | libc::PROT_WRITE, step.call().prot());
    assert_eq!(envelope, step.call().span);
    let mmap = step.finish(0, 0).expect("make_mut");
    assert_eq!(envelope.addr, mmap.as_ptr());
    assert_eq!(envelope.len, mmap.len());

    let call = mmap.flush(PAGE).unwrap();
    assert_eq!(envelope, call.span);

    let step = mmap.make_exec();
    assert_eq!(libc::PROT_READ | libc::PROT_EXEC, step.call().prot());
    let mmap = step.finish(0, 0).expect("make_exec");
    assert_eq!(Protection::ReadExecute, mmap.protection());

    assert_eq!(envelope, mmap.unmap());
}

#[test]
fn mprotect_file() {
    let pending = MmapMut::map_mut(FILE, 256, PAGE).expect("map_mut");
    assert_eq!(Sharing::Shared, pending.call().sharing);
    mprotect(pending.finish(RAW, 0).expect("map_mut"));
}

#[test]
fn mprotect_copy() {
    let pending = MmapOptions::new().map_copy(FILE, 256, PAGE).expect("map_mut");
    assert_eq!(Sharing::Private, pending.call().sharing);
    mprotect(pending.finish(RAW, 0).expect("map_mut"));
}

#[test]
fn mprotect_anon() {
    mprotect(MmapMut::map_anon(256, PAGE).expect("map_mut").finish(RAW, 0).unwrap());
}

#[test]
fn failed_transition_releases_the_region() {
    let pending = MmapOptions::new().offset(10).len(100).map_mut(FILE, 4096, PAGE).unwrap();
    let mmap = pending.finish(RAW, 0).unwrap();
    let step = mmap.make_read_only();
    let released = step.finish(-1, libc::EACCES).err().unwrap();
    assert_eq!(
        Released { error: MapError::Os(libc::EACCES), unmap: Span { addr: RAW, len: 110 } },
        released
    );
}

#[test]
fn failed_map_surfaces_the_error_number() {
    let pending = MmapMut::map_anon(128, PAGE).unwrap();
    let failed = libc::MAP_FAILED as usize;
    assert_eq!(Some(MapError::Os(libc::ENOMEM)), pending.finish(failed, libc::ENOMEM).err());

    let pending = Mmap::map(FILE, 128, PAGE).unwrap();
    assert_eq!(Some(MapError::Os(libc::EACCES)), pending.finish(usize::MAX, libc::EACCES).err());
}

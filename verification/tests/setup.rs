use io_urine::io_uring::{RegisterArg, RegisterOp};
use io_urine::mmap::{PROT_READ, PROT_WRITE};
use io_urine::params::RingSizes;
use io_urine::{
    io_cqring_offsets, io_sqring_offsets, io_uring_params, InitError, IoUring, Iovec, RwMmap,
};
use rustix::io::Errno;

/// The geometry that a kernel answers for a request, as on x86-64.
fn kernel_answer(mut params: io_uring_params) -> io_uring_params {
    params.sq_off = io_sqring_offsets {
        head: 0,
        tail: 64,
        ring_mask: 256,
        ring_entries: 264,
        flags: 276,
        dropped: 272,
        array: 320 + 16 * params.cq_entries,
    };
    params.cq_off = io_cqring_offsets {
        head: 128,
        tail: 192,
        ring_mask: 260,
        ring_entries: 268,
        overflow: 284,
        cqes: 320,
        flags: 280,
    };
    params
}

/// An engine on the answered geometry, with three mappings of the sizes it gives.
fn build(params: io_uring_params) -> Result<IoUring, InitError> {
    let params = kernel_answer(params);
    let sizes = params.layout()?;
    let sq_mmap = RwMmap::new(Ok(0x7f00_0000_0000), sizes.sq_ring, true)?;
    let cq_mmap = RwMmap::new(Ok(0x7f00_0001_0000), sizes.cq_ring, true)?;
    let sqe_mmap = RwMmap::new(Ok(0x7f00_0002_0000), sizes.sqes, true)?;
    IoUring::create_ring(3, &params, sq_mmap, cq_mmap, sqe_mmap)
}

fn with_entries(sq_entries: u32, cq_entries: u32) -> Result<IoUring, InitError> {
    build(IoUring::setup_params_with_entries(sq_entries, cq_entries))
}

fn mappings(sizes: &RingSizes) -> (RwMmap, RwMmap, RwMmap) {
    (
        RwMmap::new(Ok(0x1000), sizes.sq_ring, true).expect("a mapping"),
        RwMmap::new(Ok(0x2000), sizes.cq_ring, true).expect("a mapping"),
        RwMmap::new(Ok(0x3000), sizes.sqes, true).expect("a mapping"),
    )
}

fn create(fd: i32, params: &io_uring_params) -> Result<IoUring, InitError> {
    let sizes = kernel_answer(IoUring::setup_params_with_entries(8, 8))
        .layout()
        .expect("a consistent geometry");
    let (sq_mmap, cq_mmap, sqe_mmap) = mappings(&sizes);
    IoUring::create_ring(fd, params, sq_mmap, cq_mmap, sqe_mmap)
}

#[test]
fn requested_capacity_is_clamped() {
    assert_eq!(IoUring::setup_params(0).sq_entries, 1);
    assert_eq!(IoUring::setup_params(0).cq_entries, 1);
    assert_eq!(IoUring::setup_params(1).sq_entries, 1);
    assert_eq!(IoUring::setup_params(8).sq_entries, 8);
    assert_eq!(IoUring::setup_params(8).cq_entries, 8);
    assert_eq!(IoUring::setup_params(4096).sq_entries, 4096);
    assert_eq!(IoUring::setup_params(4097).sq_entries, 4096);
    assert_eq!(IoUring::setup_params(u32::MAX).cq_entries, 4096);

    let params = IoUring::setup_params_with_entries(0, 100_000);
    assert_eq!(params.sq_entries, 1);
    assert_eq!(params.cq_entries, 4096);
    let params = IoUring::setup_params_with_entries(16, 64);
    assert_eq!(params.sq_entries, 16);
    assert_eq!(params.cq_entries, 64);
    assert_eq!(params.flags, 0);
    assert_eq!(params.features, 0);
    assert_eq!(params.wq_fd, 0);
    assert_eq!(params.sq_off.array, 0);
    assert_eq!(params.cq_off.cqes, 0);
}

#[test]
fn mapping_sizes_follow_the_geometry() {
    let params = kernel_answer(IoUring::setup_params_with_entries(8, 16));
    let sizes = params.layout().expect("a consistent geometry");
    // The index array starts after 16 completion entries and holds 8 indices.
    assert_eq!(sizes.sq_ring, 320 + 16 * 16 + 8 * 4);
    assert_eq!(sizes.cq_ring, 320 + 16 * 16);
    assert_eq!(sizes.sqes, 8 * 64);
    assert!(params.sq_off.is_consistent());
    assert!(params.cq_off.is_consistent());
}

#[test]
fn inconsistent_geometry_is_refused() {
    let good = kernel_answer(IoUring::setup_params_with_entries(8, 8));
    assert!(good.layout().is_ok());

    let mut params = good;
    params.sq_entries = 6;
    assert!(matches!(params.layout(), Err(InitError::InvalidParameters)));
    let mut params = good;
    params.cq_entries = 0;
    assert!(matches!(params.layout(), Err(InitError::InvalidParameters)));
    // A cell that is not aligned.
    let mut params = good;
    params.sq_off.tail = 66;
    assert!(matches!(params.layout(), Err(InitError::InvalidParameters)));
    // Two cells at one offset.
    let mut params = good;
    params.sq_off.flags = params.sq_off.dropped;
    assert!(matches!(params.layout(), Err(InitError::InvalidParameters)));
    let mut params = good;
    params.cq_off.tail = params.cq_off.head;
    assert!(matches!(params.layout(), Err(InitError::InvalidParameters)));
    // A cell that reaches into the index array or the entries.
    let mut params = good;
    params.sq_off.head = params.sq_off.array;
    assert!(matches!(params.layout(), Err(InitError::InvalidParameters)));
    let mut params = good;
    params.cq_off.overflow = params.cq_off.cqes - 3;
    assert!(matches!(params.layout(), Err(InitError::InvalidParameters)));
    let mut params = good;
    params.cq_off.overflow = params.cq_off.cqes - 4;
    params.cq_off.tail = 192;
    assert!(params.layout().is_ok());
    // Entries that are not aligned for their tag.
    let mut params = good;
    params.cq_off.cqes = 324;
    assert!(matches!(params.layout(), Err(InitError::InvalidParameters)));
    let mut params = good;
    params.sq_off.array = 450;
    assert!(matches!(params.layout(), Err(InitError::InvalidParameters)));
    // What was asked for, before the kernel answered.
    assert!(matches!(
        IoUring::setup_params(8).layout(),
        Err(InitError::InvalidParameters)
    ));
    // The completion ring's flags word may be missing.
    let mut params = good;
    params.cq_off.flags = 0;
    assert!(params.layout().is_ok());
}

#[test]
fn an_engine_needs_a_descriptor_a_geometry_and_fitting_mappings() {
    let good = kernel_answer(IoUring::setup_params_with_entries(8, 8));
    let ring = create(3, &good).expect("Failed to create ring");
    assert_eq!(ring.fd(), 3);
    assert_eq!(ring.sq_mmap().as_ptr(), 0x1000);
    assert_eq!(ring.cq_mmap().as_ptr(), 0x2000);
    assert_eq!(ring.sqe_mmap().as_ptr(), 0x3000);
    assert_eq!(ring.sq_mmap().size(), 480);
    assert_eq!(ring.cq_mmap().size(), 448);
    assert_eq!(ring.sqe_mmap().size(), 512);
    assert_eq!(ring.sq().ring_entries(), 8);
    assert_eq!(ring.cq().ring_entries(), 8);
    assert!(create(0, &good).is_ok());

    assert!(matches!(create(-1, &good), Err(InitError::InvalidParameters)));
    let mut params = good;
    params.sq_entries = 7;
    assert!(matches!(create(3, &params), Err(InitError::InvalidParameters)));
    // Mappings made for another geometry.
    let other = kernel_answer(IoUring::setup_params_with_entries(8, 16));
    assert!(matches!(create(3, &other), Err(InitError::InvalidParameters)));
    let other = kernel_answer(IoUring::setup_params_with_entries(16, 8));
    assert!(matches!(create(3, &other), Err(InitError::InvalidParameters)));

    let sizes = good.layout().expect("a consistent geometry");
    let (sq_mmap, cq_mmap, _) = mappings(&sizes);
    let read_only = RwMmap::new(Ok(0x3000), sizes.sqes, false).expect("a mapping");
    assert!(matches!(
        IoUring::create_ring(3, &good, sq_mmap, cq_mmap, read_only),
        Err(InitError::InvalidParameters)
    ));
}

#[test]
fn a_failed_setup_is_reported() {
    assert!(matches!(IoUring::setup_result(Ok(5)), Ok(5)));
    match IoUring::setup_result(Err(Errno::NOSYS)) {
        Err(InitError::SyscallFailed(errno)) => assert_eq!(errno, Errno::NOSYS),
        other => panic!("Unexpected outcome: {other:?}"),
    }
}

#[test]
fn a_failed_mapping_is_reported() {
    match RwMmap::new(Err(Errno::NOMEM), 4096, true) {
        Err(InitError::MmapFailed(errno)) => assert_eq!(errno, Errno::NOMEM),
        other => panic!("Unexpected outcome: {other:?}"),
    }
    // A mapping at address zero counts as failed.
    match RwMmap::new(Ok(0), 4096, true) {
        Err(InitError::MmapFailed(errno)) => assert_eq!(errno, Errno::INVAL),
        other => panic!("Unexpected outcome: {other:?}"),
    }
}

#[test]
fn a_mapping_knows_its_ranges() {
    let map = RwMmap::new(Ok(0x7000), 4096, false).expect("a mapping");
    assert_eq!(map.as_ptr(), 0x7000);
    assert_eq!(map.size(), 4096);
    assert!(!map.is_writable());
    assert!(RwMmap::new(Ok(0x7000), 1, true).expect("a mapping").is_writable());

    assert_eq!(map.range(0, 4096), Some(0x7000));
    assert_eq!(map.range(64, 4), Some(0x7040));
    assert_eq!(map.range(4092, 4), Some(0x7000 + 4092));
    assert_eq!(map.range(4096, 0), Some(0x8000));
    assert_eq!(map.range(4093, 4), None);
    assert_eq!(map.range(4097, 0), None);
    assert_eq!(map.range(0, 4097), None);
    assert_eq!(map.range(usize::MAX, 2), None);
    assert_eq!(map.range(2, usize::MAX), None);

    let high = RwMmap::new(Ok(u64::MAX - 10), 100, true).expect("a mapping");
    assert_eq!(high.range(10, 1), Some(u64::MAX));
    assert_eq!(high.range(11, 1), None);
}

#[test]
fn protection_is_read_and_maybe_write() {
    assert_eq!(RwMmap::protection(false), PROT_READ);
    assert_eq!(RwMmap::protection(true), PROT_READ | PROT_WRITE);
    assert_eq!(RwMmap::protection(true), 3);
}

#[test]
fn empty_arrays_are_not_registered() {
    let ring = with_entries(8, 8).expect("Failed to create ring");
    let no_iovecs: [Iovec; 0] = [];
    let no_fds: [i32; 0] = [];
    assert!(matches!(ring.register_buffers(&no_iovecs), Err(InitError::InvalidParameters)));
    assert!(matches!(ring.register_files(&no_fds), Err(InitError::InvalidParameters)));
    assert!(matches!(
        ring.register_files_update(4, &no_fds),
        Err(InitError::InvalidParameters)
    ));

    let fds = [4, 5, 6];
    let call = ring.register_files_update(9, &fds).expect("Failed to build the update");
    assert_eq!(call.opcode, RegisterOp::RegisterFilesUpdate);
    assert_eq!(call.nr_args, 3);
    match call.arg {
        RegisterArg::FilesUpdate(update) => {
            assert_eq!(update.offset, 9);
            assert_eq!(update.resv, 0);
            assert_eq!(update.fds, fds.as_ptr() as u64);
        }
        other => panic!("Unexpected argument: {other:?}"),
    }
    let iovecs = [Iovec::new(0x100, 16), Iovec::new(0x200, 32)];
    assert_eq!(ring.register_buffers(&iovecs).expect("two buffers").nr_args, 2);
}

#[test]
fn a_failed_registration_is_reported() {
    assert!(matches!(IoUring::register_result(Ok(7)), Ok(7)));
    match IoUring::register_result(Err(Errno::BADF)) {
        Err(InitError::RegisterFailed(errno)) => assert_eq!(errno, Errno::BADF),
        other => panic!("Unexpected outcome: {other:?}"),
    }
}

use io_urine::io_uring::{Probe, ProbeOp, RegisterArg, RegisterCall, RegisterOp};
use io_urine::{
    io_cqring_offsets, io_sqring_offsets, io_uring_params, InitError, IoUring, Iovec, RwMmap,
    IORING_OP_NOP,
};
use rustix::io::Errno;

/// The geometry that a kernel answers for a request, as on x86-64.
fn kernel_answer(mut params: io_uring_params) -> io_uring_params {
    params.sq_off = io_sqring_offsets {
        head: 0,
        tail: 64,
        ring_mask: 256,
        ring_entries: 264,
        flags: 276,
        dropped: 272,
        array: 320 + 16 * params.cq_entries,
    };
    params.cq_off = io_cqring_offsets {
        head: 128,
        tail: 192,
        ring_mask: 260,
        ring_entries: 268,
        overflow: 284,
        cqes: 320,
        flags: 280,
    };
    params
}

/// An engine on the answered geometry, with three mappings of the sizes it gives.
fn build(params: io_uring_params) -> Result<IoUring, InitError> {
    let params = kernel_answer(params);
    let sizes = params.layout()?;
    let sq_mmap = RwMmap::new(Ok(0x7f00_0000_0000), sizes.sq_ring, true)?;
    let cq_mmap = RwMmap::new(Ok(0x7f00_0001_0000), sizes.cq_ring, true)?;
    let sqe_mmap = RwMmap::new(Ok(0x7f00_0002_0000), sizes.sqes, true)?;
    IoUring::create_ring(3, &params, sq_mmap, cq_mmap, sqe_mmap)
}

fn with_entries(sq_entries: u32, cq_entries: u32) -> Result<IoUring, InitError> {
    build(IoUring::setup_params_with_entries(sq_entries, cq_entries))
}

fn new(entries: u32) -> Result<IoUring, InitError> {
    build(IoUring::setup_params(entries))
}

#[test]
fn test_nop() {
    let mut ring = with_entries(8, 8).expect("Failed to create ring");

    // Get an SQE and prepare a NOP operation
    let sqe = ring.nop().expect("Failed to get SQE");
    assert_eq!(sqe.opcode, IORING_OP_NOP);

    // Submit the operation; the kernel accepts what it was handed
    let call = ring.submit();
    let submitted = ring.finish_submit(Ok(call.to_submit)).expect("Failed to submit");
    assert!(submitted <= 8, "Expected submission count <= ring size, got {submitted}");
}

#[test]
fn test_register_unregister_buffers() {
    let ring = with_entries(8, 8).expect("Failed to create ring");

    let mut buf = vec![0u8; 16];
    let iovecs = [Iovec::new(buf.as_mut_ptr() as u64, buf.len())];

    let call = ring.register_buffers(&iovecs).expect("Failed to register buffers");
    assert_eq!(
        call,
        RegisterCall {
            opcode: RegisterOp::RegisterBuffers,
            arg: RegisterArg::Array(iovecs.as_ptr() as u64),
            nr_args: 1,
        }
    );
    IoUring::register_result(Ok(0)).expect("Failed to register buffers");

    let call = ring.unregister_buffers();
    assert_eq!(
        call,
        RegisterCall { opcode: RegisterOp::UnregisterBuffers, arg: RegisterArg::Null, nr_args: 0 }
    );
    IoUring::register_result(Ok(0)).expect("Failed to unregister buffers");
}

#[test]
fn test_register_unregister_files() {
    let ring = with_entries(8, 8).expect("Failed to create ring");

    let fds = [7];

    let call = ring.register_files(&fds).expect("Failed to register files");
    assert_eq!(call.opcode, RegisterOp::RegisterFiles);
    assert_eq!(call.arg, RegisterArg::Array(fds.as_ptr() as u64));
    assert_eq!(call.nr_args, 1);

    let call = ring.unregister_files();
    assert_eq!(call.opcode, RegisterOp::UnregisterFiles);
    assert_eq!(call.arg, RegisterArg::Null);
    assert_eq!(call.nr_args, 0);
}

#[test]
fn test_register_files_update() {
    let ring = with_entries(8, 8).expect("Failed to create ring");

    let fds = [7];

    ring.register_files(&fds).expect("Failed to register files");

    let update = [-1];
    let call = ring.register_files_update(0, &update).expect("Failed to build the update");
    assert_eq!(call.opcode, RegisterOp::RegisterFilesUpdate);
    assert_eq!(call.nr_args, 1);
    match call.arg {
        RegisterArg::FilesUpdate(record) => {
            assert_eq!(record.offset, 0);
            assert_eq!(record.resv, 0);
            assert_eq!(record.fds, update.as_ptr() as u64);
        }
        other => panic!("Unexpected argument: {other:?}"),
    }

    // A kernel that knows the call, and one that does not
    assert!(matches!(IoUring::register_result(Ok(1)), Ok(1)));
    match IoUring::register_result(Err(Errno::NOSYS)) {
        Ok(_) => panic!("an error was expected"),
        Err(InitError::RegisterFailed(errno))
            if errno == Errno::INVAL || errno == Errno::NOSYS => {}
        Err(e) => panic!("Unexpected error: {e:?}"),
    }
}

#[test]
fn test_register_unregister_eventfd() {
    let ring = with_entries(8, 8).expect("Failed to create ring");

    let eventfd = 9;

    let call = ring.register_eventfd(eventfd);
    assert_eq!(
        call,
        RegisterCall {
            opcode: RegisterOp::RegisterEventfd,
            arg: RegisterArg::Fd(eventfd),
            nr_args: 1,
        }
    );
    let call = ring.unregister_eventfd();
    assert_eq!(
        call,
        RegisterCall { opcode: RegisterOp::UnregisterEventfd, arg: RegisterArg::Null, nr_args: 0 }
    );
}

#[test]
fn test_register_unregister_eventfd_async() {
    let ring = with_entries(8, 8).expect("Failed to create ring");

    let eventfd = 9;

    let call = ring.register_eventfd_async(eventfd);
    assert_eq!(
        call,
        RegisterCall {
            opcode: RegisterOp::RegisterEventfdAsync,
            arg: RegisterArg::Fd(eventfd),
            nr_args: 1,
        }
    );
    match IoUring::register_result(Err(Errno::INVAL)) {
        Ok(_) => panic!("an error was expected"),
        Err(InitError::RegisterFailed(errno))
            if errno == Errno::INVAL || errno == Errno::NOSYS =>
        {
            return;
        }
        Err(e) => panic!("Unexpected error: {e:?}"),
    }
}

#[test]
fn test_probe() {
    let ring = with_entries(8, 8).expect("Failed to create ring");

    let call = ring.probe();
    assert_eq!(
        call,
        RegisterCall { opcode: RegisterOp::RegisterProbe, arg: RegisterArg::Probe, nr_args: 128 }
    );

    // A kernel that answers the probe
    let mut probe = Probe::new();
    assert_eq!(probe.ops.len(), 128);
    probe.last_op = 1;
    probe.ops_len = 2;
    probe.ops[0] = ProbeOp { op: IORING_OP_NOP, flags: 1 };
    probe.ops[1] = ProbeOp { op: 1, flags: 0 };
    assert!(probe.opcode_supported(IORING_OP_NOP));
    assert!(!probe.opcode_supported(1));
    assert!(!probe.opcode_supported(2));
    assert!(IoUring::opcode_supported(&Ok(probe), IORING_OP_NOP));

    // A kernel that does not
    let failed = IoUring::register_result(Err(Errno::INVAL)).map(|_| Probe::new());
    match &failed {
        Ok(_) => panic!("an error was expected"),
        Err(InitError::RegisterFailed(errno))
            if *errno == Errno::INVAL || *errno == Errno::NOSYS =>
        {
            assert!(!IoUring::opcode_supported(&failed, IORING_OP_NOP));
        }
        Err(e) => panic!("Unexpected error: {e:?}"),
    }
}

#[test]
fn test_sq_space() {
    let ring = with_entries(8, 8).expect("Failed to create ring");

    // Initially, space should be available
    let space = ring.sq_space_left();
    assert!(space > 0, "Expected some SQ space, got {space}");
    assert_eq!(space, 8);
    assert!(!ring.is_sq_full());
}

#[test]
fn test_cq_empty() {
    let ring = with_entries(8, 8).expect("Failed to create ring");

    // Initially, CQ should be empty
    assert!(ring.is_cq_empty());
    assert_eq!(ring.cq_space_left(), 0);
}

#[test]
fn test_ring_creation() {
    // Test default creation
    let ring = new(32).expect("Failed to create ring");
    let space = ring.sq_space_left();
    assert!(space > 0, "Expected some SQ space, got {space}");

    // Test with custom entries
    let ring = with_entries(16, 16).expect("Failed to create ring with custom entries");
    let space = ring.sq_space_left();
    assert!(space > 0, "Expected some SQ space, got {space}");
}

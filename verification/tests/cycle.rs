use io_urine::io_uring::{EnterCall, Probe, ProbeOp};
use io_urine::{
    io_cqring_offsets, io_sqring_offsets, io_uring_cqe, io_uring_params, io_uring_sqe, EnterError,
    InitError, IoUring, RwMmap, IORING_CQE_F_BUFFER, IORING_CQE_F_MORE, IORING_ENTER_GETEVENTS,
    IORING_ENTER_SQ_WAKEUP, IORING_OP_ACCEPT, IORING_OP_ASYNC_CANCEL, IORING_OP_NOP,
    IORING_OP_POLL_ADD, IOSQE_ASYNC, IOSQE_IO_DRAIN, IOSQE_IO_HARDLINK, IOSQE_IO_LINK, POLLIN,
    SOCK_CLOEXEC,
};
use rustix::io::Errno;
use rustix::io_uring::sigset_t;

/// The geometry that a kernel answers for a request, as on x86-64.
fn kernel_answer(mut params: io_uring_params) -> io_uring_params {
    params.sq_off = io_sqring_offsets {
        head: 0,
        tail: 64,
        ring_mask: 256,
        ring_entries: 264,
        flags: 276,
        dropped: 272,
        array: 320 + 16 * params.cq_entries,
    };
    params.cq_off = io_cqring_offsets {
        head: 128,
        tail: 192,
        ring_mask: 260,
        ring_entries: 268,
        overflow: 284,
        cqes: 320,
        flags: 280,
    };
    params
}

/// An engine on the answered geometry, with three mappings of the sizes it gives.
fn build(params: io_uring_params) -> Result<IoUring, InitError> {
    let params = kernel_answer(params);
    let sizes = params.layout()?;
    let sq_mmap = RwMmap::new(Ok(0x7f00_0000_0000), sizes.sq_ring, true)?;
    let cq_mmap = RwMmap::new(Ok(0x7f00_0001_0000), sizes.cq_ring, true)?;
    let sqe_mmap = RwMmap::new(Ok(0x7f00_0002_0000), sizes.sqes, true)?;
    IoUring::create_ring(3, &params, sq_mmap, cq_mmap, sqe_mmap)
}

fn with_entries(sq_entries: u32, cq_entries: u32) -> Result<IoUring, InitError> {
    build(IoUring::setup_params_with_entries(sq_entries, cq_entries))
}

/// The kernel's part of a cycle: it consumes what was published, answers each entry
/// with a completion that carries the entry's tag, and says how many it accepted.
fn kernel_runs(ring: &mut IoUring) -> u32 {
    let sq_head = ring.sq().get_khead();
    let sq_tail = ring.sq().get_ktail();
    let sq_mask = ring.sq().ring_mask();
    let cq_mask = ring.cq().ring_mask();
    let mut cq_tail = ring.cq().get_ktail();
    let mut pos = sq_head;
    while pos != sq_tail {
        let entry = ring.sq().index_array()[(pos & sq_mask) as usize];
        let tag = ring.sq().entries()[entry as usize].user_data;
        let cqe = io_uring_cqe { user_data: tag, res: 0, flags: 0 };
        assert!(ring.cq_mut().set_cqe(cq_tail & cq_mask, cqe));
        cq_tail = cq_tail.wrapping_add(1);
        pos = pos.wrapping_add(1);
    }
    ring.cq_mut().set_ktail(cq_tail);
    ring.sq_mut().set_khead(sq_tail);
    sq_tail.wrapping_sub(sq_head)
}

#[test]
fn a_nop_is_submitted_and_accepted() {
    let mut ring = with_entries(8, 8).expect("Failed to create ring");
    let sqe = ring.nop().expect("Failed to get SQE");
    assert_eq!(sqe.opcode, IORING_OP_NOP);

    let call = ring.submit();
    assert_eq!(
        call,
        EnterCall { to_submit: 1, min_complete: 0, flags: 0, sigmask: 0, sigmask_size: 0 }
    );
    assert_eq!(ring.sq().get_ktail(), 1);

    let accepted = kernel_runs(&mut ring);
    let submitted = ring.finish_submit(Ok(accepted)).expect("Failed to submit");
    assert!(submitted <= 1);
    assert_eq!(submitted, 1);
    assert_eq!(ring.sq_space_left(), 8);
    assert!(!ring.is_cq_empty());
}

#[test]
fn a_tag_comes_back_on_the_completion() {
    let mut ring = with_entries(8, 8).expect("Failed to create ring");
    let tag = ring.alloc_user_data();
    let sqe = ring.nop().expect("Failed to get SQE");
    let _ = IoUring::set_sqe_user_data(sqe, tag);
    let other = ring.nop().expect("Failed to get SQE");
    other.user_data = 0xfeed_f00d;

    let call = ring.submit();
    assert_eq!(call.to_submit, 2);
    let accepted = kernel_runs(&mut ring);
    assert_eq!(ring.finish_submit(Ok(accepted)).expect("Failed to submit"), 2);

    let cqe = *ring.peek_cqe().expect("a completion is there");
    assert_eq!(cqe.user_data, tag);
    ring.cqe_seen(&cqe);
    let cqe = *ring.peek_cqe().expect("a completion is there");
    assert_eq!(cqe.user_data, 0xfeed_f00d);
    ring.cqe_seen(&cqe);
    assert!(ring.peek_cqe().is_none());
    assert!(ring.is_cq_empty());
}

#[test]
fn partial_submission_is_no_error() {
    let mut ring = with_entries(4, 4).expect("Failed to create ring");
    for _ in 0..3 {
        assert!(ring.nop().is_some());
    }
    let call = ring.submit();
    assert_eq!(call.to_submit, 3);
    // The kernel takes one entry only.
    let head = ring.sq().get_khead();
    ring.sq_mut().set_khead(head + 1);
    assert_eq!(ring.finish_submit(Ok(1)).expect("Failed to submit"), 1);
    assert_eq!(ring.sq_space_left(), 2);
    // The next submission hands the other two in again.
    assert_eq!(ring.submit().to_submit, 2);
}

#[test]
fn a_failed_enter_is_reported_and_the_rings_are_refreshed() {
    let mut ring = with_entries(4, 4).expect("Failed to create ring");
    assert!(ring.nop().is_some());
    let _ = ring.submit();
    ring.cq_mut().set_ktail(1);
    match ring.finish_submit(Err(Errno::INTR)) {
        Err(EnterError::SyscallFailed(errno)) => assert_eq!(errno, Errno::INTR),
        other => panic!("Unexpected outcome: {other:?}"),
    }
    assert_eq!(ring.cq_space_left(), 1);
    assert!(matches!(IoUring::enter_result(Ok(3)), Ok(3)));
    assert!(matches!(
        IoUring::enter_result(Err(Errno::BUSY)),
        Err(EnterError::SyscallFailed(Errno::BUSY))
    ));
    assert!(matches!(EnterError::from(Errno::AGAIN), EnterError::SyscallFailed(Errno::AGAIN)));
}

#[test]
fn submit_and_wait_asks_for_events() {
    let mut ring = with_entries(4, 4).expect("Failed to create ring");
    assert!(ring.nop().is_some());
    assert!(ring.nop().is_some());
    let call = ring.submit_and_wait(1);
    assert_eq!(
        call,
        EnterCall {
            to_submit: 2,
            min_complete: 1,
            flags: IORING_ENTER_GETEVENTS,
            sigmask: 0,
            sigmask_size: 0,
        }
    );
    assert_eq!(ring.submit_and_wait(0).min_complete, 0);
}

#[test]
fn enter_passes_counts_flags_and_signal_mask() {
    let mut ring = with_entries(4, 4).expect("Failed to create ring");
    let call = ring.enter(3, 2, IORING_ENTER_GETEVENTS | IORING_ENTER_SQ_WAKEUP, None);
    assert_eq!(
        call,
        EnterCall { to_submit: 3, min_complete: 2, flags: 3, sigmask: 0, sigmask_size: 0 }
    );
    // A word with bits that no flag names goes through as it is.
    assert_eq!(ring.enter(0, 0, 0x8000_0100, None).flags, 0x8000_0100);

    let mask: sigset_t = 0;
    let call = ring.enter(1, 1, 0, Some(&mask));
    assert_eq!(call.sigmask, std::ptr::from_ref(&mask) as usize as u64);
    assert_eq!(call.sigmask_size, std::mem::size_of::<sigset_t>());
    assert_eq!(ring.sq().get_ktail(), 0);
}

#[test]
fn get_sqe_hands_out_a_zeroed_entry() {
    let mut ring = with_entries(2, 2).expect("Failed to create ring");
    let sqe = ring.get_sqe().expect("Failed to get SQE");
    sqe.opcode = 9;
    sqe.user_data = 9;
    assert!(ring.get_sqe().is_some());
    assert!(ring.get_sqe().is_none());
    assert!(ring.is_sq_full());
    assert!(ring.nop().is_none());

    let _ = ring.submit();
    let accepted = kernel_runs(&mut ring);
    assert_eq!(ring.finish_submit(Ok(accepted)).expect("Failed to submit"), 2);
    // The slot comes round again, zeroed.
    let sqe = ring.get_sqe().expect("Failed to get SQE");
    assert_eq!(sqe.opcode, 0);
    assert_eq!(sqe.user_data, 0);
}

#[test]
fn reclaimed_entries_are_handed_out_first() {
    let mut ring = with_entries(4, 4).expect("Failed to create ring");
    assert!(ring.nop().is_some());
    assert!(!ring.reclaim_sqe(0));
    assert!(!ring.reclaim_sqe(4));
    assert!(ring.reclaim_sqe(2));
    assert_eq!(ring.sq().cached_sqe_count(), 1);

    let before = ring.sq_space_left();
    let sqe = ring.get_sqe_with_reclaim().expect("a reclaimed entry waits");
    assert_eq!(sqe.opcode, 0);
    sqe.user_data = 77;
    assert_eq!(ring.sq().entries()[2].user_data, 77);
    assert_eq!(ring.sq_space_left(), before);
    assert_eq!(ring.sq().cached_sqe_count(), 0);

    // With nothing reclaimed, the next slot of the ring.
    assert!(ring.get_sqe_with_reclaim().is_some());
    assert_eq!(ring.sq_space_left(), before - 1);
}

#[test]
fn entry_flags_are_set_and_cleared() {
    let mut sqe = io_uring_sqe::new();
    assert_eq!(IoUring::get_sqe_flags(&sqe), 0);
    assert_eq!(IoUring::link_sqe(&mut sqe).flags, IOSQE_IO_LINK);
    assert_eq!(IoUring::hardlink_sqe(&mut sqe).flags, IOSQE_IO_LINK | IOSQE_IO_HARDLINK);
    assert_eq!(IoUring::drain_sqe(&mut sqe).flags, 0x4 | 0x8 | IOSQE_IO_DRAIN);
    assert_eq!(IoUring::make_async(&mut sqe).flags, 0x4 | 0x8 | 0x2 | IOSQE_ASYNC);
    assert_eq!(IoUring::get_sqe_flags(&sqe), 0x1e);
    sqe.fd = 3;
    assert_eq!(IoUring::clear_sqe_flags(&mut sqe).flags, 0);
    assert_eq!(sqe.fd, 3);
    assert_eq!(IoUring::set_sqe_user_data(&mut sqe, 42).user_data, 42);
    assert_eq!(sqe.user_data, 42);
}

#[test]
fn tags_are_handed_out_in_turn_and_reused() {
    let mut ring = with_entries(2, 2).expect("Failed to create ring");
    assert_eq!(ring.allocated_user_data_count(), 0);
    assert_eq!(ring.available_user_data_count(), 0);
    assert_eq!(ring.alloc_user_data(), 1);
    assert_eq!(ring.alloc_user_data(), 2);
    assert_eq!(ring.alloc_user_data(), 3);
    assert_eq!(ring.allocated_user_data_count(), 4);

    ring.free_user_data(2);
    ring.free_user_data(0);
    ring.free_user_data(1);
    assert_eq!(ring.available_user_data_count(), 2);
    assert_eq!(ring.allocated_user_data_count(), 2);
    assert_eq!(ring.alloc_user_data(), 1);
    assert_eq!(ring.alloc_user_data(), 2);
    assert_eq!(ring.available_user_data_count(), 0);
    assert_eq!(ring.alloc_user_data(), 4);
    assert_eq!(ring.allocated_user_data_count(), 5);
}

#[test]
fn completion_flags_are_read() {
    let ring = with_entries(2, 2).expect("Failed to create ring");
    let cqe = io_uring_cqe { user_data: 0, res: 0, flags: IORING_CQE_F_MORE | 0x8 };
    assert!(ring.cqe_has_more(&cqe));
    assert!(ring.cqe_has_flags(&cqe, 0x8));
    assert!(ring.cqe_has_flags(&cqe, IORING_CQE_F_BUFFER | IORING_CQE_F_MORE));
    assert!(!ring.cqe_has_flags(&cqe, IORING_CQE_F_BUFFER));
    assert!(!ring.cqe_has_flags(&cqe, 0));
    assert_eq!(ring.cqe_get_flags(&cqe), 0xa);
    let cqe = io_uring_cqe { user_data: 0, res: 0, flags: IORING_CQE_F_BUFFER };
    assert!(!ring.cqe_has_more(&cqe));
}

#[test]
fn multishot_operations_are_asynchronous() {
    let mut ring = with_entries(4, 4).expect("Failed to create ring");
    let sqe = ring.poll_add_multishot(5, POLLIN).expect("Failed to get SQE");
    assert_eq!(sqe.opcode, IORING_OP_POLL_ADD);
    assert_eq!(sqe.fd, 5);
    assert_eq!(sqe.addr, POLLIN as u64);
    assert_eq!(sqe.flags, IOSQE_ASYNC);

    let sqe = ring.accept_multishot(6, 0x800).expect("Failed to get SQE");
    assert_eq!(sqe.opcode, IORING_OP_ACCEPT);
    assert_eq!(sqe.fd, 6);
    assert_eq!(sqe.rw_flags, 0x800 | SOCK_CLOEXEC);
    assert_eq!(sqe.flags, IOSQE_ASYNC);
    assert_eq!(sqe.addr, 0);
    assert_eq!(sqe.off, 0);

    let sqe = ring.cancel_multishot(0x1234).expect("Failed to get SQE");
    assert_eq!(sqe.opcode, IORING_OP_ASYNC_CANCEL);
    assert_eq!(sqe.addr, 0x1234);
    assert_eq!(sqe.len, 0);
}

#[test]
fn completions_are_copied_out_in_order() {
    let mut ring = with_entries(4, 4).expect("Failed to create ring");
    assert!(ring.copy_cqes(4).is_empty());

    // Positions 0..3 are posted and seen, then 3..6 are posted: slots 3, 0, 1.
    ring.cq_mut().set_ktail(3);
    assert_eq!(ring.copy_cqes(0).len(), 0);
    for _ in 0..3 {
        let cqe = *ring.peek_cqe().expect("a completion is there");
        ring.cqe_seen(&cqe);
    }
    for pos in 3..6u32 {
        let cqe = io_uring_cqe { user_data: pos as u64, res: pos as i32, flags: 0 };
        assert!(ring.cq_mut().set_cqe(pos % 4, cqe));
    }
    ring.cq_mut().set_ktail(6);

    let copied = ring.copy_cqes(2);
    assert_eq!(copied.iter().map(|cqe| cqe.user_data).collect::<Vec<u64>>(), vec![3, 4]);
    let copied = ring.copy_cqes(10);
    assert_eq!(copied.iter().map(|cqe| cqe.user_data).collect::<Vec<u64>>(), vec![3, 4, 5]);
    assert_eq!(copied[2].res, 5);
    // Copying does not mark anything as seen.
    assert_eq!(ring.cq_space_left(), 3);
}

#[test]
fn the_completion_head_is_published_with_the_next_cycle() {
    let mut ring = with_entries(4, 4).expect("Failed to create ring");
    ring.cq_mut().set_ktail(2);
    let cqe = *ring.peek_cqe().expect("a completion is there");
    ring.cqe_seen(&cqe);
    assert_eq!(ring.cq().get_khead(), 0);
    let _ = ring.peek_cqe();
    assert_eq!(ring.cq().get_khead(), 1);
    ring.cqe_seen(&cqe);
    assert_eq!(ring.cq().get_khead(), 1);
    let _ = ring.submit();
    assert_eq!(ring.cq().get_khead(), 2);
}

#[test]
fn overflow_is_zero_after_creation() {
    let mut ring = with_entries(4, 4).expect("Failed to create ring");
    assert_eq!(ring.cq().overflow_count(), 0);
    assert!(ring.nop().is_some());
    let _ = ring.submit();
    let accepted = kernel_runs(&mut ring);
    let _ = ring.finish_submit(Ok(accepted));
    let _ = ring.copy_cqes(1);
    assert_eq!(ring.cq().overflow_count(), 0);
    ring.cq_mut().set_koverflow(2);
    let _ = ring.peek_cqe();
    assert_eq!(ring.cq().overflow_count(), 2);
}

#[test]
fn a_probe_counts_only_what_the_kernel_reported() {
    let mut probe = Probe::new();
    probe.ops[0] = ProbeOp { op: 4, flags: 1 };
    probe.ops[1] = ProbeOp { op: 5, flags: 3 };
    probe.ops[2] = ProbeOp { op: 6, flags: 2 };
    probe.ops[3] = ProbeOp { op: 7, flags: 1 };
    probe.ops_len = 3;
    assert!(probe.opcode_supported(4));
    assert!(probe.opcode_supported(5));
    // Known to the kernel, but not supported.
    assert!(!probe.opcode_supported(6));
    // Past what the kernel reported.
    assert!(!probe.opcode_supported(7));
    probe.ops_len = 4;
    assert!(probe.opcode_supported(7));
    // More reported than there is room for.
    probe.ops.truncate(1);
    probe.ops_len = 200;
    assert!(probe.opcode_supported(4));
    assert!(!probe.opcode_supported(5));
    assert!(!IoUring::opcode_supported(&Err(InitError::InvalidParameters), 4));
}

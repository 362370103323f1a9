use io_urine::sqe::MsgHdr;
use io_urine::{
    io_cqring_offsets, io_sqring_offsets, io_uring_params, InitError, IoUring, RwMmap, AT_FDCWD,
    IORING_ASYNC_CANCEL_ALL, IORING_ASYNC_CANCEL_ANY, IORING_OP_ACCEPT, IORING_OP_ASYNC_CANCEL,
    IORING_OP_CONNECT, IORING_OP_LINKAT, IORING_OP_MKDIRAT, IORING_OP_MSG_RING,
    IORING_OP_PROVIDE_BUFFERS, IORING_OP_READ, IORING_OP_RECV, IORING_OP_RECVMSG,
    IORING_OP_REMOVE_BUFFERS, IORING_OP_RENAMEAT, IORING_OP_SEND, IORING_OP_SENDMSG,
    IORING_OP_SHUTDOWN, IORING_OP_SPLICE, IORING_OP_SYMLINKAT, IORING_OP_TEE,
    IORING_OP_UNLINKAT, IORING_OP_WRITE,
};

/// The geometry that a kernel answers for a request, as on x86-64.
fn kernel_answer(mut params: io_uring_params) -> io_uring_params {
    params.sq_off = io_sqring_offsets {
        head: 0,
        tail: 64,
        ring_mask: 256,
        ring_entries: 264,
        flags: 276,
        dropped: 272,
        array: 320 + 16 * params.cq_entries,
    };
    params.cq_off = io_cqring_offsets {
        head: 128,
        tail: 192,
        ring_mask: 260,
        ring_entries: 268,
        overflow: 284,
        cqes: 320,
        flags: 280,
    };
    params
}

/// An engine on the answered geometry, with three mappings of the sizes it gives.
fn build(params: io_uring_params) -> Result<IoUring, InitError> {
    let params = kernel_answer(params);
    let sizes = params.layout()?;
    let sq_mmap = RwMmap::new(Ok(0x7f00_0000_0000), sizes.sq_ring, true)?;
    let cq_mmap = RwMmap::new(Ok(0x7f00_0001_0000), sizes.cq_ring, true)?;
    let sqe_mmap = RwMmap::new(Ok(0x7f00_0002_0000), sizes.sqes, true)?;
    IoUring::create_ring(3, &params, sq_mmap, cq_mmap, sqe_mmap)
}

fn with_entries(sq_entries: u32, cq_entries: u32) -> Result<IoUring, InitError> {
    build(IoUring::setup_params_with_entries(sq_entries, cq_entries))
}

#[test]
fn reads_and_writes_through_the_ring() {
    let mut ring = with_entries(8, 8).expect("Failed to create ring");
    let mut buf = vec![0u8; 32];
    let addr = buf.as_ptr() as u64;

    let sqe = ring.read(3, &mut buf, 10).expect("Failed to get SQE");
    assert_eq!((sqe.opcode, sqe.fd, sqe.off, sqe.addr, sqe.len), (IORING_OP_READ, 3, 10, addr, 32));
    let sqe = ring.write(4, &buf, 20).expect("Failed to get SQE");
    assert_eq!((sqe.opcode, sqe.fd, sqe.off, sqe.addr, sqe.len), (IORING_OP_WRITE, 4, 20, addr, 32));
    let sqe = ring.send(5, &buf, 1).expect("Failed to get SQE");
    assert_eq!((sqe.opcode, sqe.fd, sqe.addr, sqe.len, sqe.rw_flags), (IORING_OP_SEND, 5, addr, 32, 1));
    let sqe = ring.recv(6, &mut buf, 2).expect("Failed to get SQE");
    assert_eq!((sqe.opcode, sqe.fd, sqe.addr, sqe.len, sqe.rw_flags), (IORING_OP_RECV, 6, addr, 32, 2));
    let sqe = ring.connect(7, &buf[..16], 16).expect("Failed to get SQE");
    assert_eq!((sqe.opcode, sqe.fd, sqe.addr, sqe.len), (IORING_OP_CONNECT, 7, addr, 16));
    let sqe = ring.shutdown(7, 1).expect("Failed to get SQE");
    assert_eq!((sqe.opcode, sqe.fd, sqe.len, sqe.rw_flags), (IORING_OP_SHUTDOWN, 7, 0, 1));
    assert_eq!(ring.sq_space_left(), 2);
}

#[test]
fn paths_relative_to_the_working_directory() {
    let mut ring = with_entries(8, 8).expect("Failed to create ring");
    let old = b"old\0".to_vec();
    let new = b"new\0".to_vec();
    let old_at = old.as_ptr() as u64;
    let new_at = new.as_ptr() as u64;

    let sqe = ring.unlink(&old, 0x200).expect("Failed to get SQE");
    assert_eq!((sqe.opcode, sqe.fd, sqe.addr, sqe.rw_flags), (IORING_OP_UNLINKAT, AT_FDCWD, old_at, 0x200));
    let sqe = ring.rename(&old, &new, 1).expect("Failed to get SQE");
    assert_eq!((sqe.opcode, sqe.fd, sqe.addr, sqe.off), (IORING_OP_RENAMEAT, AT_FDCWD, old_at, new_at));
    assert_eq!((sqe.len, sqe.rw_flags), (AT_FDCWD as u32, 1));
    let sqe = ring.mkdir(&new, 0o700).expect("Failed to get SQE");
    assert_eq!((sqe.opcode, sqe.fd, sqe.addr, sqe.len), (IORING_OP_MKDIRAT, AT_FDCWD, new_at, 0o700));
    let sqe = ring.symlink(&old, &new).expect("Failed to get SQE");
    assert_eq!((sqe.opcode, sqe.fd, sqe.addr, sqe.off), (IORING_OP_SYMLINKAT, AT_FDCWD, old_at, new_at));
    let sqe = ring.link(&old, &new, 0).expect("Failed to get SQE");
    assert_eq!((sqe.opcode, sqe.fd, sqe.addr, sqe.off), (IORING_OP_LINKAT, AT_FDCWD, old_at, new_at));
    assert_eq!(sqe.len, AT_FDCWD as u32);
    let sqe = ring.linkat(3, &old, 4, &new, 0).expect("Failed to get SQE");
    assert_eq!((sqe.fd, sqe.len), (3, 4));
}

#[test]
fn messages_and_connections_through_the_ring() {
    let mut ring = with_entries(8, 8).expect("Failed to create ring");
    let mut hdr = MsgHdr::new();
    let hdr_at = std::ptr::from_ref(&hdr) as usize as u64;

    let sqe = ring.sendmsg(3, &hdr, 4).expect("Failed to get SQE");
    assert_eq!((sqe.opcode, sqe.fd, sqe.addr, sqe.len, sqe.rw_flags), (IORING_OP_SENDMSG, 3, hdr_at, 1, 4));
    let sqe = ring.recvmsg(3, &mut hdr, 5).expect("Failed to get SQE");
    assert_eq!((sqe.opcode, sqe.fd, sqe.addr, sqe.len, sqe.rw_flags), (IORING_OP_RECVMSG, 3, hdr_at, 1, 5));

    let sqe = ring.accept(3, 0x800).expect("Failed to get SQE");
    assert_eq!((sqe.opcode, sqe.fd, sqe.addr, sqe.off, sqe.rw_flags), (IORING_OP_ACCEPT, 3, 0, 0, 0x800));
    let mut addr = vec![0u8; 16];
    let addr_at = addr.as_ptr() as u64;
    let mut addrlen = 16u32;
    let sqe = ring.accept_with_addr(3, &mut addr, &mut addrlen, 0).expect("Failed to get SQE");
    assert_eq!((sqe.opcode, sqe.addr, sqe.off, sqe.splice_fd_in), (IORING_OP_ACCEPT, addr_at, 16, 0));
    let sqe = ring.accept_with_file_index(3, 5, 0).expect("Failed to get SQE");
    assert_eq!((sqe.addr, sqe.off, sqe.splice_fd_in), (0, 0, 5));
    let sqe = ring
        .accept_with_addr_and_file_index(3, &mut addr, &mut addrlen, 6, 0)
        .expect("Failed to get SQE");
    assert_eq!((sqe.addr, sqe.off, sqe.splice_fd_in), (addr_at, 16, 6));
    assert_eq!(addrlen, 16);
}

#[test]
fn pipes_buffers_and_cancellation_through_the_ring() {
    let mut ring = with_entries(16, 16).expect("Failed to create ring");

    let sqe = ring.splice(3, 10, 4, 20, 100, 1).expect("Failed to get SQE");
    assert_eq!((sqe.opcode, sqe.fd, sqe.off, sqe.len), (IORING_OP_SPLICE, 4, 20, 100));
    assert_eq!((sqe.splice_fd_in, sqe.addr3, sqe.rw_flags), (3, 10, 1));
    let sqe = ring.tee(3, 4, 100, 2).expect("Failed to get SQE");
    assert_eq!((sqe.opcode, sqe.fd, sqe.len, sqe.splice_fd_in), (IORING_OP_TEE, 4, 100, 3));

    let sqe = ring.provide_buffers(0x8000, 512, 2, 1, 4).expect("Failed to get SQE");
    assert_eq!((sqe.opcode, sqe.addr, sqe.len), (IORING_OP_PROVIDE_BUFFERS, 0x8000, 512));
    assert_eq!((sqe.off, sqe.buf_index), ((2u64 << 32) | 1, 4));
    let sqe = ring.remove_buffers(2, 3).expect("Failed to get SQE");
    assert_eq!((sqe.opcode, sqe.addr, sqe.len), (IORING_OP_REMOVE_BUFFERS, 2, 3));
    let sqe = ring.free_buffers(2).expect("Failed to get SQE");
    assert_eq!((sqe.opcode, sqe.addr, sqe.len), (IORING_OP_REMOVE_BUFFERS, 2, 0));

    let sqe = ring.cancel(0x55, 0).expect("Failed to get SQE");
    assert_eq!((sqe.opcode, sqe.addr, sqe.len), (IORING_OP_ASYNC_CANCEL, 0x55, 0));
    let sqe = ring.cancel_all().expect("Failed to get SQE");
    assert_eq!((sqe.opcode, sqe.addr, sqe.len), (IORING_OP_ASYNC_CANCEL, 0, IORING_ASYNC_CANCEL_ALL));
    let sqe = ring.cancel_any().expect("Failed to get SQE");
    assert_eq!((sqe.opcode, sqe.addr, sqe.len), (IORING_OP_ASYNC_CANCEL, 0, IORING_ASYNC_CANCEL_ANY));
    let sqe = ring.msg_ring(9, 0x66, 1, 7).expect("Failed to get SQE");
    assert_eq!((sqe.opcode, sqe.fd, sqe.addr, sqe.len, sqe.rw_flags), (IORING_OP_MSG_RING, 9, 0x66, 7, 1));
    assert_eq!(ring.sq_space_left(), 16 - 9);
}

#[test]
fn a_full_ring_prepares_nothing() {
    let mut ring = with_entries(1, 1).expect("Failed to create ring");
    assert!(ring.close(3).is_some());
    assert!(ring.close(4).is_none());
    assert!(ring.poll_add_multishot(3, 1).is_none());
    assert!(ring.accept_multishot(3, 0).is_none());
    let buf = [0u8; 4];
    assert!(ring.write(3, &buf, 0).is_none());
    assert_eq!(ring.sq().entries()[0].fd, 3);
    assert_eq!(ring.submit().to_submit, 1);
}

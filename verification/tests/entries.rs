use io_urine::cqe::{
    cqe_flags, cqe_res_to_result, cqe_result, cqe_result_to_result, cqe_user_data,
};
use io_urine::sqe::{
    sqe_flags, Accept, AsyncCancel, Close, Connect, FreeBuffers, Fsync, MsgHdr, Nop,
    ProvideBuffers, Read, Readv, Recv, RecvMsg, RemoveBuffers, Send, SendMsg, Shutdown, Splice,
    Tee, Write, Writev,
};
use io_urine::{
    io_uring_cqe, io_uring_sqe, iovec, CqeFlags, Iovec, PrepSqe, PrepSqeMut, SqeFlags,
    IORING_ASYNC_CANCEL_ALL, IORING_ASYNC_CANCEL_ANY, IORING_CQE_F_MORE, IORING_OP_ACCEPT,
    IORING_OP_ASYNC_CANCEL, IORING_OP_CLOSE, IORING_OP_CONNECT, IORING_OP_FSYNC, IORING_OP_NOP,
    IORING_OP_PROVIDE_BUFFERS, IORING_OP_READ, IORING_OP_READV, IORING_OP_RECV,
    IORING_OP_RECVMSG, IORING_OP_REMOVE_BUFFERS, IORING_OP_SEND, IORING_OP_SENDMSG,
    IORING_OP_SHUTDOWN, IORING_OP_SPLICE, IORING_OP_TEE, IORING_OP_WRITE, IORING_OP_WRITEV,
};
use rustix::io::Errno;

#[test]
fn a_new_entry_is_zeroed() {
    let sqe = io_uring_sqe::new();
    assert_eq!(sqe.opcode, 0);
    assert_eq!(sqe.flags, 0);
    assert_eq!(sqe.ioprio, 0);
    assert_eq!(sqe.fd, 0);
    assert_eq!(sqe.off, 0);
    assert_eq!(sqe.addr, 0);
    assert_eq!(sqe.len, 0);
    assert_eq!(sqe.rw_flags, 0);
    assert_eq!(sqe.user_data, 0);
    assert_eq!(sqe.buf_index, 0);
    assert_eq!(sqe.personality, 0);
    assert_eq!(sqe.splice_fd_in, 0);
    assert_eq!(sqe.addr3, 0);
    assert_eq!(io_uring_sqe::default().opcode, 0);
}

#[test]
fn completion_fields_are_read() {
    let cqe = io_uring_cqe { user_data: 0xabcd, res: -2, flags: IORING_CQE_F_MORE };
    assert_eq!(cqe_result(&cqe), -2);
    assert_eq!(cqe_user_data(&cqe), 0xabcd);
    assert_eq!(cqe_flags(&cqe), 2);
}

#[test]
fn a_result_is_a_count_or_an_error() {
    assert_eq!(cqe_res_to_result(0), Ok(0));
    assert_eq!(cqe_res_to_result(4096), Ok(4096));
    assert_eq!(cqe_res_to_result(i32::MAX), Ok(i32::MAX));
    assert_eq!(cqe_res_to_result(-22), Err(Errno::INVAL));
    assert_eq!(cqe_res_to_result(-1), Err(Errno::PERM));
    assert_eq!(cqe_res_to_result(-11), Err(Errno::AGAIN));
    assert_eq!(cqe_res_to_result(-125), Err(Errno::CANCELED));
    assert_eq!(cqe_res_to_result(-4095).map_err(|e| e.raw_os_error()), Err(4095));

    let cqe = io_uring_cqe { user_data: 1, res: 512, flags: 0 };
    assert_eq!(cqe_result_to_result(&cqe), Ok(512));
    let cqe = io_uring_cqe { user_data: 1, res: -9, flags: 0 };
    assert_eq!(cqe_result_to_result(&cqe), Err(Errno::BADF));
}

#[test]
fn completion_flags_have_one_bit_each() {
    let all = [
        (CqeFlags::Buffer, 1u32),
        (CqeFlags::More, 2),
        (CqeFlags::SockNonempty, 4),
        (CqeFlags::Timeout, 8),
        (CqeFlags::Notification, 16),
    ];
    for (flag, bits) in all {
        assert_eq!(flag.bits(), bits);
        assert_eq!(CqeFlags::from_bits(bits), Some(flag));
    }
    for bits in [0u32, 3, 5, 6, 17, 32, u32::MAX] {
        assert_eq!(CqeFlags::from_bits(bits), None);
    }
}

#[test]
fn entry_flags_are_built_bit_by_bit() {
    assert_eq!(SqeFlags::FixedFile.bits(), 1);
    assert_eq!(SqeFlags::IoDrain.bits(), 2);
    assert_eq!(SqeFlags::IoLink.bits(), 4);
    assert_eq!(SqeFlags::IoHardlink.bits(), 8);
    assert_eq!(SqeFlags::Async.bits(), 16);
    assert_eq!(SqeFlags::BufferSelect.bits(), 32);
    assert_eq!(SqeFlags::CqeSkipSuccess.bits(), 64);

    assert_eq!(sqe_flags().bits(), 0);
    assert_eq!(sqe_flags().with(SqeFlags::IoLink).bits(), 4);
    assert_eq!(sqe_flags().with(SqeFlags::IoLink).with(SqeFlags::Async).bits(), 20);
    assert_eq!(
        sqe_flags().with(SqeFlags::Async).with(SqeFlags::Async).with(SqeFlags::FixedFile).bits(),
        17
    );
}

#[test]
fn buffers_are_named_by_address_and_length() {
    let iov = Iovec::new(0x4000, 128);
    assert_eq!(iov.iov_base, 0x4000);
    assert_eq!(iov.iov_len, 128);
    let iov = iovec::new(0x5000, 64);
    assert_eq!(iov.iov_base, 0x5000);
    assert_eq!(iov.iov_len, 64);
}

#[test]
fn preparing_touches_only_the_fields_of_the_operation() {
    let mut sqe = io_uring_sqe::new();
    sqe.user_data = 99;
    sqe.flags = 4;
    sqe.personality = 3;
    sqe.addr3 = 8;
    Close::new(12).prep(&mut sqe);
    assert_eq!(sqe.opcode, IORING_OP_CLOSE);
    assert_eq!(sqe.fd, 12);
    assert_eq!(sqe.user_data, 99);
    assert_eq!(sqe.flags, 4);
    assert_eq!(sqe.personality, 3);
    assert_eq!(sqe.addr3, 8);
    Nop.prep(&mut sqe);
    assert_eq!(sqe.opcode, IORING_OP_NOP);
    assert_eq!(sqe.fd, 12);
}

#[test]
fn reads_and_writes_name_their_buffer() {
    let mut buf = vec![0u8; 24];
    let addr = buf.as_ptr() as u64;

    let mut sqe = io_uring_sqe::new();
    Read::new(3, &mut buf, 100).prep(&mut sqe);
    assert_eq!((sqe.opcode, sqe.fd, sqe.off, sqe.addr, sqe.len), (IORING_OP_READ, 3, 100, addr, 24));

    let mut sqe = io_uring_sqe::new();
    Write::new(4, &buf, 200).prep(&mut sqe);
    assert_eq!((sqe.opcode, sqe.fd, sqe.off, sqe.addr, sqe.len), (IORING_OP_WRITE, 4, 200, addr, 24));

    let mut sqe = io_uring_sqe::new();
    Send::new(5, &buf[4..], 0x40).prep(&mut sqe);
    assert_eq!((sqe.opcode, sqe.fd, sqe.addr, sqe.len), (IORING_OP_SEND, 5, addr + 4, 20));
    assert_eq!(sqe.rw_flags, 0x40);

    let mut sqe = io_uring_sqe::new();
    Recv::new(6, &mut buf[..8], -1).prep(&mut sqe);
    assert_eq!((sqe.opcode, sqe.fd, sqe.addr, sqe.len), (IORING_OP_RECV, 6, addr, 8));
    assert_eq!(sqe.rw_flags, -1);

    let empty: [u8; 0] = [];
    let mut sqe = io_uring_sqe::new();
    Write::new(4, &empty, 0).prep(&mut sqe);
    assert_eq!(sqe.len, 0);
    // Even an empty buffer lies somewhere.
    assert_ne!(sqe.addr, 0);
    assert_eq!(sqe.addr, empty.as_ptr() as u64);

    let mut sqe = io_uring_sqe::new();
    Connect::new(7, &buf[..16], 16).prep(&mut sqe);
    assert_eq!((sqe.opcode, sqe.fd, sqe.addr, sqe.len), (IORING_OP_CONNECT, 7, addr, 16));
}

#[test]
fn vectored_operations_name_their_array() {
    let iovecs = [Iovec::new(0x100, 1), Iovec::new(0x200, 2), Iovec::new(0x300, 3)];
    let mut op = Readv::new(3, &iovecs, 64);
    op.set_flags(0x8000_0001);
    let mut sqe = io_uring_sqe::new();
    op.prep(&mut sqe);
    assert_eq!(sqe.opcode, IORING_OP_READV);
    assert_eq!(sqe.fd, 3);
    assert_eq!(sqe.off, 64);
    assert_eq!(sqe.addr, iovecs.as_ptr() as u64);
    assert_eq!(sqe.len, 3);
    assert_eq!(sqe.rw_flags, 0x8000_0001u32 as i32);

    let op = Writev::new(4, &iovecs[..2], 0);
    let mut sqe = io_uring_sqe::new();
    op.prep(&mut sqe);
    assert_eq!(sqe.opcode, IORING_OP_WRITEV);
    assert_eq!(sqe.len, 2);
    assert_eq!(sqe.rw_flags, 0);
}

#[test]
fn message_headers_name_address_and_buffers() {
    let hdr = MsgHdr::new();
    assert_eq!((hdr.msg_name, hdr.msg_namelen, hdr.msg_iov, hdr.msg_iovlen), (0, 0, 0, 0));
    assert_eq!((hdr.msg_control, hdr.msg_controllen, hdr.msg_flags), (0, 0, 0));

    let mut addr = vec![0u8; 16];
    let mut iovecs = [Iovec::new(0x100, 10), Iovec::new(0x200, 20)];
    let addr_at = addr.as_ptr() as u64;
    let iov_at = iovecs.as_ptr() as u64;

    let hdr = MsgHdr::with_addr(&mut addr);
    assert_eq!((hdr.msg_name, hdr.msg_namelen, hdr.msg_iov, hdr.msg_iovlen), (addr_at, 16, 0, 0));
    let hdr = MsgHdr::with_iov(&mut iovecs);
    assert_eq!((hdr.msg_name, hdr.msg_namelen, hdr.msg_iov, hdr.msg_iovlen), (0, 0, iov_at, 2));
    let mut hdr = MsgHdr::with_addr_and_iov(&mut addr, &mut iovecs);
    assert_eq!((hdr.msg_name, hdr.msg_namelen, hdr.msg_iov, hdr.msg_iovlen), (addr_at, 16, iov_at, 2));
    hdr.set_control(0x900, 48);
    hdr.set_flags(-3);
    assert_eq!((hdr.msg_control, hdr.msg_controllen, hdr.msg_flags), (0x900, 48, -3));
    assert_eq!(hdr.msg_namelen, 16);

    let mut sqe = io_uring_sqe::new();
    SendMsg::new(3, &hdr, 5).prep(&mut sqe);
    assert_eq!(sqe.opcode, IORING_OP_SENDMSG);
    assert_eq!(sqe.addr, std::ptr::from_ref(&hdr) as usize as u64);
    assert_eq!((sqe.fd, sqe.len, sqe.rw_flags), (3, 1, 5));

    let mut sqe = io_uring_sqe::new();
    let hdr_at = std::ptr::from_ref(&hdr) as usize as u64;
    RecvMsg::new(4, &mut hdr, 6).prep(&mut sqe);
    assert_eq!(sqe.opcode, IORING_OP_RECVMSG);
    assert_eq!((sqe.fd, sqe.addr, sqe.len, sqe.rw_flags), (4, hdr_at, 1, 6));
}

#[test]
fn accept_takes_the_peer_address_only_with_its_length() {
    let mut sqe = io_uring_sqe::new();
    sqe.addr = 5;
    sqe.off = 6;
    sqe.len = 7;
    Accept::new(3, 0x80).prep(&mut sqe);
    assert_eq!(sqe.opcode, IORING_OP_ACCEPT);
    assert_eq!((sqe.fd, sqe.addr, sqe.off, sqe.len, sqe.rw_flags), (3, 0, 0, 0, 0x80));
    assert_eq!(sqe.splice_fd_in, 0);

    let mut addr = vec![0u8; 28];
    let addr_at = addr.as_ptr() as u64;
    let mut addrlen = 28u32;
    let mut sqe = io_uring_sqe::new();
    Accept::with_addr(3, &mut addr, &mut addrlen, 0).prep(&mut sqe);
    assert_eq!((sqe.addr, sqe.off), (addr_at, 28));
    assert_eq!(addrlen, 28);

    let mut sqe = io_uring_sqe::new();
    Accept::with_file_index(3, 9, 1).prep(&mut sqe);
    assert_eq!((sqe.addr, sqe.off, sqe.splice_fd_in, sqe.rw_flags), (0, 0, 9, 1));

    let mut sqe = io_uring_sqe::new();
    Accept::with_addr_and_file_index(4, &mut addr, &mut addrlen, u32::MAX, 2).prep(&mut sqe);
    assert_eq!((sqe.fd, sqe.addr, sqe.off, sqe.splice_fd_in), (4, addr_at, 28, -1));

    // An address without a length counts as none.
    let mut op = Accept::new(3, 0);
    op.addr = Some(0x1234);
    let mut sqe = io_uring_sqe::new();
    op.prep(&mut sqe);
    assert_eq!((sqe.addr, sqe.off), (0, 0));
}

#[test]
fn the_other_operations_map_their_fields() {
    let mut op = Fsync::new(3);
    let mut sqe = io_uring_sqe::new();
    op.prep(&mut sqe);
    assert_eq!((sqe.opcode, sqe.fd, sqe.rw_flags), (IORING_OP_FSYNC, 3, 0));
    op.set_flags(1);
    op.prep(&mut sqe);
    assert_eq!(sqe.rw_flags, 1);

    let mut sqe = io_uring_sqe::new();
    sqe.len = 5;
    Shutdown::new(4, 2).prep(&mut sqe);
    assert_eq!((sqe.opcode, sqe.fd, sqe.len, sqe.rw_flags), (IORING_OP_SHUTDOWN, 4, 0, 2));

    let mut sqe = io_uring_sqe::new();
    Splice::new(5, 100, 6, 200, 4096, 3).prep(&mut sqe);
    assert_eq!(sqe.opcode, IORING_OP_SPLICE);
    assert_eq!((sqe.fd, sqe.off, sqe.len), (6, 200, 4096));
    assert_eq!((sqe.splice_fd_in, sqe.addr3, sqe.rw_flags), (5, 100, 3));

    let mut sqe = io_uring_sqe::new();
    sqe.addr3 = 9;
    sqe.off = 9;
    Tee::new(5, 6, 512, 1).prep(&mut sqe);
    assert_eq!(sqe.opcode, IORING_OP_TEE);
    assert_eq!((sqe.fd, sqe.off, sqe.len), (6, 0, 512));
    assert_eq!((sqe.splice_fd_in, sqe.addr3, sqe.rw_flags), (5, 0, 1));

    let mut sqe = io_uring_sqe::new();
    ProvideBuffers::new(0x9000, 256, 7, 3, 0x1_0010).prep(&mut sqe);
    assert_eq!(sqe.opcode, IORING_OP_PROVIDE_BUFFERS);
    assert_eq!((sqe.addr, sqe.len), (0x9000, 256));
    assert_eq!(sqe.off, (7u64 << 32) | 3);
    assert_eq!(sqe.buf_index, 0x10);

    let mut sqe = io_uring_sqe::new();
    RemoveBuffers::new(7, 4).prep(&mut sqe);
    assert_eq!((sqe.opcode, sqe.addr, sqe.len), (IORING_OP_REMOVE_BUFFERS, 7, 4));
    let mut sqe = io_uring_sqe::new();
    sqe.len = 4;
    FreeBuffers::new(8).prep(&mut sqe);
    assert_eq!((sqe.opcode, sqe.addr, sqe.len), (IORING_OP_REMOVE_BUFFERS, 8, 0));

    let mut sqe = io_uring_sqe::new();
    AsyncCancel::new(0x77, 2).prep(&mut sqe);
    assert_eq!((sqe.opcode, sqe.addr, sqe.len), (IORING_OP_ASYNC_CANCEL, 0x77, 2));
    let mut sqe = io_uring_sqe::new();
    AsyncCancel::all().prep(&mut sqe);
    assert_eq!((sqe.addr, sqe.len), (0, IORING_ASYNC_CANCEL_ALL));
    let mut sqe = io_uring_sqe::new();
    AsyncCancel::any().prep(&mut sqe);
    assert_eq!((sqe.addr, sqe.len), (0, IORING_ASYNC_CANCEL_ANY));
}

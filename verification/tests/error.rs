use zlink_unix::error::{Errno, ErrnoName, ErrnoNumbers, ErrorKind, Refusal};

#[test]
fn errno_names_of_the_running_machine() {
    assert_eq!(Errno::from_raw_os_error(libc::EPERM).name, ErrnoName::Perm);
    assert_eq!(Errno::from_raw_os_error(libc::EOPNOTSUPP).name, ErrnoName::OpNotSupp);
    assert_eq!(Errno::from_raw_os_error(libc::ENOSYS).name, ErrnoName::NoSys);
    assert_eq!(Errno::from_raw_os_error(libc::ERANGE).name, ErrnoName::Range);
    assert_eq!(Errno::from_raw_os_error(libc::ENOPROTOOPT).name, ErrnoName::NoProtoOpt);
    assert_eq!(Errno::from_raw_os_error(libc::EACCES).name, ErrnoName::Other);
    assert_eq!(Errno::from_raw_os_error(0).name, ErrnoName::Other);
    assert_eq!(Errno::from_raw_os_error(libc::EACCES).raw, libc::EACCES);
    assert_eq!(
        Errno::from_raw_os_error(rustix::io::Errno::NOSYS.raw_os_error()).name,
        ErrnoName::NoSys
    );
}

#[test]
fn errno_names_depend_on_the_numbers() {
    let mips = ErrnoNumbers {
        perm: 1,
        op_not_supp: 122,
        no_sys: 89,
        range: 34,
        no_proto_opt: 99,
    };
    assert_eq!(Errno::with_numbers(122, &mips).name, ErrnoName::OpNotSupp);
    assert_eq!(Errno::with_numbers(89, &mips), Errno { raw: 89, name: ErrnoName::NoSys });
    assert_eq!(Errno::with_numbers(95, &mips).name, ErrnoName::Other);
    assert_eq!(Errno::with_numbers(99, &mips).name, ErrnoName::NoProtoOpt);
}

#[test]
fn refusals_have_a_kind_and_a_message() {
    let cases = [
        (
            Refusal::NoSocketInode,
            ErrorKind::Unsupported,
            "listener is not backed by a socket inode in the file system",
        ),
        (
            Refusal::EntrypointUnknown,
            ErrorKind::InvalidInput,
            "the entrypoint inode of this listener is not known",
        ),
        (
            Refusal::AdoptedEntrypointUnknown,
            ErrorKind::InvalidInput,
            "the entrypoint inode of a listener adopted from a file descriptor is not known",
        ),
        (
            Refusal::XattrsUnsupported,
            ErrorKind::Unsupported,
            "the kernel does not support extended attributes on socket inodes",
        ),
        (
            Refusal::TooManyFds,
            ErrorKind::InvalidInput,
            "too many file descriptors to send",
        ),
        (
            Refusal::CredentialsNotPushed,
            ErrorKind::InvalidInput,
            "failed to push credentials",
        ),
        (Refusal::InvalidPeerPid, ErrorKind::InvalidData, "invalid peer PID"),
        (
            Refusal::PeerCredentialsUnsupported,
            ErrorKind::Unsupported,
            "peer credentials not supported on this platform",
        ),
    ];
    for (refusal, kind, message) in cases {
        assert_eq!(refusal.kind(), kind);
        assert_eq!(refusal.message(), message);
    }
}

use std::io::{IoSlice, IoSliceMut};
use std::mem::MaybeUninit;

use rustix::fd::{AsFd, BorrowedFd, OwnedFd};
use rustix::net::{
    socketpair, sockopt, AddressFamily, RecvAncillaryBuffer, RecvFlags, SendFlags, SocketFlags,
    SocketType,
};
use rustix::process::{getgid, getpid, getuid};
use zlink_unix::error::{Error, Refusal};
use zlink_unix::platform::Platform;
use zlink_unix::unix::stream::{chunk, IoEvent, Write, WriteAction};
use zlink_unix::unix_utils::credentials::PassedCredentials;
use zlink_unix::unix_utils::message::{
    collect_messages, recvmsg, sendmsg, ReadResult, ReceivedMessage, CONTROL_SPACE, MAX_FDS,
};

fn pair() -> (OwnedFd, OwnedFd) {
    socketpair(AddressFamily::UNIX, SocketType::STREAM, SocketFlags::CLOEXEC, None).unwrap()
}

fn send(
    socket: &OwnedFd,
    bytes: &[u8],
    fds: &[BorrowedFd<'_>],
    creds: Option<&PassedCredentials>,
) -> usize {
    let mut space = [MaybeUninit::<u8>::uninit(); CONTROL_SPACE];
    let mut control = sendmsg(&mut space, fds, creds).unwrap();
    rustix::net::sendmsg(socket, &[IoSlice::new(bytes)], &mut control, SendFlags::empty()).unwrap()
}

fn receive(socket: &OwnedFd, buf: &mut [u8]) -> ReadResult {
    let mut space = [MaybeUninit::<u8>::uninit(); CONTROL_SPACE];
    let mut control = RecvAncillaryBuffer::new(&mut space);
    let received = rustix::net::recvmsg(
        socket,
        &mut [IoSliceMut::new(buf)],
        &mut control,
        RecvFlags::empty(),
    )
    .unwrap();
    recvmsg(Platform::Linux, received.bytes, control)
}

fn own_credentials() -> PassedCredentials {
    PassedCredentials::new(getuid().as_raw(), getgid().as_raw(), getpid().as_raw_pid())
}

#[test]
fn bytes_alone() {
    let (a, b) = pair();
    assert_eq!(send(&a, b"hello", &[], None), 5);
    let mut buf = [0; 16];
    let result = receive(&b, &mut buf);
    assert_eq!(result.bytes, 5);
    assert_eq!(&buf[..5], b"hello");
    assert!(result.fds.is_empty());
    assert_eq!(result.credentials, None);
}

#[test]
fn descriptors_arrive_in_order() {
    let (a, b) = pair();
    let names = ["alpha", "beta", "gamma"];
    let mut fds = Vec::new();
    for name in names {
        let (r, w) = pair();
        assert_eq!(send(&w, name.as_bytes(), &[], None), name.len());
        fds.push(r);
    }
    let borrowed: Vec<BorrowedFd<'_>> = fds.iter().map(|fd| fd.as_fd()).collect();
    send(&a, b"x", &borrowed, None);

    let mut buf = [0; 16];
    let result = receive(&b, &mut buf);
    assert_eq!(result.bytes, 1);
    assert_eq!(result.fds.len(), 3);
    for (fd, name) in result.fds.iter().zip(names) {
        let data = receive(fd, &mut buf);
        assert_eq!(&buf[..data.bytes], name.as_bytes());
    }
}

#[test]
fn credentials_arrive() {
    let (a, b) = pair();
    sockopt::set_socket_passcred(&b, true).unwrap();
    let creds = own_credentials();
    let (extra, _other) = pair();
    send(&a, b"x", &[extra.as_fd()], Some(&creds));

    let mut buf = [0; 16];
    let result = receive(&b, &mut buf);
    assert_eq!(result.bytes, 1);
    assert_eq!(result.fds.len(), 1);
    assert_eq!(result.credentials, Some(creds));
}

#[test]
fn as_many_descriptors_as_fit() {
    let (fd, _other) = pair();
    let creds = own_credentials();
    let mut space = [MaybeUninit::<u8>::uninit(); CONTROL_SPACE];
    for count in [1, 2, 253, MAX_FDS - 1, MAX_FDS] {
        let fds = vec![fd.as_fd(); count];
        assert!(sendmsg(&mut space, &fds, Some(&creds)).is_ok());
        // However the buffer is aligned.
        let mut larger = vec![MaybeUninit::<u8>::uninit(); CONTROL_SPACE + 8];
        for offset in 0..8 {
            let unaligned = &mut larger[offset..offset + CONTROL_SPACE];
            assert!(sendmsg(unaligned, &fds, Some(&creds)).is_ok());
        }
    }
    for count in [MAX_FDS + 1, MAX_FDS + 2, 5000] {
        let fds = vec![fd.as_fd(); count];
        let refused = match sendmsg(&mut space, &fds, None) {
            Ok(_) => panic!("{count} descriptors were not refused"),
            Err(error) => error,
        };
        assert_eq!(refused, Error::Refused(Refusal::TooManyFds));
    }
}

#[test]
fn received_messages_are_collected() {
    let (a, b) = pair();
    let (c, _d) = pair();
    let first = PassedCredentials::new(1, 2, 3);
    let last = PassedCredentials::new(4, 5, 6);
    let result = collect_messages(
        Platform::Linux,
        9,
        vec![
            ReceivedMessage::Rights(vec![a]),
            ReceivedMessage::Credentials(first),
            ReceivedMessage::Other,
            ReceivedMessage::Rights(vec![b, c]),
            ReceivedMessage::Credentials(last),
            ReceivedMessage::Other,
        ],
    );
    assert_eq!(result.bytes, 9);
    assert_eq!(result.fds.len(), 3);
    assert_eq!(result.credentials, Some(last));

    let nothing = collect_messages(Platform::Linux, 0, vec![]);
    assert_eq!(nothing.bytes, 0);
    assert!(nothing.fds.is_empty());
    assert_eq!(nothing.credentials, None);
}

#[test]
fn credentials_are_reported_on_linux_alone() {
    let creds = PassedCredentials::new(1, 2, 3);
    for platform in [Platform::Android, Platform::Apple, Platform::Other] {
        let (a, _b) = pair();
        let messages = vec![
            ReceivedMessage::Credentials(creds),
            ReceivedMessage::Rights(vec![a]),
        ];
        let result = collect_messages(platform, 1, messages);
        assert_eq!(result.bytes, 1);
        assert_eq!(result.fds.len(), 1);
        assert_eq!(result.credentials, None);
    }
}

#[test]
fn credentials_without_passcred_are_dropped() {
    let (a, b) = pair();
    let creds = own_credentials();
    send(&a, b"x", &[], Some(&creds));
    let mut buf = [0; 16];
    assert_eq!(receive(&b, &mut buf).credentials, None);
}

#[test]
fn every_chunk_carries_the_credentials() {
    let (a, b) = pair();
    sockopt::set_socket_passcred(&b, true).unwrap();
    let creds = own_credentials();
    let (extra, _other) = pair();
    let fds = [extra.as_fd()];
    let message = b"hello";

    // The socket takes two bytes of the first send and all of the second.
    let mut write = Write::new(message.len());
    let mut event = IoEvent::Polled;
    let mut tried = Vec::new();
    loop {
        match write.step::<()>(event) {
            WriteAction::Send { from, with_fds } => {
                let mut space = [MaybeUninit::<u8>::uninit(); CONTROL_SPACE];
                let mut chunk =
                    chunk(&mut space, message, &fds, Some(&creds), from, with_fds).unwrap();
                tried.push((chunk.bytes, with_fds));
                let taken = if from == 0 { 2 } else { chunk.bytes.len() };
                let sent = rustix::net::sendmsg(
                    &a,
                    &[IoSlice::new(&chunk.bytes[..taken])],
                    &mut chunk.control,
                    SendFlags::empty(),
                )
                .unwrap();
                event = IoEvent::Attempted(Ok(sent));
            }
            WriteAction::Finish(Ok(())) => break,
            action => panic!("unexpected action: {action:?}"),
        }
    }
    assert_eq!(tried, [(&b"hello"[..], true), (&b"llo"[..], false)]);

    let mut buf = [0; 2];
    let first = receive(&b, &mut buf);
    assert_eq!(&buf[..first.bytes], b"he");
    assert_eq!(first.fds.len(), 1);
    assert_eq!(first.credentials, Some(creds));

    let mut buf = [0; 16];
    let second = receive(&b, &mut buf);
    assert_eq!(&buf[..second.bytes], b"llo");
    assert!(second.fds.is_empty());
    assert_eq!(second.credentials, Some(creds));
}

#[test]
fn too_many_descriptors_are_refused_where_they_are_sent() {
    let (fd, _other) = pair();
    let fds = vec![fd.as_fd(); MAX_FDS + 1];
    let mut space = [MaybeUninit::<u8>::uninit(); CONTROL_SPACE];
    assert!(matches!(
        chunk(&mut space, b"hello", &fds, None, 0, true),
        Err(Error::Refused(Refusal::TooManyFds))
    ));
    let rest = chunk(&mut space, b"hello", &fds, None, 2, false);
    assert_eq!(rest.ok().unwrap().bytes, b"llo");
}

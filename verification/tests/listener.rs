use zlink_unix::error::Refusal;
use zlink_unix::platform::Platform;
use zlink_unix::server::listener::{Accept, Listener as _, ReadyListener};
use zlink_unix::unix::listener::{bind, Listener};
use zlink_unix::unix_utils::xattr::{XattrStep, XattrTarget, VARLINK_XATTR};

#[test]
fn ready_listener() {
    let mut listener = ReadyListener::new("test");

    // First call returns the socket.
    assert_eq!(listener.accept(), Accept::Connection("test"));

    // Second call reports closure.
    assert!(matches!(listener.accept(), Accept::Closed));

    // Subsequent calls pend forever.
    assert_eq!(listener.accept(), Accept::Pend);
    assert_eq!(listener.accept(), Accept::Pend);
    assert_eq!(listener.accept(), Accept::Pend);
}

#[test]
fn ready_listener_does_not_support_xattrs() {
    let listener = ReadyListener::new(7u8);
    for supported in [None, Some(false), Some(true)] {
        match listener.set_xattr("user.zlink.test", b"1", supported) {
            XattrStep::Refuse(refusal) => assert_eq!(refusal, Refusal::NoSocketInode),
            step => panic!("unexpected step: {step:?}"),
        }
    }
}

#[test]
fn adopted_listener_refuses_xattrs() {
    let listener = Listener::new("inner", None);
    assert_eq!(*listener.get_ref(), "inner");
    for supported in [None, Some(false), Some(true)] {
        match listener.set_xattr("user.zlink.test", b"1", supported) {
            XattrStep::Refuse(refusal) => assert_eq!(refusal, Refusal::AdoptedEntrypointUnknown),
            step => panic!("unexpected step: {step:?}"),
        }
    }
    assert_eq!(listener.tags(Platform::Linux, true).len(), 1);
    assert_eq!(listener.tags(Platform::Linux, false).len(), 0);
}

#[test]
fn bound_listener_keeps_its_path() {
    let listener = bind::<_, ()>(b"/run/test.sock", Ok(3)).unwrap();
    assert_eq!(*listener.get_ref(), 3);

    let tags = listener.tags(Platform::Linux, true);
    assert_eq!(tags.len(), 2);
    assert!(matches!(tags[0].target, XattrTarget::Socket));
    assert_eq!(tags[0].name, VARLINK_XATTR);
    assert_eq!(tags[0].value, b"listen");
    assert!(matches!(tags[1].target, XattrTarget::Inode(b"/run/test.sock")));
    assert_eq!(tags[1].name, "user.varlink");
    assert_eq!(tags[1].value, b"entrypoint");

    assert!(listener.tags(Platform::Linux, false).is_empty());
    for platform in [Platform::Android, Platform::Apple, Platform::Other] {
        assert!(listener.tags(platform, true).is_empty());
    }

    assert!(matches!(listener.set_xattr("user.a", b"b", None), XattrStep::Probe));
    assert!(matches!(
        listener.set_xattr("user.a", b"b", Some(false)),
        XattrStep::Refuse(Refusal::XattrsUnsupported)
    ));
    match listener.set_xattr("user.a", b"b", Some(true)) {
        XattrStep::Write(write) => {
            assert!(matches!(write.target, XattrTarget::Inode(b"/run/test.sock")));
            assert_eq!(write.name, "user.a");
            assert_eq!(write.value, b"b");
        }
        step => panic!("unexpected step: {step:?}"),
    }
}

#[test]
fn failed_bind_is_reported() {
    assert_eq!(bind::<u8, _>(b"/run/test.sock", Err(98)).unwrap_err(), 98);
}

use rustix::fd::OwnedFd;
use rustix::fs::{Mode, XattrFlags};
use rustix::net::{
    accept, connect, listen, socket_with, socketpair, AddressFamily, SocketAddrUnix, SocketFlags,
    SocketType,
};
use zlink_unix::error::{Errno, ErrnoName, Error, ErrorKind, Refusal};
use zlink_unix::platform::Platform;
use zlink_unix::server::listener::Listener as _;
use zlink_unix::unix::listener::{bind, Listener};
use zlink_unix::unix::setup::{Origin, Setup, SetupStep};
use zlink_unix::unix_utils::xattr::{
    is_absolute, read_fxattr, read_lxattr, set_entrypoint_xattr, socket_xattr_supported, tag_listener,
    tag_socket, ProbeAction, ProbeEvent, SocketRole, XattrStep, XattrTarget, XattrWrite,
    VARLINK_XATTR, XATTR_BUFFER_SIZE,
};

fn errno(error: rustix::io::Errno) -> Errno {
    Errno::from_raw_os_error(error.raw_os_error())
}

fn stream_socket() -> OwnedFd {
    socket_with(AddressFamily::UNIX, SocketType::STREAM, SocketFlags::CLOEXEC, None).unwrap()
}

fn write(fd: &OwnedFd, write: &XattrWrite<'_>) -> rustix::io::Result<()> {
    match write.target {
        XattrTarget::Socket => {
            rustix::fs::fsetxattr(fd, write.name, write.value, XattrFlags::empty())
        }
        XattrTarget::Inode(path) => {
            rustix::fs::lsetxattr(path, write.name, write.value, XattrFlags::empty())
        }
    }
}

fn supported() -> bool {
    let mut probe = None;
    let mut action = socket_xattr_supported(ProbeEvent::Cached(None));
    loop {
        match action {
            ProbeAction::CreateSocket => {
                let created = socket_with(
                    AddressFamily::UNIX,
                    SocketType::DGRAM,
                    SocketFlags::CLOEXEC,
                    None,
                );
                let event = match created {
                    Ok(fd) => {
                        probe = Some(fd);
                        Ok(())
                    }
                    Err(error) => Err(errno(error)),
                };
                action = socket_xattr_supported(ProbeEvent::SocketCreated(event));
            }
            ProbeAction::Write(attribute) => {
                let written = write(probe.as_ref().unwrap(), &attribute).map_err(errno);
                action = socket_xattr_supported(ProbeEvent::Written(written));
            }
            ProbeAction::Answer { supported, .. } => return supported,
        }
    }
}

fn tag(fd: &OwnedFd, role: SocketRole) {
    if let Some(attribute) = tag_socket(supported(), role) {
        let _ = write(fd, &attribute);
    }
}

fn tag_all(fd: &OwnedFd, path: Option<&[u8]>) {
    for attribute in tag_listener(supported(), path) {
        let _ = write(fd, &attribute);
    }
}

fn finish(fd: &OwnedFd, step: XattrStep<'_>) -> Result<(), ErrorKind> {
    match step {
        XattrStep::Refuse(refusal) => Err(refusal.kind()),
        XattrStep::Probe => panic!("the kernel has been probed"),
        XattrStep::Write(attribute) => write(fd, &attribute).map_err(|_| ErrorKind::Other),
    }
}

fn set_entrypoint(
    fd: &OwnedFd,
    path: &[u8],
    name: &str,
    value: &[u8],
) -> Result<(), ErrorKind> {
    match set_entrypoint_xattr(path, name, value, None) {
        XattrStep::Probe => {
            finish(fd, set_entrypoint_xattr(path, name, value, Some(supported())))
        }
        step => finish(fd, step),
    }
}

fn set_listener_xattr(
    listener: &Listener<OwnedFd>,
    name: &str,
    value: &[u8],
) -> Result<(), ErrorKind> {
    match listener.set_xattr(name, value, None) {
        XattrStep::Probe => {
            finish(listener.get_ref(), listener.set_xattr(name, value, Some(supported())))
        }
        step => finish(listener.get_ref(), step),
    }
}

fn fxattr(fd: &OwnedFd, name: &str) -> Result<Vec<u8>, Error> {
    let mut buf = [0u8; XATTR_BUFFER_SIZE];
    let read = rustix::fs::fgetxattr(fd, name, &mut buf).map_err(errno);
    read_fxattr(&buf, read)
}

fn lxattr(path: &str, name: &str) -> Result<Vec<u8>, Error> {
    let mut buf = [0u8; XATTR_BUFFER_SIZE];
    let read = rustix::fs::lgetxattr(path, name, &mut buf).map_err(errno);
    read_lxattr(&buf, read)
}

/// A directory that is there for the time of a test.
struct TempDir(String);

impl TempDir {
    fn new(name: &str) -> Self {
        let path = format!("/tmp/zlink-{}-{name}", rustix::process::getpid().as_raw_pid());
        rustix::fs::mkdir(path.as_str(), Mode::RWXU).unwrap();
        TempDir(path)
    }

    fn join(&self, name: &str) -> String {
        format!("{}/{name}", self.0)
    }
}

impl Drop for TempDir {
    fn drop(&mut self) {
        for name in ["test.sock", "roles.sock", "adopted.sock", "custom.sock", "relative.sock"] {
            let _ = rustix::fs::unlink(self.join(name).as_str());
        }
        let _ = rustix::fs::rmdir(self.0.as_str());
    }
}

fn listening_at(path: &str) -> rustix::io::Result<OwnedFd> {
    let socket = stream_socket();
    rustix::net::bind(&socket, &SocketAddrUnix::new(path)?)?;
    listen(&socket, 8)?;
    Ok(socket)
}

fn bind_at(path: &str) -> Listener<OwnedFd> {
    let listener = bind(path.as_bytes(), listening_at(path)).unwrap();
    for attribute in listener.tags(Platform::Linux, supported()) {
        let _ = write(listener.get_ref(), &attribute);
    }
    listener
}

/// Makes a stream ready, as a runtime that blocks.
fn set_up(origin: Origin, path: &str, listener: &OwnedFd) -> OwnedFd {
    let mut setup = Setup::new(origin, Platform::Linux);
    let mut stream = None;
    while let Some(step) = setup.current() {
        let outcome = match step {
            SetupStep::Connect => {
                let socket = stream_socket();
                let connected = connect(&socket, &SocketAddrUnix::new(path).unwrap());
                stream = Some(socket);
                connected
            }
            SetupStep::Accept => {
                stream = Some(accept(listener).unwrap());
                Ok(())
            }
            SetupStep::Tag(role) => {
                tag(stream.as_ref().unwrap(), role);
                Ok(())
            }
            SetupStep::EnablePasscred => {
                rustix::net::sockopt::set_socket_passcred(stream.as_ref().unwrap(), true)
            }
            step => panic!("unexpected step: {step:?}"),
        };
        setup.advance(outcome).unwrap();
    }
    stream.unwrap()
}

#[test]
fn socket_role_tags_round_trip() {
    let (a, b) =
        socketpair(AddressFamily::UNIX, SocketType::STREAM, SocketFlags::CLOEXEC, None).unwrap();
    tag(&a, SocketRole::Client);
    tag(&b, SocketRole::Server);

    let a_value = fxattr(&a, VARLINK_XATTR);
    let b_value = fxattr(&b, VARLINK_XATTR);

    if supported() {
        assert_eq!(a_value.unwrap(), b"client");
        assert_eq!(b_value.unwrap(), b"server");
    } else {
        assert!(a_value.is_err());
        assert!(b_value.is_err());
    }
}

#[test]
fn listener_tags_round_trip() {
    let dir = TempDir::new("listener_tags");
    let path = dir.join("test.sock");
    let listener = listening_at(&path).unwrap();
    tag_all(&listener, Some(path.as_bytes()));

    let listen_value = fxattr(&listener, VARLINK_XATTR);
    let entrypoint_value = lxattr(&path, VARLINK_XATTR);

    if supported() {
        assert_eq!(listen_value.unwrap(), b"listen");
        assert_eq!(entrypoint_value.unwrap(), b"entrypoint");
    } else {
        assert!(listen_value.is_err());
        assert!(entrypoint_value.is_err());
    }
}

#[test]
fn listener_without_path_tags_only_the_socket() {
    let name = format!(
        "zlink-{}-listener_without_path_tags_only_the_socket",
        rustix::process::getpid().as_raw_pid()
    );
    let addr = SocketAddrUnix::new_abstract_name(name.as_bytes()).unwrap();
    let listener = stream_socket();
    rustix::net::bind(&listener, &addr).unwrap();
    listen(&listener, 8).unwrap();

    // There is no inode to tag; only the socket itself gets a role.
    tag_all(&listener, None);

    let listen_value = fxattr(&listener, VARLINK_XATTR);
    if supported() {
        assert_eq!(listen_value.unwrap(), b"listen");
    } else {
        assert!(listen_value.is_err());
    }
}

#[test]
fn relative_path_is_never_used() {
    let dir = TempDir::new("relative_path");
    let path = dir.join("test.sock");
    let listener = listening_at(&path).unwrap();

    // The inode exists, but a relative path could resolve elsewhere by the time it is used,
    // so neither helper touches the file system with one.
    tag_all(&listener, Some(b"test.sock"));
    assert!(lxattr(&path, VARLINK_XATTR).is_err());

    let kind = set_entrypoint(&listener, b"test.sock", "user.zlink.test", b"1").unwrap_err();
    assert_eq!(kind, ErrorKind::InvalidInput);
}

#[test]
fn set_entrypoint_xattr_round_trip() {
    let dir = TempDir::new("set_entrypoint");
    let path = dir.join("test.sock");
    let listener = listening_at(&path).unwrap();

    let result = set_entrypoint(&listener, path.as_bytes(), "user.zlink.test", b"1");

    if supported() {
        result.unwrap();
        assert_eq!(lxattr(&path, "user.zlink.test").unwrap(), b"1");
    } else {
        assert_eq!(result.unwrap_err(), ErrorKind::Unsupported);
    }
}

#[test]
fn sockets_carry_varlink_role() {
    let temp_dir = TempDir::new("roles");
    let socket_path = temp_dir.join("roles.sock");

    let listener = bind_at(&socket_path);
    let client = set_up(Origin::Connect, &socket_path, listener.get_ref());
    let accepted = set_up(Origin::Accept, &socket_path, listener.get_ref());

    let listener_value = fxattr(listener.get_ref(), VARLINK_XATTR);
    let path_value = lxattr(&socket_path, VARLINK_XATTR);
    let client_value = fxattr(&client, VARLINK_XATTR);
    let accepted_value = fxattr(&accepted, VARLINK_XATTR);

    if supported() {
        assert_eq!(listener_value.unwrap(), b"listen");
        assert_eq!(path_value.unwrap(), b"entrypoint");
        assert_eq!(client_value.unwrap(), b"client");
        assert_eq!(accepted_value.unwrap(), b"server");
    } else {
        assert!(listener_value.is_err());
        assert!(path_value.is_err());
        assert!(client_value.is_err());
        assert!(accepted_value.is_err());
    }
}

#[test]
fn adopted_listener_tags_only_the_socket() {
    let temp_dir = TempDir::new("adopted");
    let socket_path = temp_dir.join("adopted.sock");

    let listener = Listener::new(listening_at(&socket_path).unwrap(), None);
    for attribute in listener.tags(Platform::Linux, supported()) {
        let _ = write(listener.get_ref(), &attribute);
    }

    let listener_value = fxattr(listener.get_ref(), VARLINK_XATTR);
    if supported() {
        assert_eq!(listener_value.unwrap(), b"listen");
    } else {
        assert!(listener_value.is_err());
    }
    // The path the socket was bound to is not known, so the inode is left alone.
    assert!(lxattr(&socket_path, VARLINK_XATTR).is_err());
}

#[test]
fn set_xattr_on_entrypoint() {
    let temp_dir = TempDir::new("custom");
    let socket_path = temp_dir.join("custom.sock");

    let listener = bind_at(&socket_path);
    let result = set_listener_xattr(&listener, "user.zlink.test", b"1");

    if supported() {
        result.unwrap();
        assert_eq!(lxattr(&socket_path, "user.zlink.test").unwrap(), b"1");
    } else {
        assert_eq!(result.unwrap_err(), ErrorKind::Unsupported);
    }
}

#[test]
fn relative_bind_path_is_never_used_for_xattrs() {
    let bind_dir = TempDir::new("bind");
    let other_dir = TempDir::new("other");
    let original_dir = rustix::process::getcwd(Vec::new()).unwrap();

    rustix::process::chdir(bind_dir.0.as_str()).unwrap();
    let listener = bind_at("relative.sock");
    // A regular file where a naive relative lookup would land after the directory change. It
    // accepts `user.*` attributes on every kernel, so it would expose a misdirected write.
    rustix::process::chdir(other_dir.0.as_str()).unwrap();
    let decoy = other_dir.join("relative.sock");
    let _file = rustix::fs::open(
        decoy.as_str(),
        rustix::fs::OFlags::CREATE | rustix::fs::OFlags::WRONLY,
        Mode::RUSR | Mode::WUSR,
    )
    .unwrap();

    let result = set_listener_xattr(&listener, "user.zlink.test", b"1");
    rustix::process::chdir(original_dir.as_c_str()).unwrap();

    // A relative path is not trusted at all: the socket inode is not tagged, no attribute is
    // written anywhere and the caller learns why.
    assert!(lxattr(&bind_dir.join("relative.sock"), VARLINK_XATTR).is_err());
    assert!(lxattr(&decoy, "user.zlink.test").is_err());
    assert_eq!(result.unwrap_err(), ErrorKind::InvalidInput);
}

#[test]
fn set_xattr_on_adopted_listener_fails() {
    let temp_dir = TempDir::new("adopted_fails");
    let socket_path = temp_dir.join("adopted.sock");

    let listener = Listener::new(listening_at(&socket_path).unwrap(), None);

    assert_eq!(
        set_listener_xattr(&listener, "user.zlink.test", b"1").unwrap_err(),
        ErrorKind::InvalidInput
    );
}

#[test]
fn roles_are_spelled_out() {
    assert_eq!(SocketRole::Client.as_str(), "client");
    assert_eq!(SocketRole::Server.as_str(), "server");
    assert_eq!(SocketRole::Listen.as_str(), "listen");
    for role in [SocketRole::Client, SocketRole::Server, SocketRole::Listen] {
        assert!(tag_socket(false, role).is_none());
        let attribute = tag_socket(true, role).unwrap();
        assert!(matches!(attribute.target, XattrTarget::Socket));
        assert_eq!(attribute.name, "user.varlink");
        assert_eq!(attribute.value, role.as_str().as_bytes());
        assert!(attribute.value.len() <= XATTR_BUFFER_SIZE);
    }
}

#[test]
fn absolute_paths() {
    assert!(is_absolute(b"/"));
    assert!(is_absolute(b"/run/a.sock"));
    assert!(!is_absolute(b""));
    assert!(!is_absolute(b"a.sock"));
    assert!(!is_absolute(b"./a.sock"));
    assert!(!is_absolute(b"run/a.sock"));
}

#[test]
fn refused_before_probing() {
    for supported in [None, Some(false), Some(true)] {
        assert!(matches!(
            set_entrypoint_xattr(b"a.sock", "user.a", b"b", supported),
            XattrStep::Refuse(Refusal::EntrypointUnknown)
        ));
    }
    assert!(matches!(
        set_entrypoint_xattr(b"/a.sock", "user.a", b"b", None),
        XattrStep::Probe
    ));
}

#[test]
fn probe_verdicts() {
    let answer = |event| match socket_xattr_supported(event) {
        ProbeAction::Answer { supported, remember } => (supported, remember),
        action => panic!("unexpected action: {action:?}"),
    };
    let failure = |name| Err(Errno { raw: 5, name });

    assert_eq!(answer(ProbeEvent::Cached(Some(true))), (true, false));
    assert_eq!(answer(ProbeEvent::Cached(Some(false))), (false, false));
    assert!(matches!(
        socket_xattr_supported(ProbeEvent::Cached(None)),
        ProbeAction::CreateSocket
    ));
    assert_eq!(
        answer(ProbeEvent::SocketCreated(failure(ErrnoName::Perm))),
        (false, false)
    );
    match socket_xattr_supported(ProbeEvent::SocketCreated(Ok(()))) {
        ProbeAction::Write(attribute) => {
            assert!(matches!(attribute.target, XattrTarget::Socket));
            assert_eq!(attribute.name, "user.zlink.probe");
            assert_eq!(attribute.value, b"1");
        }
        action => panic!("unexpected action: {action:?}"),
    }
    assert_eq!(answer(ProbeEvent::Written(Ok(()))), (true, true));
    for name in [ErrnoName::Perm, ErrnoName::OpNotSupp, ErrnoName::NoSys] {
        assert_eq!(answer(ProbeEvent::Written(failure(name))), (false, true));
    }
    for name in [ErrnoName::Range, ErrnoName::NoProtoOpt, ErrnoName::Other] {
        assert_eq!(answer(ProbeEvent::Written(failure(name))), (false, false));
    }
}

#[test]
fn attribute_values_are_cut_to_size() {
    let failed = Errno { raw: 61, name: ErrnoName::Other };
    for read in [read_fxattr, read_lxattr] {
        assert_eq!(read(b"client\0\0", Ok(6)).unwrap(), b"client");
        assert_eq!(read(b"client", Ok(6)).unwrap(), b"client");
        assert_eq!(read(b"client", Ok(0)).unwrap(), b"");
        assert_eq!(read(b"client", Err(failed)), Err(Error::Os(failed)));
    }
}

#[test]
fn regular_files_keep_attributes() {
    let dir = TempDir::new("regular");
    let path = dir.join("test.sock");
    let file = rustix::fs::open(
        path.as_str(),
        rustix::fs::OFlags::CREATE | rustix::fs::OFlags::RDWR,
        Mode::RUSR | Mode::WUSR,
    )
    .unwrap();

    // Unlike sockets, regular files take attributes on most file systems.
    for attribute in tag_listener(true, Some(path.as_bytes())) {
        if write(&file, &attribute).is_ok() {
            assert_eq!(fxattr(&file, VARLINK_XATTR).unwrap(), attribute.value);
            assert_eq!(lxattr(&path, VARLINK_XATTR).unwrap(), attribute.value);
        }
    }

    // A new tag replaces the old one, and the same tag again changes nothing.
    for role in [SocketRole::Client, SocketRole::Server, SocketRole::Server] {
        let attribute = tag_socket(true, role).unwrap();
        if write(&file, &attribute).is_ok() {
            assert_eq!(fxattr(&file, VARLINK_XATTR).unwrap(), role.as_str().as_bytes());
        }
    }

    // What is set is read back, up to the size of the buffer.
    for value in [&b"1"[..], &b"another"[..], &[7; XATTR_BUFFER_SIZE][..]] {
        match set_entrypoint_xattr(path.as_bytes(), "user.zlink.test", value, Some(true)) {
            XattrStep::Write(attribute) => {
                if write(&file, &attribute).is_ok() {
                    assert_eq!(lxattr(&path, "user.zlink.test").unwrap(), value);
                }
            }
            step => panic!("unexpected step: {step:?}"),
        }
    }
}

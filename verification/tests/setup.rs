use rustix::fs::{fcntl_getfl, OFlags};
use rustix::io::ioctl_fionbio;
use rustix::net::{socketpair, sockopt, AddressFamily, SocketFlags, SocketType};
use zlink_unix::platform::Platform;
use zlink_unix::unix::setup::{Origin, Setup, SetupStep};
use zlink_unix::unix_utils::xattr::SocketRole;

fn steps(origin: Origin, platform: Platform) -> Vec<SetupStep> {
    let mut setup = Setup::new(origin, platform);
    let mut steps = Vec::new();
    while let Some(step) = setup.current() {
        steps.push(step);
        setup.advance::<()>(Ok(())).unwrap();
    }
    steps
}

#[test]
fn steps_of_every_origin() {
    assert_eq!(
        steps(Origin::Connect, Platform::Linux),
        [
            SetupStep::Connect,
            SetupStep::Tag(SocketRole::Client),
            SetupStep::EnablePasscred
        ]
    );
    assert_eq!(
        steps(Origin::Accept, Platform::Linux),
        [
            SetupStep::Accept,
            SetupStep::Tag(SocketRole::Server),
            SetupStep::EnablePasscred
        ]
    );
    assert_eq!(steps(Origin::WrapStream, Platform::Linux), [SetupStep::EnablePasscred]);
    assert_eq!(
        steps(Origin::AdoptStream, Platform::Linux),
        [SetupStep::SetNonblocking, SetupStep::Register, SetupStep::EnablePasscred]
    );
    assert_eq!(
        steps(Origin::AdoptListener, Platform::Linux),
        [SetupStep::SetNonblocking, SetupStep::Register]
    );
}

#[test]
fn steps_elsewhere_than_on_linux() {
    for platform in [
        Platform::Android,
        Platform::Apple,
        Platform::OpenBsd,
        Platform::NetBsd,
        Platform::FreeBsd,
        Platform::Other,
    ] {
        assert_eq!(steps(Origin::Connect, platform), [SetupStep::Connect]);
        assert_eq!(steps(Origin::Accept, platform), [SetupStep::Accept]);
        assert!(steps(Origin::WrapStream, platform).is_empty());
        for origin in [Origin::AdoptStream, Origin::AdoptListener] {
            assert_eq!(
                steps(origin, platform),
                [SetupStep::SetNonblocking, SetupStep::Register]
            );
        }
    }
}

#[test]
fn failed_tag_does_not_matter() {
    let mut setup = Setup::new(Origin::Connect, Platform::Linux);
    setup.advance::<&str>(Ok(())).unwrap();
    assert_eq!(setup.current(), Some(SetupStep::Tag(SocketRole::Client)));
    setup.advance(Err("no attributes here")).unwrap();
    assert_eq!(setup.current(), Some(SetupStep::EnablePasscred));
    assert_eq!(setup.advance(Err("denied")), Err("denied"));
    assert_eq!(setup.current(), Some(SetupStep::EnablePasscred));
}

#[test]
fn failed_connect_is_reported() {
    let mut setup = Setup::new(Origin::Connect, Platform::Linux);
    assert_eq!(setup.advance(Err("refused")), Err("refused"));
}

#[test]
fn adopted_stream_is_nonblocking_and_gets_credentials() {
    let (stream, _peer) = socketpair(
        AddressFamily::UNIX,
        SocketType::STREAM,
        SocketFlags::CLOEXEC,
        None,
    )
    .unwrap();
    assert!(!fcntl_getfl(&stream).unwrap().contains(OFlags::NONBLOCK));

    let mut setup = Setup::new(Origin::AdoptStream, Platform::Linux);
    while let Some(step) = setup.current() {
        let outcome = match step {
            SetupStep::SetNonblocking => ioctl_fionbio(&stream, true),
            SetupStep::EnablePasscred => sockopt::set_socket_passcred(&stream, true),
            SetupStep::Register => Ok(()),
            step => panic!("unexpected step: {step:?}"),
        };
        setup.advance(outcome).unwrap();
    }

    assert!(fcntl_getfl(&stream).unwrap().contains(OFlags::NONBLOCK));
    assert!(sockopt::socket_passcred(&stream).unwrap());
}

use zlink_unix::error::{Errno, ErrnoName, Error, Refusal};
use zlink_unix::platform::Platform;
use zlink_unix::unix_utils::credentials::{
    get_peer_credentials, peer_groups, Credentials, GroupsStep, PassedCredentials, PeerQuery,
    PeerReply, PeerStep, MAX_GROUPS,
};

const RANGE: Errno = Errno { raw: 34, name: ErrnoName::Range };
const NO_PROTO_OPT: Errno = Errno { raw: 92, name: ErrnoName::NoProtoOpt };
const BAD_FD: Errno = Errno { raw: 9, name: ErrnoName::Other };

/// A Linux kernel with one connection.
struct Kernel {
    passed: PassedCredentials,
    groups: Vec<u32>,
    pidfd: Result<i32, Errno>,
    questions: usize,
}

impl Kernel {
    fn reply(&mut self, query: &PeerQuery) -> PeerReply {
        self.questions += 1;
        match query {
            PeerQuery::PeerCred { .. } => PeerReply::PeerCred(Ok(self.passed)),
            PeerQuery::PeerGroups { capacity, .. } => {
                let mut buffer = vec![u32::MAX; *capacity as usize];
                let len = 4 * self.groups.len() as u32;
                if self.groups.len() > buffer.len() {
                    return PeerReply::PeerGroups { status: Err(RANGE), len, buffer };
                }
                buffer[..self.groups.len()].copy_from_slice(&self.groups);
                PeerReply::PeerGroups { status: Ok(()), len, buffer }
            }
            PeerQuery::PeerPidFd { .. } => match self.pidfd {
                Ok(fd) => PeerReply::PeerPidFd { status: Ok(()), fd, len: 4 },
                Err(errno) => PeerReply::PeerPidFd { status: Err(errno), fd: 0, len: 4 },
            },
            query => panic!("unexpected question: {query:?}"),
        }
    }

    fn ask(&mut self) -> Result<Credentials, Error> {
        let mut step = get_peer_credentials(Platform::Linux);
        loop {
            match step {
                PeerStep::Ask(query) => {
                    let reply = self.reply(&query);
                    step = query.answer(reply);
                }
                PeerStep::Done(result) => return result,
            }
        }
    }
}

fn kernel(groups: u32) -> Kernel {
    Kernel {
        passed: PassedCredentials::new(1000, 100, 4321),
        groups: (0..groups).map(|group| 7 * group).collect(),
        pidfd: Ok(17),
        questions: 0,
    }
}

#[test]
fn linux_credentials() {
    let mut kernel = kernel(3);
    let credentials = kernel.ask().unwrap();
    assert_eq!(credentials.passed.unix_user_id(), 1000);
    assert_eq!(credentials.passed.unix_primary_group_id(), 100);
    assert_eq!(credentials.passed.process_id(), 4321);
    assert_eq!(credentials.supplementary_gids, [0, 7, 14]);
    assert_eq!(credentials.process_fd, Some(17));
    assert_eq!(kernel.questions, 3);
}

#[test]
fn any_number_of_groups_is_found() {
    for (count, questions) in [(0, 3), (128, 3), (129, 4), (200, 4), (257, 4), (1000, 4), (65536, 4)]
    {
        let mut kernel = kernel(count);
        let credentials = kernel.ask().unwrap();
        assert_eq!(credentials.supplementary_gids, kernel.groups);
        assert_eq!(kernel.questions, questions, "{count} groups");
    }
}

#[test]
fn kernel_without_process_descriptors() {
    let mut kernel = kernel(1);
    kernel.pidfd = Err(NO_PROTO_OPT);
    assert_eq!(kernel.ask().unwrap().process_fd, None);
    kernel.pidfd = Err(BAD_FD);
    assert_eq!(kernel.ask().unwrap_err(), Error::Os(BAD_FD));
}

#[test]
fn group_replies() {
    match peer_groups(Ok(()), 8, vec![1, 2, 3, 4]) {
        GroupsStep::Done(groups) => assert_eq!(groups, [1, 2]),
        step => panic!("unexpected step: {step:?}"),
    }
    assert!(matches!(
        peer_groups(Err(RANGE), 20, vec![0; 4]),
        GroupsStep::Retry { capacity: 8 }
    ));
    assert!(matches!(
        peer_groups(Err(RANGE), 40, vec![0; 4]),
        GroupsStep::Retry { capacity: 10 }
    ));
    assert!(matches!(
        peer_groups(Err(RANGE), u32::MAX, vec![0; 4]),
        GroupsStep::Retry { capacity: MAX_GROUPS }
    ));
    assert!(matches!(
        peer_groups(Err(BAD_FD), 8, vec![0; 4]),
        GroupsStep::Failed(BAD_FD)
    ));
}

fn ask(platform: Platform, replies: Vec<PeerReply>) -> Result<Credentials, Error> {
    let mut step = get_peer_credentials(platform);
    for reply in replies {
        match step {
            PeerStep::Ask(query) => step = query.answer(reply),
            PeerStep::Done(_) => panic!("over too early"),
        }
    }
    match step {
        PeerStep::Done(result) => result,
        PeerStep::Ask(query) => panic!("not over: {query:?}"),
    }
}

#[test]
fn credentials_on_other_platforms() {
    let passed = PassedCredentials::new(5, 6, 7);
    let android = ask(Platform::Android, vec![PeerReply::PeerCred(Ok(passed))]).unwrap();
    assert_eq!(android.passed, passed);
    assert_eq!(android.process_fd, None);

    for platform in [Platform::Apple, Platform::OpenBsd, Platform::NetBsd] {
        let replies = vec![PeerReply::PeerEid(Ok((5, 6))), PeerReply::PeerPid(Ok(7))];
        assert_eq!(ask(platform, replies).unwrap().passed, passed);

        let replies = vec![PeerReply::PeerEid(Ok((5, 6))), PeerReply::PeerPid(Ok(0))];
        assert_eq!(
            ask(platform, replies).unwrap_err(),
            Error::Refused(Refusal::InvalidPeerPid)
        );

        let replies = vec![PeerReply::PeerEid(Ok((5, 6))), PeerReply::PeerPid(Err(BAD_FD))];
        assert_eq!(ask(platform, replies).unwrap_err(), Error::Os(BAD_FD));

        let replies = vec![PeerReply::PeerEid(Err(BAD_FD))];
        assert_eq!(ask(platform, replies).unwrap_err(), Error::Os(BAD_FD));
    }

    let freebsd = ask(Platform::FreeBsd, vec![PeerReply::PeerEid(Ok((5, 6)))]).unwrap();
    assert_eq!(freebsd.passed, PassedCredentials::new(5, 6, 0));

    assert_eq!(
        ask(Platform::Other, vec![]).unwrap_err(),
        Error::Refused(Refusal::PeerCredentialsUnsupported)
    );
}

#[test]
fn failed_peer_cred_is_reported() {
    for platform in [Platform::Linux, Platform::Android] {
        let replies = vec![PeerReply::PeerCred(Err(BAD_FD))];
        assert_eq!(ask(platform, replies).unwrap_err(), Error::Os(BAD_FD));
    }
}

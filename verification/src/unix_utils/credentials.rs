//! Peer credentials: who is at the other end of a Unix socket.
//!
//! No platform tells it in one call. [`get_peer_credentials`] begins the questioning, each
//! [`PeerQuery`] names one question, and [`PeerQuery::answer`] takes the kernel's reply to the
//! next question or to the result.

use vstd::prelude::*;

use crate::error::{Errno, ErrnoName, Error, Refusal};
use crate::platform::Platform;

verus! {

/// The credentials that travel with a message, or that the kernel keeps for a connection.
#[derive(Debug, Clone, Copy, PartialEq, Eq, Structural)]
pub struct PassedCredentials {
    pub uid: u32,
    pub gid: u32,
    pub pid: i32,
}

impl PassedCredentials {
    /// Credentials of the process `pid`, run by the user `uid` in the group `gid`.
    pub fn new(uid: u32, gid: u32, pid: i32) -> (credentials: Self)
        ensures
            credentials == (PassedCredentials { uid, gid, pid }),
    {
        PassedCredentials { uid, gid, pid }
    }

    /// The user ID.
    pub fn unix_user_id(&self) -> (uid: u32)
        ensures
            uid == self.uid,
    {
        self.uid
    }

    /// The primary group ID.
    pub fn unix_primary_group_id(&self) -> (gid: u32)
        ensures
            gid == self.gid,
    {
        self.gid
    }

    /// The process ID.
    pub fn process_id(&self) -> (pid: i32)
        ensures
            pid == self.pid,
    {
        self.pid
    }
}

/// All that is known of a peer.
#[derive(Debug)]
pub struct Credentials {
    pub passed: PassedCredentials,
    /// The peer's supplementary groups; empty where the platform does not tell.
    pub supplementary_gids: Vec<u32>,
    /// A file descriptor for the peer's process, where the kernel gives one.
    pub process_fd: Option<i32>,
}

/// The mathematical value of [`Credentials`].
#[verifier::ext_equal]
pub struct CredentialsView {
    pub passed: PassedCredentials,
    pub supplementary_gids: Seq<u32>,
    pub process_fd: Option<i32>,
}

impl View for Credentials {
    type V = CredentialsView;

    open spec fn view(&self) -> CredentialsView {
        CredentialsView {
            passed: self.passed,
            supplementary_gids: self.supplementary_gids@,
            process_fd: self.process_fd,
        }
    }
}

/// How many supplementary groups the first question makes room for.
///
/// Linux goes up to 65536 groups, but most users have a couple.
pub const INITIAL_NUMBER_SUPPLEMENTARY_GROUPS: u32 = 128;

/// The size of a group ID in bytes.
pub const GID_SIZE: u32 = 4;

/// The most groups whose size in bytes is a `u32`.
pub const MAX_GROUPS: u32 = 0x3fff_ffff;

/// The size in bytes of a process file descriptor.
pub const PIDFD_SIZE: u32 = 4;

/// What a reply to the `SO_PEERGROUPS` question comes to.
#[derive(Debug)]
pub enum GroupsStep {
    /// These are the groups.
    Done(Vec<u32>),
    /// Ask again, with room for this many groups.
    Retry { capacity: u32 },
    /// The question failed.
    Failed(Errno),
}

/// The mathematical value of [`GroupsStep`].
#[verifier::ext_equal]
pub enum GroupsStepView {
    Done(Seq<u32>),
    Retry { capacity: u32 },
    Failed(Errno),
}

impl View for GroupsStep {
    type V = GroupsStepView;

    open spec fn view(&self) -> GroupsStepView {
        match self {
            GroupsStep::Done(groups) => GroupsStepView::Done(groups@),
            GroupsStep::Retry { capacity } => GroupsStepView::Retry { capacity: *capacity },
            GroupsStep::Failed(errno) => GroupsStepView::Failed(*errno),
        }
    }
}

/// The room to ask with again when `needed` groups did not fit in `capacity`: enough for them,
/// and at least twice what it was, up to the most that can be asked for.
pub open spec fn grown_capacity(capacity: int, needed: int) -> int {
    let doubled = if 2 * capacity > MAX_GROUPS { MAX_GROUPS as int } else { 2 * capacity };
    if needed > doubled { needed } else { doubled }
}

/// What a reply to the `SO_PEERGROUPS` question comes to.
///
/// The question was asked with room for `buffer.len()` groups. A failure other than `ERANGE` ends
/// it. Otherwise `len` bytes is the size of the whole list: if it fits, the front of the buffer is
/// the answer, and if not, the question is asked again with more room.
pub open spec fn groups_step(
    status: Result<(), Errno>,
    len: u32,
    buffer: Seq<u32>,
) -> GroupsStepView {
    let needed = len as int / GID_SIZE as int;
    match status {
        Err(errno) if errno.name != ErrnoName::Range => GroupsStepView::Failed(errno),
        _ => if needed <= buffer.len() {
            GroupsStepView::Done(buffer.take(needed))
        } else {
            GroupsStepView::Retry { capacity: grown_capacity(buffer.len() as int, needed) as u32 }
        },
    }
}

/// Judges the reply to a `SO_PEERGROUPS` question that was asked with `buffer` to fill.
///
/// `len` is the length in bytes that the kernel stored beside the buffer.
pub fn peer_groups(status: Result<(), Errno>, len: u32, buffer: Vec<u32>) -> (step: GroupsStep)
    requires
        buffer@.len() <= MAX_GROUPS,
    ensures
        step@ == groups_step(status, len, buffer@),
        step matches GroupsStep::Done(groups) ==> groups@ == buffer@.subrange(0, len as int / 4),
{
    match status {
        Err(errno) => {
            if errno.name != ErrnoName::Range {
                return GroupsStep::Failed(errno);
            }
        },
        Ok(()) => {},
    }
    let needed: u32 = len / GID_SIZE;
    let capacity: u32 = buffer.len() as u32;
    if needed <= capacity {
        let mut groups = buffer;
        groups.truncate(needed as usize);
        proof {
            assert(groups@ == buffer@.take(needed as int));
        }
        GroupsStep::Done(groups)
    } else {
        let doubled: u32 = if capacity > MAX_GROUPS / 2 { MAX_GROUPS } else { 2 * capacity };
        GroupsStep::Retry { capacity: if needed > doubled { needed } else { doubled } }
    }
}

/// Calls `rustix::process::Pid::from_raw` and hands the ID back as a number.
///
/// Claimed: zero is no process ID, and a positive number stays as it is. A negative one is left
/// out, since `from_raw` asserts against it in debug builds.
#[verifier::external_body]
fn checked_pid(raw: i32) -> (pid: Option<i32>)
    requires
        raw >= 0,
    ensures
        pid == (if raw == 0 {
            None
        } else {
            Some(raw)
        }),
{
    rustix::process::Pid::from_raw(raw).map(rustix::process::Pid::as_raw_pid)
}

/// A question to the kernel about a peer, with what has been learnt so far.
#[derive(Debug)]
pub enum PeerQuery {
    /// `SO_PEERCRED` as Linux and Android have it.
    PeerCred { platform: Platform },
    /// `SO_PEERGROUPS`, with room for `capacity` groups.
    PeerGroups { passed: PassedCredentials, capacity: u32 },
    /// `SO_PEERPIDFD`.
    PeerPidFd { passed: PassedCredentials, supplementary_gids: Vec<u32> },
    /// `getpeereid()`.
    PeerEid { platform: Platform },
    /// The platform's socket option that holds the peer's process ID.
    PeerPid { uid: u32, gid: u32 },
}

/// The mathematical value of [`PeerQuery`].
#[verifier::ext_equal]
pub enum PeerQueryView {
    PeerCred { platform: Platform },
    PeerGroups { passed: PassedCredentials, capacity: u32 },
    PeerPidFd { passed: PassedCredentials, supplementary_gids: Seq<u32> },
    PeerEid { platform: Platform },
    PeerPid { uid: u32, gid: u32 },
}

impl View for PeerQuery {
    type V = PeerQueryView;

    open spec fn view(&self) -> PeerQueryView {
        match self {
            PeerQuery::PeerCred { platform } => PeerQueryView::PeerCred { platform: *platform },
            PeerQuery::PeerGroups { passed, capacity } =>
                PeerQueryView::PeerGroups { passed: *passed, capacity: *capacity },
            PeerQuery::PeerPidFd { passed, supplementary_gids } => PeerQueryView::PeerPidFd {
                passed: *passed,
                supplementary_gids: supplementary_gids@,
            },
            PeerQuery::PeerEid { platform } => PeerQueryView::PeerEid { platform: *platform },
            PeerQuery::PeerPid { uid, gid } => PeerQueryView::PeerPid { uid: *uid, gid: *gid },
        }
    }
}

/// The kernel's reply to a [`PeerQuery`].
#[derive(Debug)]
pub enum PeerReply {
    PeerCred(Result<PassedCredentials, Errno>),
    /// How the call went, the length in bytes that it stored, and the buffer that it was given.
    PeerGroups { status: Result<(), Errno>, len: u32, buffer: Vec<u32> },
    /// How the call went, the descriptor that it stored, and the length in bytes beside it.
    PeerPidFd { status: Result<(), Errno>, fd: i32, len: u32 },
    /// The effective user and group.
    PeerEid(Result<(u32, u32), Errno>),
    PeerPid(Result<i32, Errno>),
}

/// The mathematical value of [`PeerReply`].
#[verifier::ext_equal]
pub enum PeerReplyView {
    PeerCred(Result<PassedCredentials, Errno>),
    PeerGroups { status: Result<(), Errno>, len: u32, buffer: Seq<u32> },
    PeerPidFd { status: Result<(), Errno>, fd: i32, len: u32 },
    PeerEid(Result<(u32, u32), Errno>),
    PeerPid(Result<i32, Errno>),
}

impl View for PeerReply {
    type V = PeerReplyView;

    open spec fn view(&self) -> PeerReplyView {
        match self {
            PeerReply::PeerCred(reply) => PeerReplyView::PeerCred(*reply),
            PeerReply::PeerGroups { status, len, buffer } =>
                PeerReplyView::PeerGroups { status: *status, len: *len, buffer: buffer@ },
            PeerReply::PeerPidFd { status, fd, len } =>
                PeerReplyView::PeerPidFd { status: *status, fd: *fd, len: *len },
            PeerReply::PeerEid(reply) => PeerReplyView::PeerEid(*reply),
            PeerReply::PeerPid(reply) => PeerReplyView::PeerPid(*reply),
        }
    }
}

/// What to do next.
#[derive(Debug)]
pub enum PeerStep {
    /// Ask the kernel this.
    Ask(PeerQuery),
    /// The questioning is over.
    Done(Result<Credentials, Error>),
}

/// The mathematical value of [`PeerStep`].
#[verifier::ext_equal]
pub enum PeerStepView {
    Ask(PeerQueryView),
    Done(Result<CredentialsView, Error>),
}

impl View for PeerStep {
    type V = PeerStepView;

    open spec fn view(&self) -> PeerStepView {
        match self {
            PeerStep::Ask(query) => PeerStepView::Ask(query@),
            PeerStep::Done(Ok(credentials)) => PeerStepView::Done(Ok(credentials@)),
            PeerStep::Done(Err(error)) => PeerStepView::Done(Err(*error)),
        }
    }
}

/// Credentials of which nothing but the passed part is known.
pub open spec fn bare_credentials(passed: PassedCredentials) -> CredentialsView {
    CredentialsView { passed, supplementary_gids: Seq::empty(), process_fd: None }
}

/// The first question to ask on a platform.
pub open spec fn first_step(platform: Platform) -> PeerStepView {
    match platform {
        Platform::Linux | Platform::Android => PeerStepView::Ask(
            PeerQueryView::PeerCred { platform },
        ),
        Platform::Apple | Platform::OpenBsd | Platform::NetBsd | Platform::FreeBsd =>
            PeerStepView::Ask(PeerQueryView::PeerEid { platform }),
        Platform::Other => PeerStepView::Done(
            Err(Error::Refused(Refusal::PeerCredentialsUnsupported)),
        ),
    }
}

/// Whether `reply` is a reply that the kernel can give to `query`.
///
/// A buffer comes back with the length it was given with, a stored descriptor has the size of
/// one, and a process ID is not negative.
pub open spec fn is_reply_to(query: PeerQueryView, reply: PeerReplyView) -> bool {
    match (query, reply) {
        (PeerQueryView::PeerCred { .. }, PeerReplyView::PeerCred(_)) => true,
        (
            PeerQueryView::PeerGroups { capacity, .. },
            PeerReplyView::PeerGroups { buffer, .. },
        ) => buffer.len() == capacity && capacity <= MAX_GROUPS,
        (
            PeerQueryView::PeerPidFd { .. },
            PeerReplyView::PeerPidFd { status, len, .. },
        ) => status is Ok ==> len == PIDFD_SIZE,
        (PeerQueryView::PeerEid { .. }, PeerReplyView::PeerEid(_)) => true,
        (PeerQueryView::PeerPid { .. }, PeerReplyView::PeerPid(reply)) =>
            reply matches Ok(pid) ==> pid >= 0,
        _ => false,
    }
}

/// What a reply to a question leads to.
pub open spec fn next_step(query: PeerQueryView, reply: PeerReplyView) -> PeerStepView {
    match (query, reply) {
        (_, PeerReplyView::PeerCred(Err(errno))) => PeerStepView::Done(Err(Error::Os(errno))),
        (_, PeerReplyView::PeerEid(Err(errno))) => PeerStepView::Done(Err(Error::Os(errno))),
        (_, PeerReplyView::PeerPid(Err(errno))) => PeerStepView::Done(Err(Error::Os(errno))),
        (PeerQueryView::PeerCred { platform }, PeerReplyView::PeerCred(Ok(passed))) =>
            if platform == Platform::Linux {
                PeerStepView::Ask(
                    PeerQueryView::PeerGroups {
                        passed,
                        capacity: INITIAL_NUMBER_SUPPLEMENTARY_GROUPS,
                    },
                )
            } else {
                PeerStepView::Done(Ok(bare_credentials(passed)))
            },
        (
            PeerQueryView::PeerGroups { passed, .. },
            PeerReplyView::PeerGroups { status, len, buffer },
        ) => match groups_step(status, len, buffer) {
            GroupsStepView::Done(groups) => PeerStepView::Ask(
                PeerQueryView::PeerPidFd { passed, supplementary_gids: groups },
            ),
            GroupsStepView::Retry { capacity } => PeerStepView::Ask(
                PeerQueryView::PeerGroups { passed, capacity },
            ),
            GroupsStepView::Failed(errno) => PeerStepView::Done(Err(Error::Os(errno))),
        },
        (
            PeerQueryView::PeerPidFd { passed, supplementary_gids },
            PeerReplyView::PeerPidFd { status, fd, .. },
        ) => match status {
            Ok(()) => PeerStepView::Done(
                Ok(CredentialsView { passed, supplementary_gids, process_fd: Some(fd) }),
            ),
            Err(errno) => if errno.name == ErrnoName::NoProtoOpt {
                PeerStepView::Done(
                    Ok(CredentialsView { passed, supplementary_gids, process_fd: None }),
                )
            } else {
                PeerStepView::Done(Err(Error::Os(errno)))
            },
        },
        (PeerQueryView::PeerEid { platform }, PeerReplyView::PeerEid(Ok((uid, gid)))) =>
            if platform == Platform::FreeBsd {
                PeerStepView::Done(
                    Ok(bare_credentials(PassedCredentials { uid, gid, pid: 0 })),
                )
            } else {
                PeerStepView::Ask(PeerQueryView::PeerPid { uid, gid })
            },
        (PeerQueryView::PeerPid { uid, gid }, PeerReplyView::PeerPid(Ok(pid))) => if pid == 0 {
            PeerStepView::Done(Err(Error::Refused(Refusal::InvalidPeerPid)))
        } else {
            PeerStepView::Done(Ok(bare_credentials(PassedCredentials { uid, gid, pid })))
        },
        _ => arbitrary(),
    }
}

/// Begins to find out the credentials of the peer of a Unix socket.
pub fn get_peer_credentials(platform: Platform) -> (step: PeerStep)
    ensures
        step@ == first_step(platform),
{
    match platform {
        Platform::Linux | Platform::Android => PeerStep::Ask(PeerQuery::PeerCred { platform }),
        Platform::Apple | Platform::OpenBsd | Platform::NetBsd | Platform::FreeBsd =>
            PeerStep::Ask(PeerQuery::PeerEid { platform }),
        Platform::Other => PeerStep::Done(
            Err(Error::Refused(Refusal::PeerCredentialsUnsupported)),
        ),
    }
}

/// [`Credentials`] of which nothing but the passed part is known.
fn done_bare(passed: PassedCredentials) -> (step: PeerStep)
    ensures
        step@ == PeerStepView::Done(Ok(bare_credentials(passed))),
{
    PeerStep::Done(Ok(Credentials { passed, supplementary_gids: Vec::new(), process_fd: None }))
}

impl PeerQuery {
    /// Takes the kernel's reply to this question to what is to be done next.
    pub fn answer(self, reply: PeerReply) -> (step: PeerStep)
        requires
            is_reply_to(self@, reply@),
        ensures
            step@ == next_step(self@, reply@),
    {
        match (self, reply) {
            (_, PeerReply::PeerCred(Err(errno))) => PeerStep::Done(Err(Error::Os(errno))),
            (_, PeerReply::PeerEid(Err(errno))) => PeerStep::Done(Err(Error::Os(errno))),
            (_, PeerReply::PeerPid(Err(errno))) => PeerStep::Done(Err(Error::Os(errno))),
            (PeerQuery::PeerCred { platform }, PeerReply::PeerCred(Ok(passed))) => {
                if platform == Platform::Linux {
                    PeerStep::Ask(
                        PeerQuery::PeerGroups {
                            passed,
                            capacity: INITIAL_NUMBER_SUPPLEMENTARY_GROUPS,
                        },
                    )
                } else {
                    done_bare(passed)
                }
            },
            (
                PeerQuery::PeerGroups { passed, .. },
                PeerReply::PeerGroups { status, len, buffer },
            ) => match peer_groups(status, len, buffer) {
                GroupsStep::Done(groups) => PeerStep::Ask(
                    PeerQuery::PeerPidFd { passed, supplementary_gids: groups },
                ),
                GroupsStep::Retry { capacity } => PeerStep::Ask(
                    PeerQuery::PeerGroups { passed, capacity },
                ),
                GroupsStep::Failed(errno) => PeerStep::Done(Err(Error::Os(errno))),
            },
            (
                PeerQuery::PeerPidFd { passed, supplementary_gids },
                PeerReply::PeerPidFd { status, fd, .. },
            ) => match status {
                Ok(()) => PeerStep::Done(
                    Ok(Credentials { passed, supplementary_gids, process_fd: Some(fd) }),
                ),
                Err(errno) => {
                    if errno.name == ErrnoName::NoProtoOpt {
                        PeerStep::Done(
                            Ok(Credentials { passed, supplementary_gids, process_fd: None }),
                        )
                    } else {
                        PeerStep::Done(Err(Error::Os(errno)))
                    }
                },
            },
            (PeerQuery::PeerEid { platform }, PeerReply::PeerEid(Ok((uid, gid)))) => {
                if platform == Platform::FreeBsd {
                    done_bare(PassedCredentials { uid, gid, pid: 0 })
                } else {
                    PeerStep::Ask(PeerQuery::PeerPid { uid, gid })
                }
            },
            (PeerQuery::PeerPid { uid, gid }, PeerReply::PeerPid(Ok(raw))) => {
                match checked_pid(raw) {
                    Some(pid) => done_bare(PassedCredentials { uid, gid, pid }),
                    None => PeerStep::Done(Err(Error::Refused(Refusal::InvalidPeerPid))),
                }
            },
            (query, _) => {
                assert(false);
                PeerStep::Ask(query)
            },
        }
    }
}

/// Whether `reply` tells the truth about a peer in the groups `groups`, asked with room for
/// `capacity` of them: the list if there is room for it, else `ERANGE`, and its size either way.
pub open spec fn tells_groups(reply: PeerReplyView, groups: Seq<u32>, capacity: u32) -> bool {
    reply matches PeerReplyView::PeerGroups { status, len, buffer } && {
        &&& buffer.len() == capacity
        &&& len == GID_SIZE * groups.len()
        &&& groups.len() <= capacity ==> status is Ok && buffer.take(groups.len() as int) == groups
        &&& groups.len() > capacity ==> (status matches Err(errno) && errno.name
            == ErrnoName::Range)
    }
}

/// Whether a question makes room for no more groups than can be asked for, and for at least as
/// many as the first question does.
pub open spec fn room_in_bounds(step: PeerStepView) -> bool {
    step matches PeerStepView::Ask(PeerQueryView::PeerGroups { capacity, .. })
        ==> INITIAL_NUMBER_SUPPLEMENTARY_GROUPS <= capacity <= MAX_GROUPS
}

/// Whenever the groups are asked for again, there is strictly more room than before, enough for
/// the list as the kernel sized it, and no more than can be asked for. So the question is not
/// repeated forever, however the kernel replies.
pub proof fn law_groups_retry_makes_progress(
    status: Result<(), Errno>,
    len: u32,
    buffer: Seq<u32>,
)
    requires
        buffer.len() <= MAX_GROUPS,
    ensures
        groups_step(status, len, buffer) matches GroupsStepView::Retry { capacity } ==> {
            &&& buffer.len() < capacity <= MAX_GROUPS
            &&& len as int / GID_SIZE as int <= capacity
        },
{
}

/// Every question about groups, the first and each repeated one, can be asked.
pub proof fn law_room_stays_in_bounds(platform: Platform, query: PeerQueryView, reply: PeerReplyView)
    requires
        room_in_bounds(PeerStepView::Ask(query)),
        is_reply_to(query, reply),
    ensures
        room_in_bounds(first_step(platform)),
        room_in_bounds(next_step(query, reply)),
{
}

/// On Linux, a peer that runs with `passed` in the groups `groups` is found to do so, whatever
/// the number of groups: at once if they fit the room of the first question, else on the second.
pub proof fn law_linux_groups_are_found(
    passed: PassedCredentials,
    groups: Seq<u32>,
    capacity: u32,
    first: PeerReplyView,
)
    requires
        groups.len() <= MAX_GROUPS,
        capacity <= MAX_GROUPS,
        tells_groups(first, groups, capacity),
    ensures
        ({
            let found = PeerStepView::Ask(
                PeerQueryView::PeerPidFd { passed, supplementary_gids: groups },
            );
            let step = next_step(PeerQueryView::PeerGroups { passed, capacity }, first);
            if groups.len() <= capacity {
                step == found
            } else {
                step matches PeerStepView::Ask(query) && query matches PeerQueryView::PeerGroups {
                    passed: kept,
                    capacity: room,
                } && kept == passed && groups.len() <= room && forall|second: PeerReplyView|
                    tells_groups(second, groups, room) ==> #[trigger] next_step(query, second)
                        == found
            }
        }),
{
    let needed = (GID_SIZE * groups.len()) / GID_SIZE as int;
    assert(needed == groups.len());
}

/// Where the questioning stands after the kernel's replies, taken in order.
pub open spec fn run(step: PeerStepView, replies: Seq<PeerReplyView>) -> PeerStepView
    decreases replies.len(),
{
    match step {
        PeerStepView::Ask(query) if replies.len() > 0 => run(
            next_step(query, replies[0]),
            replies.drop_first(),
        ),
        _ => step,
    }
}

/// On Linux, the result is what the kernel keeps of the peer: its credentials, all its groups, and
/// a descriptor for its process, which is left out where the kernel has none to give. `room` is
/// what the second question for the groups asks with, if it comes to one.
pub proof fn law_linux_credentials(
    passed: PassedCredentials,
    groups: Seq<u32>,
    first: PeerReplyView,
    second: PeerReplyView,
    room: u32,
    status: Result<(), Errno>,
    fd: i32,
)
    requires
        groups.len() <= MAX_GROUPS,
        tells_groups(first, groups, INITIAL_NUMBER_SUPPLEMENTARY_GROUPS),
        room == grown_capacity(
            INITIAL_NUMBER_SUPPLEMENTARY_GROUPS as int,
            groups.len() as int,
        ),
        tells_groups(second, groups, room),
    ensures
        ({
            let cred = PeerReplyView::PeerCred(Ok(passed));
            let pidfd = PeerReplyView::PeerPidFd { status, fd, len: PIDFD_SIZE };
            let replies = if groups.len() <= INITIAL_NUMBER_SUPPLEMENTARY_GROUPS {
                seq![cred, first, pidfd]
            } else {
                seq![cred, first, second, pidfd]
            };
            run(first_step(Platform::Linux), replies) == PeerStepView::Done(
                match status {
                    Ok(()) => Ok(
                        CredentialsView {
                            passed,
                            supplementary_gids: groups,
                            process_fd: Some(fd),
                        },
                    ),
                    Err(errno) => if errno.name == ErrnoName::NoProtoOpt {
                        Ok(CredentialsView { passed, supplementary_gids: groups, process_fd: None })
                    } else {
                        Err(Error::Os(errno))
                    },
                },
            )
        }),
{
    reveal_with_fuel(run, 5);
    law_linux_groups_are_found(passed, groups, INITIAL_NUMBER_SUPPLEMENTARY_GROUPS, first);
    let cred = PeerReplyView::PeerCred(Ok(passed));
    let pidfd = PeerReplyView::PeerPidFd { status, fd, len: PIDFD_SIZE };
    if groups.len() <= INITIAL_NUMBER_SUPPLEMENTARY_GROUPS {
        let replies = seq![cred, first, pidfd];
        assert(replies.drop_first() == seq![first, pidfd]);
        assert(replies.drop_first().drop_first() == seq![pidfd]);
        assert(seq![pidfd].drop_first().len() == 0);
    } else {
        let replies = seq![cred, first, second, pidfd];
        assert(replies.drop_first() == seq![first, second, pidfd]);
        assert(replies.drop_first().drop_first() == seq![second, pidfd]);
        assert(replies.drop_first().drop_first().drop_first() == seq![pidfd]);
        law_linux_groups_are_found(passed, groups, room, second);
    }
}

/// The error with which the kernel failed a question, if it did.
pub open spec fn reply_error(reply: PeerReplyView) -> Option<Errno> {
    match reply {
        PeerReplyView::PeerCred(Err(errno)) => Some(errno),
        PeerReplyView::PeerGroups { status: Err(errno), .. } => Some(errno),
        PeerReplyView::PeerPidFd { status: Err(errno), .. } => Some(errno),
        PeerReplyView::PeerEid(Err(errno)) => Some(errno),
        PeerReplyView::PeerPid(Err(errno)) => Some(errno),
        _ => None,
    }
}

/// A question that fails ends the questioning with the kernel's error. Two failures are part of
/// the answer instead: `ERANGE` for the groups and `ENOPROTOOPT` for the process descriptor.
pub proof fn law_failures_are_reported(query: PeerQueryView, reply: PeerReplyView, errno: Errno)
    requires
        is_reply_to(query, reply),
        reply_error(reply) == Some(errno),
        !(reply is PeerGroups && errno.name == ErrnoName::Range),
        !(reply is PeerPidFd && errno.name == ErrnoName::NoProtoOpt),
    ensures
        next_step(query, reply) == PeerStepView::Done(Err(Error::Os(errno))),
{
}

/// The groups question fails exactly when the kernel failed it with something other than `ERANGE`,
/// and with that error. Otherwise it is answered exactly when the list as the kernel sized it, at 4
/// bytes a group, fits the buffer, and the answer is that many groups from the front of the buffer.
pub proof fn law_groups_are_the_front_of_the_buffer(
    status: Result<(), Errno>,
    len: u32,
    buffer: Seq<u32>,
)
    ensures
        ({
            let failed = status matches Err(errno) && !(errno.name is Range);
            let needed = len as int / 4;
            match groups_step(status, len, buffer) {
                GroupsStepView::Failed(errno) => failed && status == Err::<(), Errno>(errno),
                GroupsStepView::Done(groups) => {
                    &&& !failed
                    &&& needed <= buffer.len()
                    &&& groups.len() == needed
                    &&& forall|i: int| 0 <= i < needed ==> #[trigger] groups[i] == buffer[i]
                },
                GroupsStepView::Retry { .. } => !failed && needed > buffer.len(),
            }
        }),
{
}

/// When the groups are asked for again, the room is the least that holds the list as the kernel
/// sized it and is at least twice what it was, or all that can be asked for.
pub proof fn law_room_at_least_doubles(status: Result<(), Errno>, len: u32, buffer: Seq<u32>)
    requires
        buffer.len() <= u32::MAX / 4,
    ensures
        groups_step(status, len, buffer) matches GroupsStepView::Retry { capacity } ==> {
            &&& capacity >= len as int / 4
            &&& capacity >= 2 * buffer.len() || capacity == u32::MAX / 4
            &&& capacity == len as int / 4 || capacity <= 2 * buffer.len()
            &&& capacity <= u32::MAX / 4
        },
{
}

/// What the kernel replies to the groups question leads on to the question for the process
/// descriptor with the groups, or to the same question with the least room that holds the list as
/// the kernel sized it and is twice what it was, as far as can be asked for. The credentials learnt
/// before are kept.
pub proof fn law_groups_reply_leads_on(
    passed: PassedCredentials,
    status: Result<(), Errno>,
    len: u32,
    buffer: Seq<u32>,
    capacity: u32,
)
    requires
        buffer.len() == capacity,
        capacity <= u32::MAX / 4,
    ensures
        ({
            let query = PeerQueryView::PeerGroups { passed, capacity };
            let reply = PeerReplyView::PeerGroups { status, len, buffer };
            match next_step(query, reply) {
                PeerStepView::Done(result) => status matches Err(errno) && !(errno.name is Range)
                    && result == Err::<CredentialsView, Error>(Error::Os(errno)),
                PeerStepView::Ask(
                    PeerQueryView::PeerPidFd { passed: kept, supplementary_gids },
                ) => {
                    &&& status is Ok || status->Err_0.name is Range
                    &&& kept == passed
                    &&& len / 4 <= capacity
                    &&& supplementary_gids == buffer.subrange(0, len as int / 4)
                },
                PeerStepView::Ask(
                    PeerQueryView::PeerGroups { passed: kept, capacity: room },
                ) => {
                    &&& status is Ok || status->Err_0.name is Range
                    &&& kept == passed
                    &&& len / 4 > capacity
                    &&& room > capacity
                    &&& room >= len / 4
                    &&& room >= 2 * capacity || room == u32::MAX / 4
                    &&& room == len / 4 || room <= 2 * capacity
                },
                PeerStepView::Ask(_) => false,
            }
        }),
{
    assert(buffer.take(len as int / 4) == buffer.subrange(0, len as int / 4));
}

/// On macOS, iOS, OpenBSD and NetBSD, a peer is who the kernel says: the user and the group of
/// `getpeereid()` and the process of the socket option, each in its place. No process has the ID 0,
/// so that is refused, and what was learnt before does not come out.
pub proof fn law_effective_ids_and_pid_are_reported(
    platform: Platform,
    uid: u32,
    gid: u32,
    pid: i32,
)
    requires
        platform is Apple || platform is OpenBsd || platform is NetBsd,
        pid >= 0,
    ensures
        run(
            first_step(platform),
            seq![PeerReplyView::PeerEid(Ok((uid, gid))), PeerReplyView::PeerPid(Ok(pid))],
        ) matches PeerStepView::Done(result) && match result {
            Ok(credentials) => {
                &&& pid > 0
                &&& credentials.passed.uid == uid
                &&& credentials.passed.gid == gid
                &&& credentials.passed.pid == pid
                &&& credentials.supplementary_gids.len() == 0
                &&& credentials.process_fd is None
            },
            Err(error) => pid == 0 && error == Error::Refused(Refusal::InvalidPeerPid),
        },
{
    reveal_with_fuel(run, 3);
    let replies = seq![PeerReplyView::PeerEid(Ok((uid, gid))), PeerReplyView::PeerPid(Ok(pid))];
    assert(replies.drop_first() == seq![PeerReplyView::PeerPid(Ok(pid))]);
    assert(replies.drop_first().drop_first().len() == 0);
}

/// On FreeBSD and DragonFly, the user and the group are those of `getpeereid()`, and the process ID
/// is 0.
pub proof fn law_effective_ids_alone_are_reported(uid: u32, gid: u32)
    ensures
        run(
            first_step(Platform::FreeBsd),
            seq![PeerReplyView::PeerEid(Ok((uid, gid)))],
        ) matches PeerStepView::Done(Ok(credentials)) && {
            &&& credentials.passed.uid == uid
            &&& credentials.passed.gid == gid
            &&& credentials.passed.pid == 0
            &&& credentials.supplementary_gids.len() == 0
            &&& credentials.process_fd is None
        },
{
    reveal_with_fuel(run, 2);
    assert(seq![PeerReplyView::PeerEid(Ok((uid, gid)))].drop_first().len() == 0);
}

/// On Android, the credentials are those that the kernel keeps of the connection, and nothing more.
pub proof fn law_android_credentials(passed: PassedCredentials)
    ensures
        run(
            first_step(Platform::Android),
            seq![PeerReplyView::PeerCred(Ok(passed))],
        ) matches PeerStepView::Done(Ok(credentials)) && {
            &&& credentials.passed == passed
            &&& credentials.supplementary_gids.len() == 0
            &&& credentials.process_fd is None
        },
{
    reveal_with_fuel(run, 2);
    assert(seq![PeerReplyView::PeerCred(Ok(passed))].drop_first().len() == 0);
}

/// Every platform but an unknown one begins with a question; there the request is refused at once.
/// The first question on Linux and Android is for what the kernel keeps of the connection, and
/// elsewhere for the effective user and group.
pub proof fn law_first_question(platform: Platform)
    ensures
        match first_step(platform) {
            PeerStepView::Done(result) => platform is Other && result == Err::<
                CredentialsView,
                Error,
            >(Error::Refused(Refusal::PeerCredentialsUnsupported)),
            PeerStepView::Ask(query) => match query {
                PeerQueryView::PeerCred { platform: asked } => asked == platform && (platform
                    is Linux || platform is Android),
                PeerQueryView::PeerEid { platform: asked } => asked == platform && (platform
                    is Apple || platform is OpenBsd || platform is NetBsd || platform is FreeBsd),
                _ => false,
            },
        },
{
}

/// With the process descriptor, the questioning on Linux is over: the credentials and the groups
/// are those that were learnt, and the descriptor is the one that the kernel gave. `ENOPROTOOPT`
/// means that it has none to give; any other failure is reported.
pub proof fn law_process_descriptor_ends_the_questioning(
    passed: PassedCredentials,
    groups: Seq<u32>,
    status: Result<(), Errno>,
    fd: i32,
    len: u32,
)
    ensures
        next_step(
            PeerQueryView::PeerPidFd { passed, supplementary_gids: groups },
            PeerReplyView::PeerPidFd { status, fd, len },
        ) matches PeerStepView::Done(result) && match result {
            Ok(credentials) => {
                &&& credentials.passed == passed
                &&& credentials.supplementary_gids == groups
                &&& match credentials.process_fd {
                    Some(given) => status is Ok && given == fd,
                    None => status is Err && status->Err_0.name is NoProtoOpt,
                }
            },
            Err(error) => status is Err && !(status->Err_0.name is NoProtoOpt) && error
                == Error::Os(status->Err_0),
        },
{
}

/// A failure of the questions for the connection's credentials, for the effective user and group
/// and for the process ID ends the questioning with the kernel's error, whatever it is.
pub proof fn law_plain_failures_are_reported(
    platform: Platform,
    uid: u32,
    gid: u32,
    errno: Errno,
)
    ensures
        next_step(
            PeerQueryView::PeerCred { platform },
            PeerReplyView::PeerCred(Err(errno)),
        ) == PeerStepView::Done(Err(Error::Os(errno))),
        next_step(
            PeerQueryView::PeerEid { platform },
            PeerReplyView::PeerEid(Err(errno)),
        ) == PeerStepView::Done(Err(Error::Os(errno))),
        next_step(
            PeerQueryView::PeerPid { uid, gid },
            PeerReplyView::PeerPid(Err(errno)),
        ) == PeerStepView::Done(Err(Error::Os(errno))),
{
}

/// Every reply that the kernel can give to a question is taken: any credentials, any buffer of the
/// size that was asked with, any descriptor, any user and group, any process ID, any failure.
pub proof fn law_every_reply_is_taken(
    platform: Platform,
    passed: PassedCredentials,
    groups: Seq<u32>,
    cred: Result<PassedCredentials, Errno>,
    status: Result<(), Errno>,
    len: u32,
    buffer: Seq<u32>,
    capacity: u32,
    fd: i32,
    fd_len: u32,
    eid: Result<(u32, u32), Errno>,
    pid: Result<i32, Errno>,
)
    requires
        status is Ok ==> fd_len == 4,
        buffer.len() == capacity,
        capacity <= u32::MAX / 4,
        pid matches Ok(pid) ==> pid >= 0,
    ensures
        is_reply_to(PeerQueryView::PeerCred { platform }, PeerReplyView::PeerCred(cred)),
        is_reply_to(
            PeerQueryView::PeerGroups { passed, capacity },
            PeerReplyView::PeerGroups { status, len, buffer },
        ),
        is_reply_to(
            PeerQueryView::PeerPidFd { passed, supplementary_gids: groups },
            PeerReplyView::PeerPidFd { status, fd, len: fd_len },
        ),
        is_reply_to(PeerQueryView::PeerEid { platform }, PeerReplyView::PeerEid(eid)),
        is_reply_to(
            PeerQueryView::PeerPid { uid: passed.uid, gid: passed.gid },
            PeerReplyView::PeerPid(pid),
        ),
{
}

/// The value of a result is the result: nothing of the credentials is left out or changed.
pub proof fn law_result_shows_all_credentials(step: PeerStep, groups: GroupsStep)
    ensures
        match step {
            PeerStep::Done(Ok(credentials)) => step@ matches PeerStepView::Done(Ok(shown)) && {
                &&& shown.passed == credentials.passed
                &&& shown.supplementary_gids == credentials.supplementary_gids@
                &&& shown.process_fd == credentials.process_fd
            },
            PeerStep::Done(Err(error)) => step@ == PeerStepView::Done(Err(error)),
            PeerStep::Ask(PeerQuery::PeerCred { platform }) => step@ == PeerStepView::Ask(
                PeerQueryView::PeerCred { platform },
            ),
            PeerStep::Ask(PeerQuery::PeerGroups { passed, capacity }) => step@
                == PeerStepView::Ask(PeerQueryView::PeerGroups { passed, capacity }),
            PeerStep::Ask(PeerQuery::PeerPidFd { passed, supplementary_gids }) => step@
                == PeerStepView::Ask(
                PeerQueryView::PeerPidFd { passed, supplementary_gids: supplementary_gids@ },
            ),
            PeerStep::Ask(PeerQuery::PeerEid { platform }) => step@ == PeerStepView::Ask(
                PeerQueryView::PeerEid { platform },
            ),
            PeerStep::Ask(PeerQuery::PeerPid { uid, gid }) => step@ == PeerStepView::Ask(
                PeerQueryView::PeerPid { uid, gid },
            ),
        },
        match groups {
            GroupsStep::Done(list) => groups@ == GroupsStepView::Done(list@),
            GroupsStep::Retry { capacity } => groups@ == (GroupsStepView::Retry { capacity }),
            GroupsStep::Failed(errno) => groups@ == GroupsStepView::Failed(errno),
        },
{
}

/// The value of a reply is the reply: nothing of what the kernel said is left out or changed.
pub proof fn law_reply_is_taken_as_it_is(reply: PeerReply)
    ensures
        match reply {
            PeerReply::PeerCred(cred) => reply@ == PeerReplyView::PeerCred(cred),
            PeerReply::PeerGroups { status, len, buffer } => reply@
                == (PeerReplyView::PeerGroups { status, len, buffer: buffer@ }),
            PeerReply::PeerPidFd { status, fd, len } => reply@ == (PeerReplyView::PeerPidFd {
                status,
                fd,
                len,
            }),
            PeerReply::PeerEid(eid) => reply@ == PeerReplyView::PeerEid(eid),
            PeerReply::PeerPid(pid) => reply@ == PeerReplyView::PeerPid(pid),
        },
{
}

/// What the kernel keeps of the connection is all there is, but on Linux, where the groups are asked
/// for next, with room for 128; and the effective user and group are followed by the question for
/// the process ID, but on FreeBSD and DragonFly. Either way what was learnt is kept as it is.
pub proof fn law_platforms_go_their_own_way(
    platform: Platform,
    passed: PassedCredentials,
    uid: u32,
    gid: u32,
)
    ensures
        match next_step(
            PeerQueryView::PeerCred { platform },
            PeerReplyView::PeerCred(Ok(passed)),
        ) {
            PeerStepView::Ask(PeerQueryView::PeerGroups { passed: kept, capacity }) => platform
                is Linux && kept == passed && capacity == 128,
            PeerStepView::Done(Ok(credentials)) => {
                &&& !(platform is Linux)
                &&& credentials.passed == passed
                &&& credentials.supplementary_gids.len() == 0
                &&& credentials.process_fd is None
            },
            _ => false,
        },
        match next_step(
            PeerQueryView::PeerEid { platform },
            PeerReplyView::PeerEid(Ok((uid, gid))),
        ) {
            PeerStepView::Ask(PeerQueryView::PeerPid { uid: user, gid: group }) => !(platform
                is FreeBsd) && user == uid && group == gid,
            PeerStepView::Done(Ok(credentials)) => {
                &&& platform is FreeBsd
                &&& credentials.passed.uid == uid
                &&& credentials.passed.gid == gid
                &&& credentials.passed.pid == 0
                &&& credentials.supplementary_gids.len() == 0
                &&& credentials.process_fd is None
            },
            _ => false,
        },
{
}

} // verus!

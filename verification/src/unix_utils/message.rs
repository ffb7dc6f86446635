//! Ancillary data: the file descriptors and credentials that travel beside the bytes of a message.

use std::mem::MaybeUninit;

use rustix::fd::{BorrowedFd, OwnedFd};
use rustix::net::{RecvAncillaryBuffer, SendAncillaryBuffer};
use vstd::prelude::*;

use crate::error::{Error, Refusal};
use crate::platform::Platform;
use crate::unix_utils::credentials::PassedCredentials;

verus! {

/// The most file descriptors that one message carries.
pub const MAX_FDS: usize = 1024;

/// The size in bytes of a buffer for ancillary data.
///
/// [`MAX_FDS`] descriptors take 4096 bytes and a header of 16, credentials 12 bytes, padded to 16,
/// and another header, and up to 8 bytes go into aligning the buffer.
pub const CONTROL_SPACE: usize = 4152;

/// `BorrowedFd`: a file descriptor that someone else owns. Nothing is claimed of it.
#[verifier::external_type_specification]
#[verifier::external_body]
pub struct ExBorrowedFd<'fd>(BorrowedFd<'fd>);

/// `OwnedFd`: a file descriptor that is closed when dropped. Nothing is claimed of it.
#[verifier::external_type_specification]
#[verifier::external_body]
pub struct ExOwnedFd(OwnedFd);

/// `rustix::net::SendAncillaryBuffer`: ancillary data being put together. [`sent_messages`] is what
/// it holds and [`send_room`] how much more it takes.
#[verifier::external_type_specification]
#[verifier::external_body]
pub struct ExSendAncillaryBuffer<'buf, 'slice, 'fd>(SendAncillaryBuffer<'buf, 'slice, 'fd>);

/// `rustix::net::RecvAncillaryBuffer`: ancillary data that arrived. [`received_messages`] is what
/// it holds.
#[verifier::external_type_specification]
#[verifier::external_body]
pub struct ExRecvAncillaryBuffer<'buf>(RecvAncillaryBuffer<'buf>);

/// A piece of ancillary data to send.
pub enum SentMessage {
    /// File descriptors.
    Rights(Seq<BorrowedFd<'static>>),
    /// The credentials of the sender.
    Credentials(PassedCredentials),
}

/// What a buffer of ancillary data to send holds, in order.
pub uninterp spec fn sent_messages(control: SendAncillaryBuffer<'_, '_, '_>) -> Seq<SentMessage>;

/// How many more bytes a buffer of ancillary data to send has room for.
pub uninterp spec fn send_room(control: SendAncillaryBuffer<'_, '_, '_>) -> nat;

/// The most bytes that a piece of ancillary data with a payload of `len` bytes takes up: a header
/// of at most 16 bytes, and the payload padded to a multiple of at most 8.
pub open spec fn most_space(len: nat) -> nat {
    16 + (len + 7) / 8 * 8
}

/// Calls `rustix::net::SendAncillaryBuffer::new`.
///
/// Claimed: the buffer holds nothing yet, and has room for all of `buf` but what aligning it to a
/// message header takes, which is at most 7 bytes. A buffer smaller than that is left out, since
/// aligning it can panic.
#[verifier::external_body]
fn new_send_buffer<'buf, 'slice, 'fd>(buf: &'buf mut [MaybeUninit<u8>]) -> (control:
    SendAncillaryBuffer<'buf, 'slice, 'fd>)
    requires
        old(buf)@.len() >= 7,
    ensures
        sent_messages(control) == Seq::<SentMessage>::empty(),
        send_room(control) <= old(buf)@.len() <= send_room(control) + 7,
{
    SendAncillaryBuffer::new(buf)
}

/// Calls `rustix::net::SendAncillaryBuffer::push` with `SendAncillaryMessage::ScmRights`.
///
/// Claimed, for at most [`MAX_FDS`] descriptors of 4 bytes each: if there is room for the most
/// space that they take up, they are added, behind what is there; if not added, nothing changes.
/// How much they take up beyond their own bytes depends on the machine's word size.
#[verifier::external_body]
fn push_rights<'slice, 'fd>(
    control: &mut SendAncillaryBuffer<'_, 'slice, 'fd>,
    fds: &'slice [BorrowedFd<'fd>],
) -> (pushed: bool)
    requires
        fds@.len() <= MAX_FDS,
    ensures
        send_room(*old(control)) >= most_space(4 * fds@.len()) ==> pushed,
        pushed ==> sent_messages(*final(control)) == sent_messages(*old(control)).push(
            SentMessage::Rights(fds@),
        ),
        pushed ==> send_room(*old(control)) - most_space(4 * fds@.len()) <= send_room(
            *final(control),
        ) <= send_room(*old(control)) - 4 * fds@.len(),
        !pushed ==> sent_messages(*final(control)) == sent_messages(*old(control)),
        !pushed ==> send_room(*final(control)) == send_room(*old(control)),
{
    control.push(rustix::net::SendAncillaryMessage::ScmRights(fds))
}

/// Calls `rustix::net::SendAncillaryBuffer::push` with `SendAncillaryMessage::ScmCredentials`.
///
/// Claimed: as for file descriptors, with a payload of 12 bytes. Only a positive process ID can be
/// sent, since `rustix` has no other.
#[verifier::external_body]
fn push_credentials(
    control: &mut SendAncillaryBuffer<'_, '_, '_>,
    creds: &PassedCredentials,
) -> (pushed: bool)
    requires
        creds.pid > 0,
    ensures
        send_room(*old(control)) >= most_space(12) ==> pushed,
        pushed ==> sent_messages(*final(control)) == sent_messages(*old(control)).push(
            SentMessage::Credentials(*creds),
        ),
        pushed ==> send_room(*old(control)) - most_space(12) <= send_room(*final(control))
            <= send_room(*old(control)) - 12,
        !pushed ==> sent_messages(*final(control)) == sent_messages(*old(control)),
        !pushed ==> send_room(*final(control)) == send_room(*old(control)),
{
    control.push(
        rustix::net::SendAncillaryMessage::ScmCredentials(
            rustix::net::UCred {
                pid: rustix::process::Pid::from_raw(creds.pid).unwrap(),
                uid: rustix::process::Uid::from_raw_unchecked(creds.uid),
                gid: rustix::process::Gid::from_raw_unchecked(creds.gid),
            },
        ),
    )
}

/// The ancillary data of a message: its file descriptors if it has any, then its credentials if it
/// has them.
pub open spec fn message_control(
    fds: Seq<BorrowedFd<'static>>,
    creds: Option<PassedCredentials>,
) -> Seq<SentMessage> {
    let rights = if fds.len() == 0 {
        Seq::empty()
    } else {
        seq![SentMessage::Rights(fds)]
    };
    match creds {
        Some(creds) => rights.push(SentMessage::Credentials(creds)),
        None => rights,
    }
}

/// Puts together the ancillary data to send with a message.
///
/// There is room in `cmsg_buf` for everything but too many file descriptors, and those are the
/// only thing refused. Credentials are sent on Linux alone; elsewhere there are none to pass.
pub fn sendmsg<'buf, 'slice, 'fd>(
    cmsg_buf: &'buf mut [MaybeUninit<u8>],
    fds: &'slice [BorrowedFd<'fd>],
    creds: Option<&PassedCredentials>,
) -> (result: Result<SendAncillaryBuffer<'buf, 'slice, 'fd>, Error>)
    requires
        old(cmsg_buf)@.len() >= CONTROL_SPACE,
        creds matches Some(creds) ==> creds.pid > 0,
    ensures
        result is Ok <==> fds@.len() <= 1024,
        fds@.len() > MAX_FDS ==> result == Err::<SendAncillaryBuffer<'buf, 'slice, 'fd>, Error>(
            Error::Refused(Refusal::TooManyFds),
        ),
        fds@.len() <= MAX_FDS ==> (result matches Ok(control) && sent_messages(control)
            == message_control(
            fds@,
            match creds {
                Some(creds) => Some(*creds),
                None => None,
            },
        )),
{
    if fds.len() > MAX_FDS {
        return Err(Error::Refused(Refusal::TooManyFds));
    }
    let mut control = new_send_buffer(cmsg_buf);
    if fds.len() > 0 && !push_rights(&mut control, fds) {
        return Err(Error::Refused(Refusal::TooManyFds));
    }
    if let Some(creds) = creds {
        if !push_credentials(&mut control, creds) {
            return Err(Error::Refused(Refusal::CredentialsNotPushed));
        }
    }
    Ok(control)
}

/// A piece of ancillary data that arrived.
#[derive(Debug)]
pub enum ReceivedMessage {
    /// File descriptors.
    Rights(Vec<OwnedFd>),
    /// The credentials of the sender.
    Credentials(PassedCredentials),
    /// Anything else.
    Other,
}

/// The mathematical value of [`ReceivedMessage`].
#[verifier::ext_equal]
pub enum ReceivedMessageView {
    Rights(Seq<OwnedFd>),
    Credentials(PassedCredentials),
    Other,
}

impl View for ReceivedMessage {
    type V = ReceivedMessageView;

    open spec fn view(&self) -> ReceivedMessageView {
        match self {
            ReceivedMessage::Rights(fds) => ReceivedMessageView::Rights(fds@),
            ReceivedMessage::Credentials(creds) => ReceivedMessageView::Credentials(*creds),
            ReceivedMessage::Other => ReceivedMessageView::Other,
        }
    }
}

/// What arrived beside the bytes of a message, in order.
pub open spec fn message_views(messages: Seq<ReceivedMessage>) -> Seq<ReceivedMessageView> {
    messages.map_values(|message: ReceivedMessage| message@)
}

/// What a buffer of received ancillary data holds, in order.
pub uninterp spec fn received_messages(control: RecvAncillaryBuffer<'_>) -> Seq<
    ReceivedMessageView,
>;

/// Calls `rustix::net::RecvAncillaryBuffer::drain` and hands its messages on, one for one.
///
/// Claimed: they are what the buffer holds, in order.
#[verifier::external_body]
fn drain_messages(control: RecvAncillaryBuffer<'_>) -> (messages: Vec<ReceivedMessage>)
    ensures
        message_views(messages@) == received_messages(control),
{
    let mut control = control;
    control.drain().map(|message| match message {
        rustix::net::RecvAncillaryMessage::ScmRights(fds) => ReceivedMessage::Rights(fds.collect()),
        rustix::net::RecvAncillaryMessage::ScmCredentials(ucred) => ReceivedMessage::Credentials(
            PassedCredentials {
                uid: ucred.uid.as_raw(),
                gid: ucred.gid.as_raw(),
                pid: ucred.pid.as_raw_pid(),
            },
        ),
        _ => ReceivedMessage::Other,
    }).collect()
}

/// What one read from a socket gave.
#[derive(Debug)]
pub struct ReadResult {
    /// How many bytes were read.
    pub bytes: usize,
    /// The file descriptors that came with them.
    pub fds: Vec<OwnedFd>,
    /// The credentials of the sender, if they came too.
    pub credentials: Option<PassedCredentials>,
}

impl ReadResult {
    /// A read of `bytes` bytes and nothing beside them.
    pub fn new(bytes: usize) -> (result: Self)
        ensures
            result.bytes == bytes,
            result.fds@ == Seq::<OwnedFd>::empty(),
            result.credentials is None,
    {
        ReadResult { bytes, fds: Vec::new(), credentials: None }
    }

    /// The same read, with these file descriptors.
    pub fn set_fds(self, fds: Vec<OwnedFd>) -> (result: Self)
        ensures
            result == (ReadResult { bytes: self.bytes, fds, credentials: self.credentials }),
    {
        ReadResult { bytes: self.bytes, fds, credentials: self.credentials }
    }

    /// The same read, with these credentials.
    pub fn set_credentials(self, credentials: Option<PassedCredentials>) -> (result: Self)
        ensures
            result == (ReadResult { bytes: self.bytes, fds: self.fds, credentials }),
    {
        ReadResult { bytes: self.bytes, fds: self.fds, credentials }
    }
}

/// All file descriptors among the messages, in order.
pub open spec fn all_fds(messages: Seq<ReceivedMessageView>) -> Seq<OwnedFd>
    decreases messages.len(),
{
    if messages.len() == 0 {
        Seq::empty()
    } else {
        all_fds(messages.drop_last()) + (match messages.last() {
            ReceivedMessageView::Rights(fds) => fds,
            _ => Seq::empty(),
        })
    }
}

/// The last credentials among the messages.
pub open spec fn last_credentials(messages: Seq<ReceivedMessageView>) -> Option<PassedCredentials>
    decreases messages.len(),
{
    if messages.len() == 0 {
        None
    } else {
        match messages.last() {
            ReceivedMessageView::Credentials(creds) => Some(creds),
            _ => last_credentials(messages.drop_last()),
        }
    }
}

/// The credentials that a read reports of the messages: the last ones, on Linux alone.
pub open spec fn reported_credentials(
    platform: Platform,
    messages: Seq<ReceivedMessageView>,
) -> Option<PassedCredentials> {
    if platform == Platform::Linux {
        last_credentials(messages)
    } else {
        None
    }
}

/// Sorts what arrived beside `bytes` bytes.
pub fn collect_messages(
    platform: Platform,
    bytes: usize,
    messages: Vec<ReceivedMessage>,
) -> (result: ReadResult)
    ensures
        result.bytes == bytes,
        result.fds@ == all_fds(message_views(messages@)),
        result.credentials == reported_credentials(platform, message_views(messages@)),
{
    let ghost views = message_views(messages@);
    let mut fds: Vec<OwnedFd> = Vec::new();
    let mut creds: Option<PassedCredentials> = None;
    for message in iter: messages
        invariant
            views == message_views(iter.seq()),
            fds@ == all_fds(views.take(iter.index() as int)),
            creds == reported_credentials(platform, views.take(iter.index() as int)),
    {
        proof {
            let next = views.take(iter.index() + 1);
            assert(next.drop_last() == views.take(iter.index() as int));
            assert(next.last() == message@);
        }
        match message {
            ReceivedMessage::Rights(rights) => {
                let mut rights = rights;
                fds.append(&mut rights);
            },
            ReceivedMessage::Credentials(passed) => {
                if platform == Platform::Linux {
                    creds = Some(passed);
                }
            },
            ReceivedMessage::Other => {},
        }
    }
    proof {
        assert(views.take(views.len() as int) == views);
    }
    ReadResult::new(bytes).set_fds(fds).set_credentials(creds)
}

/// The result of a receive of `bytes` bytes that filled `control`.
pub fn recvmsg(
    platform: Platform,
    bytes: usize,
    control: RecvAncillaryBuffer<'_>,
) -> (result: ReadResult)
    ensures
        result.bytes == bytes,
        result.fds@ == all_fds(received_messages(control)),
        result.credentials == reported_credentials(platform, received_messages(control)),
{
    collect_messages(platform, bytes, drain_messages(control))
}

/// The descriptors of two batches of messages, one after the other, are the descriptors of the
/// first batch followed by those of the second: none is lost, and none changes its place.
pub proof fn law_fds_keep_their_order(
    first: Seq<ReceivedMessageView>,
    second: Seq<ReceivedMessageView>,
)
    ensures
        all_fds(first + second) == all_fds(first) + all_fds(second),
    decreases second.len(),
{
    if second.len() == 0 {
        assert(first + second == first);
    } else {
        law_fds_keep_their_order(first, second.drop_last());
        assert((first + second).drop_last() == first + second.drop_last());
        assert((first + second).last() == second.last());
    }
}

/// The messages that are file descriptors.
pub open spec fn only_rights(messages: Seq<ReceivedMessageView>) -> Seq<ReceivedMessageView> {
    messages.filter(|message: ReceivedMessageView| message is Rights)
}

/// The messages that are credentials.
pub open spec fn only_credentials(messages: Seq<ReceivedMessageView>) -> Seq<ReceivedMessageView> {
    messages.filter(|message: ReceivedMessageView| message is Credentials)
}

/// What a read gets depends on the order of descriptors among descriptors and of credentials among
/// credentials alone, and not on how the two are mixed.
pub proof fn law_kinds_are_read_apart(messages: Seq<ReceivedMessageView>)
    ensures
        all_fds(messages) == all_fds(only_rights(messages)),
        last_credentials(messages) == last_credentials(only_credentials(messages)),
    decreases messages.len(),
{
    reveal(Seq::filter);
    if messages.len() > 0 {
        let front = messages.drop_last();
        law_kinds_are_read_apart(front);
        if messages.last() is Rights {
            assert(only_rights(messages) == only_rights(front).push(messages.last()));
            assert(only_rights(messages).drop_last() == only_rights(front));
        }
        if messages.last() is Credentials {
            assert(only_credentials(messages) == only_credentials(front).push(messages.last()));
        }
    }
}

/// Whether `arrived` is what a Linux kernel makes of a message sent with these file descriptors and
/// credentials: the descriptors, in one piece, as descriptors of the receiver for the same open
/// files, and the credentials, if the receiving socket has them passed on. The pieces come in any
/// order. `same_file` says which descriptors are for the same open file.
pub open spec fn is_delivery(
    fds: Seq<BorrowedFd<'static>>,
    creds: PassedCredentials,
    passcred: bool,
    same_file: spec_fn(BorrowedFd<'static>, OwnedFd) -> bool,
    arrived: Seq<ReceivedMessageView>,
) -> bool {
    let rights = only_rights(arrived);
    let credentials = only_credentials(arrived);
    &&& if fds.len() == 0 {
        rights.len() == 0
    } else {
        rights.len() == 1 && (rights[0] matches ReceivedMessageView::Rights(received) && {
            &&& received.len() == fds.len()
            &&& forall|i: int| 0 <= i < fds.len() ==> same_file(fds[i], #[trigger] received[i])
        })
    }
    &&& credentials == if passcred {
        seq![ReceivedMessageView::Credentials(creds)]
    } else {
        Seq::empty()
    }
}

/// A receive undoes a send: when the kernel delivers the ancillary data that [`sendmsg`] puts
/// together, the reader gets as many descriptors, in order and for the same open files, and the
/// credentials, provided that the receiving socket has them passed on. Otherwise it gets none.
pub proof fn law_read_gives_back_what_was_sent(
    fds: Seq<BorrowedFd<'static>>,
    creds: PassedCredentials,
    passcred: bool,
    same_file: spec_fn(BorrowedFd<'static>, OwnedFd) -> bool,
    arrived: Seq<ReceivedMessageView>,
)
    requires
        is_delivery(fds, creds, passcred, same_file, arrived),
    ensures
        message_control(fds, Some(creds)) == (if fds.len() == 0 {
            seq![SentMessage::Credentials(creds)]
        } else {
            seq![SentMessage::Rights(fds), SentMessage::Credentials(creds)]
        }),
        all_fds(arrived).len() == fds.len(),
        forall|i: int| 0 <= i < fds.len() ==> same_file(fds[i], #[trigger] all_fds(arrived)[i]),
        reported_credentials(Platform::Linux, arrived) == (if passcred {
            Some(creds)
        } else {
            None
        }),
{
    reveal_with_fuel(all_fds, 2);
    reveal_with_fuel(last_credentials, 2);
    law_kinds_are_read_apart(arrived);
    let rights = only_rights(arrived);
    if fds.len() > 0 {
        assert(rights.drop_last().len() == 0);
        assert(all_fds(rights) == rights[0]->Rights_0);
    }
}

/// The ancillary data of a message with file descriptors begins with them, all in one piece, and
/// holds no others; without any it holds none. With credentials it ends with them, and holds no
/// others; without any it holds none. There is nothing else in it.
pub proof fn law_control_holds_fds_then_credentials(
    fds: Seq<BorrowedFd<'static>>,
    creds: Option<PassedCredentials>,
)
    ensures
        ({
            let control = message_control(fds, creds);
            &&& control.len() == (if fds.len() > 0 { 1int } else { 0 }) + (if creds is Some {
                1int
            } else {
                0
            })
            &&& fds.len() > 0 ==> control[0] == SentMessage::Rights(fds)
            &&& forall|i: int|
                0 <= i < control.len() && #[trigger] control[i] is Rights ==> i == 0 && fds.len()
                    > 0
            &&& creds matches Some(creds) ==> control[control.len() - 1]
                == SentMessage::Credentials(creds)
            &&& forall|i: int|
                0 <= i < control.len() && #[trigger] control[i] is Credentials ==> i
                    == control.len() - 1 && creds is Some
        }),
        fds.len() > 0 ==> message_control(fds, None) == seq![SentMessage::Rights(fds)],
{
}

/// Credentials do not change which file descriptors go with a message, nor descriptors which
/// credentials do: the ancillary data for both is that for the one followed by that for the other.
pub proof fn law_control_is_put_together_from_parts(
    fds: Seq<BorrowedFd<'static>>,
    creds: Option<PassedCredentials>,
)
    ensures
        message_control(fds, creds) == message_control(fds, None) + message_control(
            Seq::empty(),
            creds,
        ),
{
    assert(message_control(fds, creds) =~= message_control(fds, None) + message_control(
        Seq::empty(),
        creds,
    ));
}

/// Each further message adds its own file descriptors, however many, behind those there are, and
/// other messages add none.
pub proof fn law_fds_of_one_more_message(
    messages: Seq<ReceivedMessageView>,
    fds: Seq<OwnedFd>,
    creds: PassedCredentials,
)
    ensures
        all_fds(messages.push(ReceivedMessageView::Rights(fds))) == all_fds(messages) + fds,
        all_fds(messages.push(ReceivedMessageView::Credentials(creds))) == all_fds(messages),
        all_fds(messages.push(ReceivedMessageView::Other)) == all_fds(messages),
        all_fds(Seq::empty()) == Seq::<OwnedFd>::empty(),
{
    assert(messages.push(ReceivedMessageView::Rights(fds)).drop_last() == messages);
    assert(messages.push(ReceivedMessageView::Credentials(creds)).drop_last() == messages);
    assert(messages.push(ReceivedMessageView::Other).drop_last() == messages);
}

/// On Linux, the credentials that a read reports are those of the last message that has any, and
/// it reports some exactly when some message has. Elsewhere it reports none.
pub proof fn law_last_credentials_are_reported(
    platform: Platform,
    messages: Seq<ReceivedMessageView>,
    at: int,
    creds: PassedCredentials,
)
    requires
        0 <= at < messages.len(),
        messages[at] == ReceivedMessageView::Credentials(creds),
        forall|i: int|
            at < i < messages.len() ==> !(#[trigger] messages[i] is Credentials),
    ensures
        reported_credentials(platform, messages) == (if platform is Linux {
            Some(creds)
        } else {
            None
        }),
    decreases messages.len(),
{
    if at < messages.len() - 1 {
        let front = messages.drop_last();
        assert forall|i: int| at < i < front.len() implies !(#[trigger] front[i]
            is Credentials) by {
            assert(front[i] == messages[i]);
        }
        assert(!(messages[messages.len() - 1] is Credentials));
        law_last_credentials_are_reported(platform, front, at, creds);
    }
}

/// Where no message has credentials, none are reported.
pub proof fn law_no_credentials_are_made_up(
    platform: Platform,
    messages: Seq<ReceivedMessageView>,
)
    requires
        forall|i: int| 0 <= i < messages.len() ==> !(#[trigger] messages[i] is Credentials),
    ensures
        reported_credentials(platform, messages) is None,
    decreases messages.len(),
{
    if messages.len() > 0 {
        let front = messages.drop_last();
        assert forall|i: int| 0 <= i < front.len() implies !(#[trigger] front[i]
            is Credentials) by {
            assert(front[i] == messages[i]);
        }
        assert(!(messages[messages.len() - 1] is Credentials));
        law_no_credentials_are_made_up(platform, front);
    }
}

/// Every message is looked at, in its place and with all that it holds.
pub proof fn law_every_message_is_looked_at(messages: Seq<ReceivedMessage>, i: int)
    requires
        0 <= i < messages.len(),
    ensures
        message_views(messages).len() == messages.len(),
        match messages[i] {
            ReceivedMessage::Rights(fds) => message_views(messages)[i]
                == ReceivedMessageView::Rights(fds@),
            ReceivedMessage::Credentials(creds) => message_views(messages)[i]
                == ReceivedMessageView::Credentials(creds),
            ReceivedMessage::Other => message_views(messages)[i] is Other,
        },
{
}

} // verus!
